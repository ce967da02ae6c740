use anime_launcher::text::ascii_lowercase;
use anime_launcher::text::clone_all;
use anime_launcher::text::join;
use anime_launcher::text::decimal_string;

#[test]
fn decimal_of_small_and_large_numbers() {
    assert_eq!(decimal_string(0), "0");
    assert_eq!(decimal_string(7), "7");
    assert_eq!(decimal_string(9), "9");
    assert_eq!(decimal_string(10), "10");
    assert_eq!(decimal_string(42), "42");
    assert_eq!(decimal_string(100), "100");
    assert_eq!(decimal_string(1234567890), "1234567890");
    assert_eq!(decimal_string(u64::MAX), "18446744073709551615");
}

#[test]
fn decimal_agrees_with_the_standard_formatting() {
    for n in (0..5000u64).chain([u32::MAX as u64, u32::MAX as u64 + 1, u64::MAX - 1]) {
        assert_eq!(decimal_string(n), format!("{}", n));
        assert_eq!(decimal_string(n).parse::<u64>(), Ok(n));
    }
}

#[test]
fn lowercase_touches_ascii_capitals_only() {
    assert_eq!(ascii_lowercase(""), "");
    assert_eq!(ascii_lowercase("US"), "us");
    assert_eq!(ascii_lowercase("ABCDEFGHIJKLMNOPQRSTUVWXYZ"), "abcdefghijklmnopqrstuvwxyz");
    assert_eq!(ascii_lowercase("Hello, World! 419 @[`{"), "hello, world! 419 @[`{");
    assert_eq!(ascii_lowercase("ÄÖÜ Straße ЖЭ"), "ÄÖÜ straße ЖЭ");
}

#[test]
fn join_keeps_the_order() {
    assert_eq!(join("", ""), "");
    assert_eq!(join("/home", "/game"), "/home/game");
    assert_eq!(join("a", ""), "a");
    assert_eq!(join("", "b"), "b");
}

#[test]
fn clone_all_copies_in_order() {
    let strings = vec!["b".to_string(), "a".to_string(), "b".to_string()];
    assert_eq!(clone_all(&strings), strings);
    assert_eq!(clone_all(&vec![]), Vec::<String>::new());
}
