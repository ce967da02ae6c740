use anime_launcher::i18n::format_lang;
use anime_launcher::i18n::get_default_lang;
use anime_launcher::i18n::or_fallback;
use anime_launcher::i18n::set_lang;
use anime_launcher::i18n::supports;
use anime_launcher::i18n::LangId;

fn lang(tag: &str, language: &str, region: Option<&str>) -> LangId {
    LangId {
        tag: tag.to_string(),
        language: language.to_string(),
        region: region.map(|region| region.to_string()),
    }
}

fn same(left: &LangId, right: &LangId) -> bool {
    left.tag == right.tag && left.language == right.language && left.region == right.region
}

#[test]
fn supported_languages() {
    assert!(supports(&lang("en", "en", None)));
    assert!(supports(&lang("ru-RU", "ru", Some("RU"))));
    assert!(supports(&lang("de-AT", "de", Some("AT"))));
    assert!(!supports(&lang("fr", "fr", None)));
    assert!(!supports(&lang("EN", "EN", None)));
    assert!(!supports(&lang("und", "und", None)));
}

#[test]
fn set_lang_takes_a_supported_language() {
    let mut current = lang("en", "en", None);
    assert_eq!(set_lang(&mut current, lang("de-DE", "de", Some("DE"))), Ok(()));
    assert!(same(&current, &lang("de-DE", "de", Some("DE"))));
}

#[test]
fn set_lang_refuses_an_unsupported_language() {
    let mut current = lang("ru", "ru", None);
    assert_eq!(
        set_lang(&mut current, lang("fr-CA", "fr", Some("CA"))),
        Err("Language 'fr-CA' is not supported".to_string())
    );
    assert!(same(&current, &lang("ru", "ru", None)));
}

#[test]
fn default_lang_prefers_lc_all_then_lc_messages_then_lang() {
    let all = get_default_lang(Some("ru_RU".to_string()), Some("de_DE".to_string()), Some("en_GB".to_string()));
    assert!(same(&all, &lang("ru-RU", "ru", Some("RU"))));
    let messages = get_default_lang(None, Some("de_DE".to_string()), Some("en_GB".to_string()));
    assert!(same(&messages, &lang("de-DE", "de", Some("DE"))));
    let only_lang = get_default_lang(None, None, Some("en_GB".to_string()));
    assert!(same(&only_lang, &lang("en-GB", "en", Some("GB"))));
}

#[test]
fn default_lang_parses_and_normalises() {
    let parsed = get_default_lang(Some("DE-at".to_string()), None, None);
    assert!(same(&parsed, &lang("de-AT", "de", Some("AT"))));
    let bare = get_default_lang(Some("fr".to_string()), None, None);
    assert!(same(&bare, &lang("fr", "fr", None)));
    let script = get_default_lang(Some("zh_hans_cn".to_string()), None, None);
    assert!(same(&script, &lang("zh-Hans-CN", "zh", Some("CN"))));
}

#[test]
fn default_lang_falls_back_when_the_locale_is_no_identifier() {
    let fallback = lang("en-US", "en", Some("US"));
    assert!(same(&get_default_lang(None, None, None), &fallback));
    assert!(same(&get_default_lang(Some("en_US.UTF-8".to_string()), None, None), &fallback));
    assert!(same(&get_default_lang(Some("C".to_string()), Some("ru_RU".to_string()), None), &fallback));
    assert!(same(&get_default_lang(Some("".to_string()), None, None), &fallback));
    assert!(same(&or_fallback(None), &fallback));
    assert!(same(&or_fallback(Some(lang("ru", "ru", None))), &lang("ru", "ru", None)));
}

#[test]
fn format_lang_writes_the_region_in_small_letters() {
    assert_eq!(format_lang(&lang("en-US", "en", Some("US"))), "en-us");
    assert_eq!(format_lang(&lang("ru", "ru", None)), "ru");
    assert_eq!(format_lang(&lang("es-419", "es", Some("419"))), "es-419");
    assert_eq!(format_lang(&get_default_lang(Some("de_DE".to_string()), None, None)), "de-de");
}
