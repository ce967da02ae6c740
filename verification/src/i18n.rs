//! The language of the launcher's own texts.

use crate::text::ascii_lower;
use crate::text::ascii_lowercase;
use crate::text::join;
use vstd::prelude::*;
use vstd::string::StringExecFns;

verus! {

/// A language identifier, as far as the launcher reads it.
#[derive(Debug)]
pub struct LangId {
    /// The whole identifier in its canonical writing, such as `en-US`.
    pub tag: String,
    /// Its language subtag, such as `en`.
    pub language: String,
    /// Its region subtag, if it has one, such as `US`.
    pub region: Option<String>,
}

/// A language identifier, with texts in place of strings.
pub struct LangIdView {
    pub tag: Seq<char>,
    pub language: Seq<char>,
    pub region: Option<Seq<char>>,
}

impl View for LangId {
    type V = LangIdView;

    open spec fn view(&self) -> LangIdView {
        LangIdView {
            tag: self.tag@,
            language: self.language@,
            region: match self.region {
                Some(region) => Some(region@),
                None => None,
            },
        }
    }
}

impl Clone for LangId {
    fn clone(&self) -> (copy: LangId)
        ensures
            copy == *self,
    {
        LangId {
            tag: self.tag.clone(),
            language: self.language.clone(),
            region: match &self.region {
                Some(region) => Some(region.clone()),
                None => None,
            },
        }
    }
}

/// What parsing `text` as a Unicode language identifier gives: the
/// identifier's canonical writing, language and region, or nothing if `text`
/// is not well formed.
pub uninterp spec fn langid_parse(text: Seq<char>) -> Option<LangIdView>;

/// The view of an optional identifier.
pub open spec fn parsed_view(parsed: Option<LangId>) -> Option<LangIdView> {
    match parsed {
        Some(lang) => Some(lang@),
        None => None,
    }
}

/// Parses `text` with `unic_langid::LanguageIdentifier::from_str`. The
/// result is a function of `text` alone, and the contract gives it its name:
/// for a well-formed `text`, the identifier's canonical writing (its
/// `Display`), its `language` and its `region`; else nothing.
#[verifier::external_body]
fn parse_language_identifier(text: &str) -> (parsed: Option<LangId>)
    ensures
        parsed_view(parsed) == langid_parse(text@),
{
    match text.parse::<unic_langid::LanguageIdentifier>() {
        Ok(id) => Some(
            LangId {
                tag: id.to_string(),
                language: id.language.as_str().to_string(),
                region: match id.region {
                    Some(region) => Some(region.as_str().to_string()),
                    None => None,
                },
            },
        ),
        Err(_) => None,
    }
}

/// Whether the launcher has texts in the language `language`.
pub open spec fn is_supported(language: Seq<char>) -> bool {
    language == "en"@ || language == "ru"@ || language == "de"@
}

/// The locale the system asks for: the first that is set of `LC_ALL`,
/// `LC_MESSAGES` and `LANG`, and `en_US.UTF-8` if none is.
pub open spec fn system_locale(
    lc_all: Option<String>,
    lc_messages: Option<String>,
    lang: Option<String>,
) -> Seq<char> {
    match lc_all {
        Some(locale) => locale@,
        None => match lc_messages {
            Some(locale) => locale@,
            None => match lang {
                Some(locale) => locale@,
                None => "en_US.UTF-8"@,
            },
        },
    }
}

/// The identifier used when the system's locale is no language identifier.
pub open spec fn fallback_lang() -> LangIdView {
    LangIdView { tag: "en-US"@, language: "en"@, region: Some("US"@) }
}

/// The language a parsed locale stands for: itself, or the fallback when the
/// locale did not parse.
pub open spec fn lang_or_fallback(parsed: Option<LangIdView>) -> LangIdView {
    match parsed {
        Some(lang) => lang,
        None => fallback_lang(),
    }
}

/// How an identifier is written in the launcher's settings: the language,
/// and after a hyphen the region in small letters, if there is a region.
pub open spec fn formatted_lang(lang: LangIdView) -> Seq<char> {
    match lang.region {
        Some(region) => lang.language + "-"@ + ascii_lower(region),
        None => lang.language,
    }
}

/// The text of the refusal of a language the launcher has no texts in.
pub open spec fn unsupported_message(tag: Seq<char>) -> Seq<char> {
    "Language '"@ + tag + "' is not supported"@
}

/// The fallback is a language the launcher has texts in, so the language the
/// system asks for can always be fallen back from.
pub proof fn lemma_fallback_is_supported()
    ensures
        is_supported(fallback_lang().language),
{
}

/// Whether the launcher has texts in the language of `lang`.
pub fn supports(lang: &LangId) -> (supported: bool)
    ensures
        supported == is_supported(lang.language@),
{
    lang.language == String::from_str("en") || lang.language == String::from_str("ru")
        || lang.language == String::from_str("de")
}

/// Makes `lang` the launcher's language, if the launcher has texts in it;
/// else the language stays as it was and the refusal names `lang`.
pub fn set_lang(current: &mut LangId, lang: LangId) -> (outcome: Result<(), String>)
    ensures
        match outcome {
            Ok(_) => is_supported(lang.language@) && *final(current) == lang,
            Err(message) => !is_supported(lang.language@) && *final(current) == *old(current)
                && message@ == unsupported_message(lang.tag@),
        },
{
    if supports(&lang) {
        *current = lang;
        Ok(())
    } else {
        let mut message = join("Language '", lang.tag.as_str());
        message.append("' is not supported");
        Err(message)
    }
}

/// The language a parsed locale stands for.
pub fn or_fallback(parsed: Option<LangId>) -> (lang: LangId)
    ensures
        lang@ == lang_or_fallback(parsed_view(parsed)),
{
    match parsed {
        Some(lang) => lang,
        None => LangId {
            tag: String::from_str("en-US"),
            language: String::from_str("en"),
            region: Some(String::from_str("US")),
        },
    }
}

/// The language the system asks for, read off the values of `LC_ALL`,
/// `LC_MESSAGES` and `LANG`, each of which may be unset.
pub fn get_default_lang(
    lc_all: Option<String>,
    lc_messages: Option<String>,
    lang: Option<String>,
) -> (default_lang: LangId)
    ensures
        default_lang@ == lang_or_fallback(
            langid_parse(system_locale(lc_all, lc_messages, lang)),
        ),
{
    let locale = match lc_all {
        Some(locale) => locale,
        None => match lc_messages {
            Some(locale) => locale,
            None => match lang {
                Some(locale) => locale,
                None => String::from_str("en_US.UTF-8"),
            },
        },
    };
    or_fallback(parse_language_identifier(locale.as_str()))
}

/// Writes an identifier the way the launcher's settings hold it.
pub fn format_lang(lang: &LangId) -> (formatted: String)
    ensures
        formatted@ == formatted_lang(lang@),
{
    let mut formatted = lang.language.clone();
    match &lang.region {
        Some(region) => {
            formatted.append("-");
            let lowered = ascii_lowercase(region.as_str());
            formatted.append(lowered.as_str());
        },
        None => {},
    }
    formatted
}

} // verus!
