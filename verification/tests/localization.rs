use bevy_i18n::{Language, LanguageSet, Locale, Localization};

#[derive(Clone, Copy)]
enum TestLanguages {
    English,
    French,
}

impl LanguageSet for TestLanguages {
    fn language(&self) -> Language {
        match self {
            TestLanguages::English => Language::new("en").unwrap(),
            TestLanguages::French => Language::new("fr").unwrap(),
        }
    }

    fn default_value() -> Self {
        TestLanguages::English
    }
}

/// A small text localizer: a list of key/value pairs per language,
/// rebuilt (here: swapped) when the locale changes.
struct TextLocalization {
    language: Language,
    entries: Vec<(String, String)>,
}

#[derive(Debug)]
enum TextLocalizationResult {
    Found(String),
    Missing(String, String),
}

impl From<TextLocalizationResult> for String {
    fn from(value: TextLocalizationResult) -> String {
        match value {
            TextLocalizationResult::Found(text) => text,
            TextLocalizationResult::Missing(lang, key) => format!("{lang}:{key}"),
        }
    }
}

impl Localization<String, TestLanguages> for TextLocalization {
    type Key = String;
    type Argv = Vec<String>;
    type Result = TextLocalizationResult;

    fn set_locale(&mut self, locale: &Locale<TestLanguages>) {
        let language = match locale.main().clone() {
            Some(main) => main,
            None => locale.fallback().clone(),
        };
        self.entries = if language.get_name() == "fr" {
            vec![("hello".to_string(), "bonjour".to_string())]
        } else {
            vec![("hello".to_string(), "hello".to_string())]
        };
        self.language = language;
    }

    fn localize(&self, key: String, _args: Vec<String>) -> TextLocalizationResult {
        for (entry_key, value) in &self.entries {
            if *entry_key == key {
                return TextLocalizationResult::Found(value.clone());
            }
        }
        TextLocalizationResult::Missing(self.language.get_name(), key)
    }
}

fn localizer_for(main: Option<TestLanguages>) -> TextLocalization {
    let mut locale = Locale::<TestLanguages>::default();
    if let Some(main) = main {
        locale.set_main(main);
    }
    let mut localizer = TextLocalization {
        language: Language::new("en").unwrap(),
        entries: Vec::new(),
    };
    localizer.set_locale(&locale);
    localizer
}

#[test]
fn localize_finds_a_present_key() {
    let localizer = localizer_for(Some(TestLanguages::French));
    let text: String = localizer.localize("hello".to_string(), vec![]).into();
    assert_eq!(text, "bonjour");
}

#[test]
fn localize_with_absent_key_names_language_and_key() {
    let localizer = localizer_for(Some(TestLanguages::French));
    let text: String = localizer.localize("farewell".to_string(), vec![]).into();
    assert!(text.contains("fr"));
    assert!(text.contains("farewell"));
}

#[test]
fn set_locale_rebuilds_the_lookup_table() {
    let mut locale = Locale::<TestLanguages>::default();
    let mut localizer = localizer_for(None);
    let text: String = localizer.localize("hello".to_string(), vec![]).into();
    assert_eq!(text, "hello");

    locale.set_main(TestLanguages::French);
    localizer.set_locale(&locale);
    let text: String = localizer.localize("hello".to_string(), vec![]).into();
    assert_eq!(text, "bonjour");
}
