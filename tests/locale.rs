use epic_data::locale::{LocaleBalancingDataBase, LocaleDataContainer, SerializedLocalizedTexts};

fn text(name: Option<&str>, value: Option<&str>) -> LocaleBalancingDataBase {
    LocaleBalancingDataBase {
        name_id: name.map(|s| s.to_string()),
        translated_text: value.map(|s| s.to_string()),
    }
}

fn container() -> LocaleDataContainer {
    LocaleDataContainer::from_locale(SerializedLocalizedTexts {
        language_id: Some("en".to_string()),
        texts: vec![
            text(Some("b_key"), Some("B")),
            text(None, Some("no name")),
            text(Some("a_key"), Some("A")),
            text(Some("b_key"), Some("B2")),
            text(Some("c_key"), None),
        ],
    })
}

fn ids(c: LocaleDataContainer) -> Vec<Option<String>> {
    c.get_locale_text_ids()
}

#[test]
fn default_locale_is_empty() {
    let c = LocaleDataContainer::default();
    assert!(c.get_locale().texts.is_empty());
    assert_eq!(c.get_language_id(), None);
}

#[test]
fn language_and_ids_in_order() {
    assert_eq!(container().get_language_id(), Some("en".to_string()));
    assert_eq!(
        ids(container()),
        vec![Some("b_key".to_string()), None, Some("a_key".to_string()), Some("b_key".to_string()), Some("c_key".to_string())]
    );
}

#[test]
fn translated_text_of_first_match() {
    assert_eq!(container().get_translated_text("b_key"), Some("B".to_string()));
    assert_eq!(container().get_translated_text("a_key"), Some("A".to_string()));
    assert_eq!(container().get_translated_text("c_key"), None);
    assert_eq!(container().get_translated_text("zzz"), None);
}

#[test]
fn set_translated_text_edits_first_match_only() {
    let mut c = container();
    c.set_translated_text("b_key", "new");
    assert_eq!(c.get_locale().texts[0].translated_text.as_deref(), Some("new"));
    assert_eq!(c.get_locale().texts[3].translated_text.as_deref(), Some("B2"));
    c.set_translated_text("missing", "x");
    assert_eq!(c.get_locale().texts.len(), 5);
}

#[test]
fn sort_is_stable_by_name() {
    let mut c = container();
    c.sort();
    let got: Vec<(Option<String>, Option<String>)> = c
        .get_locale()
        .texts
        .iter()
        .map(|t| (t.name_id.clone(), t.translated_text.clone()))
        .collect();
    let s = |x: &str| Some(x.to_string());
    assert_eq!(
        got,
        vec![
            (None, s("no name")),
            (s("a_key"), s("A")),
            (s("b_key"), s("B")),
            (s("b_key"), s("B2")),
            (s("c_key"), None),
        ]
    );
}

#[test]
fn sort_orders_by_bytes() {
    let mut c = LocaleDataContainer::default();
    c.set_locale(SerializedLocalizedTexts {
        language_id: None,
        texts: vec![text(Some("ab"), None), text(Some("a"), None), text(Some("B"), None), text(Some("é"), None)],
    });
    c.sort();
    let names: Vec<String> = c.get_locale().texts.iter().map(|t| t.name_id.clone().unwrap()).collect();
    assert_eq!(names, vec!["B", "a", "ab", "é"]);
}

#[test]
fn locale_mut_edits_in_place() {
    let mut c = container();
    c.get_locale_mut().language_id = Some("de".to_string());
    assert_eq!(c.get_language_id(), Some("de".to_string()));
}
