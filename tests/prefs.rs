use epic_data::prefs::{IntPrefXml, PlayerPrefsData, PlayerPrefsXml, PrefsError, StringPrefXml};

fn pref(name: &str, value: &str) -> StringPrefXml {
    StringPrefXml { name: name.to_string(), value: value.to_string() }
}

fn doc(strings: Vec<StringPrefXml>) -> PlayerPrefsXml {
    PlayerPrefsXml {
        strings,
        ints: vec![IntPrefXml { name: "volume".to_string(), value: "3".to_string() }],
    }
}

#[test]
fn player_data_is_read_from_player_entry() {
    // base64 "+/8=" percent-encoded
    let xml = doc(vec![pref("other", "x"), pref("player", "%2B%2F8%3D"), pref("player", "AAAA")]);
    let p = PlayerPrefsData::from_prefs(&xml).unwrap();
    assert_eq!(p.get_data(), &vec![0xfb, 0xff]);
}

#[test]
fn unescaped_base64_is_read_too() {
    let xml = doc(vec![pref("player", "AQID")]);
    assert_eq!(PlayerPrefsData::from_prefs(&xml).unwrap().get_data(), &vec![1, 2, 3]);
}

#[test]
fn missing_player_entry_is_an_error() {
    let xml = doc(vec![pref("Player", "AQID")]);
    assert_eq!(PlayerPrefsData::from_prefs(&xml).err(), Some(PrefsError::NoPlayerKey));
}

#[test]
fn invalid_base64_is_an_error() {
    let xml = doc(vec![pref("player", "%%%not base64")]);
    assert_eq!(PlayerPrefsData::from_prefs(&xml).err(), Some(PrefsError::InvalidBase64));
}

#[test]
fn player_data_is_written_escaped() {
    let mut p = PlayerPrefsData::default();
    p.set_data(vec![0xfb, 0xff]);
    let mut xml = doc(vec![pref("a", "1"), pref("player", "old"), pref("player", "keep")]);
    p.to_prefs(&mut xml).unwrap();
    assert_eq!(xml.strings[1].value, "%2B%2F8%3D");
    assert_eq!(xml.strings[1].name, "player");
    assert_eq!(xml.strings[2].value, "keep");
    assert_eq!(xml.strings[0].value, "1");
    assert_eq!(xml.ints[0].value, "3");
    let back = PlayerPrefsData::from_prefs(&xml).unwrap();
    assert_eq!(back.get_data(), &vec![0xfb, 0xff]);
}

#[test]
fn writing_without_player_entry_changes_nothing() {
    let p = PlayerPrefsData::new(&[1, 2, 3]);
    let mut xml = doc(vec![pref("a", "1")]);
    assert_eq!(p.to_prefs(&mut xml), Err(PrefsError::NoPlayerKey));
    assert_eq!(xml.strings.len(), 1);
    assert_eq!(xml.strings[0].value, "1");
}

#[test]
fn player_data_mut_edits_in_place() {
    let mut p = PlayerPrefsData::new(&[1]);
    p.get_data_mut().push(2);
    assert_eq!(p.get_data(), &vec![1, 2]);
}
