use fromsoftware::ds3::{DS3GameVersion, LANG_ID_EN, LANG_ID_JP};

#[test]
fn worldwide_release_is_recognised() {
    assert_eq!(
        DS3GameVersion::from_lang_version(LANG_ID_EN, "1.15.2.0"),
        Some(DS3GameVersion::Ww1152)
    );
}

#[test]
fn japanese_release_is_recognised() {
    assert_eq!(
        DS3GameVersion::from_lang_version(LANG_ID_JP, "1.15.2.1"),
        Some(DS3GameVersion::Jp11521)
    );
}

#[test]
fn language_and_version_must_match() {
    assert_eq!(DS3GameVersion::from_lang_version(LANG_ID_EN, "1.15.2.1"), None);
    assert_eq!(DS3GameVersion::from_lang_version(LANG_ID_JP, "1.15.2.0"), None);
    assert_eq!(DS3GameVersion::from_lang_version(LANG_ID_EN, "1.15.2"), None);
    assert_eq!(DS3GameVersion::from_lang_version(LANG_ID_EN, "1.15.2.00"), None);
    assert_eq!(DS3GameVersion::from_lang_version(LANG_ID_EN, ""), None);
    assert_eq!(DS3GameVersion::from_lang_version(0, "1.15.2.0"), None);
}
