use peoplemodeler::theme::{from_file_text, Theme};

#[test]
fn as_str_dark() {
    assert_eq!(Theme::Dark.as_str(), "dark");
}

#[test]
fn as_str_light() {
    assert_eq!(Theme::Light.as_str(), "light");
}

#[test]
fn label_dark() {
    assert_eq!(Theme::Dark.label(), "☀️");
}

#[test]
fn label_light() {
    assert_eq!(Theme::Light.label(), "🌙");
}

#[test]
fn toggle_dark_to_light() {
    assert_eq!(Theme::Dark.toggle(), Theme::Light);
}

#[test]
fn toggle_light_to_dark() {
    assert_eq!(Theme::Light.toggle(), Theme::Dark);
}

#[test]
fn persist_as_str_roundtrip() {
    assert_eq!(Theme::Dark.as_str(), "dark");
    assert_eq!(Theme::Light.as_str(), "light");
}

#[test]
fn detect_reads_light_from_file() {
    assert_eq!(from_file_text(Some("light\n")), Theme::Light);
}

#[test]
fn detect_defaults_to_dark_when_file_missing() {
    assert_eq!(from_file_text(None), Theme::Dark);
}

#[test]
fn persist_writes_file() {
    assert_eq!(from_file_text(Some(Theme::Light.as_str())), Theme::Light);
    assert_eq!(from_file_text(Some(Theme::Dark.as_str())), Theme::Dark);
}

#[test]
fn detect_wasm_reads_light_from_storage() {
    assert_eq!(Theme::from_stored(Some("light"), false), Theme::Light);
}

#[test]
fn detect_wasm_reads_dark_from_storage() {
    assert_eq!(Theme::from_stored(Some("dark"), true), Theme::Dark);
}

#[test]
fn detect_wasm_defaults_to_dark_on_unknown_value() {
    assert_eq!(Theme::from_stored(Some("not-a-theme"), true), Theme::Dark);
}

#[test]
fn detect_wasm_defaults_to_system_scheme() {
    assert_eq!(Theme::from_stored(None, true), Theme::Light);
    assert_eq!(Theme::from_stored(None, false), Theme::Dark);
}

#[test]
fn label_wasm_matches_theme() {
    assert_eq!(Theme::Dark.label(), "☀️");
    assert_eq!(Theme::Light.label(), "🌙");
}

#[test]
fn toggle_twice_is_identity() {
    for t in [Theme::Dark, Theme::Light] {
        assert_eq!(t.toggle().toggle(), t);
        assert_ne!(t.toggle(), t);
    }
}

#[test]
fn stored_name_detected_back_whatever_the_preference() {
    for t in [Theme::Dark, Theme::Light] {
        for pref in [false, true] {
            assert_eq!(Theme::from_stored(Some(t.as_str()), pref), t);
        }
    }
}

#[test]
fn file_text_with_surrounding_space_is_trimmed() {
    assert_eq!(from_file_text(Some("  light \t\n")), Theme::Light);
    assert_eq!(from_file_text(Some("Light")), Theme::Dark);
    assert_eq!(from_file_text(Some("")), Theme::Dark);
}
