use cat_recycle_bin::settings::{
    default_scale, default_true, load, set_scale, toggle_confirm, toggle_sound, valid_scale, Settings,
    SettingsError,
};

fn field(v: &serde_json::Value, name: &str) -> Option<serde_json::Value> {
    v.get(name).cloned()
}

#[test]
fn preferences_have_safe_defaults() {
    let parsed: serde_json::Value = serde_json::from_str("{}").unwrap();
    let settings = Settings::from_fields(
        field(&parsed, "confirmDelete").and_then(|v| v.as_bool()),
        field(&parsed, "soundEnabled").and_then(|v| v.as_bool()),
        field(&parsed, "scalePercent").and_then(|v| v.as_u64()).map(|v| v as u16),
    );
    assert!(settings.confirm_delete);
    assert!(settings.sound_enabled);
    assert_eq!(settings.scale_percent, 200);
    let mut written = serde_json::Map::new();
    written.insert("confirmDelete".to_string(), serde_json::Value::Bool(settings.confirm_delete));
    written.insert("soundEnabled".to_string(), serde_json::Value::Bool(settings.sound_enabled));
    written.insert("scalePercent".to_string(), serde_json::Value::from(settings.scale_percent));
    let mut expected = serde_json::Map::new();
    expected.insert("confirmDelete".to_string(), serde_json::Value::Bool(true));
    expected.insert("soundEnabled".to_string(), serde_json::Value::Bool(true));
    expected.insert("scalePercent".to_string(), serde_json::Value::from(200));
    assert_eq!(serde_json::Value::Object(written), serde_json::Value::Object(expected));
}

#[test]
fn only_offered_sizes_are_valid() {
    for v in [100u16, 150, 200, 300] {
        assert!(valid_scale(v));
    }
    for v in [0u16, 99, 101, 120, 250, 301, 400, u16::MAX] {
        assert!(!valid_scale(v));
    }
}

#[test]
fn default_helpers() {
    assert!(default_true());
    assert_eq!(default_scale(), 200);
    let d = Settings::default();
    assert_eq!(d, Settings { confirm_delete: true, sound_enabled: true, scale_percent: 200 });
}

#[test]
fn stored_fields_override_defaults() {
    let s = Settings::from_fields(Some(false), None, Some(150));
    assert_eq!(s, Settings { confirm_delete: false, sound_enabled: true, scale_percent: 150 });
}

#[test]
fn load_falls_back_to_defaults() {
    assert_eq!(load(None), Settings::default());
    let odd = Settings { confirm_delete: false, sound_enabled: false, scale_percent: 120 };
    assert_eq!(load(Some(odd)), Settings { confirm_delete: false, sound_enabled: false, scale_percent: 200 });
    let fine = Settings { confirm_delete: false, sound_enabled: true, scale_percent: 300 };
    assert_eq!(load(Some(fine)), fine);
}

#[test]
fn toggles_flip_one_switch_and_undo_themselves() {
    let s = Settings { confirm_delete: true, sound_enabled: false, scale_percent: 150 };
    let c = toggle_confirm(&s);
    assert_eq!(c, Settings { confirm_delete: false, sound_enabled: false, scale_percent: 150 });
    assert_eq!(toggle_confirm(&c), s);
    let m = toggle_sound(&s);
    assert_eq!(m, Settings { confirm_delete: true, sound_enabled: true, scale_percent: 150 });
    assert_eq!(toggle_sound(&m), s);
}

#[test]
fn set_scale_accepts_only_offered_sizes() {
    let s = Settings::default();
    assert_eq!(set_scale(&s, 300), Ok(Settings { confirm_delete: true, sound_enabled: true, scale_percent: 300 }));
    assert_eq!(set_scale(&s, 250), Err(SettingsError::UnsupportedScale));
}
