use attacca::bridge_setup::{desktop_mix_settings, device_entry_from_settings, device_mode_change, ModeChange, SetupError};
use attacca::json::{get, get_or_null, get_str, put, Json};

fn s(t: &str) -> Json {
    Json::Str(t.to_string())
}

fn obj(v: Vec<(&str, Json)>) -> Json {
    Json::Object(v.into_iter().map(|(k, j)| (k.to_string(), j)).collect())
}

fn hw_settings() -> Json {
    obj(vec![
        ("output", obj(vec![("type", s("alsa")), ("device", s("hw:1,0")), ("name", s("USB DAC")), ("volume", obj(vec![("type", s("hardware"))]))])),
        ("unique_id", s("u-123")),
        ("external_config", obj(vec![("rate", Json::Number("48000".to_string()))])),
        ("other", Json::Bool(true)),
    ])
}

#[test]
fn member_lookup_like_serde_index() {
    let v = hw_settings();
    assert_eq!(get_str(&get_or_null(&v, "output"), "device").as_deref(), Some("hw:1,0"));
    assert_eq!(get_or_null(&v, "missing"), Json::Null);
    assert_eq!(get_or_null(&s("x"), "output"), Json::Null);
    assert!(get(&v, "unique_id").is_some());
    assert_eq!(get_str(&v, "other"), None);
}

#[test]
fn put_replaces_or_appends() {
    let v = obj(vec![("a", Json::Null), ("b", Json::Bool(false))]);
    let v = put(v, "a", s("x"));
    let v = put(v, "c", s("y"));
    assert_eq!(v, obj(vec![("a", s("x")), ("b", Json::Bool(false)), ("c", s("y"))]));
    assert_eq!(put(Json::Null, "k", Json::Bool(true)), obj(vec![("k", Json::Bool(true))]));
}

#[test]
fn desktop_mix_settings_shape() {
    let d = desktop_mix_settings(&hw_settings());
    let expected = obj(vec![
        ("output", obj(vec![("type", s("alsa")), ("device", s("plug:pipewire")), ("name", s("USB DAC"))])),
        ("unique_id", s("u-123")),
        ("external_config", obj(vec![("rate", Json::Number("48000".to_string()))])),
    ]);
    assert_eq!(d, expected);
    let bare = desktop_mix_settings(&obj(vec![]));
    assert_eq!(
        bare,
        obj(vec![
            ("output", obj(vec![("type", s("alsa")), ("device", s("plug:pipewire")), ("name", Json::Null)])),
            ("unique_id", Json::Null),
            ("external_config", Json::Null),
        ])
    );
}

#[test]
fn switching_to_desktop_mix_and_back_restores_settings() {
    let current = hw_settings();
    let (originals, settings) = match device_mode_change("ab12", "pipewire", &current, None) {
        Ok(ModeChange::Write { originals: Some(o), settings }) => (o, settings),
        _ => panic!("expected a switch"),
    };
    assert_eq!(get(&originals, "ab12"), Some(&hw_settings()));
    match device_mode_change("ab12", "pipewire", &settings, Some(originals.copy())) {
        Ok(ModeChange::AlreadyDesktopMix) => {}
        _ => panic!("second switch must be a no-op"),
    }
    match device_mode_change("ab12", "exclusive", &settings, Some(originals)) {
        Ok(ModeChange::Write { originals: None, settings }) => assert_eq!(settings, hw_settings()),
        _ => panic!("expected restore"),
    }
}

#[test]
fn exclusive_without_original_fails() {
    assert!(matches!(device_mode_change("ab", "exclusive", &hw_settings(), None), Err(SetupError::NoSavedSettings)));
    assert!(matches!(device_mode_change("ab", "exclusive", &hw_settings(), Some(s("garbage"))), Err(SetupError::NoSavedSettings)));
    assert!(matches!(device_mode_change("ab", "stereo", &hw_settings(), None), Err(SetupError::UnknownMode(ref m)) if m == "stereo"));
}

#[test]
fn non_object_originals_start_empty() {
    match device_mode_change("cd", "pipewire", &hw_settings(), Some(Json::Array(vec![]))) {
        Ok(ModeChange::Write { originals: Some(o), .. }) => assert_eq!(o, obj(vec![("cd", hw_settings())])),
        _ => panic!("expected a switch"),
    }
}

#[test]
fn device_entries_from_settings() {
    let e = device_entry_from_settings("ab".to_string(), &hw_settings());
    assert_eq!(e.name, "USB DAC");
    assert_eq!(e.device, "hw:1,0");
    assert_eq!(e.mode, "exclusive");
    let e = device_entry_from_settings("cd".to_string(), &obj(vec![("output", obj(vec![("device", s("plug:pipewire"))]))]));
    assert_eq!(e.name, "plug:pipewire");
    assert_eq!(e.mode, "pipewire");
    let e = device_entry_from_settings("ef".to_string(), &Json::Null);
    assert_eq!(e.device, "");
    assert_eq!(e.name, "");
}
