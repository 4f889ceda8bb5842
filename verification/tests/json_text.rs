use attacca::bridge_setup::{
    device_list, device_list_text, device_mode_change_text, device_settings_file, ModeChangeText,
    SetupError,
};
use attacca::browse::{browse_items_text, ItemInfo};
use attacca::json::{json_text, parse_json, Json};

#[test]
fn parse_and_write_json() {
    let j = parse_json(r#"{"b": [1, 2.5, "x"], "a": null, "c": true}"#).unwrap();
    assert_eq!(
        j,
        Json::Object(vec![
            ("a".to_string(), Json::Null),
            ("b".to_string(), Json::Array(vec![
                Json::Number("1".to_string()),
                Json::Number("2.5".to_string()),
                Json::Str("x".to_string()),
            ])),
            ("c".to_string(), Json::Bool(true)),
        ])
    );
    assert_eq!(json_text(&j), r#"{"a":null,"b":[1,2.5,"x"],"c":true}"#);
    let e = parse_json("{oops").unwrap_err();
    assert!(e.contains("line 1"), "{e}");
    let q = Json::Object(vec![("z".to_string(), Json::Str("say \"hi\"".to_string())), ("y".to_string(), Json::Null)]);
    assert_eq!(json_text(&q), r#"{"y":null,"z":"say \"hi\""}"#);
}

const HW: &str = r#"{"output":{"type":"alsa","device":"hw:1,0","name":"USB DAC","volume":{"type":"hardware"}},"unique_id":"u-1","external_config":{"rate":48000}}"#;

#[test]
fn device_mode_change_from_texts() {
    assert!(matches!(device_mode_change_text("xyz", "pipewire", HW, None), Err(SetupError::BadDeviceId)));
    assert!(matches!(device_mode_change_text("", "pipewire", HW, None), Err(SetupError::BadDeviceId)));
    assert!(matches!(device_mode_change_text("ab12", "pipewire", "{", None), Err(SetupError::BadSettings(_))));
    match device_mode_change_text("ab12", "pipewire", HW, Some("not json".to_string())) {
        Ok(ModeChangeText::Write { originals: Some(o), settings }) => {
            assert_eq!(o, format!(r#"{{"ab12":{}}}"#, json_text(&parse_json(HW).unwrap())));
            assert_eq!(
                settings,
                r#"{"external_config":{"rate":48000},"output":{"device":"plug:pipewire","name":"USB DAC","type":"alsa"},"unique_id":"u-1"}"#
            );
            match device_mode_change_text("ab12", "exclusive", &settings, Some(o)) {
                Ok(ModeChangeText::Write { originals: None, settings: back }) => {
                    assert_eq!(back, json_text(&parse_json(HW).unwrap()));
                }
                _ => panic!("expected a restore"),
            }
            assert!(matches!(
                device_mode_change_text("ab12", "pipewire", &settings, None),
                Ok(ModeChangeText::AlreadyDesktopMix)
            ));
        }
        _ => panic!("expected a write"),
    }
    assert!(matches!(device_mode_change_text("ab12", "exclusive", HW, None), Err(SetupError::NoSavedSettings)));
    assert!(matches!(device_mode_change_text("ab12", "loud", HW, None), Err(SetupError::UnknownMode(m)) if m == "loud"));
    assert_eq!(device_settings_file("Ab12").ok().as_deref(), Some("device_Ab12.json"));
    assert!(matches!(device_settings_file("../x"), Err(SetupError::BadDeviceId)));
}

#[test]
fn device_list_from_files() {
    let files = vec![
        ("device_02.json".to_string(), r#"{"output":{"device":"plug:pipewire","name":"Zed"}}"#.to_string()),
        ("notes.txt".to_string(), "{}".to_string()),
        ("device_03.json".to_string(), "broken".to_string()),
        ("device_01.json".to_string(), r#"{"output":{"device":"hw:0"}}"#.to_string()),
    ];
    let list = device_list(&files);
    assert_eq!(list.len(), 2);
    assert_eq!(list[0].id, "02");
    assert_eq!(list[0].mode, "pipewire");
    assert_eq!(list[1].id, "01");
    assert_eq!(list[1].name, "hw:0");
    assert_eq!(
        device_list_text(&files),
        r#"[{"device":"plug:pipewire","id":"02","mode":"pipewire","name":"Zed"},{"device":"hw:0","id":"01","mode":"exclusive","name":"hw:0"}]"#
    );
    assert_eq!(device_list_text(&vec![]), "[]");
}

#[test]
fn browse_items_as_json() {
    let items = vec![
        ItemInfo {
            title: "Kind of Blue".to_string(),
            subtitle: Some("Miles Davis".to_string()),
            image_key: None,
            item_key: Some("k1".to_string()),
            hint: Some("list".to_string()),
        },
    ];
    assert_eq!(
        browse_items_text(&items),
        r#"[{"hint":"list","imageKey":"","itemKey":"k1","subtitle":"Miles Davis","title":"Kind of Blue"}]"#
    );
}
