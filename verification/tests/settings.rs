use pausetime::settings::{
    data_dir, should_start_minimized, start_minimized_setting, SETTINGS_DIR, SETTINGS_FILE,
    START_MINIMIZED_KEY,
};

#[test]
fn settings_constants() {
    assert_eq!(SETTINGS_DIR, "PauseTime");
    assert_eq!(SETTINGS_FILE, "settings.json");
    assert_eq!(START_MINIMIZED_KEY, "start_minimized_to_tray");
}

#[test]
fn data_dir_prefers_appdata() {
    assert_eq!(data_dir(Some("C:\\Users\\u\\AppData\\Roaming"), Some("/home/u")),
        Some("C:\\Users\\u\\AppData\\Roaming"));
    assert_eq!(data_dir(Some("a"), None), Some("a"));
}

#[test]
fn data_dir_falls_back_to_home() {
    assert_eq!(data_dir(None, Some("/home/u")), Some("/home/u"));
}

#[test]
fn data_dir_without_either_is_none() {
    assert_eq!(data_dir(None, None), None);
}

#[test]
fn absent_document_is_false() {
    assert!(!should_start_minimized(None));
}

#[test]
fn start_minimized_true_is_read() {
    assert!(should_start_minimized(Some("{\"start_minimized_to_tray\": true}")));
}

#[test]
fn start_minimized_false_is_read() {
    assert!(!should_start_minimized(Some("{\"start_minimized_to_tray\": false}")));
}

#[test]
fn field_among_others_is_read() {
    let text = "{\n  \"theme\": \"dark\",\n  \"start_minimized_to_tray\": true,\n  \"interval\": 20\n}";
    assert!(should_start_minimized(Some(text)));
}

#[test]
fn invalid_json_is_false() {
    assert!(!should_start_minimized(Some("")));
    assert!(!should_start_minimized(Some("{")));
    assert!(!should_start_minimized(Some("{start_minimized_to_tray: true}")));
    assert!(!should_start_minimized(Some("start_minimized_to_tray = true")));
}

#[test]
fn trailing_text_after_the_document_is_false() {
    assert!(!should_start_minimized(Some("{\"start_minimized_to_tray\": true} x")));
}

#[test]
fn missing_field_is_false() {
    assert!(!should_start_minimized(Some("{}")));
    assert!(!should_start_minimized(Some("{\"start_minimized\": true}")));
    assert!(!should_start_minimized(Some("{\"nested\": {\"start_minimized_to_tray\": true}}")));
}

#[test]
fn non_boolean_field_is_false() {
    assert!(!should_start_minimized(Some("{\"start_minimized_to_tray\": \"true\"}")));
    assert!(!should_start_minimized(Some("{\"start_minimized_to_tray\": 1}")));
    assert!(!should_start_minimized(Some("{\"start_minimized_to_tray\": null}")));
    assert!(!should_start_minimized(Some("{\"start_minimized_to_tray\": [true]}")));
    assert!(!should_start_minimized(Some("{\"start_minimized_to_tray\": {\"value\": true}}")));
}

#[test]
fn document_that_is_no_object_is_false() {
    assert!(!should_start_minimized(Some("true")));
    assert!(!should_start_minimized(Some("[true]")));
    assert!(!should_start_minimized(Some("\"start_minimized_to_tray\"")));
    assert!(!should_start_minimized(Some("null")));
}

#[test]
fn setting_of_a_parsed_object() {
    let mut members = serde_json::Map::new();
    members.insert(String::from("start_minimized_to_tray"), serde_json::Value::Bool(true));
    assert!(start_minimized_setting(&serde_json::Value::Object(members)));

    let mut members = serde_json::Map::new();
    members.insert(String::from("start_minimized_to_tray"), serde_json::Value::Bool(false));
    assert!(!start_minimized_setting(&serde_json::Value::Object(members)));
}

#[test]
fn setting_of_a_parsed_object_without_the_flag() {
    let mut members = serde_json::Map::new();
    members.insert(String::from("other"), serde_json::Value::Bool(true));
    assert!(!start_minimized_setting(&serde_json::Value::Object(members)));

    let mut members = serde_json::Map::new();
    members.insert(
        String::from("start_minimized_to_tray"),
        serde_json::Value::String(String::from("true")),
    );
    assert!(!start_minimized_setting(&serde_json::Value::Object(members)));
}

#[test]
fn setting_of_a_value_that_is_no_object() {
    assert!(!start_minimized_setting(&serde_json::Value::Bool(true)));
    assert!(!start_minimized_setting(&serde_json::Value::Null));
    assert!(!start_minimized_setting(&serde_json::Value::Array(vec![serde_json::Value::Bool(true)])));
}
