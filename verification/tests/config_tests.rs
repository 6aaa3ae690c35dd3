use timelapse_core::config::{convert_config_to_toml_string, Config, ConfigData};
use timelapse_core::CoreError;

#[test]
fn defaults_round_trip() {
    let cd = ConfigData::new();
    let pairs = cd.set_default_config();
    assert_eq!(pairs.len(), 24);
    let text = convert_config_to_toml_string(&pairs);
    let mut loaded = ConfigData::new();
    loaded.load_config(Some(text.as_str())).unwrap();
    assert_eq!(loaded.wifi_ssid, "");
    assert_eq!(loaded.timezone_offset, 0);
    assert_eq!(loaded.idle_in_sleep_time, 300);
    assert!(!loaded.auto_capture);
    assert_eq!(loaded.resolution, 0);
    assert_eq!(loaded.track_id, 0);
    assert_eq!(loaded.duration, 0);
    assert_eq!(loaded.model, "gpt-4-turbo");
    assert_eq!(loaded.api_key, "api-key");
    assert!(!loaded.query_openai);
    assert!(loaded.autofocus_once);
    assert!(!loaded.status_report);
    assert_eq!(loaded.status_report_interval, 600);
    assert_eq!(loaded.post_interval, 3600);
    assert_eq!(loaded.leap_day, -1);
    assert_eq!(loaded.leap_hour, -1);
    assert_eq!(loaded.leap_minute, -1);
}

#[test]
fn full_round_trip_preserves_values() {
    let mut cd = ConfigData::new();
    cd.wifi_ssid = String::from("mynet");
    cd.wifi_psk = String::from("SECRET-REDACTED");
    cd.timezone_offset = -5;
    cd.idle_in_sleep_time = 120;
    cd.auto_capture = true;
    cd.resolution = 7;
    cd.track_id = 3;
    cd.duration = 90;
    cd.model = String::from("gpt-4-turbo");
    cd.api_key = String::from("SECRET-REDACTED");
    cd.query_openai = true;
    cd.query_prompt = String::from("what changed");
    cd.autofocus_once = true;
    cd.status_report = true;
    cd.status_report_interval = 600;
    cd.post_interval = 3600;
    cd.leap_day = 15;
    cd.leap_hour = 9;
    cd.leap_minute = 30;
    let text = convert_config_to_toml_string(&cd.get_all_config());
    let mut loaded = ConfigData::new();
    loaded.load_config(Some(text.as_str())).unwrap();
    assert_eq!(loaded.wifi_ssid, "mynet");
    assert_eq!(loaded.timezone_offset, -5);
    assert_eq!(loaded.idle_in_sleep_time, 120);
    assert!(loaded.auto_capture);
    assert_eq!(loaded.resolution, 7);
    assert_eq!(loaded.track_id, 3);
    assert_eq!(loaded.duration, 90);
    assert!(loaded.query_openai);
    assert_eq!(loaded.query_prompt, "what changed");
    assert_eq!(loaded.leap_day, 15);
    assert_eq!(loaded.leap_hour, 9);
    assert_eq!(loaded.leap_minute, 30);
}

#[test]
fn toml_line_format() {
    let pairs = vec![(String::from("SSID"), String::from("mynet"))];
    let text = convert_config_to_toml_string(&pairs);
    assert_eq!(text, "SSID = \"mynet\"\n");
}

#[test]
fn load_none_fails() {
    let mut cd = ConfigData::new();
    assert!(cd.load_config(None).is_err());
}

#[test]
fn load_garbage_fails() {
    let mut cd = ConfigData::new();
    assert_eq!(cd.load_config(Some("not a config")), Err(CoreError::InvalidConfig));
    assert!(cd.load_config(Some("KEY \"missing equals\"\n")).is_err());
}

#[test]
fn load_missing_key_fails() {
    let mut cd = ConfigData::new();
    // a well-formed line, but almost every key is missing
    assert!(cd.load_config(Some("SSID = \"net\"\n")).is_err());
}

#[test]
fn load_bad_number_fails() {
    let cd0 = ConfigData::new();
    let mut pairs = cd0.set_default_config();
    for p in pairs.iter_mut() {
        if p.0 == "TIMEZONE" {
            p.1 = String::from("north");
        }
    }
    let text = convert_config_to_toml_string(&pairs);
    let mut cd = ConfigData::new();
    assert!(cd.load_config(Some(text.as_str())).is_err());
}

#[test]
fn keys_are_case_insensitive() {
    // stored names are uppercase; lookup lowercases them
    let cd0 = ConfigData::new();
    let pairs = cd0.set_default_config();
    let mut lowered: Vec<(String, String)> = Vec::new();
    for p in pairs.iter() {
        lowered.push((p.0.to_lowercase(), p.1.clone()));
    }
    let text = convert_config_to_toml_string(&lowered);
    let mut cd = ConfigData::new();
    cd.load_config(Some(text.as_str())).unwrap();
    assert_eq!(cd.idle_in_sleep_time, 300);
}

#[test]
fn config_defaults_struct() {
    let c = Config::new();
    assert_eq!(c.model, "gpt-4-turbo");
    assert_eq!(c.timezone_offset, "0");
    assert_eq!(c.leap_day, "-1");
    assert_eq!(c.autofocus_once, "true");
}
