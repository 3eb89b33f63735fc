use whis_desktop::settings::{
    opt_key_eq, save_plan, settings_path_from, validate_api_key, ApiConfig, Settings,
};

#[test]
fn default_settings_use_the_default_chord() {
    let s = Settings::default();
    assert_eq!(s.shortcut, "Ctrl+Shift+R");
    assert!(s.openai_api_key.is_none());
}

#[test]
fn empty_key_is_accepted_as_fallback_to_environment() {
    assert_eq!(validate_api_key(""), Ok(true));
}

#[test]
fn prefixed_key_is_accepted() {
    assert_eq!(validate_api_key("sk-abcdef"), Ok(true));
    assert_eq!(validate_api_key("sk-"), Ok(true));
}

#[test]
fn unprefixed_key_is_rejected_with_message() {
    assert_eq!(
        validate_api_key("abcdef"),
        Err(String::from("Invalid key format. OpenAI keys start with 'sk-'"))
    );
    assert_eq!(
        validate_api_key("sk"),
        Err(String::from("Invalid key format. OpenAI keys start with 'sk-'"))
    );
}

#[test]
fn settings_path_joins_configuration_directory() {
    assert_eq!(
        settings_path_from(Some(String::from("/home/u/.config"))),
        "/home/u/.config/whis/settings.json"
    );
    assert_eq!(settings_path_from(None), "./whis/settings.json");
    assert!(Settings::path().ends_with("/whis/settings.json"));
}

#[test]
fn api_config_needs_a_key() {
    let c = ApiConfig::from_lookup(Some(String::from("sk-x"))).expect("config");
    assert_eq!(c.openai_api_key, "sk-x");
    assert!(ApiConfig::from_lookup(None).is_err());
}

#[test]
fn save_plan_detects_changed_fields() {
    let a = Settings { shortcut: String::from("Ctrl+Shift+R"), openai_api_key: None };
    let b = Settings {
        shortcut: String::from("Ctrl+Shift+R"),
        openai_api_key: Some(String::from("sk-x")),
    };
    let p = save_plan(&a, &b);
    assert!(p.api_key_changed);
    assert!(!p.shortcut_changed);

    let c = Settings { shortcut: String::from("Super+R"), openai_api_key: None };
    let p = save_plan(&a, &c);
    assert!(!p.api_key_changed);
    assert!(p.shortcut_changed);

    let p = save_plan(&a, &a.clone());
    assert!(!p.api_key_changed);
    assert!(!p.shortcut_changed);
}

#[test]
fn optional_keys_compare_by_value() {
    assert!(opt_key_eq(&None, &None));
    assert!(opt_key_eq(&Some(String::from("a")), &Some(String::from("a"))));
    assert!(!opt_key_eq(&Some(String::from("a")), &Some(String::from("b"))));
    assert!(!opt_key_eq(&Some(String::from("a")), &None));
}
