use pointer_gestures::settings::{
    get_default_settings, get_shortcut_window_type, requested_or, save_settings, stored_or,
    SettingKey, SettingWrite, SettingsUpdate,
};

fn some(text: &str) -> Option<String> {
    Some(text.to_string())
}

fn write(key: SettingKey, value: &str) -> SettingWrite {
    SettingWrite { key, value: value.to_string() }
}

#[test]
fn defaults_stand_in_for_missing_settings() {
    assert_eq!(
        get_default_settings(None, None),
        ("ollama".to_string(), "gemma3".to_string())
    );
    assert_eq!(
        get_default_settings(some("groq"), None),
        ("groq".to_string(), "gemma3".to_string())
    );
    assert_eq!(
        get_default_settings(None, some("llama3")),
        ("ollama".to_string(), "llama3".to_string())
    );
    assert_eq!(get_default_settings(some(""), some("")), (String::new(), String::new()));
}

#[test]
fn shortcut_window_type_defaults_to_main() {
    assert_eq!(get_shortcut_window_type(None), "main");
    assert_eq!(get_shortcut_window_type(some("popup")), "popup");
    assert_eq!(get_shortcut_window_type(some("anything")), "anything");
    assert_eq!(stored_or(None, "x"), "x");
}

#[test]
fn empty_request_falls_back() {
    assert_eq!(requested_or(None, "ollama"), "ollama");
    assert_eq!(requested_or(Some(""), "ollama"), "ollama");
    assert_eq!(requested_or(Some("openai"), "ollama"), "openai");
    assert_eq!(requested_or(Some(" "), "ollama"), " ");
}

#[test]
fn setting_key_names() {
    assert_eq!(SettingKey::ApiKey.name(), "OPENAI_API_KEY");
    assert_eq!(SettingKey::ShortcutWindowType.name(), "SHORTCUT_WINDOW_TYPE");
    assert_eq!(SettingKey::Provider.name(), "PROVIDER");
    assert_eq!(SettingKey::Model.name(), "MODEL");
    assert_eq!(SettingKey::Prompt.name(), "PROMPT");
}

#[test]
fn save_settings_writes_everything_submitted_in_order() {
    let update = SettingsUpdate {
        api_key: some("sk-1"),
        shortcut_window_type: some("popup"),
        provider: some("openai"),
        model: some("gpt-4.1-nano"),
        prompt: some("Be brief."),
    };
    assert_eq!(
        save_settings(update),
        vec![
            write(SettingKey::ApiKey, "sk-1"),
            write(SettingKey::ShortcutWindowType, "popup"),
            write(SettingKey::Provider, "openai"),
            write(SettingKey::Model, "gpt-4.1-nano"),
            write(SettingKey::Prompt, "Be brief."),
        ]
    );
}

#[test]
fn save_settings_skips_missing_and_empty_values() {
    let update = SettingsUpdate {
        api_key: some(""),
        shortcut_window_type: None,
        provider: some("groq"),
        model: some(""),
        prompt: None,
    };
    assert_eq!(save_settings(update), vec![write(SettingKey::Provider, "groq")]);
    let nothing = SettingsUpdate {
        api_key: None,
        shortcut_window_type: None,
        provider: None,
        model: None,
        prompt: None,
    };
    assert_eq!(save_settings(nothing), vec![]);
}

#[test]
fn save_settings_skips_placeholder_prompts_only() {
    for (prompt, kept) in [
        ("undefined", false),
        ("null", false),
        ("", false),
        ("Undefined", true),
        ("null ", true),
        ("nul", true),
    ] {
        let update = SettingsUpdate {
            api_key: None,
            shortcut_window_type: None,
            provider: None,
            model: some("undefined"),
            prompt: some(prompt),
        };
        let mut expected = vec![write(SettingKey::Model, "undefined")];
        if kept {
            expected.push(write(SettingKey::Prompt, prompt));
        }
        assert_eq!(save_settings(update), expected);
    }
}
