use nucleus::settings_view::{SettingValue, SettingsTarget, SettingsView, StoredSettings, ThemeMode};

fn nothing() -> StoredSettings {
    StoredSettings { theme: None, font_size: None, tab_size: None, soft_wrap: None, auto_save_interval: None }
}

#[test]
fn defaults_fill_missing_values() {
    let v = SettingsView::new(nothing());
    assert_eq!(v.current_target, SettingsTarget::User);
    assert_eq!(v.theme_mode, "dark");
    assert_eq!(v.font_size, 14);
    assert_eq!(v.tab_size, 4);
    assert!(!v.soft_wrap);
    assert_eq!(v.auto_save_interval, 30);
}

#[test]
fn stored_values_show() {
    let mut v = SettingsView::new(nothing());
    v.set_target(SettingsTarget::Workspace);
    v.load_from_store(StoredSettings {
        theme: Some("light".into()),
        font_size: Some(16),
        tab_size: Some(2),
        soft_wrap: Some(true),
        auto_save_interval: None,
    });
    assert_eq!(v.current_target, SettingsTarget::Workspace);
    assert_eq!(v.theme_mode, "light");
    assert_eq!(v.font_size, 16);
    assert_eq!(v.tab_size, 2);
    assert!(v.soft_wrap);
    assert_eq!(v.auto_save_interval, 30);
}

#[test]
fn theme_modes() {
    assert_eq!(SettingsView::theme_mode_for("light"), ThemeMode::Light);
    assert_eq!(SettingsView::theme_mode_for("dark"), ThemeMode::Dark);
    assert_eq!(SettingsView::theme_mode_for("solarized"), ThemeMode::Dark);
}

#[test]
fn saving_a_setting_reloads_and_picks_the_theme() {
    let mut v = SettingsView::new(nothing());
    let reloaded = StoredSettings {
        theme: Some("light".into()),
        font_size: Some(18),
        tab_size: None,
        soft_wrap: None,
        auto_save_interval: Some(60),
    };
    assert_eq!(v.save_setting("theme", &SettingValue::Text("light".to_string()), reloaded), Some(ThemeMode::Light));
    assert_eq!(v.theme_mode, "light");
    assert_eq!(v.font_size, 18);
    assert_eq!(v.auto_save_interval, 60);
    assert_eq!(v.save_setting("theme", &SettingValue::Text("monokai".to_string()), nothing()), Some(ThemeMode::Dark));
    assert_eq!(v.save_setting("theme", &SettingValue::Number(3), nothing()), None);
    assert_eq!(v.save_setting("editor.font_size", &SettingValue::Text("light".to_string()), nothing()), None);
    assert_eq!(v.font_size, 14);
}

#[test]
fn choice_buttons_mark_the_current_values() {
    let v = SettingsView::new(StoredSettings {
        theme: Some("light".into()),
        font_size: Some(16),
        tab_size: None,
        soft_wrap: Some(true),
        auto_save_interval: Some(45),
    });
    let choices = v.setting_choices();
    assert_eq!(choices.len(), 14);
    let active: Vec<(&str, &str)> = choices.iter().filter(|c| c.active).map(|c| (c.key, c.label)).collect();
    assert_eq!(
        active,
        vec![("theme", "Light"), ("editor.font_size", "16px"), ("editor.tab_size", "4"), ("editor.soft_wrap", "On")]
    );
    assert_eq!(choices[0].value, SettingValue::Text("dark".to_string()));
    assert_eq!(choices[5].value, SettingValue::Number(18));
    assert_eq!(choices[9].value, SettingValue::Flag(false));
    assert_eq!(choices[13].key, "files.auto_save_interval");
    assert_eq!(choices[13].label, "60s");
}

#[test]
fn switching_target_keeps_the_values() {
    let mut v = SettingsView::new(nothing());
    v.font_size = 20;
    v.set_target(SettingsTarget::Workspace);
    assert_eq!(v.current_target, SettingsTarget::Workspace);
    assert_eq!(v.font_size, 20);
    assert_eq!(v.theme_mode, "dark");
}
