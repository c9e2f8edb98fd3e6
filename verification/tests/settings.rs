use luminous::settings::config::{accent_from, AccentColor, SettingsConfig};
use luminous::settings::{SettingValue, SettingsBackend, SettingsError, WatchEvent};

fn config(scheme: &str, accent: &str, contrast: &str, motion: &str) -> SettingsConfig {
    SettingsConfig {
        color_scheme: scheme.to_string(),
        accent_color: accent.to_string(),
        contrast: contrast.to_string(),
        reduced_motion: motion.to_string(),
    }
}

#[test]
fn defaults() {
    let settings = SettingsConfig::default();
    assert_eq!(settings.color_scheme, "default");
    assert_eq!(settings.accent_color, "#ffffff");
    assert_eq!(settings.contrast, "default");
    assert_eq!(settings.reduced_motion, "default");
    assert!(settings.is_valid());
    assert_eq!(settings.get_color_scheme(), 0);
    assert_eq!(settings.get_contrast(), 0);
    assert_eq!(settings.get_reduced_motion(), 0);
    assert_eq!(settings.get_accent_color(), AccentColor { red: 255, green: 255, blue: 255 });
}

#[test]
fn words_map_to_numbers() {
    assert_eq!(config("dark", "#000", "higher", "reduced").get_color_scheme(), 1);
    assert_eq!(config("light", "#000", "higher", "reduced").get_color_scheme(), 2);
    assert_eq!(config("default", "#000", "higher", "reduced").get_color_scheme(), 0);
    assert_eq!(config("dark", "#000", "higher", "default").get_contrast(), 1);
    assert_eq!(config("dark", "#000", "default", "reduced").get_contrast(), 0);
    assert_eq!(config("dark", "#000", "default", "reduced").get_reduced_motion(), 1);
    assert_eq!(config("dark", "#000", "higher", "default").get_reduced_motion(), 0);
}

#[test]
fn accent_is_parsed_as_css() {
    assert_eq!(
        config("dark", "#ff0000", "default", "default").get_accent_color(),
        AccentColor { red: 255, green: 0, blue: 0 }
    );
    assert_eq!(
        config("dark", "rgb(0, 128, 255)", "default", "default").get_accent_color(),
        AccentColor { red: 0, green: 128, blue: 255 }
    );
    assert_eq!(
        config("dark", "#01020380", "default", "default").get_accent_color(),
        AccentColor { red: 1, green: 2, blue: 3 }
    );
    assert_eq!(
        config("dark", "no colour at all", "default", "default").get_accent_color(),
        AccentColor { red: 255, green: 255, blue: 255 }
    );
    assert_eq!(
        config("dark", "", "default", "default").get_accent_color(),
        AccentColor { red: 255, green: 255, blue: 255 }
    );
    assert_eq!(accent_from(Some((9, 8, 7, 6))), AccentColor { red: 9, green: 8, blue: 7 });
    assert_eq!(accent_from(None), AccentColor { red: 255, green: 255, blue: 255 });
    assert_eq!(AccentColor::new([1, 2, 3]), AccentColor { red: 1, green: 2, blue: 3 });
}

#[test]
fn channels_are_below_one() {
    let color = config("dark", "#ffffff", "default", "default").get_accent_color();
    for channel in [color.red, color.green, color.blue] {
        let share = channel as f64 / 256.0;
        assert!(share >= 0.0 && share < 1.0);
    }
}

#[test]
fn malformed_records_fall_back_to_defaults() {
    let kept = SettingsConfig::config_from_file(Some(config("dark", "#123456", "higher", "reduced")));
    assert_eq!(kept.color_scheme, "dark");
    assert_eq!(kept.accent_color, "#123456");
    assert_eq!(kept.contrast, "higher");
    assert_eq!(kept.reduced_motion, "reduced");
    for broken in [
        config("blue", "#123456", "higher", "reduced"),
        config("dark", "#123456", "lower", "reduced"),
        config("dark", "#123456", "higher", "none"),
        config("", "", "", ""),
        config("Dark", "#123456", "higher", "reduced"),
    ] {
        assert!(!broken.is_valid());
        let used = SettingsConfig::config_from_file(Some(broken));
        assert_eq!(used.color_scheme, "default");
        assert_eq!(used.accent_color, "#ffffff");
        assert_eq!(used.contrast, "default");
        assert_eq!(used.reduced_motion, "default");
    }
    let missing = SettingsConfig::config_from_file(None);
    assert_eq!(missing.color_scheme, "default");
    assert_eq!(missing.accent_color, "#ffffff");
}

#[test]
fn appearance_round_trip() {
    let backend = SettingsBackend;
    let settings = SettingsConfig::config_from_file(Some(config("light", "#102030", "higher", "reduced")));
    let signals = backend.setting_changed(&settings);
    assert_eq!(signals.len(), 4);
    for signal in &signals {
        assert_eq!(signal.namespace, "org.freedesktop.appearance");
    }
    assert_eq!(signals[0].key, "color-scheme");
    assert_eq!(signals[0].value, SettingValue::Number(2));
    assert_eq!(signals[1].key, "accent-color");
    assert_eq!(
        signals[1].value,
        SettingValue::Color(AccentColor { red: 16, green: 32, blue: 48 })
    );
    assert_eq!(signals[2].key, "contrast");
    assert_eq!(signals[2].value, SettingValue::Number(1));
    assert_eq!(signals[3].key, "reduced-motion");
    assert_eq!(signals[3].value, SettingValue::Number(1));
}

#[test]
fn reload_on_create_and_modify_only() {
    let backend = SettingsBackend;
    assert!(backend.reloads_on(WatchEvent::Create));
    assert!(backend.reloads_on(WatchEvent::Modify));
    assert!(!backend.reloads_on(WatchEvent::Remove));
    assert!(!backend.reloads_on(WatchEvent::Access));
    assert!(!backend.reloads_on(WatchEvent::Other));
}

#[test]
fn reads() {
    let backend = SettingsBackend;
    assert_eq!(backend.version(), 1);
    let settings = config("dark", "#0000ff", "higher", "reduced");
    let appearance = "org.freedesktop.appearance".to_string();
    assert_eq!(
        backend.read(&settings, &appearance, &"color-scheme".to_string()),
        Ok(SettingValue::Number(1))
    );
    assert_eq!(
        backend.read(&settings, &appearance, &"accent-color".to_string()),
        Ok(SettingValue::Color(AccentColor { red: 0, green: 0, blue: 255 }))
    );
    assert_eq!(
        backend.read(&settings, &appearance, &"contrast".to_string()),
        Ok(SettingValue::Number(1))
    );
    assert_eq!(
        backend.read(&settings, &appearance, &"reduced-motion".to_string()),
        Err(SettingsError::NoSuchKey)
    );
    assert_eq!(
        backend.read(&settings, &"org.gnome".to_string(), &"color-scheme".to_string()),
        Err(SettingsError::NoSuchNamespace)
    );
    let all = backend
        .read_all(&settings, &vec!["x".to_string(), appearance.clone()])
        .ok()
        .unwrap();
    assert_eq!(
        all,
        vec![
            ("color-scheme".to_string(), SettingValue::Number(1)),
            (
                "accent-color".to_string(),
                SettingValue::Color(AccentColor { red: 0, green: 0, blue: 255 })
            ),
            ("contrast".to_string(), SettingValue::Number(1)),
        ]
    );
    assert_eq!(
        backend.read_all(&settings, &vec!["x".to_string()]),
        Err(SettingsError::NoSuchNamespace)
    );
    assert_eq!(backend.read_all(&settings, &Vec::new()), Err(SettingsError::NoSuchNamespace));
}
