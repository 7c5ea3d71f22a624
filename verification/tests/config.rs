use enroll::config::{AppTheme, Config, ThemeChoice, is_cosmic_desktop};

#[test]
fn theme_on_cosmic() {
    assert_eq!(AppTheme::Dark.theme(true), ThemeChoice::SystemDark);
    assert_eq!(AppTheme::Light.theme(true), ThemeChoice::SystemLight);
    assert_eq!(AppTheme::System.theme(true), ThemeChoice::SystemPreference);
}

#[test]
fn theme_elsewhere() {
    assert_eq!(AppTheme::Dark.theme(false), ThemeChoice::BuiltinDark);
    assert_eq!(AppTheme::System.theme(false), ThemeChoice::BuiltinDark);
    assert_eq!(AppTheme::Light.theme(false), ThemeChoice::BuiltinLight);
}

#[test]
fn config_default() {
    let c = Config::default();
    assert_eq!(c.app_theme, AppTheme::System);
    assert!(!c.experimental_ui);
    assert_eq!(AppTheme::default(), AppTheme::System);
}

#[test]
fn cosmic_desktop_detection() {
    assert!(is_cosmic_desktop(Some("COSMIC")));
    assert!(is_cosmic_desktop(Some("cosmic")));
    assert!(is_cosmic_desktop(Some("pop:CoSmIc")));
    assert!(!is_cosmic_desktop(Some("GNOME")));
    assert!(!is_cosmic_desktop(Some("COSMI")));
    assert!(!is_cosmic_desktop(Some("")));
    assert!(!is_cosmic_desktop(None));
}
