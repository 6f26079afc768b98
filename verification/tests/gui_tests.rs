use rustkeyboard::config::KeyboardConfig;
use rustkeyboard::gui::KeyboardApp;
use rustkeyboard::i18n::{translations, Language};

fn app() -> KeyboardApp {
    KeyboardApp::new(KeyboardConfig::default(), "Not Found".to_string(), false)
}

#[test]
fn starts_visible_on_first_frame() {
    let mut a = app();
    assert!(a.is_visible());
    assert!(!a.autostart());
    assert_eq!(a.status(), "Not Found");
    assert_eq!(a.status_line(), "Status: Not Found");
    assert!(a.take_first_frame());
    assert!(!a.take_first_frame());
}

#[test]
fn close_to_tray_hides_and_restore_shows() {
    let mut a = app();
    let t = a.texts();
    assert!(a.close_requested(&t));
    assert!(!a.is_visible());
    assert_eq!(a.status(), "Minimized to System Tray");
    a.restore_from_tray();
    assert!(a.is_visible());
}

#[test]
fn close_without_tray_closes() {
    let mut a = app();
    a.set_close_to_tray(false);
    let t = a.texts();
    assert!(!a.close_requested(&t));
    assert!(a.is_visible());
    assert_eq!(a.status(), "Not Found");
}

#[test]
fn hotkey_reloads_config_with_frame_texts() {
    let mut a = app();
    let t = a.texts();
    let mut reloaded = KeyboardConfig::default();
    reloaded.mode = 4;
    reloaded.set_language(Language::German);
    a.hotkey_toggled(&t, reloaded);
    assert_eq!(a.config().mode, 4);
    assert_eq!(a.status(), "Keyboard toggled via Hotkey!");
    assert_eq!(a.texts().status_hotkey, "Tastatur per Hotkey umgeschaltet!");
}

#[test]
fn language_selection_only_changes_on_difference() {
    let mut a = app();
    assert!(!a.select_language(Language::English));
    assert!(a.select_language(Language::Turkish));
    assert_eq!(a.config().language, "tr");
    assert_eq!(a.config().language_enum(), Language::Turkish);
    assert!(!a.select_language(Language::Turkish));
}

#[test]
fn save_results_in_status() {
    let mut a = app();
    let t = translations(Language::English);
    a.save_applied(&t, Ok(()));
    assert_eq!(a.status(), "Applied & saved!");
    a.save_applied(&t, Err("MSI keyboard not found".to_string()));
    assert_eq!(a.status(), "Error: MSI keyboard not found");
    let de = translations(Language::German);
    a.save_applied(&de, Err("x".to_string()));
    assert_eq!(a.status(), "Fehler: x");
}

#[test]
fn wakeup_and_refresh() {
    let mut a = app();
    let t = a.texts();
    a.wakeup_finished(&t, true);
    assert_eq!(a.status(), "Wake up sent!");
    a.wakeup_finished(&t, false);
    assert_eq!(a.status(), "Wake up failed!");
    a.refreshed("Connected (Normal Operating Mode)".to_string(), true);
    assert_eq!(a.status(), "Connected (Normal Operating Mode)");
    assert!(a.autostart());
}

#[test]
fn edits_change_the_config() {
    let mut a = app();
    a.set_color(3, [1, 2, 3]);
    assert_eq!(a.config().colors[3], [1, 2, 3]);
    a.set_mode(6);
    assert_eq!(a.config().mode, 6);
    a.set_autostart(true);
    assert!(a.autostart());
}

#[test]
fn frame_start_order() {
    let mut a = app();
    // shown, nothing happening
    let s = a.frame_start(false, None, false);
    assert!(s.draw && !s.cancel_close);
    // hide via close request (close to tray is on by default)
    let s = a.frame_start(false, None, true);
    assert!(s.draw && s.cancel_close);
    assert!(!a.is_visible());
    assert_eq!(a.status(), "Minimized to System Tray");
    // hidden: nothing else happens, a reload is ignored
    let mut other = KeyboardConfig::default();
    other.mode = 5;
    let s = a.frame_start(false, Some(other.clone()), false);
    assert!(!s.draw && !s.cancel_close);
    assert_eq!(a.config().mode, 1);
    // restore and reload in the same frame
    let s = a.frame_start(true, Some(other.clone()), false);
    assert!(s.draw && !s.cancel_close);
    assert!(a.is_visible());
    assert_eq!(a.config().mode, 5);
    assert_eq!(a.status(), "Keyboard toggled via Hotkey!");
    // reload that turns close to tray off, then a close request: not cancelled
    other.close_to_tray = false;
    let s = a.frame_start(false, Some(other), true);
    assert!(s.draw && !s.cancel_close);
    assert!(a.is_visible());
}
