use rustkeyboard::config::KeyboardConfig;
use rustkeyboard::i18n::{translations, Language};
use rustkeyboard::window::{
    app_ex_style, brightness_from_slider, brightness_label, brightness_slider_pos, color_button_zone,
    colorref, command_for, darken, effect_combo_index, high_word, is_slider_move, label_color,
    language_at, language_combo_index, lighten, low_word, main_window_style, rgb_of_colorref,
    speed_combo_index, tray_ex_style, CloseAction, UiCommand, WindowState,
};

#[test]
fn colorref_packing() {
    assert_eq!(colorref([0x11, 0x22, 0x33]), 0x332211);
    assert_eq!(rgb_of_colorref(0x332211), [0x11, 0x22, 0x33]);
    assert_eq!(rgb_of_colorref(0xFF332211), [0x11, 0x22, 0x33]);
    for rgb in [[0, 0, 0], [255, 255, 255], [255, 165, 0], [1, 2, 3]] {
        assert_eq!(rgb_of_colorref(colorref(rgb)), rgb);
    }
}

#[test]
fn darken_and_lighten_clamp() {
    assert_eq!(darken(0x00FF8010, 50), 0x00CD4E00);
    assert_eq!(lighten(0x00FF8010, 50), 0x00FFB242);
    assert_eq!(darken(0xFF000000, 1), 0);
    assert_eq!(lighten(0x00000000, 0), 0);
    assert_eq!(darken(0x123456, 0), 0x123456);
}

#[test]
fn label_contrast() {
    assert_eq!(label_color([255, 255, 255]), 0x000000);
    assert_eq!(label_color([126, 127, 127]), 0xFFFFFF);
    assert_eq!(label_color([200, 180, 0]), 0xFFFFFF);
    assert_eq!(label_color([200, 180, 1]), 0x000000);
}

#[test]
fn brightness_slider_mapping() {
    assert_eq!(brightness_slider_pos(0), 3);
    assert_eq!(brightness_slider_pos(3), 0);
    assert_eq!(brightness_slider_pos(10), 0);
    assert_eq!(brightness_from_slider(0), 3);
    assert_eq!(brightness_from_slider(3), 0);
    assert_eq!(brightness_from_slider(7), 0);
    assert_eq!(brightness_from_slider(256 + 1), 2);
    for b in 0..=255u8 {
        assert_eq!(brightness_from_slider(brightness_slider_pos(b)), b.min(3));
    }
}

#[test]
fn brightness_labels() {
    let t = translations(Language::English);
    assert_eq!(brightness_label(&t, 0), "Slow");
    assert_eq!(brightness_label(&t, 1), "Slow");
    assert_eq!(brightness_label(&t, 2), "Medium");
    assert_eq!(brightness_label(&t, 10), "Fast");
}

#[test]
fn selector_rows() {
    assert_eq!(effect_combo_index(3), 3);
    assert_eq!(effect_combo_index(9), 6);
    assert_eq!(speed_combo_index(1), 1);
    assert_eq!(speed_combo_index(5), 2);
    assert_eq!(language_combo_index(Language::German), 1);
    assert_eq!(language_at(2), Some(Language::Turkish));
    assert_eq!(language_at(-1), None);
    assert_eq!(language_at(3), None);
    for lang in Language::ALL {
        assert_eq!(language_at(language_combo_index(lang) as isize), Some(lang));
    }
}

#[test]
fn message_words() {
    assert_eq!(low_word(0x0001_0065), 0x65);
    assert_eq!(high_word(0x0001_0065), 1);
}

#[test]
fn command_decoding() {
    assert_eq!(command_for(101, 1), UiCommand::EffectChanged);
    assert_eq!(command_for(101, 2), UiCommand::Ignore);
    assert_eq!(command_for(102, 1), UiCommand::SpeedChanged);
    assert_eq!(command_for(300, 1), UiCommand::LanguageChanged);
    assert_eq!(command_for(401, 0), UiCommand::AutostartToggled);
    assert_eq!(command_for(402, 0), UiCommand::CloseToTrayToggled);
    assert_eq!(command_for(403, 0), UiCommand::StartInTrayToggled);
    assert_eq!(command_for(501, 0), UiCommand::SaveAndApply);
    assert_eq!(command_for(502, 0), UiCommand::WakeUp);
    assert_eq!(command_for(503, 0), UiCommand::Refresh);
    assert_eq!(command_for(504, 0), UiCommand::Exit);
    assert_eq!(command_for(200, 0), UiCommand::PickColor(0));
    assert_eq!(command_for(206, 0), UiCommand::PickColor(6));
    assert_eq!(command_for(207, 0), UiCommand::Ignore);
    assert_eq!(color_button_zone(204), Some(4));
    assert_eq!(color_button_zone(199), None);
    assert!(is_slider_move(4) && is_slider_move(5) && is_slider_move(8));
    assert!(!is_slider_move(0));
}

#[test]
fn window_styles() {
    assert_eq!(main_window_style(false), 0x10CA_0000);
    assert_eq!(main_window_style(true), 0x00CA_0000);
    let ex = 0x0004_0100;
    let hidden = tray_ex_style(ex);
    assert_eq!(hidden, 0x0000_0180);
    assert_eq!(app_ex_style(hidden), 0x0004_0100);
}

#[test]
fn window_state_transitions() {
    let mut w = WindowState::new(KeyboardConfig::default());
    assert!(!w.is_visible);
    w.initialised("Not Found".to_string(), true);
    assert!(w.is_visible);
    assert!(w.autostart);
    w.effect_selected(4);
    assert_eq!(w.config.mode, 4);
    w.effect_selected(-1);
    assert_eq!(w.config.mode, 255);
    w.speed_selected(2);
    assert_eq!(w.config.speed, 2);
    assert!(w.language_selected(1));
    assert_eq!(w.config.language, "de");
    assert!(!w.language_selected(1));
    assert!(!w.language_selected(-1));
    w.checkbox_changed(UiCommand::CloseToTrayToggled, 0);
    assert!(!w.config.close_to_tray);
    w.checkbox_changed(UiCommand::StartInTrayToggled, 1);
    assert!(w.config.start_in_tray);
    w.checkbox_changed(UiCommand::AutostartToggled, 0);
    assert!(!w.autostart);
    assert!(w.slider_moved(4, 1));
    assert_eq!(w.config.brightness, 2);
    assert!(!w.slider_moved(0, 3));
    assert_eq!(w.config.brightness, 2);
    w.color_picked(2, 0x00332211);
    assert_eq!(w.config.colors[2], [0x11, 0x22, 0x33]);
    let t = translations(Language::German);
    assert_eq!(w.closing(&t), CloseAction::Destroy);
    w.config.close_to_tray = true;
    assert_eq!(w.closing(&t), CloseAction::HideToTray);
    assert!(!w.is_visible);
    assert_eq!(w.status, "In den System-Tray minimiert");
    assert!(w.restore_from_tray());
    assert!(!w.restore_from_tray());
    w.save_applied(Err("boom".to_string()));
    assert_eq!(w.status, "Fehler: boom");
    w.wakeup_finished(true);
    assert_eq!(w.status, "Aufwecken gesendet!");
    w.hotkey_toggled(KeyboardConfig::default());
    assert_eq!(w.status, "Keyboard toggled via Hotkey!");
    w.refreshed("ok".to_string(), true);
    assert_eq!(w.status, "ok");
}
