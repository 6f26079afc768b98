use rustkeyboard::config::{
    app_dir_from, app_dir_step, debug_log_path, default_close_to_tray, default_language, default_software_mode,
    default_start_in_tray, default_sw_random_speed, default_sw_speed_ms, get_config_path,
    settle_loaded_config, KeyboardConfig, WHITE,
};
use rustkeyboard::i18n::Language;

fn sample(colors: Vec<[u8; 3]>) -> KeyboardConfig {
    KeyboardConfig {
        mode: 3,
        speed: 2,
        brightness: 5,
        colors,
        close_to_tray: false,
        start_in_tray: true,
        software_mode: 4,
        sw_speed_ms: 750,
        sw_random_speed: true,
        language: "de".to_string(),
    }
}

#[test]
fn default_field_providers() {
    assert!(default_close_to_tray());
    assert!(!default_start_in_tray());
    assert_eq!(default_software_mode(), 0);
    assert_eq!(default_sw_speed_ms(), 2000);
    assert!(!default_sw_random_speed());
    assert_eq!(default_language(), "en");
}

#[test]
fn default_config_is_factory_palette() {
    let c = KeyboardConfig::default();
    assert_eq!(c.mode, 1);
    assert_eq!(c.speed, 1);
    assert_eq!(c.brightness, 10);
    assert_eq!(
        c.colors,
        vec![
            [255, 255, 255],
            [255, 0, 0],
            [255, 165, 0],
            [255, 255, 0],
            [0, 255, 0],
            [0, 255, 255],
            [255, 0, 255],
        ]
    );
    assert!(c.close_to_tray);
    assert!(!c.start_in_tray);
    assert_eq!(c.software_mode, 0);
    assert_eq!(c.sw_speed_ms, 2000);
    assert!(!c.sw_random_speed);
    assert_eq!(c.language, "en");
    assert_eq!(c.language_enum(), Language::English);
}

#[test]
fn first_color_of_empty_is_white() {
    let c = sample(vec![]);
    assert_eq!(c.first_color(), [255, 255, 255]);
    assert_eq!(WHITE, [255, 255, 255]);
}

#[test]
fn first_color_is_first_entry() {
    let c = sample(vec![[1, 2, 3], [4, 5, 6]]);
    assert_eq!(c.first_color(), [1, 2, 3]);
}

#[test]
fn normalize_pads_with_white() {
    let mut c = sample(vec![[1, 2, 3], [4, 5, 6]]);
    c.normalize();
    assert_eq!(c.colors.len(), 7);
    assert_eq!(c.colors[0], [1, 2, 3]);
    assert_eq!(c.colors[1], [4, 5, 6]);
    for i in 2..7 {
        assert_eq!(c.colors[i], [255, 255, 255]);
    }
    assert_eq!(c.mode, 3);
    assert_eq!(c.language, "de");
}

#[test]
fn normalize_truncates_to_seven() {
    let colors: Vec<[u8; 3]> = (0..10u8).map(|i| [i, i, i]).collect();
    let mut c = sample(colors);
    c.normalize();
    assert_eq!(c.colors.len(), 7);
    for i in 0..7u8 {
        assert_eq!(c.colors[i as usize], [i, i, i]);
    }
}

#[test]
fn normalize_is_idempotent() {
    let mut c = sample(vec![[9, 9, 9]]);
    c.normalize();
    let once = c.colors.clone();
    c.normalize();
    assert_eq!(c.colors, once);
}

#[test]
fn language_round_trip_through_config() {
    let mut c = sample(vec![]);
    for lang in Language::ALL {
        c.set_language(lang);
        assert_eq!(c.language_enum(), lang);
    }
    c.set_language(Language::Turkish);
    assert_eq!(c.language, "tr");
}

#[test]
fn unknown_language_reads_as_english() {
    let mut c = sample(vec![]);
    c.language = "fr".to_string();
    assert_eq!(c.language_enum(), Language::English);
}

#[test]
fn config_paths() {
    assert_eq!(get_config_path("C:\\apps\\kb"), "C:\\apps\\kb\\config.json");
    assert_eq!(debug_log_path("D:\\x"), "D:\\x\\tray_debug.log");
}

#[test]
fn app_dir_falls_back() {
    assert_eq!(app_dir_from(None), "C:\\rustkeyboard");
    assert_eq!(app_dir_from(Some("E:\\tools".to_string())), "E:\\tools");
}

#[test]
fn loading_a_parsed_config_normalizes_it() {
    let (c, write) = settle_loaded_config(Some(sample(vec![[7, 7, 7]])));
    assert!(!write);
    assert_eq!(c.colors.len(), 7);
    assert_eq!(c.colors[0], [7, 7, 7]);
    assert_eq!(c.colors[6], [255, 255, 255]);
    assert_eq!(c.sw_speed_ms, 750);
}

#[test]
fn loading_nothing_gives_defaults_to_write() {
    let (c, write) = settle_loaded_config(None);
    assert!(write);
    assert_eq!(c.mode, 1);
    assert_eq!(c.colors.len(), 7);
    assert_eq!(c.language, "en");
}

#[test]
fn app_dir_is_fixed_by_first_call() {
    let first = app_dir_step(None, Some("E:\\kb".to_string()));
    assert_eq!(first, "E:\\kb");
    let later = app_dir_step(Some(first.clone()), Some("F:\\moved".to_string()));
    assert_eq!(later, first);
    assert_eq!(app_dir_step(Some(first.clone()), None), first);
    assert_eq!(app_dir_step(None, None), "C:\\rustkeyboard");
}
