use rustkeyboard::i18n::{
    hardware_mode_name_translated, hardware_mode_names, software_mode_name_translated, translations,
    Language,
};

#[test]
fn display_names_and_codes() {
    assert_eq!(Language::English.display_name(), "English");
    assert_eq!(Language::German.display_name(), "Deutsch");
    assert_eq!(Language::Turkish.display_name(), "Türkçe");
    assert_eq!(Language::English.code(), "en");
    assert_eq!(Language::German.code(), "de");
    assert_eq!(Language::Turkish.code(), "tr");
}

#[test]
fn from_code_parses_known_and_defaults() {
    assert_eq!(Language::from_code("de"), Language::German);
    assert_eq!(Language::from_code("tr"), Language::Turkish);
    assert_eq!(Language::from_code("en"), Language::English);
    assert_eq!(Language::from_code(""), Language::English);
    assert_eq!(Language::from_code("DE"), Language::English);
    assert_eq!(Language::from_code("der"), Language::English);
}

#[test]
fn code_round_trip_for_all() {
    for lang in Language::ALL {
        assert_eq!(Language::from_code(lang.code()), lang);
    }
    assert_eq!(Language::default(), Language::English);
    assert_eq!(
        Language::ALL,
        [Language::English, Language::German, Language::Turkish]
    );
}

#[test]
fn translation_tables() {
    let en = translations(Language::English);
    assert_eq!(en.brand_title, "RUST KEYBOARD");
    assert_eq!(en.header, "RGB Keyboard Lighting");
    assert_eq!(en.mode_rainbow, "Rainbow");
    assert_eq!(en.status_error_prefix, "Error:");
    assert_eq!(en.language_label, "Language:");
    let de = translations(Language::German);
    assert_eq!(de.brand_subtitle, "LED-Steuerung");
    assert_eq!(de.opt_close_tray, "\u{1F4E5} In Tray schließen");
    assert_eq!(de.mode_off, "Aus");
    let tr = translations(Language::Turkish);
    assert_eq!(tr.header, "RGB Klavye Aydınlatması");
    assert_eq!(tr.language_label, "Dil:");
    assert_eq!(tr.actions_title, "İşlemler");
}

#[test]
fn software_mode_names() {
    let en = translations(Language::English);
    assert_eq!(software_mode_name_translated(&en, 0), "\u{23F8}  Disabled (Hardware Mode)");
    assert_eq!(software_mode_name_translated(&en, 7), "\u{1F305}  Sunset");
    assert_eq!(software_mode_name_translated(&en, 10), "\u{1F500}  Random Chaos");
    assert_eq!(software_mode_name_translated(&en, 11), "Unknown");
    assert_eq!(software_mode_name_translated(&en, 255), "Unknown");
    let de = translations(Language::German);
    assert_eq!(software_mode_name_translated(&de, 8), "\u{1F3B5}  Puls");
}

#[test]
fn hardware_mode_names_in_selector_order() {
    let en = translations(Language::English);
    let names = hardware_mode_names(&en);
    assert_eq!(names[0], "Off");
    assert_eq!(names[6], "Rainbow");
    assert_eq!(hardware_mode_name_translated(&en, 1), "Static Single Color");
    assert_eq!(hardware_mode_name_translated(&en, 6), "Rainbow");
    assert_eq!(hardware_mode_name_translated(&en, 7), "Unknown");
    let tr = translations(Language::Turkish);
    assert_eq!(hardware_mode_name_translated(&tr, 2), "Nefes Alan Dalga");
}

#[test]
fn texts_are_distinct_and_non_empty() {
    for lang in Language::ALL {
        let t = translations(lang);
        assert_eq!(t.brand_title, "RUST KEYBOARD");
        let modes = hardware_mode_names(&t);
        for i in 0..7 {
            assert!(!modes[i].is_empty());
            for j in (i + 1)..7 {
                assert_ne!(modes[i], modes[j]);
            }
        }
        let sw: Vec<&str> = (0..=10u8).map(|m| software_mode_name_translated(&t, m)).collect();
        for i in 0..sw.len() {
            assert_ne!(sw[i], "Unknown");
            assert!(!sw[i].is_empty());
            for j in (i + 1)..sw.len() {
                assert_ne!(sw[i], sw[j]);
            }
        }
        for s in [t.header, t.status_hotkey, t.language_label, t.act_exit, t.fn_f8_info] {
            assert!(!s.is_empty());
        }
    }
}
