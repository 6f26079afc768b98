//! UI languages and the translated texts of the user interface.

use vstd::prelude::*;

use crate::text::str_equal;

verus! {

/// Supported UI languages.
#[derive(Clone, Copy, PartialEq, Eq, Debug, Structural)]
pub enum Language {
    English,
    German,
    Turkish,
}

/// The name shown for a language in the language selector.
pub open spec fn language_display_name(lang: Language) -> Seq<char> {
    match lang {
        Language::English => "English"@,
        Language::German => "Deutsch"@,
        Language::Turkish => "T\u{fc}rk\u{e7}e"@,
    }
}

/// The short code under which a language is stored in the configuration.
pub open spec fn language_code(lang: Language) -> Seq<char> {
    match lang {
        Language::English => "en"@,
        Language::German => "de"@,
        Language::Turkish => "tr"@,
    }
}

/// The language that a stored code selects; any unknown code selects English.
pub open spec fn language_of_code(code: Seq<char>) -> Language {
    if code == "de"@ {
        Language::German
    } else if code == "tr"@ {
        Language::Turkish
    } else {
        Language::English
    }
}

impl Language {
    /// All available languages, in selector order.
    pub const ALL: [Language; 3] = [Language::English, Language::German, Language::Turkish];

    /// Display name shown in the language selector.
    pub fn display_name(self) -> (r: &'static str)
        ensures
            r@ == language_display_name(self),
    {
        match self {
            Language::English => "English",
            Language::German => "Deutsch",
            Language::Turkish => "T\u{fc}rk\u{e7}e",
        }
    }

    /// Short code used in the configuration file.
    pub fn code(self) -> (r: &'static str)
        ensures
            r@ == language_code(self),
    {
        match self {
            Language::English => "en",
            Language::German => "de",
            Language::Turkish => "tr",
        }
    }

    /// Parse a language code; unknown codes fall back to English.
    pub fn from_code(code: &str) -> (r: Language)
        ensures
            r == language_of_code(code@),
    {
        if str_equal(code, "de") {
            Language::German
        } else if str_equal(code, "tr") {
            Language::Turkish
        } else {
            Language::English
        }
    }
}

impl Default for Language {
    fn default() -> (r: Language)
        ensures
            r == Language::English,
    {
        Language::English
    }
}

/// Decoding the code of a language gives that language back.
pub proof fn lemma_code_round_trip(lang: Language)
    ensures
        language_of_code(language_code(lang)) == lang,
{
    reveal_strlit("en");
    reveal_strlit("de");
    reveal_strlit("tr");
    assert("en"@[0] == 'e');
    assert("de"@[0] == 'd');
    assert("tr"@[0] == 't');
}

/// Distinct languages have distinct codes and distinct display names.
pub proof fn lemma_codes_and_names_distinct(a: Language, b: Language)
    requires
        a != b,
    ensures
        language_code(a) != language_code(b),
        language_display_name(a) != language_display_name(b),
{
    reveal_strlit("en");
    reveal_strlit("de");
    reveal_strlit("tr");
    reveal_strlit("English");
    reveal_strlit("Deutsch");
    reveal_strlit("T\u{fc}rk\u{e7}e");
    assert("en"@[0] == 'e');
    assert("de"@[0] == 'd');
    assert("tr"@[0] == 't');
    assert("English"@[0] == 'E');
    assert("Deutsch"@[0] == 'D');
    assert("T\u{fc}rk\u{e7}e"@[0] == 'T');
}

/// All translatable UI strings of one language.
pub struct Translations {
    // Brand bar
    pub brand_title: &'static str,
    pub brand_subtitle: &'static str,

    // Main header
    pub header: &'static str,

    // Hardware Effect Mode card
    pub hw_effect_title: &'static str,
    pub hw_effect_warning: &'static str,
    pub effect_label: &'static str,
    pub speed_label: &'static str,
    pub brightness_label: &'static str,
    pub speed_slow: &'static str,
    pub speed_medium: &'static str,
    pub speed_fast: &'static str,

    // Hardware mode names
    pub mode_off: &'static str,
    pub mode_static: &'static str,
    pub mode_breathing: &'static str,
    pub mode_single_flash: &'static str,
    pub mode_double_flash: &'static str,
    pub mode_multicolor: &'static str,
    pub mode_rainbow: &'static str,

    // Software Animation Mode card
    pub sw_anim_title: &'static str,
    pub sw_speed_label: &'static str,
    pub sw_randomize: &'static str,

    // Software mode names
    pub sw_disabled: &'static str,
    pub sw_random_color: &'static str,
    pub sw_smooth_rainbow: &'static str,
    pub sw_smooth_breathing: &'static str,
    pub sw_candle_flicker: &'static str,
    pub sw_ocean_wave: &'static str,
    pub sw_christmas: &'static str,
    pub sw_sunset: &'static str,
    pub sw_pulse: &'static str,
    pub sw_color_cycle: &'static str,
    pub sw_random_chaos: &'static str,

    // Color Configuration card
    pub color_config_title: &'static str,

    // Save button
    pub save_apply: &'static str,

    // Status messages
    pub status_applied: &'static str,
    pub status_error_prefix: &'static str,
    pub status_saved_sw: &'static str,
    pub status_minimized: &'static str,
    pub status_tray: &'static str,
    pub status_hotkey: &'static str,
    pub status_wakeup_ok: &'static str,
    pub status_wakeup_fail: &'static str,

    // Info card
    pub info_title: &'static str,
    pub fn_f8_info: &'static str,

    // Options card
    pub options_title: &'static str,
    pub opt_start_boot: &'static str,
    pub opt_close_tray: &'static str,
    pub opt_start_in_tray: &'static str,

    // Actions card
    pub actions_title: &'static str,
    pub act_force_wakeup: &'static str,
    pub act_refresh: &'static str,
    pub act_exit: &'static str,

    // Language selector
    pub language_label: &'static str,
}

/// The English UI texts.
pub open spec fn english_texts() -> Translations {
    Translations {
        brand_title: "RUST KEYBOARD",
        brand_subtitle: "LED Controller",
        header: "RGB Keyboard Lighting",
        hw_effect_title: "Hardware Effect Mode",
        hw_effect_warning: "\u{26A0} Software animation active \u{2014} hardware mode overridden",
        effect_label: "Effect:",
        speed_label: "Speed:",
        brightness_label: "Brightness:",
        speed_slow: "Slow",
        speed_medium: "Medium",
        speed_fast: "Fast",
        mode_off: "Off",
        mode_static: "Static Single Color",
        mode_breathing: "Breathing Wave",
        mode_single_flash: "Single Flashing",
        mode_double_flash: "Double Flashing",
        mode_multicolor: "Multi-color Shift",
        mode_rainbow: "Rainbow",
        sw_anim_title: "Software Animation Mode",
        sw_speed_label: "Speed:",
        sw_randomize: "\u{1F3B2} Randomize speed",
        sw_disabled: "\u{23F8}  Disabled (Hardware Mode)",
        sw_random_color: "\u{1F3B2}  Random Color",
        sw_smooth_rainbow: "\u{1F308}  Smooth Rainbow",
        sw_smooth_breathing: "\u{1FAC1}  Smooth Breathing",
        sw_candle_flicker: "\u{1F525}  Candle Flicker",
        sw_ocean_wave: "\u{1F30A}  Ocean Wave",
        sw_christmas: "\u{1F384}  Christmas",
        sw_sunset: "\u{1F305}  Sunset",
        sw_pulse: "\u{1F3B5}  Pulse",
        sw_color_cycle: "\u{1F49C}  Color Cycle",
        sw_random_chaos: "\u{1F500}  Random Chaos",
        color_config_title: "Color Configuration",
        save_apply: "\u{1F4BE}  Save & Apply to Keyboard",
        status_applied: "Applied & saved!",
        status_error_prefix: "Error:",
        status_saved_sw: "Saved! Software animation active.",
        status_minimized: "Started in System Tray",
        status_tray: "Minimized to System Tray",
        status_hotkey: "Keyboard toggled via Hotkey!",
        status_wakeup_ok: "Wake up sent!",
        status_wakeup_fail: "Wake up failed!",
        info_title: "Info",
        fn_f8_info: "Fn+F8: Cycle Hardware Modes",
        options_title: "Options",
        opt_start_boot: "\u{1F680} Start on Boot",
        opt_close_tray: "\u{1F4E5} Close to Tray",
        opt_start_in_tray: "\u{1F4E5} Start in Tray",
        actions_title: "Actions",
        act_force_wakeup: "\u{26A1}  Force Wake Up",
        act_refresh: "\u{1F504}  Refresh",
        act_exit: "\u{274C}  Exit Application",
        language_label: "Language:",
    }
}

/// The German UI texts.
pub open spec fn german_texts() -> Translations {
    Translations {
        brand_title: "RUST KEYBOARD",
        brand_subtitle: "LED-Steuerung",
        header: "RGB-Tastaturbeleuchtung",
        hw_effect_title: "Hardware-Effektmodus",
        hw_effect_warning: "\u{26A0} Software-Animation aktiv \u{2014} Hardware-Modus überschrieben",
        effect_label: "Effekt:",
        speed_label: "Geschwindigkeit:",
        brightness_label: "Helligkeit:",
        speed_slow: "Langsam",
        speed_medium: "Mittel",
        speed_fast: "Schnell",
        mode_off: "Aus",
        mode_static: "Statische Einzelfarbe",
        mode_breathing: "Atmende Welle",
        mode_single_flash: "Einzelnes Blinken",
        mode_double_flash: "Doppeltes Blinken",
        mode_multicolor: "Mehrfarben-Wechsel",
        mode_rainbow: "Regenbogen",
        sw_anim_title: "Software-Animationsmodus",
        sw_speed_label: "Geschwindigkeit:",
        sw_randomize: "\u{1F3B2} Zufällige Geschwindigkeit",
        sw_disabled: "\u{23F8}  Deaktiviert (Hardware-Modus)",
        sw_random_color: "\u{1F3B2}  Zufällige Farbe",
        sw_smooth_rainbow: "\u{1F308}  Sanfter Regenbogen",
        sw_smooth_breathing: "\u{1FAC1}  Sanftes Atmen",
        sw_candle_flicker: "\u{1F525}  Kerzenschein",
        sw_ocean_wave: "\u{1F30A}  Ozeanwelle",
        sw_christmas: "\u{1F384}  Weihnachten",
        sw_sunset: "\u{1F305}  Sonnenuntergang",
        sw_pulse: "\u{1F3B5}  Puls",
        sw_color_cycle: "\u{1F49C}  Farbzyklus",
        sw_random_chaos: "\u{1F500}  Zufalls-Chaos",
        color_config_title: "Farbkonfiguration",
        save_apply: "\u{1F4BE}  Speichern & Anwenden",
        status_applied: "Angewendet & gespeichert!",
        status_error_prefix: "Fehler:",
        status_saved_sw: "Gespeichert! Software-Animation aktiv.",
        status_minimized: "Im System-Tray gestartet",
        status_tray: "In den System-Tray minimiert",
        status_hotkey: "Tastatur per Hotkey umgeschaltet!",
        status_wakeup_ok: "Aufwecken gesendet!",
        status_wakeup_fail: "Aufwecken fehlgeschlagen!",
        info_title: "Info",
        fn_f8_info: "Fn+F8: Hardware-Modi durchschalten",
        options_title: "Optionen",
        opt_start_boot: "\u{1F680} Autostart",
        opt_close_tray: "\u{1F4E5} In Tray schließen",
        opt_start_in_tray: "\u{1F4E5} Im System-Tray starten",
        actions_title: "Aktionen",
        act_force_wakeup: "\u{26A1}  Aufwecken erzwingen",
        act_refresh: "\u{1F504}  Aktualisieren",
        act_exit: "\u{274C}  Anwendung beenden",
        language_label: "Sprache:",
    }
}

/// The Turkish UI texts.
pub open spec fn turkish_texts() -> Translations {
    Translations {
        brand_title: "RUST KEYBOARD",
        brand_subtitle: "LED Kontrol",
        header: "RGB Klavye Aydınlatması",
        hw_effect_title: "Donanım Efekt Modu",
        hw_effect_warning: "\u{26A0} Yazılım animasyonu aktif \u{2014} donanım modu geçersiz kılındı",
        effect_label: "Efekt:",
        speed_label: "Hız:",
        brightness_label: "Parlaklık:",
        speed_slow: "Yavaş",
        speed_medium: "Orta",
        speed_fast: "Hızlı",
        mode_off: "Kapalı",
        mode_static: "Sabit Tek Renk",
        mode_breathing: "Nefes Alan Dalga",
        mode_single_flash: "Tekli Yanıp Sönme",
        mode_double_flash: "Çiftli Yanıp Sönme",
        mode_multicolor: "Çok Renkli Geçiş",
        mode_rainbow: "Gökkuşağı",
        sw_anim_title: "Yazılım Animasyon Modu",
        sw_speed_label: "Hız:",
        sw_randomize: "\u{1F3B2} Rastgele hız",
        sw_disabled: "\u{23F8}  Devre Dışı (Donanım Modu)",
        sw_random_color: "\u{1F3B2}  Rastgele Renk",
        sw_smooth_rainbow: "\u{1F308}  Yumuşak Gökkuşağı",
        sw_smooth_breathing: "\u{1FAC1}  Yumuşak Nefes",
        sw_candle_flicker: "\u{1F525}  Mum Titremesi",
        sw_ocean_wave: "\u{1F30A}  Okyanus Dalgası",
        sw_christmas: "\u{1F384}  Noel",
        sw_sunset: "\u{1F305}  Gün Batımı",
        sw_pulse: "\u{1F3B5}  Nabız",
        sw_color_cycle: "\u{1F49C}  Renk Döngüsü",
        sw_random_chaos: "\u{1F500}  Rastgele Kaos",
        color_config_title: "Renk Yapılandırması",
        save_apply: "\u{1F4BE}  Kaydet ve Uygula",
        status_applied: "Uygulandı ve kaydedildi!",
        status_error_prefix: "Hata:",
        status_saved_sw: "Kaydedildi! Yazılım animasyonu aktif.",
        status_minimized: "Sistem tepsisinde başlatıldı",
        status_tray: "Sistem tepsisine küçültüldü",
        status_hotkey: "Klavye kısayol tuşuyla değiştirildi!",
        status_wakeup_ok: "Uyandırma gönderildi!",
        status_wakeup_fail: "Uyandırma başarısız!",
        info_title: "Bilgi",
        fn_f8_info: "Fn+F8: Donanım Modları Arasında Geçiş",
        options_title: "Seçenekler",
        opt_start_boot: "\u{1F680} Başlangıçta Çalıştır",
        opt_close_tray: "\u{1F4E5} Tepsiye Kapat",
        opt_start_in_tray: "\u{1F4E5} Sistem Tepsisinde Başlat",
        actions_title: "İşlemler",
        act_force_wakeup: "\u{26A1}  Zorla Uyandır",
        act_refresh: "\u{1F504}  Yenile",
        act_exit: "\u{274C}  Uygulamadan Çık",
        language_label: "Dil:",
    }
}

fn english() -> (t: Translations)
    ensures
        t == english_texts(),
{
    Translations {
        brand_title: "RUST KEYBOARD",
        brand_subtitle: "LED Controller",
        header: "RGB Keyboard Lighting",
        hw_effect_title: "Hardware Effect Mode",
        hw_effect_warning: "\u{26A0} Software animation active \u{2014} hardware mode overridden",
        effect_label: "Effect:",
        speed_label: "Speed:",
        brightness_label: "Brightness:",
        speed_slow: "Slow",
        speed_medium: "Medium",
        speed_fast: "Fast",
        mode_off: "Off",
        mode_static: "Static Single Color",
        mode_breathing: "Breathing Wave",
        mode_single_flash: "Single Flashing",
        mode_double_flash: "Double Flashing",
        mode_multicolor: "Multi-color Shift",
        mode_rainbow: "Rainbow",
        sw_anim_title: "Software Animation Mode",
        sw_speed_label: "Speed:",
        sw_randomize: "\u{1F3B2} Randomize speed",
        sw_disabled: "\u{23F8}  Disabled (Hardware Mode)",
        sw_random_color: "\u{1F3B2}  Random Color",
        sw_smooth_rainbow: "\u{1F308}  Smooth Rainbow",
        sw_smooth_breathing: "\u{1FAC1}  Smooth Breathing",
        sw_candle_flicker: "\u{1F525}  Candle Flicker",
        sw_ocean_wave: "\u{1F30A}  Ocean Wave",
        sw_christmas: "\u{1F384}  Christmas",
        sw_sunset: "\u{1F305}  Sunset",
        sw_pulse: "\u{1F3B5}  Pulse",
        sw_color_cycle: "\u{1F49C}  Color Cycle",
        sw_random_chaos: "\u{1F500}  Random Chaos",
        color_config_title: "Color Configuration",
        save_apply: "\u{1F4BE}  Save & Apply to Keyboard",
        status_applied: "Applied & saved!",
        status_error_prefix: "Error:",
        status_saved_sw: "Saved! Software animation active.",
        status_minimized: "Started in System Tray",
        status_tray: "Minimized to System Tray",
        status_hotkey: "Keyboard toggled via Hotkey!",
        status_wakeup_ok: "Wake up sent!",
        status_wakeup_fail: "Wake up failed!",
        info_title: "Info",
        fn_f8_info: "Fn+F8: Cycle Hardware Modes",
        options_title: "Options",
        opt_start_boot: "\u{1F680} Start on Boot",
        opt_close_tray: "\u{1F4E5} Close to Tray",
        opt_start_in_tray: "\u{1F4E5} Start in Tray",
        actions_title: "Actions",
        act_force_wakeup: "\u{26A1}  Force Wake Up",
        act_refresh: "\u{1F504}  Refresh",
        act_exit: "\u{274C}  Exit Application",
        language_label: "Language:",
    }
}

fn german() -> (t: Translations)
    ensures
        t == german_texts(),
{
    Translations {
        brand_title: "RUST KEYBOARD",
        brand_subtitle: "LED-Steuerung",
        header: "RGB-Tastaturbeleuchtung",
        hw_effect_title: "Hardware-Effektmodus",
        hw_effect_warning: "\u{26A0} Software-Animation aktiv \u{2014} Hardware-Modus überschrieben",
        effect_label: "Effekt:",
        speed_label: "Geschwindigkeit:",
        brightness_label: "Helligkeit:",
        speed_slow: "Langsam",
        speed_medium: "Mittel",
        speed_fast: "Schnell",
        mode_off: "Aus",
        mode_static: "Statische Einzelfarbe",
        mode_breathing: "Atmende Welle",
        mode_single_flash: "Einzelnes Blinken",
        mode_double_flash: "Doppeltes Blinken",
        mode_multicolor: "Mehrfarben-Wechsel",
        mode_rainbow: "Regenbogen",
        sw_anim_title: "Software-Animationsmodus",
        sw_speed_label: "Geschwindigkeit:",
        sw_randomize: "\u{1F3B2} Zufällige Geschwindigkeit",
        sw_disabled: "\u{23F8}  Deaktiviert (Hardware-Modus)",
        sw_random_color: "\u{1F3B2}  Zufällige Farbe",
        sw_smooth_rainbow: "\u{1F308}  Sanfter Regenbogen",
        sw_smooth_breathing: "\u{1FAC1}  Sanftes Atmen",
        sw_candle_flicker: "\u{1F525}  Kerzenschein",
        sw_ocean_wave: "\u{1F30A}  Ozeanwelle",
        sw_christmas: "\u{1F384}  Weihnachten",
        sw_sunset: "\u{1F305}  Sonnenuntergang",
        sw_pulse: "\u{1F3B5}  Puls",
        sw_color_cycle: "\u{1F49C}  Farbzyklus",
        sw_random_chaos: "\u{1F500}  Zufalls-Chaos",
        color_config_title: "Farbkonfiguration",
        save_apply: "\u{1F4BE}  Speichern & Anwenden",
        status_applied: "Angewendet & gespeichert!",
        status_error_prefix: "Fehler:",
        status_saved_sw: "Gespeichert! Software-Animation aktiv.",
        status_minimized: "Im System-Tray gestartet",
        status_tray: "In den System-Tray minimiert",
        status_hotkey: "Tastatur per Hotkey umgeschaltet!",
        status_wakeup_ok: "Aufwecken gesendet!",
        status_wakeup_fail: "Aufwecken fehlgeschlagen!",
        info_title: "Info",
        fn_f8_info: "Fn+F8: Hardware-Modi durchschalten",
        options_title: "Optionen",
        opt_start_boot: "\u{1F680} Autostart",
        opt_close_tray: "\u{1F4E5} In Tray schließen",
        opt_start_in_tray: "\u{1F4E5} Im System-Tray starten",
        actions_title: "Aktionen",
        act_force_wakeup: "\u{26A1}  Aufwecken erzwingen",
        act_refresh: "\u{1F504}  Aktualisieren",
        act_exit: "\u{274C}  Anwendung beenden",
        language_label: "Sprache:",
    }
}

fn turkish() -> (t: Translations)
    ensures
        t == turkish_texts(),
{
    Translations {
        brand_title: "RUST KEYBOARD",
        brand_subtitle: "LED Kontrol",
        header: "RGB Klavye Aydınlatması",
        hw_effect_title: "Donanım Efekt Modu",
        hw_effect_warning: "\u{26A0} Yazılım animasyonu aktif \u{2014} donanım modu geçersiz kılındı",
        effect_label: "Efekt:",
        speed_label: "Hız:",
        brightness_label: "Parlaklık:",
        speed_slow: "Yavaş",
        speed_medium: "Orta",
        speed_fast: "Hızlı",
        mode_off: "Kapalı",
        mode_static: "Sabit Tek Renk",
        mode_breathing: "Nefes Alan Dalga",
        mode_single_flash: "Tekli Yanıp Sönme",
        mode_double_flash: "Çiftli Yanıp Sönme",
        mode_multicolor: "Çok Renkli Geçiş",
        mode_rainbow: "Gökkuşağı",
        sw_anim_title: "Yazılım Animasyon Modu",
        sw_speed_label: "Hız:",
        sw_randomize: "\u{1F3B2} Rastgele hız",
        sw_disabled: "\u{23F8}  Devre Dışı (Donanım Modu)",
        sw_random_color: "\u{1F3B2}  Rastgele Renk",
        sw_smooth_rainbow: "\u{1F308}  Yumuşak Gökkuşağı",
        sw_smooth_breathing: "\u{1FAC1}  Yumuşak Nefes",
        sw_candle_flicker: "\u{1F525}  Mum Titremesi",
        sw_ocean_wave: "\u{1F30A}  Okyanus Dalgası",
        sw_christmas: "\u{1F384}  Noel",
        sw_sunset: "\u{1F305}  Gün Batımı",
        sw_pulse: "\u{1F3B5}  Nabız",
        sw_color_cycle: "\u{1F49C}  Renk Döngüsü",
        sw_random_chaos: "\u{1F500}  Rastgele Kaos",
        color_config_title: "Renk Yapılandırması",
        save_apply: "\u{1F4BE}  Kaydet ve Uygula",
        status_applied: "Uygulandı ve kaydedildi!",
        status_error_prefix: "Hata:",
        status_saved_sw: "Kaydedildi! Yazılım animasyonu aktif.",
        status_minimized: "Sistem tepsisinde başlatıldı",
        status_tray: "Sistem tepsisine küçültüldü",
        status_hotkey: "Klavye kısayol tuşuyla değiştirildi!",
        status_wakeup_ok: "Uyandırma gönderildi!",
        status_wakeup_fail: "Uyandırma başarısız!",
        info_title: "Bilgi",
        fn_f8_info: "Fn+F8: Donanım Modları Arasında Geçiş",
        options_title: "Seçenekler",
        opt_start_boot: "\u{1F680} Başlangıçta Çalıştır",
        opt_close_tray: "\u{1F4E5} Tepsiye Kapat",
        opt_start_in_tray: "\u{1F4E5} Sistem Tepsisinde Başlat",
        actions_title: "İşlemler",
        act_force_wakeup: "\u{26A1}  Zorla Uyandır",
        act_refresh: "\u{1F504}  Yenile",
        act_exit: "\u{274C}  Uygulamadan Çık",
        language_label: "Dil:",
    }
}


/// The table of UI texts for a language.
pub open spec fn texts_of(lang: Language) -> Translations {
    match lang {
        Language::English => english_texts(),
        Language::German => german_texts(),
        Language::Turkish => turkish_texts(),
    }
}

/// Return the translations for the given language.
pub fn translations(lang: Language) -> (t: Translations)
    ensures
        t == texts_of(lang),
{
    match lang {
        Language::English => english(),
        Language::German => german(),
        Language::Turkish => turkish(),
    }
}

/// The name of a software animation mode in the given texts; modes past the
/// last one are named "Unknown".
pub open spec fn software_mode_name(t: Translations, mode: u8) -> &'static str {
    if mode == 0 {
        t.sw_disabled
    } else if mode == 1 {
        t.sw_random_color
    } else if mode == 2 {
        t.sw_smooth_rainbow
    } else if mode == 3 {
        t.sw_smooth_breathing
    } else if mode == 4 {
        t.sw_candle_flicker
    } else if mode == 5 {
        t.sw_ocean_wave
    } else if mode == 6 {
        t.sw_christmas
    } else if mode == 7 {
        t.sw_sunset
    } else if mode == 8 {
        t.sw_pulse
    } else if mode == 9 {
        t.sw_color_cycle
    } else if mode == 10 {
        t.sw_random_chaos
    } else {
        "Unknown"
    }
}

/// Get the translated software mode name from a Translations struct.
pub fn software_mode_name_translated(t: &Translations, mode: u8) -> (r: &'static str)
    ensures
        r == software_mode_name(*t, mode),
{
    match mode {
        0 => t.sw_disabled,
        1 => t.sw_random_color,
        2 => t.sw_smooth_rainbow,
        3 => t.sw_smooth_breathing,
        4 => t.sw_candle_flicker,
        5 => t.sw_ocean_wave,
        6 => t.sw_christmas,
        7 => t.sw_sunset,
        8 => t.sw_pulse,
        9 => t.sw_color_cycle,
        10 => t.sw_random_chaos,
        _ => "Unknown",
    }
}

/// The name of a hardware lighting effect in the given texts; effects past
/// the last one are named "Unknown".
pub open spec fn hardware_mode_name(t: Translations, mode: u8) -> &'static str {
    if mode == 0 {
        t.mode_off
    } else if mode == 1 {
        t.mode_static
    } else if mode == 2 {
        t.mode_breathing
    } else if mode == 3 {
        t.mode_single_flash
    } else if mode == 4 {
        t.mode_double_flash
    } else if mode == 5 {
        t.mode_multicolor
    } else if mode == 6 {
        t.mode_rainbow
    } else {
        "Unknown"
    }
}

/// Each hardware effect is named by its own field of the texts, in the
/// firmware's numbering: 0 off, 1 static, 2 breathing, 3 single flash,
/// 4 double flash, 5 multi-colour shift, 6 rainbow; any other number is
/// "Unknown".
pub proof fn lemma_hardware_mode_names(t: Translations, mode: u8)
    ensures
        hardware_mode_name(t, 0) == t.mode_off,
        hardware_mode_name(t, 1) == t.mode_static,
        hardware_mode_name(t, 2) == t.mode_breathing,
        hardware_mode_name(t, 3) == t.mode_single_flash,
        hardware_mode_name(t, 4) == t.mode_double_flash,
        hardware_mode_name(t, 5) == t.mode_multicolor,
        hardware_mode_name(t, 6) == t.mode_rainbow,
        mode >= 7 ==> hardware_mode_name(t, mode) == "Unknown",
{
}

/// Each software animation is named by its own field of the texts:
/// 0 disabled, 1 random colour, 2 smooth rainbow, 3 smooth breathing,
/// 4 candle flicker, 5 ocean wave, 6 Christmas, 7 sunset, 8 pulse,
/// 9 colour cycle, 10 random chaos; any other number is "Unknown".
pub proof fn lemma_software_mode_names(t: Translations, mode: u8)
    ensures
        software_mode_name(t, 0) == t.sw_disabled,
        software_mode_name(t, 1) == t.sw_random_color,
        software_mode_name(t, 2) == t.sw_smooth_rainbow,
        software_mode_name(t, 3) == t.sw_smooth_breathing,
        software_mode_name(t, 4) == t.sw_candle_flicker,
        software_mode_name(t, 5) == t.sw_ocean_wave,
        software_mode_name(t, 6) == t.sw_christmas,
        software_mode_name(t, 7) == t.sw_sunset,
        software_mode_name(t, 8) == t.sw_pulse,
        software_mode_name(t, 9) == t.sw_color_cycle,
        software_mode_name(t, 10) == t.sw_random_chaos,
        mode > 10 ==> software_mode_name(t, mode) == "Unknown",
{
}

/// The effect names in the order of the effect selector.
pub fn hardware_mode_names(t: &Translations) -> (r: [&'static str; 7])
    ensures
        forall|i: int| 0 <= i < 7 ==> #[trigger] r[i] == hardware_mode_name(*t, i as u8),
        r[0] == t.mode_off,
        r[1] == t.mode_static,
        r[2] == t.mode_breathing,
        r[3] == t.mode_single_flash,
        r[4] == t.mode_double_flash,
        r[5] == t.mode_multicolor,
        r[6] == t.mode_rainbow,
{
    [
        t.mode_off,
        t.mode_static,
        t.mode_breathing,
        t.mode_single_flash,
        t.mode_double_flash,
        t.mode_multicolor,
        t.mode_rainbow,
    ]
}

/// The name of the selected hardware effect, found by its value in the
/// selector's list, or "Unknown" when no entry has that value.
pub fn hardware_mode_name_translated(t: &Translations, mode: u8) -> (r: &'static str)
    ensures
        r == hardware_mode_name(*t, mode),
{
    let names = hardware_mode_names(t);
    let mut i: usize = 0;
    while i < 7
        invariant
            i <= 7,
            forall|j: int| 0 <= j < 7 ==> #[trigger] names[j] == hardware_mode_name(*t, j as u8),
            i <= mode,
        decreases 7 - i,
    {
        if i as u8 == mode {
            return names[i];
        }
        i = i + 1;
    }
    "Unknown"
}

/// The texts of a language are usable in the selectors: the effect names
/// are pairwise distinct, the animation names are pairwise distinct and none
/// of them reads "Unknown", and no text is empty.
pub open spec fn texts_well_formed(t: Translations) -> bool {
    &&& t.mode_off@ != t.mode_static@
    &&& t.mode_off@ != t.mode_breathing@
    &&& t.mode_off@ != t.mode_single_flash@
    &&& t.mode_off@ != t.mode_double_flash@
    &&& t.mode_off@ != t.mode_multicolor@
    &&& t.mode_off@ != t.mode_rainbow@
    &&& t.mode_static@ != t.mode_breathing@
    &&& t.mode_static@ != t.mode_single_flash@
    &&& t.mode_static@ != t.mode_double_flash@
    &&& t.mode_static@ != t.mode_multicolor@
    &&& t.mode_static@ != t.mode_rainbow@
    &&& t.mode_breathing@ != t.mode_single_flash@
    &&& t.mode_breathing@ != t.mode_double_flash@
    &&& t.mode_breathing@ != t.mode_multicolor@
    &&& t.mode_breathing@ != t.mode_rainbow@
    &&& t.mode_single_flash@ != t.mode_double_flash@
    &&& t.mode_single_flash@ != t.mode_multicolor@
    &&& t.mode_single_flash@ != t.mode_rainbow@
    &&& t.mode_double_flash@ != t.mode_multicolor@
    &&& t.mode_double_flash@ != t.mode_rainbow@
    &&& t.mode_multicolor@ != t.mode_rainbow@
    &&& t.sw_disabled@ != t.sw_random_color@
    &&& t.sw_disabled@ != t.sw_smooth_rainbow@
    &&& t.sw_disabled@ != t.sw_smooth_breathing@
    &&& t.sw_disabled@ != t.sw_candle_flicker@
    &&& t.sw_disabled@ != t.sw_ocean_wave@
    &&& t.sw_disabled@ != t.sw_christmas@
    &&& t.sw_disabled@ != t.sw_sunset@
    &&& t.sw_disabled@ != t.sw_pulse@
    &&& t.sw_disabled@ != t.sw_color_cycle@
    &&& t.sw_disabled@ != t.sw_random_chaos@
    &&& t.sw_random_color@ != t.sw_smooth_rainbow@
    &&& t.sw_random_color@ != t.sw_smooth_breathing@
    &&& t.sw_random_color@ != t.sw_candle_flicker@
    &&& t.sw_random_color@ != t.sw_ocean_wave@
    &&& t.sw_random_color@ != t.sw_christmas@
    &&& t.sw_random_color@ != t.sw_sunset@
    &&& t.sw_random_color@ != t.sw_pulse@
    &&& t.sw_random_color@ != t.sw_color_cycle@
    &&& t.sw_random_color@ != t.sw_random_chaos@
    &&& t.sw_smooth_rainbow@ != t.sw_smooth_breathing@
    &&& t.sw_smooth_rainbow@ != t.sw_candle_flicker@
    &&& t.sw_smooth_rainbow@ != t.sw_ocean_wave@
    &&& t.sw_smooth_rainbow@ != t.sw_christmas@
    &&& t.sw_smooth_rainbow@ != t.sw_sunset@
    &&& t.sw_smooth_rainbow@ != t.sw_pulse@
    &&& t.sw_smooth_rainbow@ != t.sw_color_cycle@
    &&& t.sw_smooth_rainbow@ != t.sw_random_chaos@
    &&& t.sw_smooth_breathing@ != t.sw_candle_flicker@
    &&& t.sw_smooth_breathing@ != t.sw_ocean_wave@
    &&& t.sw_smooth_breathing@ != t.sw_christmas@
    &&& t.sw_smooth_breathing@ != t.sw_sunset@
    &&& t.sw_smooth_breathing@ != t.sw_pulse@
    &&& t.sw_smooth_breathing@ != t.sw_color_cycle@
    &&& t.sw_smooth_breathing@ != t.sw_random_chaos@
    &&& t.sw_candle_flicker@ != t.sw_ocean_wave@
    &&& t.sw_candle_flicker@ != t.sw_christmas@
    &&& t.sw_candle_flicker@ != t.sw_sunset@
    &&& t.sw_candle_flicker@ != t.sw_pulse@
    &&& t.sw_candle_flicker@ != t.sw_color_cycle@
    &&& t.sw_candle_flicker@ != t.sw_random_chaos@
    &&& t.sw_ocean_wave@ != t.sw_christmas@
    &&& t.sw_ocean_wave@ != t.sw_sunset@
    &&& t.sw_ocean_wave@ != t.sw_pulse@
    &&& t.sw_ocean_wave@ != t.sw_color_cycle@
    &&& t.sw_ocean_wave@ != t.sw_random_chaos@
    &&& t.sw_christmas@ != t.sw_sunset@
    &&& t.sw_christmas@ != t.sw_pulse@
    &&& t.sw_christmas@ != t.sw_color_cycle@
    &&& t.sw_christmas@ != t.sw_random_chaos@
    &&& t.sw_sunset@ != t.sw_pulse@
    &&& t.sw_sunset@ != t.sw_color_cycle@
    &&& t.sw_sunset@ != t.sw_random_chaos@
    &&& t.sw_pulse@ != t.sw_color_cycle@
    &&& t.sw_pulse@ != t.sw_random_chaos@
    &&& t.sw_color_cycle@ != t.sw_random_chaos@
    &&& t.sw_disabled@ != "Unknown"@
    &&& t.sw_random_color@ != "Unknown"@
    &&& t.sw_smooth_rainbow@ != "Unknown"@
    &&& t.sw_smooth_breathing@ != "Unknown"@
    &&& t.sw_candle_flicker@ != "Unknown"@
    &&& t.sw_ocean_wave@ != "Unknown"@
    &&& t.sw_christmas@ != "Unknown"@
    &&& t.sw_sunset@ != "Unknown"@
    &&& t.sw_pulse@ != "Unknown"@
    &&& t.sw_color_cycle@ != "Unknown"@
    &&& t.sw_random_chaos@ != "Unknown"@
    &&& t.brand_title@.len() > 0
    &&& t.brand_subtitle@.len() > 0
    &&& t.header@.len() > 0
    &&& t.hw_effect_title@.len() > 0
    &&& t.hw_effect_warning@.len() > 0
    &&& t.effect_label@.len() > 0
    &&& t.speed_label@.len() > 0
    &&& t.brightness_label@.len() > 0
    &&& t.speed_slow@.len() > 0
    &&& t.speed_medium@.len() > 0
    &&& t.speed_fast@.len() > 0
    &&& t.mode_off@.len() > 0
    &&& t.mode_static@.len() > 0
    &&& t.mode_breathing@.len() > 0
    &&& t.mode_single_flash@.len() > 0
    &&& t.mode_double_flash@.len() > 0
    &&& t.mode_multicolor@.len() > 0
    &&& t.mode_rainbow@.len() > 0
    &&& t.sw_anim_title@.len() > 0
    &&& t.sw_speed_label@.len() > 0
    &&& t.sw_randomize@.len() > 0
    &&& t.sw_disabled@.len() > 0
    &&& t.sw_random_color@.len() > 0
    &&& t.sw_smooth_rainbow@.len() > 0
    &&& t.sw_smooth_breathing@.len() > 0
    &&& t.sw_candle_flicker@.len() > 0
    &&& t.sw_ocean_wave@.len() > 0
    &&& t.sw_christmas@.len() > 0
    &&& t.sw_sunset@.len() > 0
    &&& t.sw_pulse@.len() > 0
    &&& t.sw_color_cycle@.len() > 0
    &&& t.sw_random_chaos@.len() > 0
    &&& t.color_config_title@.len() > 0
    &&& t.save_apply@.len() > 0
    &&& t.status_applied@.len() > 0
    &&& t.status_error_prefix@.len() > 0
    &&& t.status_saved_sw@.len() > 0
    &&& t.status_minimized@.len() > 0
    &&& t.status_tray@.len() > 0
    &&& t.status_hotkey@.len() > 0
    &&& t.status_wakeup_ok@.len() > 0
    &&& t.status_wakeup_fail@.len() > 0
    &&& t.info_title@.len() > 0
    &&& t.fn_f8_info@.len() > 0
    &&& t.options_title@.len() > 0
    &&& t.opt_start_boot@.len() > 0
    &&& t.opt_close_tray@.len() > 0
    &&& t.opt_start_in_tray@.len() > 0
    &&& t.actions_title@.len() > 0
    &&& t.act_force_wakeup@.len() > 0
    &&& t.act_refresh@.len() > 0
    &&& t.act_exit@.len() > 0
    &&& t.language_label@.len() > 0
}

proof fn lemma_english_texts_well_formed()
    ensures
        texts_well_formed(english_texts()),
{
    reveal_strlit("Actions");
    reveal_strlit("Applied & saved!");
    reveal_strlit("Breathing Wave");
    reveal_strlit("Brightness:");
    reveal_strlit("Color Configuration");
    reveal_strlit("Double Flashing");
    reveal_strlit("Effect:");
    reveal_strlit("Error:");
    reveal_strlit("Fast");
    reveal_strlit("Fn+F8: Cycle Hardware Modes");
    reveal_strlit("Hardware Effect Mode");
    reveal_strlit("Info");
    reveal_strlit("Keyboard toggled via Hotkey!");
    reveal_strlit("LED Controller");
    reveal_strlit("Language:");
    reveal_strlit("Medium");
    reveal_strlit("Minimized to System Tray");
    reveal_strlit("Multi-color Shift");
    reveal_strlit("Off");
    reveal_strlit("Options");
    reveal_strlit("RGB Keyboard Lighting");
    reveal_strlit("RUST KEYBOARD");
    reveal_strlit("Rainbow");
    reveal_strlit("Saved! Software animation active.");
    reveal_strlit("Single Flashing");
    reveal_strlit("Slow");
    reveal_strlit("Software Animation Mode");
    reveal_strlit("Speed:");
    reveal_strlit("Started in System Tray");
    reveal_strlit("Static Single Color");
    reveal_strlit("Unknown");
    reveal_strlit("Wake up failed!");
    reveal_strlit("Wake up sent!");
    reveal_strlit("\u{1F305}  Sunset");
    reveal_strlit("\u{1F308}  Smooth Rainbow");
    reveal_strlit("\u{1F30A}  Ocean Wave");
    reveal_strlit("\u{1F384}  Christmas");
    reveal_strlit("\u{1F3B2}  Random Color");
    reveal_strlit("\u{1F3B2} Randomize speed");
    reveal_strlit("\u{1F3B5}  Pulse");
    reveal_strlit("\u{1F49C}  Color Cycle");
    reveal_strlit("\u{1F4BE}  Save & Apply to Keyboard");
    reveal_strlit("\u{1F4E5} Close to Tray");
    reveal_strlit("\u{1F4E5} Start in Tray");
    reveal_strlit("\u{1F500}  Random Chaos");
    reveal_strlit("\u{1F504}  Refresh");
    reveal_strlit("\u{1F525}  Candle Flicker");
    reveal_strlit("\u{1F680} Start on Boot");
    reveal_strlit("\u{1FAC1}  Smooth Breathing");
    reveal_strlit("\u{23F8}  Disabled (Hardware Mode)");
    reveal_strlit("\u{26A0} Software animation active \u{2014} hardware mode overridden");
    reveal_strlit("\u{26A1}  Force Wake Up");
    reveal_strlit("\u{274C}  Exit Application");
    assert("Off"@[0] != "Static Single Color"@[0]);
    assert("Off"@[0] != "Breathing Wave"@[0]);
    assert("Off"@[0] != "Single Flashing"@[0]);
    assert("Off"@[0] != "Double Flashing"@[0]);
    assert("Off"@[0] != "Multi-color Shift"@[0]);
    assert("Off"@[0] != "Rainbow"@[0]);
    assert("Static Single Color"@[0] != "Breathing Wave"@[0]);
    assert("Static Single Color"@[1] != "Single Flashing"@[1]);
    assert("Static Single Color"@[0] != "Double Flashing"@[0]);
    assert("Static Single Color"@[0] != "Multi-color Shift"@[0]);
    assert("Static Single Color"@[0] != "Rainbow"@[0]);
    assert("Breathing Wave"@[0] != "Single Flashing"@[0]);
    assert("Breathing Wave"@[0] != "Double Flashing"@[0]);
    assert("Breathing Wave"@[0] != "Multi-color Shift"@[0]);
    assert("Breathing Wave"@[0] != "Rainbow"@[0]);
    assert("Single Flashing"@[0] != "Double Flashing"@[0]);
    assert("Single Flashing"@[0] != "Multi-color Shift"@[0]);
    assert("Single Flashing"@[0] != "Rainbow"@[0]);
    assert("Double Flashing"@[0] != "Multi-color Shift"@[0]);
    assert("Double Flashing"@[0] != "Rainbow"@[0]);
    assert("Multi-color Shift"@[0] != "Rainbow"@[0]);
    assert("\u{23F8}  Disabled (Hardware Mode)"@[0] != "\u{1F3B2}  Random Color"@[0]);
    assert("\u{23F8}  Disabled (Hardware Mode)"@[0] != "\u{1F308}  Smooth Rainbow"@[0]);
    assert("\u{23F8}  Disabled (Hardware Mode)"@[0] != "\u{1FAC1}  Smooth Breathing"@[0]);
    assert("\u{23F8}  Disabled (Hardware Mode)"@[0] != "\u{1F525}  Candle Flicker"@[0]);
    assert("\u{23F8}  Disabled (Hardware Mode)"@[0] != "\u{1F30A}  Ocean Wave"@[0]);
    assert("\u{23F8}  Disabled (Hardware Mode)"@[0] != "\u{1F384}  Christmas"@[0]);
    assert("\u{23F8}  Disabled (Hardware Mode)"@[0] != "\u{1F305}  Sunset"@[0]);
    assert("\u{23F8}  Disabled (Hardware Mode)"@[0] != "\u{1F3B5}  Pulse"@[0]);
    assert("\u{23F8}  Disabled (Hardware Mode)"@[0] != "\u{1F49C}  Color Cycle"@[0]);
    assert("\u{23F8}  Disabled (Hardware Mode)"@[0] != "\u{1F500}  Random Chaos"@[0]);
    assert("\u{1F3B2}  Random Color"@[0] != "\u{1F308}  Smooth Rainbow"@[0]);
    assert("\u{1F3B2}  Random Color"@[0] != "\u{1FAC1}  Smooth Breathing"@[0]);
    assert("\u{1F3B2}  Random Color"@[0] != "\u{1F525}  Candle Flicker"@[0]);
    assert("\u{1F3B2}  Random Color"@[0] != "\u{1F30A}  Ocean Wave"@[0]);
    assert("\u{1F3B2}  Random Color"@[0] != "\u{1F384}  Christmas"@[0]);
    assert("\u{1F3B2}  Random Color"@[0] != "\u{1F305}  Sunset"@[0]);
    assert("\u{1F3B2}  Random Color"@[0] != "\u{1F3B5}  Pulse"@[0]);
    assert("\u{1F3B2}  Random Color"@[0] != "\u{1F49C}  Color Cycle"@[0]);
    assert("\u{1F3B2}  Random Color"@[0] != "\u{1F500}  Random Chaos"@[0]);
    assert("\u{1F308}  Smooth Rainbow"@[0] != "\u{1FAC1}  Smooth Breathing"@[0]);
    assert("\u{1F308}  Smooth Rainbow"@[0] != "\u{1F525}  Candle Flicker"@[0]);
    assert("\u{1F308}  Smooth Rainbow"@[0] != "\u{1F30A}  Ocean Wave"@[0]);
    assert("\u{1F308}  Smooth Rainbow"@[0] != "\u{1F384}  Christmas"@[0]);
    assert("\u{1F308}  Smooth Rainbow"@[0] != "\u{1F305}  Sunset"@[0]);
    assert("\u{1F308}  Smooth Rainbow"@[0] != "\u{1F3B5}  Pulse"@[0]);
    assert("\u{1F308}  Smooth Rainbow"@[0] != "\u{1F49C}  Color Cycle"@[0]);
    assert("\u{1F308}  Smooth Rainbow"@[0] != "\u{1F500}  Random Chaos"@[0]);
    assert("\u{1FAC1}  Smooth Breathing"@[0] != "\u{1F525}  Candle Flicker"@[0]);
    assert("\u{1FAC1}  Smooth Breathing"@[0] != "\u{1F30A}  Ocean Wave"@[0]);
    assert("\u{1FAC1}  Smooth Breathing"@[0] != "\u{1F384}  Christmas"@[0]);
    assert("\u{1FAC1}  Smooth Breathing"@[0] != "\u{1F305}  Sunset"@[0]);
    assert("\u{1FAC1}  Smooth Breathing"@[0] != "\u{1F3B5}  Pulse"@[0]);
    assert("\u{1FAC1}  Smooth Breathing"@[0] != "\u{1F49C}  Color Cycle"@[0]);
    assert("\u{1FAC1}  Smooth Breathing"@[0] != "\u{1F500}  Random Chaos"@[0]);
    assert("\u{1F525}  Candle Flicker"@[0] != "\u{1F30A}  Ocean Wave"@[0]);
    assert("\u{1F525}  Candle Flicker"@[0] != "\u{1F384}  Christmas"@[0]);
    assert("\u{1F525}  Candle Flicker"@[0] != "\u{1F305}  Sunset"@[0]);
    assert("\u{1F525}  Candle Flicker"@[0] != "\u{1F3B5}  Pulse"@[0]);
    assert("\u{1F525}  Candle Flicker"@[0] != "\u{1F49C}  Color Cycle"@[0]);
    assert("\u{1F525}  Candle Flicker"@[0] != "\u{1F500}  Random Chaos"@[0]);
    assert("\u{1F30A}  Ocean Wave"@[0] != "\u{1F384}  Christmas"@[0]);
    assert("\u{1F30A}  Ocean Wave"@[0] != "\u{1F305}  Sunset"@[0]);
    assert("\u{1F30A}  Ocean Wave"@[0] != "\u{1F3B5}  Pulse"@[0]);
    assert("\u{1F30A}  Ocean Wave"@[0] != "\u{1F49C}  Color Cycle"@[0]);
    assert("\u{1F30A}  Ocean Wave"@[0] != "\u{1F500}  Random Chaos"@[0]);
    assert("\u{1F384}  Christmas"@[0] != "\u{1F305}  Sunset"@[0]);
    assert("\u{1F384}  Christmas"@[0] != "\u{1F3B5}  Pulse"@[0]);
    assert("\u{1F384}  Christmas"@[0] != "\u{1F49C}  Color Cycle"@[0]);
    assert("\u{1F384}  Christmas"@[0] != "\u{1F500}  Random Chaos"@[0]);
    assert("\u{1F305}  Sunset"@[0] != "\u{1F3B5}  Pulse"@[0]);
    assert("\u{1F305}  Sunset"@[0] != "\u{1F49C}  Color Cycle"@[0]);
    assert("\u{1F305}  Sunset"@[0] != "\u{1F500}  Random Chaos"@[0]);
    assert("\u{1F3B5}  Pulse"@[0] != "\u{1F49C}  Color Cycle"@[0]);
    assert("\u{1F3B5}  Pulse"@[0] != "\u{1F500}  Random Chaos"@[0]);
    assert("\u{1F49C}  Color Cycle"@[0] != "\u{1F500}  Random Chaos"@[0]);
    assert("\u{23F8}  Disabled (Hardware Mode)"@[0] != "Unknown"@[0]);
    assert("\u{1F3B2}  Random Color"@[0] != "Unknown"@[0]);
    assert("\u{1F308}  Smooth Rainbow"@[0] != "Unknown"@[0]);
    assert("\u{1FAC1}  Smooth Breathing"@[0] != "Unknown"@[0]);
    assert("\u{1F525}  Candle Flicker"@[0] != "Unknown"@[0]);
    assert("\u{1F30A}  Ocean Wave"@[0] != "Unknown"@[0]);
    assert("\u{1F384}  Christmas"@[0] != "Unknown"@[0]);
    assert("\u{1F305}  Sunset"@[0] != "Unknown"@[0]);
    assert("\u{1F3B5}  Pulse"@[0] != "Unknown"@[0]);
    assert("\u{1F49C}  Color Cycle"@[0] != "Unknown"@[0]);
    assert("\u{1F500}  Random Chaos"@[0] != "Unknown"@[0]);
}

proof fn lemma_german_texts_well_formed()
    ensures
        texts_well_formed(german_texts()),
{
    reveal_strlit("Aktionen");
    reveal_strlit("Angewendet & gespeichert!");
    reveal_strlit("Atmende Welle");
    reveal_strlit("Aufwecken fehlgeschlagen!");
    reveal_strlit("Aufwecken gesendet!");
    reveal_strlit("Aus");
    reveal_strlit("Doppeltes Blinken");
    reveal_strlit("Effekt:");
    reveal_strlit("Einzelnes Blinken");
    reveal_strlit("Farbkonfiguration");
    reveal_strlit("Fehler:");
    reveal_strlit("Fn+F8: Hardware-Modi durchschalten");
    reveal_strlit("Geschwindigkeit:");
    reveal_strlit("Gespeichert! Software-Animation aktiv.");
    reveal_strlit("Hardware-Effektmodus");
    reveal_strlit("Helligkeit:");
    reveal_strlit("Im System-Tray gestartet");
    reveal_strlit("In den System-Tray minimiert");
    reveal_strlit("Info");
    reveal_strlit("LED-Steuerung");
    reveal_strlit("Langsam");
    reveal_strlit("Mehrfarben-Wechsel");
    reveal_strlit("Mittel");
    reveal_strlit("Optionen");
    reveal_strlit("RGB-Tastaturbeleuchtung");
    reveal_strlit("RUST KEYBOARD");
    reveal_strlit("Regenbogen");
    reveal_strlit("Schnell");
    reveal_strlit("Software-Animationsmodus");
    reveal_strlit("Sprache:");
    reveal_strlit("Statische Einzelfarbe");
    reveal_strlit("Tastatur per Hotkey umgeschaltet!");
    reveal_strlit("Unknown");
    reveal_strlit("\u{1F305}  Sonnenuntergang");
    reveal_strlit("\u{1F308}  Sanfter Regenbogen");
    reveal_strlit("\u{1F30A}  Ozeanwelle");
    reveal_strlit("\u{1F384}  Weihnachten");
    reveal_strlit("\u{1F3B2}  Zufällige Farbe");
    reveal_strlit("\u{1F3B2} Zufällige Geschwindigkeit");
    reveal_strlit("\u{1F3B5}  Puls");
    reveal_strlit("\u{1F49C}  Farbzyklus");
    reveal_strlit("\u{1F4BE}  Speichern & Anwenden");
    reveal_strlit("\u{1F4E5} Im System-Tray starten");
    reveal_strlit("\u{1F4E5} In Tray schließen");
    reveal_strlit("\u{1F500}  Zufalls-Chaos");
    reveal_strlit("\u{1F504}  Aktualisieren");
    reveal_strlit("\u{1F525}  Kerzenschein");
    reveal_strlit("\u{1F680} Autostart");
    reveal_strlit("\u{1FAC1}  Sanftes Atmen");
    reveal_strlit("\u{23F8}  Deaktiviert (Hardware-Modus)");
    reveal_strlit("\u{26A0} Software-Animation aktiv \u{2014} Hardware-Modus überschrieben");
    reveal_strlit("\u{26A1}  Aufwecken erzwingen");
    reveal_strlit("\u{274C}  Anwendung beenden");
    assert("Aus"@[0] != "Statische Einzelfarbe"@[0]);
    assert("Aus"@[1] != "Atmende Welle"@[1]);
    assert("Aus"@[0] != "Einzelnes Blinken"@[0]);
    assert("Aus"@[0] != "Doppeltes Blinken"@[0]);
    assert("Aus"@[0] != "Mehrfarben-Wechsel"@[0]);
    assert("Aus"@[0] != "Regenbogen"@[0]);
    assert("Statische Einzelfarbe"@[0] != "Atmende Welle"@[0]);
    assert("Statische Einzelfarbe"@[0] != "Einzelnes Blinken"@[0]);
    assert("Statische Einzelfarbe"@[0] != "Doppeltes Blinken"@[0]);
    assert("Statische Einzelfarbe"@[0] != "Mehrfarben-Wechsel"@[0]);
    assert("Statische Einzelfarbe"@[0] != "Regenbogen"@[0]);
    assert("Atmende Welle"@[0] != "Einzelnes Blinken"@[0]);
    assert("Atmende Welle"@[0] != "Doppeltes Blinken"@[0]);
    assert("Atmende Welle"@[0] != "Mehrfarben-Wechsel"@[0]);
    assert("Atmende Welle"@[0] != "Regenbogen"@[0]);
    assert("Einzelnes Blinken"@[0] != "Doppeltes Blinken"@[0]);
    assert("Einzelnes Blinken"@[0] != "Mehrfarben-Wechsel"@[0]);
    assert("Einzelnes Blinken"@[0] != "Regenbogen"@[0]);
    assert("Doppeltes Blinken"@[0] != "Mehrfarben-Wechsel"@[0]);
    assert("Doppeltes Blinken"@[0] != "Regenbogen"@[0]);
    assert("Mehrfarben-Wechsel"@[0] != "Regenbogen"@[0]);
    assert("\u{23F8}  Deaktiviert (Hardware-Modus)"@[0] != "\u{1F3B2}  Zufällige Farbe"@[0]);
    assert("\u{23F8}  Deaktiviert (Hardware-Modus)"@[0] != "\u{1F308}  Sanfter Regenbogen"@[0]);
    assert("\u{23F8}  Deaktiviert (Hardware-Modus)"@[0] != "\u{1FAC1}  Sanftes Atmen"@[0]);
    assert("\u{23F8}  Deaktiviert (Hardware-Modus)"@[0] != "\u{1F525}  Kerzenschein"@[0]);
    assert("\u{23F8}  Deaktiviert (Hardware-Modus)"@[0] != "\u{1F30A}  Ozeanwelle"@[0]);
    assert("\u{23F8}  Deaktiviert (Hardware-Modus)"@[0] != "\u{1F384}  Weihnachten"@[0]);
    assert("\u{23F8}  Deaktiviert (Hardware-Modus)"@[0] != "\u{1F305}  Sonnenuntergang"@[0]);
    assert("\u{23F8}  Deaktiviert (Hardware-Modus)"@[0] != "\u{1F3B5}  Puls"@[0]);
    assert("\u{23F8}  Deaktiviert (Hardware-Modus)"@[0] != "\u{1F49C}  Farbzyklus"@[0]);
    assert("\u{23F8}  Deaktiviert (Hardware-Modus)"@[0] != "\u{1F500}  Zufalls-Chaos"@[0]);
    assert("\u{1F3B2}  Zufällige Farbe"@[0] != "\u{1F308}  Sanfter Regenbogen"@[0]);
    assert("\u{1F3B2}  Zufällige Farbe"@[0] != "\u{1FAC1}  Sanftes Atmen"@[0]);
    assert("\u{1F3B2}  Zufällige Farbe"@[0] != "\u{1F525}  Kerzenschein"@[0]);
    assert("\u{1F3B2}  Zufällige Farbe"@[0] != "\u{1F30A}  Ozeanwelle"@[0]);
    assert("\u{1F3B2}  Zufällige Farbe"@[0] != "\u{1F384}  Weihnachten"@[0]);
    assert("\u{1F3B2}  Zufällige Farbe"@[0] != "\u{1F305}  Sonnenuntergang"@[0]);
    assert("\u{1F3B2}  Zufällige Farbe"@[0] != "\u{1F3B5}  Puls"@[0]);
    assert("\u{1F3B2}  Zufällige Farbe"@[0] != "\u{1F49C}  Farbzyklus"@[0]);
    assert("\u{1F3B2}  Zufällige Farbe"@[0] != "\u{1F500}  Zufalls-Chaos"@[0]);
    assert("\u{1F308}  Sanfter Regenbogen"@[0] != "\u{1FAC1}  Sanftes Atmen"@[0]);
    assert("\u{1F308}  Sanfter Regenbogen"@[0] != "\u{1F525}  Kerzenschein"@[0]);
    assert("\u{1F308}  Sanfter Regenbogen"@[0] != "\u{1F30A}  Ozeanwelle"@[0]);
    assert("\u{1F308}  Sanfter Regenbogen"@[0] != "\u{1F384}  Weihnachten"@[0]);
    assert("\u{1F308}  Sanfter Regenbogen"@[0] != "\u{1F305}  Sonnenuntergang"@[0]);
    assert("\u{1F308}  Sanfter Regenbogen"@[0] != "\u{1F3B5}  Puls"@[0]);
    assert("\u{1F308}  Sanfter Regenbogen"@[0] != "\u{1F49C}  Farbzyklus"@[0]);
    assert("\u{1F308}  Sanfter Regenbogen"@[0] != "\u{1F500}  Zufalls-Chaos"@[0]);
    assert("\u{1FAC1}  Sanftes Atmen"@[0] != "\u{1F525}  Kerzenschein"@[0]);
    assert("\u{1FAC1}  Sanftes Atmen"@[0] != "\u{1F30A}  Ozeanwelle"@[0]);
    assert("\u{1FAC1}  Sanftes Atmen"@[0] != "\u{1F384}  Weihnachten"@[0]);
    assert("\u{1FAC1}  Sanftes Atmen"@[0] != "\u{1F305}  Sonnenuntergang"@[0]);
    assert("\u{1FAC1}  Sanftes Atmen"@[0] != "\u{1F3B5}  Puls"@[0]);
    assert("\u{1FAC1}  Sanftes Atmen"@[0] != "\u{1F49C}  Farbzyklus"@[0]);
    assert("\u{1FAC1}  Sanftes Atmen"@[0] != "\u{1F500}  Zufalls-Chaos"@[0]);
    assert("\u{1F525}  Kerzenschein"@[0] != "\u{1F30A}  Ozeanwelle"@[0]);
    assert("\u{1F525}  Kerzenschein"@[0] != "\u{1F384}  Weihnachten"@[0]);
    assert("\u{1F525}  Kerzenschein"@[0] != "\u{1F305}  Sonnenuntergang"@[0]);
    assert("\u{1F525}  Kerzenschein"@[0] != "\u{1F3B5}  Puls"@[0]);
    assert("\u{1F525}  Kerzenschein"@[0] != "\u{1F49C}  Farbzyklus"@[0]);
    assert("\u{1F525}  Kerzenschein"@[0] != "\u{1F500}  Zufalls-Chaos"@[0]);
    assert("\u{1F30A}  Ozeanwelle"@[0] != "\u{1F384}  Weihnachten"@[0]);
    assert("\u{1F30A}  Ozeanwelle"@[0] != "\u{1F305}  Sonnenuntergang"@[0]);
    assert("\u{1F30A}  Ozeanwelle"@[0] != "\u{1F3B5}  Puls"@[0]);
    assert("\u{1F30A}  Ozeanwelle"@[0] != "\u{1F49C}  Farbzyklus"@[0]);
    assert("\u{1F30A}  Ozeanwelle"@[0] != "\u{1F500}  Zufalls-Chaos"@[0]);
    assert("\u{1F384}  Weihnachten"@[0] != "\u{1F305}  Sonnenuntergang"@[0]);
    assert("\u{1F384}  Weihnachten"@[0] != "\u{1F3B5}  Puls"@[0]);
    assert("\u{1F384}  Weihnachten"@[0] != "\u{1F49C}  Farbzyklus"@[0]);
    assert("\u{1F384}  Weihnachten"@[0] != "\u{1F500}  Zufalls-Chaos"@[0]);
    assert("\u{1F305}  Sonnenuntergang"@[0] != "\u{1F3B5}  Puls"@[0]);
    assert("\u{1F305}  Sonnenuntergang"@[0] != "\u{1F49C}  Farbzyklus"@[0]);
    assert("\u{1F305}  Sonnenuntergang"@[0] != "\u{1F500}  Zufalls-Chaos"@[0]);
    assert("\u{1F3B5}  Puls"@[0] != "\u{1F49C}  Farbzyklus"@[0]);
    assert("\u{1F3B5}  Puls"@[0] != "\u{1F500}  Zufalls-Chaos"@[0]);
    assert("\u{1F49C}  Farbzyklus"@[0] != "\u{1F500}  Zufalls-Chaos"@[0]);
    assert("\u{23F8}  Deaktiviert (Hardware-Modus)"@[0] != "Unknown"@[0]);
    assert("\u{1F3B2}  Zufällige Farbe"@[0] != "Unknown"@[0]);
    assert("\u{1F308}  Sanfter Regenbogen"@[0] != "Unknown"@[0]);
    assert("\u{1FAC1}  Sanftes Atmen"@[0] != "Unknown"@[0]);
    assert("\u{1F525}  Kerzenschein"@[0] != "Unknown"@[0]);
    assert("\u{1F30A}  Ozeanwelle"@[0] != "Unknown"@[0]);
    assert("\u{1F384}  Weihnachten"@[0] != "Unknown"@[0]);
    assert("\u{1F305}  Sonnenuntergang"@[0] != "Unknown"@[0]);
    assert("\u{1F3B5}  Puls"@[0] != "Unknown"@[0]);
    assert("\u{1F49C}  Farbzyklus"@[0] != "Unknown"@[0]);
    assert("\u{1F500}  Zufalls-Chaos"@[0] != "Unknown"@[0]);
}

proof fn lemma_turkish_texts_well_formed()
    ensures
        texts_well_formed(turkish_texts()),
{
    reveal_strlit("Bilgi");
    reveal_strlit("Dil:");
    reveal_strlit("Donanım Efekt Modu");
    reveal_strlit("Efekt:");
    reveal_strlit("Fn+F8: Donanım Modları Arasında Geçiş");
    reveal_strlit("Gökkuşağı");
    reveal_strlit("Hata:");
    reveal_strlit("Hız:");
    reveal_strlit("Hızlı");
    reveal_strlit("Kapalı");
    reveal_strlit("Kaydedildi! Yazılım animasyonu aktif.");
    reveal_strlit("Klavye kısayol tuşuyla değiştirildi!");
    reveal_strlit("LED Kontrol");
    reveal_strlit("Nefes Alan Dalga");
    reveal_strlit("Orta");
    reveal_strlit("Parlaklık:");
    reveal_strlit("RGB Klavye Aydınlatması");
    reveal_strlit("RUST KEYBOARD");
    reveal_strlit("Renk Yapılandırması");
    reveal_strlit("Sabit Tek Renk");
    reveal_strlit("Seçenekler");
    reveal_strlit("Sistem tepsisinde başlatıldı");
    reveal_strlit("Sistem tepsisine küçültüldü");
    reveal_strlit("Tekli Yanıp Sönme");
    reveal_strlit("Unknown");
    reveal_strlit("Uyandırma başarısız!");
    reveal_strlit("Uyandırma gönderildi!");
    reveal_strlit("Uygulandı ve kaydedildi!");
    reveal_strlit("Yavaş");
    reveal_strlit("Yazılım Animasyon Modu");
    reveal_strlit("\u{1F305}  Gün Batımı");
    reveal_strlit("\u{1F308}  Yumuşak Gökkuşağı");
    reveal_strlit("\u{1F30A}  Okyanus Dalgası");
    reveal_strlit("\u{1F384}  Noel");
    reveal_strlit("\u{1F3B2}  Rastgele Renk");
    reveal_strlit("\u{1F3B2} Rastgele hız");
    reveal_strlit("\u{1F3B5}  Nabız");
    reveal_strlit("\u{1F49C}  Renk Döngüsü");
    reveal_strlit("\u{1F4BE}  Kaydet ve Uygula");
    reveal_strlit("\u{1F4E5} Sistem Tepsisinde Başlat");
    reveal_strlit("\u{1F4E5} Tepsiye Kapat");
    reveal_strlit("\u{1F500}  Rastgele Kaos");
    reveal_strlit("\u{1F504}  Yenile");
    reveal_strlit("\u{1F525}  Mum Titremesi");
    reveal_strlit("\u{1F680} Başlangıçta Çalıştır");
    reveal_strlit("\u{1FAC1}  Yumuşak Nefes");
    reveal_strlit("\u{23F8}  Devre Dışı (Donanım Modu)");
    reveal_strlit("\u{26A0} Yazılım animasyonu aktif \u{2014} donanım modu geçersiz kılındı");
    reveal_strlit("\u{26A1}  Zorla Uyandır");
    reveal_strlit("\u{274C}  Uygulamadan Çık");
    reveal_strlit("Çiftli Yanıp Sönme");
    reveal_strlit("Çok Renkli Geçiş");
    reveal_strlit("İşlemler");
    assert("Kapalı"@[0] != "Sabit Tek Renk"@[0]);
    assert("Kapalı"@[0] != "Nefes Alan Dalga"@[0]);
    assert("Kapalı"@[0] != "Tekli Yanıp Sönme"@[0]);
    assert("Kapalı"@[0] != "Çiftli Yanıp Sönme"@[0]);
    assert("Kapalı"@[0] != "Çok Renkli Geçiş"@[0]);
    assert("Kapalı"@[0] != "Gökkuşağı"@[0]);
    assert("Sabit Tek Renk"@[0] != "Nefes Alan Dalga"@[0]);
    assert("Sabit Tek Renk"@[0] != "Tekli Yanıp Sönme"@[0]);
    assert("Sabit Tek Renk"@[0] != "Çiftli Yanıp Sönme"@[0]);
    assert("Sabit Tek Renk"@[0] != "Çok Renkli Geçiş"@[0]);
    assert("Sabit Tek Renk"@[0] != "Gökkuşağı"@[0]);
    assert("Nefes Alan Dalga"@[0] != "Tekli Yanıp Sönme"@[0]);
    assert("Nefes Alan Dalga"@[0] != "Çiftli Yanıp Sönme"@[0]);
    assert("Nefes Alan Dalga"@[0] != "Çok Renkli Geçiş"@[0]);
    assert("Nefes Alan Dalga"@[0] != "Gökkuşağı"@[0]);
    assert("Tekli Yanıp Sönme"@[0] != "Çiftli Yanıp Sönme"@[0]);
    assert("Tekli Yanıp Sönme"@[0] != "Çok Renkli Geçiş"@[0]);
    assert("Tekli Yanıp Sönme"@[0] != "Gökkuşağı"@[0]);
    assert("Çiftli Yanıp Sönme"@[1] != "Çok Renkli Geçiş"@[1]);
    assert("Çiftli Yanıp Sönme"@[0] != "Gökkuşağı"@[0]);
    assert("Çok Renkli Geçiş"@[0] != "Gökkuşağı"@[0]);
    assert("\u{23F8}  Devre Dışı (Donanım Modu)"@[0] != "\u{1F3B2}  Rastgele Renk"@[0]);
    assert("\u{23F8}  Devre Dışı (Donanım Modu)"@[0] != "\u{1F308}  Yumuşak Gökkuşağı"@[0]);
    assert("\u{23F8}  Devre Dışı (Donanım Modu)"@[0] != "\u{1FAC1}  Yumuşak Nefes"@[0]);
    assert("\u{23F8}  Devre Dışı (Donanım Modu)"@[0] != "\u{1F525}  Mum Titremesi"@[0]);
    assert("\u{23F8}  Devre Dışı (Donanım Modu)"@[0] != "\u{1F30A}  Okyanus Dalgası"@[0]);
    assert("\u{23F8}  Devre Dışı (Donanım Modu)"@[0] != "\u{1F384}  Noel"@[0]);
    assert("\u{23F8}  Devre Dışı (Donanım Modu)"@[0] != "\u{1F305}  Gün Batımı"@[0]);
    assert("\u{23F8}  Devre Dışı (Donanım Modu)"@[0] != "\u{1F3B5}  Nabız"@[0]);
    assert("\u{23F8}  Devre Dışı (Donanım Modu)"@[0] != "\u{1F49C}  Renk Döngüsü"@[0]);
    assert("\u{23F8}  Devre Dışı (Donanım Modu)"@[0] != "\u{1F500}  Rastgele Kaos"@[0]);
    assert("\u{1F3B2}  Rastgele Renk"@[0] != "\u{1F308}  Yumuşak Gökkuşağı"@[0]);
    assert("\u{1F3B2}  Rastgele Renk"@[0] != "\u{1FAC1}  Yumuşak Nefes"@[0]);
    assert("\u{1F3B2}  Rastgele Renk"@[0] != "\u{1F525}  Mum Titremesi"@[0]);
    assert("\u{1F3B2}  Rastgele Renk"@[0] != "\u{1F30A}  Okyanus Dalgası"@[0]);
    assert("\u{1F3B2}  Rastgele Renk"@[0] != "\u{1F384}  Noel"@[0]);
    assert("\u{1F3B2}  Rastgele Renk"@[0] != "\u{1F305}  Gün Batımı"@[0]);
    assert("\u{1F3B2}  Rastgele Renk"@[0] != "\u{1F3B5}  Nabız"@[0]);
    assert("\u{1F3B2}  Rastgele Renk"@[0] != "\u{1F49C}  Renk Döngüsü"@[0]);
    assert("\u{1F3B2}  Rastgele Renk"@[0] != "\u{1F500}  Rastgele Kaos"@[0]);
    assert("\u{1F308}  Yumuşak Gökkuşağı"@[0] != "\u{1FAC1}  Yumuşak Nefes"@[0]);
    assert("\u{1F308}  Yumuşak Gökkuşağı"@[0] != "\u{1F525}  Mum Titremesi"@[0]);
    assert("\u{1F308}  Yumuşak Gökkuşağı"@[0] != "\u{1F30A}  Okyanus Dalgası"@[0]);
    assert("\u{1F308}  Yumuşak Gökkuşağı"@[0] != "\u{1F384}  Noel"@[0]);
    assert("\u{1F308}  Yumuşak Gökkuşağı"@[0] != "\u{1F305}  Gün Batımı"@[0]);
    assert("\u{1F308}  Yumuşak Gökkuşağı"@[0] != "\u{1F3B5}  Nabız"@[0]);
    assert("\u{1F308}  Yumuşak Gökkuşağı"@[0] != "\u{1F49C}  Renk Döngüsü"@[0]);
    assert("\u{1F308}  Yumuşak Gökkuşağı"@[0] != "\u{1F500}  Rastgele Kaos"@[0]);
    assert("\u{1FAC1}  Yumuşak Nefes"@[0] != "\u{1F525}  Mum Titremesi"@[0]);
    assert("\u{1FAC1}  Yumuşak Nefes"@[0] != "\u{1F30A}  Okyanus Dalgası"@[0]);
    assert("\u{1FAC1}  Yumuşak Nefes"@[0] != "\u{1F384}  Noel"@[0]);
    assert("\u{1FAC1}  Yumuşak Nefes"@[0] != "\u{1F305}  Gün Batımı"@[0]);
    assert("\u{1FAC1}  Yumuşak Nefes"@[0] != "\u{1F3B5}  Nabız"@[0]);
    assert("\u{1FAC1}  Yumuşak Nefes"@[0] != "\u{1F49C}  Renk Döngüsü"@[0]);
    assert("\u{1FAC1}  Yumuşak Nefes"@[0] != "\u{1F500}  Rastgele Kaos"@[0]);
    assert("\u{1F525}  Mum Titremesi"@[0] != "\u{1F30A}  Okyanus Dalgası"@[0]);
    assert("\u{1F525}  Mum Titremesi"@[0] != "\u{1F384}  Noel"@[0]);
    assert("\u{1F525}  Mum Titremesi"@[0] != "\u{1F305}  Gün Batımı"@[0]);
    assert("\u{1F525}  Mum Titremesi"@[0] != "\u{1F3B5}  Nabız"@[0]);
    assert("\u{1F525}  Mum Titremesi"@[0] != "\u{1F49C}  Renk Döngüsü"@[0]);
    assert("\u{1F525}  Mum Titremesi"@[0] != "\u{1F500}  Rastgele Kaos"@[0]);
    assert("\u{1F30A}  Okyanus Dalgası"@[0] != "\u{1F384}  Noel"@[0]);
    assert("\u{1F30A}  Okyanus Dalgası"@[0] != "\u{1F305}  Gün Batımı"@[0]);
    assert("\u{1F30A}  Okyanus Dalgası"@[0] != "\u{1F3B5}  Nabız"@[0]);
    assert("\u{1F30A}  Okyanus Dalgası"@[0] != "\u{1F49C}  Renk Döngüsü"@[0]);
    assert("\u{1F30A}  Okyanus Dalgası"@[0] != "\u{1F500}  Rastgele Kaos"@[0]);
    assert("\u{1F384}  Noel"@[0] != "\u{1F305}  Gün Batımı"@[0]);
    assert("\u{1F384}  Noel"@[0] != "\u{1F3B5}  Nabız"@[0]);
    assert("\u{1F384}  Noel"@[0] != "\u{1F49C}  Renk Döngüsü"@[0]);
    assert("\u{1F384}  Noel"@[0] != "\u{1F500}  Rastgele Kaos"@[0]);
    assert("\u{1F305}  Gün Batımı"@[0] != "\u{1F3B5}  Nabız"@[0]);
    assert("\u{1F305}  Gün Batımı"@[0] != "\u{1F49C}  Renk Döngüsü"@[0]);
    assert("\u{1F305}  Gün Batımı"@[0] != "\u{1F500}  Rastgele Kaos"@[0]);
    assert("\u{1F3B5}  Nabız"@[0] != "\u{1F49C}  Renk Döngüsü"@[0]);
    assert("\u{1F3B5}  Nabız"@[0] != "\u{1F500}  Rastgele Kaos"@[0]);
    assert("\u{1F49C}  Renk Döngüsü"@[0] != "\u{1F500}  Rastgele Kaos"@[0]);
    assert("\u{23F8}  Devre Dışı (Donanım Modu)"@[0] != "Unknown"@[0]);
    assert("\u{1F3B2}  Rastgele Renk"@[0] != "Unknown"@[0]);
    assert("\u{1F308}  Yumuşak Gökkuşağı"@[0] != "Unknown"@[0]);
    assert("\u{1FAC1}  Yumuşak Nefes"@[0] != "Unknown"@[0]);
    assert("\u{1F525}  Mum Titremesi"@[0] != "Unknown"@[0]);
    assert("\u{1F30A}  Okyanus Dalgası"@[0] != "Unknown"@[0]);
    assert("\u{1F384}  Noel"@[0] != "Unknown"@[0]);
    assert("\u{1F305}  Gün Batımı"@[0] != "Unknown"@[0]);
    assert("\u{1F3B5}  Nabız"@[0] != "Unknown"@[0]);
    assert("\u{1F49C}  Renk Döngüsü"@[0] != "Unknown"@[0]);
    assert("\u{1F500}  Rastgele Kaos"@[0] != "Unknown"@[0]);
}

/// Every language's texts are usable in the selectors: distinct effect
/// names, distinct animation names none of which reads "Unknown", no empty
/// text; and every language shows the same brand title.
pub proof fn lemma_texts_well_formed(lang: Language)
    ensures
        texts_well_formed(texts_of(lang)),
        texts_of(lang).brand_title@ == "RUST KEYBOARD"@,
{
    match lang {
        Language::English => lemma_english_texts_well_formed(),
        Language::German => lemma_german_texts_well_formed(),
        Language::Turkish => lemma_turkish_texts_well_formed(),
    }
}

/// The English texts, field by field: each UI element shows its own text.
pub proof fn lemma_english_texts()
    ensures
        texts_of(Language::English).brand_title@ == "RUST KEYBOARD"@,
        texts_of(Language::English).brand_subtitle@ == "LED Controller"@,
        texts_of(Language::English).header@ == "RGB Keyboard Lighting"@,
        texts_of(Language::English).hw_effect_title@ == "Hardware Effect Mode"@,
        texts_of(Language::English).hw_effect_warning@ == "\u{26A0} Software animation active \u{2014} hardware mode overridden"@,
        texts_of(Language::English).effect_label@ == "Effect:"@,
        texts_of(Language::English).speed_label@ == "Speed:"@,
        texts_of(Language::English).brightness_label@ == "Brightness:"@,
        texts_of(Language::English).speed_slow@ == "Slow"@,
        texts_of(Language::English).speed_medium@ == "Medium"@,
        texts_of(Language::English).speed_fast@ == "Fast"@,
        texts_of(Language::English).mode_off@ == "Off"@,
        texts_of(Language::English).mode_static@ == "Static Single Color"@,
        texts_of(Language::English).mode_breathing@ == "Breathing Wave"@,
        texts_of(Language::English).mode_single_flash@ == "Single Flashing"@,
        texts_of(Language::English).mode_double_flash@ == "Double Flashing"@,
        texts_of(Language::English).mode_multicolor@ == "Multi-color Shift"@,
        texts_of(Language::English).mode_rainbow@ == "Rainbow"@,
        texts_of(Language::English).sw_anim_title@ == "Software Animation Mode"@,
        texts_of(Language::English).sw_speed_label@ == "Speed:"@,
        texts_of(Language::English).sw_randomize@ == "\u{1F3B2} Randomize speed"@,
        texts_of(Language::English).sw_disabled@ == "\u{23F8}  Disabled (Hardware Mode)"@,
        texts_of(Language::English).sw_random_color@ == "\u{1F3B2}  Random Color"@,
        texts_of(Language::English).sw_smooth_rainbow@ == "\u{1F308}  Smooth Rainbow"@,
        texts_of(Language::English).sw_smooth_breathing@ == "\u{1FAC1}  Smooth Breathing"@,
        texts_of(Language::English).sw_candle_flicker@ == "\u{1F525}  Candle Flicker"@,
        texts_of(Language::English).sw_ocean_wave@ == "\u{1F30A}  Ocean Wave"@,
        texts_of(Language::English).sw_christmas@ == "\u{1F384}  Christmas"@,
        texts_of(Language::English).sw_sunset@ == "\u{1F305}  Sunset"@,
        texts_of(Language::English).sw_pulse@ == "\u{1F3B5}  Pulse"@,
        texts_of(Language::English).sw_color_cycle@ == "\u{1F49C}  Color Cycle"@,
        texts_of(Language::English).sw_random_chaos@ == "\u{1F500}  Random Chaos"@,
        texts_of(Language::English).color_config_title@ == "Color Configuration"@,
        texts_of(Language::English).save_apply@ == "\u{1F4BE}  Save & Apply to Keyboard"@,
        texts_of(Language::English).status_applied@ == "Applied & saved!"@,
        texts_of(Language::English).status_error_prefix@ == "Error:"@,
        texts_of(Language::English).status_saved_sw@ == "Saved! Software animation active."@,
        texts_of(Language::English).status_minimized@ == "Started in System Tray"@,
        texts_of(Language::English).status_tray@ == "Minimized to System Tray"@,
        texts_of(Language::English).status_hotkey@ == "Keyboard toggled via Hotkey!"@,
        texts_of(Language::English).status_wakeup_ok@ == "Wake up sent!"@,
        texts_of(Language::English).status_wakeup_fail@ == "Wake up failed!"@,
        texts_of(Language::English).info_title@ == "Info"@,
        texts_of(Language::English).fn_f8_info@ == "Fn+F8: Cycle Hardware Modes"@,
        texts_of(Language::English).options_title@ == "Options"@,
        texts_of(Language::English).opt_start_boot@ == "\u{1F680} Start on Boot"@,
        texts_of(Language::English).opt_close_tray@ == "\u{1F4E5} Close to Tray"@,
        texts_of(Language::English).opt_start_in_tray@ == "\u{1F4E5} Start in Tray"@,
        texts_of(Language::English).actions_title@ == "Actions"@,
        texts_of(Language::English).act_force_wakeup@ == "\u{26A1}  Force Wake Up"@,
        texts_of(Language::English).act_refresh@ == "\u{1F504}  Refresh"@,
        texts_of(Language::English).act_exit@ == "\u{274C}  Exit Application"@,
        texts_of(Language::English).language_label@ == "Language:"@,
{
}

/// The German texts, field by field: each UI element shows its own text.
pub proof fn lemma_german_texts()
    ensures
        texts_of(Language::German).brand_title@ == "RUST KEYBOARD"@,
        texts_of(Language::German).brand_subtitle@ == "LED-Steuerung"@,
        texts_of(Language::German).header@ == "RGB-Tastaturbeleuchtung"@,
        texts_of(Language::German).hw_effect_title@ == "Hardware-Effektmodus"@,
        texts_of(Language::German).hw_effect_warning@ == "\u{26A0} Software-Animation aktiv \u{2014} Hardware-Modus überschrieben"@,
        texts_of(Language::German).effect_label@ == "Effekt:"@,
        texts_of(Language::German).speed_label@ == "Geschwindigkeit:"@,
        texts_of(Language::German).brightness_label@ == "Helligkeit:"@,
        texts_of(Language::German).speed_slow@ == "Langsam"@,
        texts_of(Language::German).speed_medium@ == "Mittel"@,
        texts_of(Language::German).speed_fast@ == "Schnell"@,
        texts_of(Language::German).mode_off@ == "Aus"@,
        texts_of(Language::German).mode_static@ == "Statische Einzelfarbe"@,
        texts_of(Language::German).mode_breathing@ == "Atmende Welle"@,
        texts_of(Language::German).mode_single_flash@ == "Einzelnes Blinken"@,
        texts_of(Language::German).mode_double_flash@ == "Doppeltes Blinken"@,
        texts_of(Language::German).mode_multicolor@ == "Mehrfarben-Wechsel"@,
        texts_of(Language::German).mode_rainbow@ == "Regenbogen"@,
        texts_of(Language::German).sw_anim_title@ == "Software-Animationsmodus"@,
        texts_of(Language::German).sw_speed_label@ == "Geschwindigkeit:"@,
        texts_of(Language::German).sw_randomize@ == "\u{1F3B2} Zufällige Geschwindigkeit"@,
        texts_of(Language::German).sw_disabled@ == "\u{23F8}  Deaktiviert (Hardware-Modus)"@,
        texts_of(Language::German).sw_random_color@ == "\u{1F3B2}  Zufällige Farbe"@,
        texts_of(Language::German).sw_smooth_rainbow@ == "\u{1F308}  Sanfter Regenbogen"@,
        texts_of(Language::German).sw_smooth_breathing@ == "\u{1FAC1}  Sanftes Atmen"@,
        texts_of(Language::German).sw_candle_flicker@ == "\u{1F525}  Kerzenschein"@,
        texts_of(Language::German).sw_ocean_wave@ == "\u{1F30A}  Ozeanwelle"@,
        texts_of(Language::German).sw_christmas@ == "\u{1F384}  Weihnachten"@,
        texts_of(Language::German).sw_sunset@ == "\u{1F305}  Sonnenuntergang"@,
        texts_of(Language::German).sw_pulse@ == "\u{1F3B5}  Puls"@,
        texts_of(Language::German).sw_color_cycle@ == "\u{1F49C}  Farbzyklus"@,
        texts_of(Language::German).sw_random_chaos@ == "\u{1F500}  Zufalls-Chaos"@,
        texts_of(Language::German).color_config_title@ == "Farbkonfiguration"@,
        texts_of(Language::German).save_apply@ == "\u{1F4BE}  Speichern & Anwenden"@,
        texts_of(Language::German).status_applied@ == "Angewendet & gespeichert!"@,
        texts_of(Language::German).status_error_prefix@ == "Fehler:"@,
        texts_of(Language::German).status_saved_sw@ == "Gespeichert! Software-Animation aktiv."@,
        texts_of(Language::German).status_minimized@ == "Im System-Tray gestartet"@,
        texts_of(Language::German).status_tray@ == "In den System-Tray minimiert"@,
        texts_of(Language::German).status_hotkey@ == "Tastatur per Hotkey umgeschaltet!"@,
        texts_of(Language::German).status_wakeup_ok@ == "Aufwecken gesendet!"@,
        texts_of(Language::German).status_wakeup_fail@ == "Aufwecken fehlgeschlagen!"@,
        texts_of(Language::German).info_title@ == "Info"@,
        texts_of(Language::German).fn_f8_info@ == "Fn+F8: Hardware-Modi durchschalten"@,
        texts_of(Language::German).options_title@ == "Optionen"@,
        texts_of(Language::German).opt_start_boot@ == "\u{1F680} Autostart"@,
        texts_of(Language::German).opt_close_tray@ == "\u{1F4E5} In Tray schließen"@,
        texts_of(Language::German).opt_start_in_tray@ == "\u{1F4E5} Im System-Tray starten"@,
        texts_of(Language::German).actions_title@ == "Aktionen"@,
        texts_of(Language::German).act_force_wakeup@ == "\u{26A1}  Aufwecken erzwingen"@,
        texts_of(Language::German).act_refresh@ == "\u{1F504}  Aktualisieren"@,
        texts_of(Language::German).act_exit@ == "\u{274C}  Anwendung beenden"@,
        texts_of(Language::German).language_label@ == "Sprache:"@,
{
}

/// The Turkish texts, field by field: each UI element shows its own text.
pub proof fn lemma_turkish_texts()
    ensures
        texts_of(Language::Turkish).brand_title@ == "RUST KEYBOARD"@,
        texts_of(Language::Turkish).brand_subtitle@ == "LED Kontrol"@,
        texts_of(Language::Turkish).header@ == "RGB Klavye Aydınlatması"@,
        texts_of(Language::Turkish).hw_effect_title@ == "Donanım Efekt Modu"@,
        texts_of(Language::Turkish).hw_effect_warning@ == "\u{26A0} Yazılım animasyonu aktif \u{2014} donanım modu geçersiz kılındı"@,
        texts_of(Language::Turkish).effect_label@ == "Efekt:"@,
        texts_of(Language::Turkish).speed_label@ == "Hız:"@,
        texts_of(Language::Turkish).brightness_label@ == "Parlaklık:"@,
        texts_of(Language::Turkish).speed_slow@ == "Yavaş"@,
        texts_of(Language::Turkish).speed_medium@ == "Orta"@,
        texts_of(Language::Turkish).speed_fast@ == "Hızlı"@,
        texts_of(Language::Turkish).mode_off@ == "Kapalı"@,
        texts_of(Language::Turkish).mode_static@ == "Sabit Tek Renk"@,
        texts_of(Language::Turkish).mode_breathing@ == "Nefes Alan Dalga"@,
        texts_of(Language::Turkish).mode_single_flash@ == "Tekli Yanıp Sönme"@,
        texts_of(Language::Turkish).mode_double_flash@ == "Çiftli Yanıp Sönme"@,
        texts_of(Language::Turkish).mode_multicolor@ == "Çok Renkli Geçiş"@,
        texts_of(Language::Turkish).mode_rainbow@ == "Gökkuşağı"@,
        texts_of(Language::Turkish).sw_anim_title@ == "Yazılım Animasyon Modu"@,
        texts_of(Language::Turkish).sw_speed_label@ == "Hız:"@,
        texts_of(Language::Turkish).sw_randomize@ == "\u{1F3B2} Rastgele hız"@,
        texts_of(Language::Turkish).sw_disabled@ == "\u{23F8}  Devre Dışı (Donanım Modu)"@,
        texts_of(Language::Turkish).sw_random_color@ == "\u{1F3B2}  Rastgele Renk"@,
        texts_of(Language::Turkish).sw_smooth_rainbow@ == "\u{1F308}  Yumuşak Gökkuşağı"@,
        texts_of(Language::Turkish).sw_smooth_breathing@ == "\u{1FAC1}  Yumuşak Nefes"@,
        texts_of(Language::Turkish).sw_candle_flicker@ == "\u{1F525}  Mum Titremesi"@,
        texts_of(Language::Turkish).sw_ocean_wave@ == "\u{1F30A}  Okyanus Dalgası"@,
        texts_of(Language::Turkish).sw_christmas@ == "\u{1F384}  Noel"@,
        texts_of(Language::Turkish).sw_sunset@ == "\u{1F305}  Gün Batımı"@,
        texts_of(Language::Turkish).sw_pulse@ == "\u{1F3B5}  Nabız"@,
        texts_of(Language::Turkish).sw_color_cycle@ == "\u{1F49C}  Renk Döngüsü"@,
        texts_of(Language::Turkish).sw_random_chaos@ == "\u{1F500}  Rastgele Kaos"@,
        texts_of(Language::Turkish).color_config_title@ == "Renk Yapılandırması"@,
        texts_of(Language::Turkish).save_apply@ == "\u{1F4BE}  Kaydet ve Uygula"@,
        texts_of(Language::Turkish).status_applied@ == "Uygulandı ve kaydedildi!"@,
        texts_of(Language::Turkish).status_error_prefix@ == "Hata:"@,
        texts_of(Language::Turkish).status_saved_sw@ == "Kaydedildi! Yazılım animasyonu aktif."@,
        texts_of(Language::Turkish).status_minimized@ == "Sistem tepsisinde başlatıldı"@,
        texts_of(Language::Turkish).status_tray@ == "Sistem tepsisine küçültüldü"@,
        texts_of(Language::Turkish).status_hotkey@ == "Klavye kısayol tuşuyla değiştirildi!"@,
        texts_of(Language::Turkish).status_wakeup_ok@ == "Uyandırma gönderildi!"@,
        texts_of(Language::Turkish).status_wakeup_fail@ == "Uyandırma başarısız!"@,
        texts_of(Language::Turkish).info_title@ == "Bilgi"@,
        texts_of(Language::Turkish).fn_f8_info@ == "Fn+F8: Donanım Modları Arasında Geçiş"@,
        texts_of(Language::Turkish).options_title@ == "Seçenekler"@,
        texts_of(Language::Turkish).opt_start_boot@ == "\u{1F680} Başlangıçta Çalıştır"@,
        texts_of(Language::Turkish).opt_close_tray@ == "\u{1F4E5} Tepsiye Kapat"@,
        texts_of(Language::Turkish).opt_start_in_tray@ == "\u{1F4E5} Sistem Tepsisinde Başlat"@,
        texts_of(Language::Turkish).actions_title@ == "İşlemler"@,
        texts_of(Language::Turkish).act_force_wakeup@ == "\u{26A1}  Zorla Uyandır"@,
        texts_of(Language::Turkish).act_refresh@ == "\u{1F504}  Yenile"@,
        texts_of(Language::Turkish).act_exit@ == "\u{274C}  Uygulamadan Çık"@,
        texts_of(Language::Turkish).language_label@ == "Dil:"@,
{
}

} // verus!
