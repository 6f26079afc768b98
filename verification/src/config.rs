//! The persisted keyboard configuration and what is done to it on load.

use vstd::prelude::*;

use crate::i18n::{language_code, language_of_code, Language};
use crate::text::concat2;

verus! {

/// Number of colour zones on the keyboard.
pub const ZONE_COUNT: usize = 7;

/// The colour used to fill zones that have no colour configured.
pub const WHITE: [u8; 3] = [255, 255, 255];

/// Directory used when the directory of the executable cannot be found.
pub const FALLBACK_APP_DIR: &'static str = "C:\\rustkeyboard";

/// The keyboard lighting and application settings, as stored in `config.json`.
#[derive(Clone, Debug)]
pub struct KeyboardConfig {
    pub mode: u8,
    pub speed: u8,
    pub brightness: u8,
    pub colors: Vec<[u8; 3]>,
    pub close_to_tray: bool,
    pub start_in_tray: bool,
    pub software_mode: u8,
    pub sw_speed_ms: u32,
    pub sw_random_speed: bool,
    pub language: String,
}

/// Value of `close_to_tray` when the file does not hold it.
pub fn default_close_to_tray() -> (r: bool)
    ensures
        r,
{
    true
}

/// Value of `start_in_tray` when the file does not hold it.
pub fn default_start_in_tray() -> (r: bool)
    ensures
        !r,
{
    false
}

/// Value of `software_mode` when the file does not hold it.
pub fn default_software_mode() -> (r: u8)
    ensures
        r == 0,
{
    0
}

/// Value of `sw_speed_ms` when the file does not hold it.
pub fn default_sw_speed_ms() -> (r: u32)
    ensures
        r == 2000,
{
    2000
}

/// Value of `sw_random_speed` when the file does not hold it.
pub fn default_sw_random_speed() -> (r: bool)
    ensures
        !r,
{
    false
}

/// Value of `language` when the file does not hold it.
pub fn default_language() -> (r: String)
    ensures
        r@ == "en"@,
{
    String::from_str("en")
}

/// The seven factory colours: white, red, orange, yellow, green, cyan, purple.
pub open spec fn default_palette() -> Seq<[u8; 3]> {
    seq![
        [255u8, 255u8, 255u8],
        [255u8, 0u8, 0u8],
        [255u8, 165u8, 0u8],
        [255u8, 255u8, 0u8],
        [0u8, 255u8, 0u8],
        [0u8, 255u8, 255u8],
        [255u8, 0u8, 255u8],
    ]
}

/// The factory configuration.
pub open spec fn is_default_config(c: KeyboardConfig) -> bool {
    &&& c.mode == 1
    &&& c.speed == 1
    &&& c.brightness == 10
    &&& c.colors@ == default_palette()
    &&& c.close_to_tray
    &&& !c.start_in_tray
    &&& c.software_mode == 0
    &&& c.sw_speed_ms == 2000
    &&& !c.sw_random_speed
    &&& c.language@ == "en"@
}

/// The colour list cut or padded with white to exactly seven entries.
pub open spec fn normalized_colors(colors: Seq<[u8; 3]>) -> Seq<[u8; 3]> {
    if colors.len() >= 7 {
        colors.take(7)
    } else {
        colors + Seq::new((7 - colors.len()) as nat, |i: int| WHITE)
    }
}

/// `b` equals `a` in every field but the colours.
pub open spec fn same_but_colors(a: KeyboardConfig, b: KeyboardConfig) -> bool {
    &&& b.mode == a.mode
    &&& b.speed == a.speed
    &&& b.brightness == a.brightness
    &&& b.close_to_tray == a.close_to_tray
    &&& b.start_in_tray == a.start_in_tray
    &&& b.software_mode == a.software_mode
    &&& b.sw_speed_ms == a.sw_speed_ms
    &&& b.sw_random_speed == a.sw_random_speed
    &&& b.language@ == a.language@
}

/// `b` equals `a` in every field but the language.
pub open spec fn same_but_language(a: KeyboardConfig, b: KeyboardConfig) -> bool {
    &&& b.mode == a.mode
    &&& b.speed == a.speed
    &&& b.brightness == a.brightness
    &&& b.colors@ == a.colors@
    &&& b.close_to_tray == a.close_to_tray
    &&& b.start_in_tray == a.start_in_tray
    &&& b.software_mode == a.software_mode
    &&& b.sw_speed_ms == a.sw_speed_ms
    &&& b.sw_random_speed == a.sw_random_speed
}

/// `b` is `a` with its colour list normalized to seven entries.
pub open spec fn is_normalized_of(a: KeyboardConfig, b: KeyboardConfig) -> bool {
    same_but_colors(a, b) && b.colors@ == normalized_colors(a.colors@)
}

impl KeyboardConfig {
    /// Return the first user-defined color, or white if no colors configured.
    pub fn first_color(&self) -> (r: [u8; 3])
        ensures
            r == (if self.colors@.len() > 0 {
                self.colors@[0]
            } else {
                WHITE
            }),
    {
        if self.colors.len() > 0 {
            self.colors[0]
        } else {
            WHITE
        }
    }

    /// Ensure the colors vector has exactly 7 entries (pad/trim as needed).
    pub fn normalize(&mut self)
        ensures
            is_normalized_of(*old(self), *final(self)),
    {
        let ghost start = self.colors@;
        while self.colors.len() < ZONE_COUNT
            invariant
                same_but_colors(*old(self), *self),
                start == old(self).colors@,
                start.len() < 7 ==> self.colors@.len() <= 7,
                start.len() >= 7 ==> self.colors@ == start,
                self.colors@.len() >= start.len(),
                self.colors@.take(start.len() as int) == start,
                forall|i: int|
                    start.len() <= i < self.colors@.len() ==> #[trigger] self.colors@[i] == WHITE,
            decreases 7 - self.colors@.len(),
        {
            self.colors.push(WHITE);
        }
        self.colors.truncate(ZONE_COUNT);
        assert(self.colors@ =~= normalized_colors(start));
    }

    /// Convert the stored language string to a Language enum.
    pub fn language_enum(&self) -> (r: Language)
        ensures
            r == language_of_code(self.language@),
    {
        Language::from_code(self.language.as_str())
    }

    /// Set the language from a Language enum value.
    pub fn set_language(&mut self, lang: Language)
        ensures
            final(self).language@ == language_code(lang),
            same_but_language(*old(self), *final(self)),
    {
        self.language = String::from_str(lang.code());
    }
}

impl Default for KeyboardConfig {
    fn default() -> (r: KeyboardConfig)
        ensures
            is_default_config(r),
    {
        let r = KeyboardConfig {
            mode: 1,
            speed: 1,
            brightness: 10,
            colors: vec![
                [255, 255, 255],
                [255, 0, 0],
                [255, 165, 0],
                [255, 255, 0],
                [0, 255, 0],
                [0, 255, 255],
                [255, 0, 255],
            ],
            close_to_tray: default_close_to_tray(),
            start_in_tray: default_start_in_tray(),
            software_mode: default_software_mode(),
            sw_speed_ms: default_sw_speed_ms(),
            sw_random_speed: default_sw_random_speed(),
            language: default_language(),
        };
        assert(r.colors@ =~= default_palette());
        r
    }
}

/// The application directory: the directory of the executable when it is
/// known, else the fixed fallback directory.
pub fn app_dir_from(exe_parent: Option<String>) -> (r: String)
    ensures
        r@ == (match exe_parent {
            Some(p) => p@,
            None => FALLBACK_APP_DIR@,
        }),
{
    match exe_parent {
        Some(p) => p,
        None => String::from_str(FALLBACK_APP_DIR),
    }
}

/// The application directory at one call, given the directory remembered by
/// earlier calls and the directory of the executable as read now.
pub open spec fn app_dir_step_spec(cached: Option<Seq<char>>, exe_parent: Option<Seq<char>>) -> Seq<char> {
    match cached {
        Some(d) => d,
        None => match exe_parent {
            Some(p) => p,
            None => FALLBACK_APP_DIR@,
        },
    }
}

/// The view of an optional string.
pub open spec fn opt_view(s: Option<String>) -> Option<Seq<char>> {
    match s {
        Some(x) => Some(x@),
        None => None,
    }
}

/// The application directory at one call, given the directory remembered by
/// earlier calls (`None` on the first) and the directory of the executable
/// as read now: a remembered directory is kept, so the directory stays the
/// one found first for the whole process.
pub fn app_dir_step(cached: Option<String>, exe_parent: Option<String>) -> (r: String)
    ensures
        r@ == app_dir_step_spec(opt_view(cached), opt_view(exe_parent)),
{
    match cached {
        Some(d) => d,
        None => app_dir_from(exe_parent),
    }
}

/// The first call fixes the application directory: every later call, which
/// is handed the remembered directory, gives that same directory whatever
/// the executable's directory reads then.
pub proof fn lemma_app_dir_fixed(first_exe_parent: Option<Seq<char>>, later_exe_parent: Option<Seq<char>>)
    ensures
        app_dir_step_spec(
            Some(app_dir_step_spec(None, first_exe_parent)),
            later_exe_parent,
        ) == app_dir_step_spec(None, first_exe_parent),
        app_dir_step_spec(None, first_exe_parent) == (match first_exe_parent {
            Some(p) => p,
            None => FALLBACK_APP_DIR@,
        }),
{
}

/// Path of `config.json` inside the application directory.
pub fn get_config_path(app_dir: &str) -> (r: String)
    ensures
        r@ == app_dir@ + "\\config.json"@,
{
    concat2(app_dir, "\\config.json")
}

/// Path of the tray debug log inside the application directory.
pub fn debug_log_path(app_dir: &str) -> (r: String)
    ensures
        r@ == app_dir@ + "\\tray_debug.log"@,
{
    concat2(app_dir, "\\tray_debug.log")
}

/// What loading the configuration file settles on, given what was parsed
/// from it (`None` when the file is missing or does not parse).
/// A parsed configuration is normalized to seven colours and nothing needs
/// writing; otherwise the factory configuration is used and must be written.
pub fn settle_loaded_config(parsed: Option<KeyboardConfig>) -> (r: (KeyboardConfig, bool))
    ensures
        match parsed {
            Some(c) => is_normalized_of(c, r.0) && !r.1,
            None => is_default_config(r.0) && r.1,
        },
{
    match parsed {
        Some(c) => {
            let mut config = c;
            config.normalize();
            (config, false)
        },
        None => (KeyboardConfig::default(), true),
    }
}

/// Every normalized configuration has exactly one colour per keyboard zone,
/// and keeps the first colours it had.
pub proof fn lemma_normalized_has_seven_colors(a: KeyboardConfig, b: KeyboardConfig)
    requires
        is_normalized_of(a, b),
    ensures
        b.colors@.len() == 7,
        forall|i: int| 0 <= i < 7 && i < a.colors@.len() ==> b.colors@[i] == a.colors@[i],
        forall|i: int| a.colors@.len() <= i < 7 ==> b.colors@[i] == WHITE,
{
}

/// Normalizing an already normalized configuration changes nothing.
pub proof fn lemma_normalize_idempotent(a: KeyboardConfig, b: KeyboardConfig, c: KeyboardConfig)
    requires
        is_normalized_of(a, b),
        is_normalized_of(b, c),
    ensures
        c.colors@ == b.colors@,
        same_but_colors(b, c),
{
    assert(b.colors@.take(7) =~= b.colors@);
}

/// The factory configuration is already normalized and reads as English.
pub proof fn lemma_default_is_normalized(c: KeyboardConfig)
    requires
        is_default_config(c),
    ensures
        normalized_colors(c.colors@) == c.colors@,
        language_of_code(c.language@) == Language::English,
{
    assert(c.colors@.take(7) =~= c.colors@);
    reveal_strlit("en");
    reveal_strlit("de");
    reveal_strlit("tr");
    assert("en"@[0] == 'e');
    assert("de"@[0] == 'd');
    assert("tr"@[0] == 't');
}

/// Whatever the file held, the configuration that loading settles on has
/// exactly seven colours.
pub proof fn lemma_loaded_config_has_seven_colors(parsed: Option<KeyboardConfig>, r: (KeyboardConfig, bool))
    requires
        match parsed {
            Some(c) => is_normalized_of(c, r.0) && !r.1,
            None => is_default_config(r.0) && r.1,
        },
    ensures
        r.0.colors@.len() == 7,
{
}

/// The language set on a configuration is the one it reads back.
pub proof fn lemma_set_language_read_back(before: KeyboardConfig, after: KeyboardConfig, lang: Language)
    requires
        after.language@ == language_code(lang),
        same_but_language(before, after),
    ensures
        language_of_code(after.language@) == lang,
{
    crate::i18n::lemma_code_round_trip(lang);
}

} // verus!
