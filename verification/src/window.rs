//! Logic of the native Win32 window: colour values, the brightness slider,
//! the selectors, the decoding of control notifications and the window
//! styles used to hide the window in the tray.

use vstd::prelude::*;

use crate::config::KeyboardConfig;
use crate::i18n::{language_code, language_of_code, Language, Translations};
use crate::text::concat3;

verus! {

/// Extended style: the window has a taskbar button.
pub const WS_EX_APPWINDOW: u32 = 0x0004_0000;

/// Extended style: a tool window, without a taskbar button.
pub const WS_EX_TOOLWINDOW: u32 = 0x0000_0080;

/// Style: the window is visible.
pub const WS_VISIBLE: u32 = 0x1000_0000;

/// Style: an overlapped window with caption, menu, frame and buttons.
pub const WS_OVERLAPPEDWINDOW: u32 = 0x00CF_0000;

/// Style: the maximize button.
pub const WS_MAXIMIZEBOX: u32 = 0x0001_0000;

/// Style: a sizing border.
pub const WS_THICKFRAME: u32 = 0x0004_0000;

/// Id of the effect selector.
pub const IDC_EFFECT: u16 = 101;
/// Id of the speed selector.
pub const IDC_SPEED: u16 = 102;
/// Id of the brightness slider.
pub const IDC_BRIGHTNESS: u16 = 103;
/// Id of the first colour button; the seven buttons follow it.
pub const IDC_COLOR_BASE: u16 = 200;
/// Id of the language selector.
pub const IDC_LANGUAGE: u16 = 300;
/// Id of the "Start on Boot" box.
pub const IDC_AUTOSTART: u16 = 401;
/// Id of the "Close to Tray" box.
pub const IDC_CLOSE_TRAY: u16 = 402;
/// Id of the "Start in Tray" box.
pub const IDC_START_TRAY: u16 = 403;
/// Id of the "Save & Apply" button.
pub const IDC_SAVE: u16 = 501;
/// Id of the "Force Wake Up" button.
pub const IDC_WAKEUP: u16 = 502;
/// Id of the "Refresh" button.
pub const IDC_REFRESH: u16 = 503;
/// Id of the "Exit" button.
pub const IDC_EXIT: u16 = 504;
/// Id of the header panel.
pub const IDC_HEADER_PANEL: u16 = 601;

/// Notification code: the selection of a combo box changed.
pub const CBN_SELCHANGE: u16 = 1;

/// Check state of a checked box.
pub const BST_CHECKED: isize = 1;

/// Slider notification: the thumb was released at a position.
pub const TB_THUMBPOSITION: u16 = 4;
/// Slider notification: the thumb is being dragged.
pub const TB_THUMBTRACK: u16 = 5;
/// Slider notification: the user finished a move.
pub const TB_ENDTRACK: u16 = 8;

/// Background colour of the header (deep navy).
pub const COLOR_HEADER_BG: u32 = 0x001A2E;

/// A colour as Windows stores it: red in the low byte, then green, then blue.
pub open spec fn colorref_spec(rgb: [u8; 3]) -> u32 {
    (rgb[0] + 256 * rgb[1] + 65536 * rgb[2]) as u32
}

proof fn lemma_pack(r: u32, g: u32, b: u32)
    requires
        r < 256,
        g < 256,
        b < 256,
    ensures
        r | (g << 8) | (b << 16) == r + 256 * g + 65536 * b,
{
    assert(r | (g << 8) | (b << 16) == r + 256 * g + 65536 * b) by (bit_vector)
        requires
            r < 256,
            g < 256,
            b < 256,
    ;
}

proof fn lemma_channels(c: u32)
    ensures
        c & 0xFF == c % 256,
        (c >> 8) & 0xFF == (c / 256) % 256,
        (c >> 16) & 0xFF == (c / 65536) % 256,
{
    assert(c & 0xFF == c % 256) by (bit_vector);
    assert((c >> 8) & 0xFF == (c / 256) % 256) by (bit_vector);
    assert((c >> 16) & 0xFF == (c / 65536) % 256) by (bit_vector);
}

/// The Windows colour value of a red, green, blue triple.
pub fn colorref(rgb: [u8; 3]) -> (r: u32)
    ensures
        r == colorref_spec(rgb),
{
    let red = rgb[0] as u32;
    let green = rgb[1] as u32;
    let blue = rgb[2] as u32;
    proof {
        lemma_pack(red, green, blue);
    }
    red | (green << 8) | (blue << 16)
}

/// The red, green and blue bytes of a Windows colour value.
pub open spec fn channel(c: u32, k: int) -> int {
    if k == 0 {
        (c % 256) as int
    } else if k == 1 {
        ((c / 256) % 256) as int
    } else {
        ((c / 65536) % 256) as int
    }
}

/// The red, green, blue triple of a Windows colour value, as the colour
/// picker returns it.
pub fn rgb_of_colorref(c: u32) -> (r: [u8; 3])
    ensures
        r[0] == channel(c, 0),
        r[1] == channel(c, 1),
        r[2] == channel(c, 2),
{
    proof {
        lemma_channels(c);
    }
    [(c & 0xFF) as u8, ((c >> 8) & 0xFF) as u8, ((c >> 16) & 0xFF) as u8]
}

/// A colour triple survives the round trip through a Windows colour value.
pub proof fn lemma_colorref_round_trip(rgb: [u8; 3])
    ensures
        channel(colorref_spec(rgb), 0) == rgb[0],
        channel(colorref_spec(rgb), 1) == rgb[1],
        channel(colorref_spec(rgb), 2) == rgb[2],
{
    let c = colorref_spec(rgb);
    let r = rgb[0] as int;
    let g = rgb[1] as int;
    let b = rgb[2] as int;
    assert(c == r + 256 * g + 65536 * b);
    assert((r + 256 * g + 65536 * b) / 256 == g + 256 * b) by (nonlinear_arith)
        requires
            0 <= r < 256,
            0 <= g < 256,
            0 <= b < 256,
    ;
    assert((r + 256 * g + 65536 * b) / 65536 == b) by (nonlinear_arith)
        requires
            0 <= r < 256,
            0 <= g < 256,
            0 <= b < 256,
    ;
    assert((r + 256 * g + 65536 * b) % 256 == r) by (nonlinear_arith)
        requires
            0 <= r < 256,
            0 <= g < 256,
            0 <= b < 256,
    ;
    assert((g + 256 * b) % 256 == g) by (nonlinear_arith)
        requires
            0 <= g < 256,
            0 <= b < 256,
    ;
}

/// A colour channel moved down by `amount`, stopping at zero.
pub open spec fn darker(ch: int, amount: int) -> int {
    if ch - amount < 0 {
        0
    } else {
        ch - amount
    }
}

/// A colour channel moved up by `amount`, stopping at 255.
pub open spec fn lighter(ch: int, amount: int) -> int {
    if ch + amount > 255 {
        255
    } else {
        ch + amount
    }
}

/// The colour with every channel darkened by `amount`.
pub open spec fn darken_spec(color: u32, amount: u8) -> int {
    darker(channel(color, 0), amount as int) + 256 * darker(channel(color, 1), amount as int)
        + 65536 * darker(channel(color, 2), amount as int)
}

/// The colour with every channel lightened by `amount`.
pub open spec fn lighten_spec(color: u32, amount: u8) -> int {
    lighter(channel(color, 0), amount as int) + 256 * lighter(channel(color, 1), amount as int)
        + 65536 * lighter(channel(color, 2), amount as int)
}

/// Darken every channel of a colour by `amount`, stopping at zero; used for
/// the shaded edge of the colour buttons.
pub fn darken(color: u32, amount: u8) -> (r: u32)
    ensures
        r == darken_spec(color, amount),
{
    proof {
        lemma_channels(color);
    }
    let r0 = (color & 0xFF) as i32 - amount as i32;
    let g0 = ((color >> 8) & 0xFF) as i32 - amount as i32;
    let b0 = ((color >> 16) & 0xFF) as i32 - amount as i32;
    let r: u32 = if r0 < 0 { 0 } else { r0 as u32 };
    let g: u32 = if g0 < 0 { 0 } else { g0 as u32 };
    let b: u32 = if b0 < 0 { 0 } else { b0 as u32 };
    proof {
        lemma_pack(r, g, b);
    }
    r | (g << 8) | (b << 16)
}

/// Lighten every channel of a colour by `amount`, stopping at 255; used for
/// the lit edge of the colour buttons.
pub fn lighten(color: u32, amount: u8) -> (r: u32)
    ensures
        r == lighten_spec(color, amount),
{
    proof {
        lemma_channels(color);
    }
    let r0 = (color & 0xFF) as i32 + amount as i32;
    let g0 = ((color >> 8) & 0xFF) as i32 + amount as i32;
    let b0 = ((color >> 16) & 0xFF) as i32 + amount as i32;
    let r: u32 = if r0 > 255 { 255 } else { r0 as u32 };
    let g: u32 = if g0 > 255 { 255 } else { g0 as u32 };
    let b: u32 = if b0 > 255 { 255 } else { b0 as u32 };
    proof {
        lemma_pack(r, g, b);
    }
    r | (g << 8) | (b << 16)
}

/// The label colour on a colour button: black on light colours (channel
/// sum above 380), white otherwise.
pub fn label_color(rgb: [u8; 3]) -> (r: u32)
    ensures
        r == (if rgb[0] + rgb[1] + rgb[2] > 380 { 0u32 } else { 0xFFFFFFu32 }),
{
    let sum = rgb[0] as u32 + rgb[1] as u32 + rgb[2] as u32;
    if sum > 380 {
        0x000000
    } else {
        0xFFFFFF
    }
}

/// Position of the brightness slider for a brightness: the slider runs from
/// 0 (brightest, level 3) to 3 (level 0); levels above 3 show as 3.
pub open spec fn slider_pos_spec(brightness: u8) -> int {
    if brightness < 3 {
        3 - brightness
    } else {
        0
    }
}

/// Position of the brightness slider for a brightness.
pub fn brightness_slider_pos(brightness: u8) -> (r: isize)
    ensures
        r == slider_pos_spec(brightness),
{
    let level: u8 = if brightness < 3 { brightness } else { 3 };
    (3i32 - level as i32) as isize
}

/// The brightness a slider position stands for: 3 minus the position (taken
/// as a byte), stopping at zero.
pub open spec fn brightness_of_pos_spec(pos: isize) -> u8 {
    let p = pos as u8;
    if p <= 3 {
        (3 - p) as u8
    } else {
        0
    }
}

/// The brightness a slider position stands for.
pub fn brightness_from_slider(pos: isize) -> (r: u8)
    ensures
        r == brightness_of_pos_spec(pos),
{
    (3u8).saturating_sub(pos as u8)
}

/// Moving the slider to where a brightness shows it gives that brightness
/// back, capped at 3.
pub proof fn lemma_slider_round_trip(brightness: u8)
    ensures
        brightness_of_pos_spec(slider_pos_spec(brightness) as isize) == (if brightness < 3 {
            brightness
        } else {
            3
        }),
{
    let p = slider_pos_spec(brightness);
    assert(0 <= p <= 3);
    assert((p as isize) as u8 == p);
}

/// The label next to the slider: the slow, medium and fast words stand for
/// low, middle and high brightness.
pub open spec fn brightness_label_spec(t: Translations, brightness: u8) -> &'static str {
    if brightness <= 1 {
        t.speed_slow
    } else if brightness == 2 {
        t.speed_medium
    } else {
        t.speed_fast
    }
}

/// The slider label follows the brightness: the slow word for levels 0 and
/// 1, the medium word for 2, the fast word from 3 up; so the top of the
/// slider (position 0, brightness 3) is labelled with the fast word and the
/// bottom (position 3, brightness 0) with the slow word.
pub proof fn lemma_brightness_labels(t: Translations, b: u8)
    ensures
        b <= 1 ==> brightness_label_spec(t, b) == t.speed_slow,
        b == 2 ==> brightness_label_spec(t, b) == t.speed_medium,
        b >= 3 ==> brightness_label_spec(t, b) == t.speed_fast,
        brightness_label_spec(t, brightness_of_pos_spec(0)) == t.speed_fast,
        brightness_label_spec(t, brightness_of_pos_spec(3)) == t.speed_slow,
{
    assert((0isize) as u8 == 0);
    assert((3isize) as u8 == 3);
}

/// The label next to the brightness slider.
pub fn brightness_label(t: &Translations, brightness: u8) -> (r: &'static str)
    ensures
        r == brightness_label_spec(*t, brightness),
        brightness <= 1 ==> r == t.speed_slow,
        brightness == 2 ==> r == t.speed_medium,
        brightness >= 3 ==> r == t.speed_fast,
{
    match brightness {
        0 | 1 => t.speed_slow,
        2 => t.speed_medium,
        _ => t.speed_fast,
    }
}

/// Row of the effect selector shown for an effect (past the last shows the last).
pub fn effect_combo_index(mode: u8) -> (r: usize)
    ensures
        r == (if mode < 6 { mode as usize } else { 6usize }),
{
    if mode < 6 {
        mode as usize
    } else {
        6
    }
}

/// Row of the speed selector shown for a speed (past the last shows the last).
pub fn speed_combo_index(speed: u8) -> (r: usize)
    ensures
        r == (if speed < 2 { speed as usize } else { 2usize }),
{
    if speed < 2 {
        speed as usize
    } else {
        2
    }
}

/// Row of a language in the language selector.
pub open spec fn language_index_spec(lang: Language) -> usize {
    match lang {
        Language::English => 0,
        Language::German => 1,
        Language::Turkish => 2,
    }
}

/// Row of a language in the language selector: its place in `Language::ALL`.
pub fn language_combo_index(lang: Language) -> (r: usize)
    ensures
        r == language_index_spec(lang),
        Language::ALL[r as int] == lang,
{
    let all = Language::ALL;
    let mut i: usize = 0;
    while i < 3
        invariant
            i <= 3,
            all@ == seq![Language::English, Language::German, Language::Turkish],
            forall|j: int| 0 <= j < i ==> all[j] != lang,
        decreases 3 - i,
    {
        if all[i] == lang {
            return i;
        }
        i = i + 1;
    }
    assert(all[language_index_spec(lang) as int] == lang);
    0
}

/// The language of a selector row; rows outside the list (such as the
/// "no selection" value -1) have none.
pub open spec fn language_at_spec(idx: isize) -> Option<Language> {
    if idx == 0 {
        Some(Language::English)
    } else if idx == 1 {
        Some(Language::German)
    } else if idx == 2 {
        Some(Language::Turkish)
    } else {
        None
    }
}

/// The language of a selector row.
pub fn language_at(idx: isize) -> (r: Option<Language>)
    ensures
        r == language_at_spec(idx),
{
    if idx >= 0 && idx < 3 {
        let all = Language::ALL;
        assert(all@ == seq![Language::English, Language::German, Language::Turkish]);
        Some(all[idx as usize])
    } else {
        None
    }
}

/// Choosing the row shown for a language selects that language again.
pub proof fn lemma_language_row_round_trip(lang: Language)
    ensures
        language_at_spec(language_index_spec(lang) as isize) == Some(lang),
{
}

/// The low 16 bits of a message parameter.
pub fn low_word(w: usize) -> (r: u16)
    ensures
        r == w % 65536,
{
    let r = (w & 0xFFFF) as u16;
    assert(w & 0xFFFF == w % 65536) by (bit_vector);
    r
}

/// Bits 16 to 31 of a message parameter.
pub fn high_word(w: usize) -> (r: u16)
    ensures
        r == (w / 65536) % 65536,
{
    let r = ((w >> 16) & 0xFFFF) as u16;
    assert((w >> 16) & 0xFFFF == (w / 65536) % 65536) by (bit_vector);
    r
}

/// The zone of a colour button id, if it is one.
pub fn color_button_zone(id: u16) -> (r: Option<usize>)
    ensures
        r == (if IDC_COLOR_BASE <= id < IDC_COLOR_BASE + 7 {
            Some((id - IDC_COLOR_BASE) as usize)
        } else {
            None
        }),
{
    if IDC_COLOR_BASE <= id && id < IDC_COLOR_BASE + 7 {
        Some((id - IDC_COLOR_BASE) as usize)
    } else {
        None
    }
}

/// What a control notification asks for.
#[derive(Clone, Copy, PartialEq, Eq, Debug, Structural)]
pub enum UiCommand {
    EffectChanged,
    SpeedChanged,
    LanguageChanged,
    AutostartToggled,
    CloseToTrayToggled,
    StartInTrayToggled,
    SaveAndApply,
    WakeUp,
    Refresh,
    Exit,
    PickColor(usize),
    Ignore,
}

/// The command of a notification from control `id` with code `code`.
pub open spec fn command_spec(id: u16, code: u16) -> UiCommand {
    if id == IDC_EFFECT && code == CBN_SELCHANGE {
        UiCommand::EffectChanged
    } else if id == IDC_SPEED && code == CBN_SELCHANGE {
        UiCommand::SpeedChanged
    } else if id == IDC_LANGUAGE && code == CBN_SELCHANGE {
        UiCommand::LanguageChanged
    } else if id == IDC_AUTOSTART {
        UiCommand::AutostartToggled
    } else if id == IDC_CLOSE_TRAY {
        UiCommand::CloseToTrayToggled
    } else if id == IDC_START_TRAY {
        UiCommand::StartInTrayToggled
    } else if id == IDC_SAVE {
        UiCommand::SaveAndApply
    } else if id == IDC_WAKEUP {
        UiCommand::WakeUp
    } else if id == IDC_REFRESH {
        UiCommand::Refresh
    } else if id == IDC_EXIT {
        UiCommand::Exit
    } else if IDC_COLOR_BASE <= id < IDC_COLOR_BASE + 7 {
        UiCommand::PickColor((id - IDC_COLOR_BASE) as usize)
    } else {
        UiCommand::Ignore
    }
}

/// The controls mean what their ids name: a selection change (code 1) of
/// the effect (101), speed (102) or language (300) selector reports that
/// selector, and other codes from them do nothing; the three boxes
/// (401 start on boot, 402 close to tray, 403 start in tray) and the four
/// buttons (501 save, 502 wake up, 503 refresh, 504 exit) report themselves
/// whatever the code; the colour buttons 200 to 206 ask to pick the colour
/// of zones 0 to 6; any other id does nothing.
pub proof fn lemma_command_meanings(id: u16, code: u16)
    ensures
        command_spec(101, 1) == UiCommand::EffectChanged,
        command_spec(102, 1) == UiCommand::SpeedChanged,
        command_spec(300, 1) == UiCommand::LanguageChanged,
        code != 1 && (id == 101 || id == 102 || id == 300) ==> command_spec(id, code)
            == UiCommand::Ignore,
        command_spec(401, code) == UiCommand::AutostartToggled,
        command_spec(402, code) == UiCommand::CloseToTrayToggled,
        command_spec(403, code) == UiCommand::StartInTrayToggled,
        command_spec(501, code) == UiCommand::SaveAndApply,
        command_spec(502, code) == UiCommand::WakeUp,
        command_spec(503, code) == UiCommand::Refresh,
        command_spec(504, code) == UiCommand::Exit,
        200 <= id <= 206 ==> command_spec(id, code) == UiCommand::PickColor((id - 200) as usize),
        (id < 200 || id > 206) && id != 101 && id != 102 && id != 300 && id != 401 && id != 402
            && id != 403 && id != 501 && id != 502 && id != 503 && id != 504 ==> command_spec(
            id,
            code,
        ) == UiCommand::Ignore,
{
}

/// Decode a control notification.
pub fn command_for(id: u16, code: u16) -> (r: UiCommand)
    ensures
        r == command_spec(id, code),
{
    if id == IDC_EFFECT && code == CBN_SELCHANGE {
        UiCommand::EffectChanged
    } else if id == IDC_SPEED && code == CBN_SELCHANGE {
        UiCommand::SpeedChanged
    } else if id == IDC_LANGUAGE && code == CBN_SELCHANGE {
        UiCommand::LanguageChanged
    } else if id == IDC_AUTOSTART {
        UiCommand::AutostartToggled
    } else if id == IDC_CLOSE_TRAY {
        UiCommand::CloseToTrayToggled
    } else if id == IDC_START_TRAY {
        UiCommand::StartInTrayToggled
    } else if id == IDC_SAVE {
        UiCommand::SaveAndApply
    } else if id == IDC_WAKEUP {
        UiCommand::WakeUp
    } else if id == IDC_REFRESH {
        UiCommand::Refresh
    } else if id == IDC_EXIT {
        UiCommand::Exit
    } else {
        match color_button_zone(id) {
            Some(zone) => UiCommand::PickColor(zone),
            None => UiCommand::Ignore,
        }
    }
}

/// Whether a slider notification ends or moves the thumb, so that the
/// brightness is read again.
pub fn is_slider_move(code: u16) -> (r: bool)
    ensures
        r == (code == TB_THUMBPOSITION || code == TB_ENDTRACK || code == TB_THUMBTRACK),
{
    code == TB_THUMBPOSITION || code == TB_ENDTRACK || code == TB_THUMBTRACK
}

/// Extended style of a window hidden in the tray: no taskbar button.
pub open spec fn tray_ex_style_spec(ex: u32) -> u32 {
    (ex & !WS_EX_APPWINDOW) | WS_EX_TOOLWINDOW
}

/// Extended style of a window shown again: a taskbar button.
pub open spec fn app_ex_style_spec(ex: u32) -> u32 {
    (ex & !WS_EX_TOOLWINDOW) | WS_EX_APPWINDOW
}

/// The extended style that hides the window's taskbar button.
pub fn tray_ex_style(ex: u32) -> (r: u32)
    ensures
        r == tray_ex_style_spec(ex),
{
    (ex & !WS_EX_APPWINDOW) | WS_EX_TOOLWINDOW
}

/// The extended style that gives the window its taskbar button back.
pub fn app_ex_style(ex: u32) -> (r: u32)
    ensures
        r == app_ex_style_spec(ex),
{
    (ex & !WS_EX_TOOLWINDOW) | WS_EX_APPWINDOW
}

/// Hiding in the tray and showing again leave every other style bit as it
/// was, and end with a taskbar button and no tool-window style.
pub proof fn lemma_hide_then_show_styles(ex: u32)
    ensures
        app_ex_style_spec(tray_ex_style_spec(ex)) & !(WS_EX_APPWINDOW | WS_EX_TOOLWINDOW) == ex
            & !(WS_EX_APPWINDOW | WS_EX_TOOLWINDOW),
        app_ex_style_spec(tray_ex_style_spec(ex)) & WS_EX_APPWINDOW == WS_EX_APPWINDOW,
        app_ex_style_spec(tray_ex_style_spec(ex)) & WS_EX_TOOLWINDOW == 0,
        tray_ex_style_spec(ex) & WS_EX_APPWINDOW == 0,
        tray_ex_style_spec(ex) & WS_EX_TOOLWINDOW == WS_EX_TOOLWINDOW,
{
    assert(((((ex & !0x0004_0000u32) | 0x80u32) & !0x80u32) | 0x0004_0000u32) & !(0x0004_0000u32
        | 0x80u32) == ex & !(0x0004_0000u32 | 0x80u32)) by (bit_vector);
    assert(((((ex & !0x0004_0000u32) | 0x80u32) & !0x80u32) | 0x0004_0000u32) & 0x0004_0000u32
        == 0x0004_0000u32) by (bit_vector);
    assert(((((ex & !0x0004_0000u32) | 0x80u32) & !0x80u32) | 0x0004_0000u32) & 0x80u32 == 0u32)
        by (bit_vector);
    assert(((ex & !0x0004_0000u32) | 0x80u32) & 0x0004_0000u32 == 0u32) by (bit_vector);
    assert(((ex & !0x0004_0000u32) | 0x80u32) & 0x80u32 == 0x80u32) by (bit_vector);
}

/// Style of the main window: an overlapped window without maximize button
/// or sizing border, visible unless it starts in the tray.
pub fn main_window_style(start_in_tray: bool) -> (r: u32)
    ensures
        r == (if start_in_tray { 0x00CA_0000u32 } else { 0x10CA_0000u32 }),
{
    let visible: u32 = if start_in_tray { 0 } else { WS_VISIBLE };
    let r = visible | WS_OVERLAPPEDWINDOW & !(WS_MAXIMIZEBOX | WS_THICKFRAME);
    assert(0u32 | 0x00CF_0000u32 & !(0x0001_0000u32 | 0x0004_0000u32) == 0x00CA_0000u32)
        by (bit_vector);
    assert(0x1000_0000u32 | 0x00CF_0000u32 & !(0x0001_0000u32 | 0x0004_0000u32) == 0x10CA_0000u32)
        by (bit_vector);
    r
}

/// What closing the native window does.
#[derive(Clone, Copy, PartialEq, Eq, Debug, Structural)]
pub enum CloseAction {
    /// Hide the window in the tray.
    HideToTray,
    /// Free the resources and destroy the window.
    Destroy,
}

/// The state behind the native window.
pub struct WindowState {
    pub config: KeyboardConfig,
    pub status: String,
    pub autostart: bool,
    pub is_visible: bool,
}

/// Restoring a hidden window and reading the status and the start-on-boot
/// setting again leaves it visible with its configuration; a second restore
/// then does nothing.
pub proof fn lemma_restore_twice(
    before: WindowState,
    restored: bool,
    mid: WindowState,
    status: Seq<char>,
    autostart: bool,
    refreshed: WindowState,
    again: bool,
    after: WindowState,
)
    requires
        !before.is_visible,
        restored == !before.is_visible,
        mid.is_visible,
        mid.config == before.config,
        mid.status@ == before.status@,
        mid.autostart == before.autostart,
        refreshed.status@ == status,
        refreshed.autostart == autostart,
        refreshed.config == mid.config,
        refreshed.is_visible == mid.is_visible,
        again == !refreshed.is_visible,
        after.is_visible,
        after.config == refreshed.config,
        after.status@ == refreshed.status@,
        after.autostart == refreshed.autostart,
    ensures
        restored,
        !again,
        after.is_visible,
        after.config == before.config,
        after.status@ == status,
        after.autostart == autostart,
{
}

/// `b` equals `a` in every field of the configuration but the effect.
pub open spec fn config_same_but_mode(a: KeyboardConfig, b: KeyboardConfig) -> bool {
    &&& b.speed == a.speed
    &&& b.brightness == a.brightness
    &&& b.colors@ == a.colors@
    &&& b.close_to_tray == a.close_to_tray
    &&& b.start_in_tray == a.start_in_tray
    &&& b.software_mode == a.software_mode
    &&& b.sw_speed_ms == a.sw_speed_ms
    &&& b.sw_random_speed == a.sw_random_speed
    &&& b.language@ == a.language@
}

impl WindowState {
    /// The state when the window is created from the loaded configuration.
    pub fn new(config: KeyboardConfig) -> (r: WindowState)
        ensures
            r.config == config,
            r.status@ == Seq::<char>::empty(),
            !r.autostart,
            !r.is_visible,
    {
        WindowState { config, status: String::new(), autostart: false, is_visible: false }
    }

    /// Initialisation finished with the keyboard status and the start-on-boot
    /// setting; the window is visible unless it starts in the tray.
    pub fn initialised(&mut self, status: String, autostart: bool)
        ensures
            final(self).status@ == status@,
            final(self).autostart == autostart,
            final(self).is_visible == !old(self).config.start_in_tray,
            final(self).config == old(self).config,
    {
        self.status = status;
        self.autostart = autostart;
        self.is_visible = !self.config.start_in_tray;
    }

    /// The effect selector moved to row `row` (taken as a byte, as stored).
    pub fn effect_selected(&mut self, row: isize)
        ensures
            final(self).config.mode == row as u8,
            config_same_but_mode(old(self).config, final(self).config),
            final(self).config.speed == old(self).config.speed,
            final(self).status@ == old(self).status@,
            final(self).autostart == old(self).autostart,
            final(self).is_visible == old(self).is_visible,
    {
        self.config.mode = row as u8;
    }

    /// The speed selector moved to row `row` (taken as a byte, as stored).
    pub fn speed_selected(&mut self, row: isize)
        ensures
            final(self).config.speed == row as u8,
            final(self).config.mode == old(self).config.mode,
            final(self).config.brightness == old(self).config.brightness,
            final(self).config.colors@ == old(self).config.colors@,
            final(self).config.language@ == old(self).config.language@,
            final(self).config.close_to_tray == old(self).config.close_to_tray,
            final(self).config.start_in_tray == old(self).config.start_in_tray,
            final(self).config.software_mode == old(self).config.software_mode,
            final(self).config.sw_speed_ms == old(self).config.sw_speed_ms,
            final(self).config.sw_random_speed == old(self).config.sw_random_speed,
            final(self).status@ == old(self).status@,
            final(self).autostart == old(self).autostart,
            final(self).is_visible == old(self).is_visible,
    {
        self.config.speed = row as u8;
    }

    /// The language selector moved to row `row`. When that row is a language
    /// other than the current one it is stored and the result is `true`:
    /// the configuration is to be saved and the texts refreshed.
    pub fn language_selected(&mut self, row: isize) -> (changed: bool)
        ensures
            changed == (language_at_spec(row) is Some && language_at_spec(row)->0
                != language_of_code(old(self).config.language@)),
            changed ==> final(self).config.language@ == language_code(language_at_spec(row)->0)
                && crate::config::same_but_language(old(self).config, final(self).config),
            !changed ==> final(self).config == old(self).config,
            final(self).status@ == old(self).status@,
            final(self).autostart == old(self).autostart,
            final(self).is_visible == old(self).is_visible,
    {
        match language_at(row) {
            Some(lang) => {
                if self.config.language_enum() != lang {
                    self.config.set_language(lang);
                    true
                } else {
                    false
                }
            },
            None => false,
        }
    }

    /// A check box reported its state; `checked` is its check state.
    pub fn checkbox_changed(&mut self, command: UiCommand, checked: isize)
        ensures
            command == UiCommand::AutostartToggled ==> final(self).autostart == (checked
                == BST_CHECKED) && final(self).config == old(self).config,
            command == UiCommand::CloseToTrayToggled ==> final(self).config.close_to_tray == (
            checked == BST_CHECKED) && final(self).autostart == old(self).autostart
                && final(self).config.start_in_tray == old(self).config.start_in_tray,
            command == UiCommand::StartInTrayToggled ==> final(self).config.start_in_tray == (
            checked == BST_CHECKED) && final(self).autostart == old(self).autostart
                && final(self).config.close_to_tray == old(self).config.close_to_tray,
            command != UiCommand::AutostartToggled && command != UiCommand::CloseToTrayToggled
                && command != UiCommand::StartInTrayToggled ==> final(self).config == old(self).config && final(self).autostart == old(self).autostart,
            final(self).config.mode == old(self).config.mode,
            final(self).config.speed == old(self).config.speed,
            final(self).config.brightness == old(self).config.brightness,
            final(self).config.colors@ == old(self).config.colors@,
            final(self).config.language@ == old(self).config.language@,
            final(self).config.software_mode == old(self).config.software_mode,
            final(self).config.sw_speed_ms == old(self).config.sw_speed_ms,
            final(self).config.sw_random_speed == old(self).config.sw_random_speed,
            final(self).status@ == old(self).status@,
            final(self).is_visible == old(self).is_visible,
    {
        let on = checked == BST_CHECKED;
        match command {
            UiCommand::AutostartToggled => self.autostart = on,
            UiCommand::CloseToTrayToggled => self.config.close_to_tray = on,
            UiCommand::StartInTrayToggled => self.config.start_in_tray = on,
            _ => {},
        }
    }

    /// The brightness slider reported a move to `pos`; moves that count set
    /// the brightness and give `true` (the label is to be refreshed).
    pub fn slider_moved(&mut self, code: u16, pos: isize) -> (changed: bool)
        ensures
            changed == (code == TB_THUMBPOSITION || code == TB_ENDTRACK || code == TB_THUMBTRACK),
            changed ==> final(self).config.brightness == brightness_of_pos_spec(pos),
            !changed ==> final(self).config.brightness == old(self).config.brightness,
            final(self).config.mode == old(self).config.mode,
            final(self).config.speed == old(self).config.speed,
            final(self).config.colors@ == old(self).config.colors@,
            final(self).config.language@ == old(self).config.language@,
            final(self).config.close_to_tray == old(self).config.close_to_tray,
            final(self).config.start_in_tray == old(self).config.start_in_tray,
            final(self).config.software_mode == old(self).config.software_mode,
            final(self).config.sw_speed_ms == old(self).config.sw_speed_ms,
            final(self).config.sw_random_speed == old(self).config.sw_random_speed,
            !changed ==> final(self).config == old(self).config,
            final(self).status@ == old(self).status@,
            final(self).autostart == old(self).autostart,
            final(self).is_visible == old(self).is_visible,
    {
        if is_slider_move(code) {
            self.config.brightness = brightness_from_slider(pos);
            true
        } else {
            false
        }
    }

    /// The colour picker chose a colour for a zone.
    pub fn color_picked(&mut self, zone: usize, picked: u32)
        requires
            zone < old(self).config.colors@.len(),
        ensures
            final(self).config.colors@.len() == old(self).config.colors@.len(),
            forall|i: int|
                0 <= i < old(self).config.colors@.len() && i != zone ==> #[trigger] final(self).config.colors@[i] == old(self).config.colors@[i],
            final(self).config.colors@[zone as int][0] == channel(picked, 0),
            final(self).config.colors@[zone as int][1] == channel(picked, 1),
            final(self).config.colors@[zone as int][2] == channel(picked, 2),
            crate::config::same_but_colors(old(self).config, final(self).config),
            final(self).status@ == old(self).status@,
            final(self).autostart == old(self).autostart,
            final(self).is_visible == old(self).is_visible,
    {
        let rgb = rgb_of_colorref(picked);
        self.config.colors.set(zone, rgb);
    }

    /// The user closed the window: with "Close to Tray" it hides and the
    /// status says so; otherwise it is destroyed.
    pub fn closing(&mut self, t: &Translations) -> (r: CloseAction)
        ensures
            r == (if old(self).config.close_to_tray {
                CloseAction::HideToTray
            } else {
                CloseAction::Destroy
            }),
            r == CloseAction::HideToTray ==> !final(self).is_visible && final(self).status@
                == t.status_tray@,
            r == CloseAction::Destroy ==> final(self).is_visible == old(self).is_visible
                && final(self).status@ == old(self).status@,
            final(self).config == old(self).config,
            final(self).autostart == old(self).autostart,
    {
        if self.config.close_to_tray {
            self.is_visible = false;
            self.status = String::from_str(t.status_tray);
            CloseAction::HideToTray
        } else {
            CloseAction::Destroy
        }
    }

    /// The tray asked for the window back. A hidden window becomes visible
    /// and the result is `true`: the caller reads the status and the
    /// start-on-boot setting again (see `refreshed`) and shows the window.
    pub fn restore_from_tray(&mut self) -> (restore: bool)
        ensures
            restore == !old(self).is_visible,
            final(self).is_visible,
            final(self).config == old(self).config,
            final(self).status@ == old(self).status@,
            final(self).autostart == old(self).autostart,
    {
        if !self.is_visible {
            self.is_visible = true;
            true
        } else {
            false
        }
    }

    /// The hotkey changed the effect: the configuration is reloaded and the
    /// status says so in the language of the reloaded configuration.
    pub fn hotkey_toggled(&mut self, reloaded: KeyboardConfig)
        ensures
            final(self).config == reloaded,
            final(self).status@ == crate::i18n::texts_of(
                language_of_code(reloaded.language@),
            ).status_hotkey@,
            final(self).autostart == old(self).autostart,
            final(self).is_visible == old(self).is_visible,
    {
        self.config = reloaded;
        let t = crate::i18n::translations(self.config.language_enum());
        self.status = String::from_str(t.status_hotkey);
    }

    /// "Save & Apply" finished with the given result.
    pub fn save_applied(&mut self, result: Result<(), String>)
        ensures
            final(self).status@ == (match result {
                Ok(_) => crate::i18n::texts_of(
                    language_of_code(old(self).config.language@),
                ).status_applied@,
                Err(e) => crate::gui::error_status(
                    crate::i18n::texts_of(
                        language_of_code(old(self).config.language@),
                    ).status_error_prefix,
                    e@,
                ),
            }),
            final(self).config == old(self).config,
            final(self).autostart == old(self).autostart,
            final(self).is_visible == old(self).is_visible,
    {
        let t = crate::i18n::translations(self.config.language_enum());
        match result {
            Ok(_) => self.status = String::from_str(t.status_applied),
            Err(e) => self.status = concat3(t.status_error_prefix, " ", e.as_str()),
        }
    }

    /// "Force Wake Up" finished; `sent` tells whether the report was sent.
    pub fn wakeup_finished(&mut self, sent: bool)
        ensures
            final(self).status@ == (if sent {
                crate::i18n::texts_of(language_of_code(old(self).config.language@)).status_wakeup_ok@
            } else {
                crate::i18n::texts_of(
                    language_of_code(old(self).config.language@),
                ).status_wakeup_fail@
            }),
            final(self).config == old(self).config,
            final(self).autostart == old(self).autostart,
            final(self).is_visible == old(self).is_visible,
    {
        let t = crate::i18n::translations(self.config.language_enum());
        if sent {
            self.status = String::from_str(t.status_wakeup_ok);
        } else {
            self.status = String::from_str(t.status_wakeup_fail);
        }
    }

    /// The keyboard status and the start-on-boot setting were read again.
    pub fn refreshed(&mut self, status: String, autostart: bool)
        ensures
            final(self).status@ == status@,
            final(self).autostart == autostart,
            final(self).config == old(self).config,
            final(self).is_visible == old(self).is_visible,
    {
        self.status = status;
        self.autostart = autostart;
    }
}

} // verus!
