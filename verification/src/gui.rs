//! The state of the main window and how it reacts to each user action and
//! to each result that the device or the system reports back.

use vstd::prelude::*;

use crate::config::KeyboardConfig;
use crate::i18n::{language_code, language_of_code, translations, texts_of, Language, Translations};
use crate::text::{concat2, concat3};

verus! {

/// The status text after a failed save and apply: the translated error
/// prefix, a space and the error.
pub open spec fn error_status(prefix: &'static str, error: Seq<char>) -> Seq<char> {
    prefix@ + " "@ + error
}

/// What the start of a frame decided.
#[derive(Clone, Copy, PartialEq, Eq, Debug, Structural)]
pub struct FrameStart {
    /// The window is shown and the frame is to be drawn; when `false` the
    /// frame only idles.
    pub draw: bool,
    /// A close request is to be cancelled: the window hides in the tray.
    pub cancel_close: bool,
}

/// The state behind the main window.
pub struct KeyboardApp {
    config: KeyboardConfig,
    status: String,
    autostart: bool,
    first_frame: bool,
    is_visible: bool,
}

impl KeyboardApp {
    /// The configuration being edited.
    pub closed spec fn config_spec(&self) -> KeyboardConfig {
        self.config
    }

    /// The status text shown under the header.
    pub closed spec fn status_spec(&self) -> Seq<char> {
        self.status@
    }

    /// Whether "Start on Boot" is shown as enabled.
    pub closed spec fn autostart_spec(&self) -> bool {
        self.autostart
    }

    /// Whether the first frame is still to be drawn.
    pub closed spec fn first_frame_spec(&self) -> bool {
        self.first_frame
    }

    /// Whether the window is shown (not hidden in the tray).
    pub closed spec fn visible_spec(&self) -> bool {
        self.is_visible
    }

    /// The state at start-up, from the loaded configuration, the keyboard
    /// status and whether start on boot is enabled.
    pub fn new(config: KeyboardConfig, status: String, autostart: bool) -> (r: KeyboardApp)
        ensures
            r.config_spec() == config,
            r.status_spec() == status@,
            r.autostart_spec() == autostart,
            r.first_frame_spec(),
            r.visible_spec(),
    {
        KeyboardApp { config, status, autostart, first_frame: true, is_visible: true }
    }

    /// The configuration being edited.
    pub fn config(&self) -> (r: &KeyboardConfig)
        ensures
            *r == self.config_spec(),
    {
        &self.config
    }

    /// The status text.
    pub fn status(&self) -> (r: &str)
        ensures
            r@ == self.status_spec(),
    {
        self.status.as_str()
    }

    /// Whether "Start on Boot" is shown as enabled.
    pub fn autostart(&self) -> (r: bool)
        ensures
            r == self.autostart_spec(),
    {
        self.autostart
    }

    /// Whether the window is shown.
    pub fn is_visible(&self) -> (r: bool)
        ensures
            r == self.visible_spec(),
    {
        self.is_visible
    }

    /// The texts in the configured language.
    pub fn texts(&self) -> (t: Translations)
        ensures
            t == texts_of(language_of_code(self.config_spec().language@)),
    {
        translations(self.config.language_enum())
    }

    /// The status line: "Status: " and the status text.
    pub fn status_line(&self) -> (r: String)
        ensures
            r@ == "Status: "@ + self.status_spec(),
    {
        concat2("Status: ", self.status.as_str())
    }

    /// The tray asked for the window back: it is shown again.
    pub fn restore_from_tray(&mut self)
        ensures
            final(self).visible_spec(),
            final(self).config_spec() == old(self).config_spec(),
            final(self).status_spec() == old(self).status_spec(),
            final(self).autostart_spec() == old(self).autostart_spec(),
            final(self).first_frame_spec() == old(self).first_frame_spec(),
    {
        self.is_visible = true;
    }

    /// Whether this is the first frame; the first frame is so only once.
    pub fn take_first_frame(&mut self) -> (r: bool)
        ensures
            r == old(self).first_frame_spec(),
            !final(self).first_frame_spec(),
            final(self).config_spec() == old(self).config_spec(),
            final(self).status_spec() == old(self).status_spec(),
            final(self).autostart_spec() == old(self).autostart_spec(),
            final(self).visible_spec() == old(self).visible_spec(),
    {
        let r = self.first_frame;
        self.first_frame = false;
        r
    }

    /// The hotkey changed the effect: the configuration is reloaded from
    /// disk and the status says so, in the texts `t` of this frame.
    pub fn hotkey_toggled(&mut self, t: &Translations, reloaded: KeyboardConfig)
        ensures
            final(self).config_spec() == reloaded,
            final(self).status_spec() == t.status_hotkey@,
            final(self).autostart_spec() == old(self).autostart_spec(),
            final(self).first_frame_spec() == old(self).first_frame_spec(),
            final(self).visible_spec() == old(self).visible_spec(),
    {
        self.config = reloaded;
        self.status = String::from_str(t.status_hotkey);
    }

    /// The user asked to close the window. With "Close to Tray" the window
    /// hides instead (the result is `true`: the close is cancelled);
    /// otherwise nothing changes and the window closes.
    pub fn close_requested(&mut self, t: &Translations) -> (hide: bool)
        ensures
            hide == old(self).config_spec().close_to_tray,
            hide ==> !final(self).visible_spec() && final(self).status_spec() == t.status_tray@,
            !hide ==> final(self).visible_spec() == old(self).visible_spec()
                && final(self).status_spec() == old(self).status_spec(),
            final(self).config_spec() == old(self).config_spec(),
            final(self).autostart_spec() == old(self).autostart_spec(),
            final(self).first_frame_spec() == old(self).first_frame_spec(),
    {
        if self.config.close_to_tray {
            self.is_visible = false;
            self.status = String::from_str(t.status_tray);
            true
        } else {
            false
        }
    }

    /// The colour picker of a zone changed its colour.
    pub fn set_color(&mut self, zone: usize, rgb: [u8; 3])
        requires
            zone < old(self).config_spec().colors@.len(),
        ensures
            final(self).config_spec().colors@ == old(self).config_spec().colors@.update(
                zone as int,
                rgb,
            ),
            crate::config::same_but_colors(old(self).config_spec(), final(self).config_spec()),
            final(self).status_spec() == old(self).status_spec(),
            final(self).autostart_spec() == old(self).autostart_spec(),
            final(self).first_frame_spec() == old(self).first_frame_spec(),
            final(self).visible_spec() == old(self).visible_spec(),
    {
        self.config.colors.set(zone, rgb);
    }

    /// The effect selector changed the effect.
    pub fn set_mode(&mut self, mode: u8)
        ensures
            final(self).config_spec().mode == mode,
            final(self).config_spec().colors@ == old(self).config_spec().colors@,
            final(self).config_spec().language@ == old(self).config_spec().language@,
            final(self).config_spec().speed == old(self).config_spec().speed,
            final(self).config_spec().brightness == old(self).config_spec().brightness,
            final(self).config_spec().close_to_tray == old(self).config_spec().close_to_tray,
            final(self).config_spec().start_in_tray == old(self).config_spec().start_in_tray,
            final(self).config_spec().software_mode == old(self).config_spec().software_mode,
            final(self).config_spec().sw_speed_ms == old(self).config_spec().sw_speed_ms,
            final(self).config_spec().sw_random_speed == old(self).config_spec().sw_random_speed,
            final(self).status_spec() == old(self).status_spec(),
            final(self).autostart_spec() == old(self).autostart_spec(),
            final(self).first_frame_spec() == old(self).first_frame_spec(),
            final(self).visible_spec() == old(self).visible_spec(),
    {
        self.config.mode = mode;
    }

    /// The "Start on Boot" box was toggled; the caller writes the registry.
    pub fn set_autostart(&mut self, enabled: bool)
        ensures
            final(self).autostart_spec() == enabled,
            final(self).config_spec() == old(self).config_spec(),
            final(self).status_spec() == old(self).status_spec(),
            final(self).first_frame_spec() == old(self).first_frame_spec(),
            final(self).visible_spec() == old(self).visible_spec(),
    {
        self.autostart = enabled;
    }

    /// The "Close to Tray" box was toggled; the caller saves the configuration.
    pub fn set_close_to_tray(&mut self, enabled: bool)
        ensures
            final(self).config_spec().close_to_tray == enabled,
            final(self).config_spec().mode == old(self).config_spec().mode,
            final(self).config_spec().colors@ == old(self).config_spec().colors@,
            final(self).config_spec().language@ == old(self).config_spec().language@,
            final(self).config_spec().speed == old(self).config_spec().speed,
            final(self).config_spec().brightness == old(self).config_spec().brightness,
            final(self).config_spec().start_in_tray == old(self).config_spec().start_in_tray,
            final(self).config_spec().software_mode == old(self).config_spec().software_mode,
            final(self).config_spec().sw_speed_ms == old(self).config_spec().sw_speed_ms,
            final(self).config_spec().sw_random_speed == old(self).config_spec().sw_random_speed,
            final(self).status_spec() == old(self).status_spec(),
            final(self).autostart_spec() == old(self).autostart_spec(),
            final(self).first_frame_spec() == old(self).first_frame_spec(),
            final(self).visible_spec() == old(self).visible_spec(),
    {
        self.config.close_to_tray = enabled;
    }

    /// The language selector chose a language. When it differs from the
    /// configured one it is stored, and the result is `true`: the
    /// configuration must be saved.
    pub fn select_language(&mut self, lang: Language) -> (changed: bool)
        ensures
            changed == (lang != language_of_code(old(self).config_spec().language@)),
            changed ==> final(self).config_spec().language@ == language_code(lang)
                && crate::config::same_but_language(
                old(self).config_spec(),
                final(self).config_spec(),
            ),
            !changed ==> final(self).config_spec() == old(self).config_spec(),
            final(self).status_spec() == old(self).status_spec(),
            final(self).autostart_spec() == old(self).autostart_spec(),
            final(self).first_frame_spec() == old(self).first_frame_spec(),
            final(self).visible_spec() == old(self).visible_spec(),
    {
        let current = self.config.language_enum();
        if lang != current {
            self.config.set_language(lang);
            true
        } else {
            false
        }
    }

    /// "Save & Apply" finished with the given result.
    pub fn save_applied(&mut self, t: &Translations, result: Result<(), String>)
        ensures
            final(self).status_spec() == (match result {
                Ok(_) => t.status_applied@,
                Err(e) => error_status(t.status_error_prefix, e@),
            }),
            final(self).config_spec() == old(self).config_spec(),
            final(self).autostart_spec() == old(self).autostart_spec(),
            final(self).first_frame_spec() == old(self).first_frame_spec(),
            final(self).visible_spec() == old(self).visible_spec(),
    {
        match result {
            Ok(_) => self.status = String::from_str(t.status_applied),
            Err(e) => self.status = concat3(t.status_error_prefix, " ", e.as_str()),
        }
    }

    /// "Force Wake Up" finished; `sent` tells whether the wake-up report
    /// reached the bootloader.
    pub fn wakeup_finished(&mut self, t: &Translations, sent: bool)
        ensures
            final(self).status_spec() == (if sent {
                t.status_wakeup_ok@
            } else {
                t.status_wakeup_fail@
            }),
            final(self).config_spec() == old(self).config_spec(),
            final(self).autostart_spec() == old(self).autostart_spec(),
            final(self).first_frame_spec() == old(self).first_frame_spec(),
            final(self).visible_spec() == old(self).visible_spec(),
    {
        if sent {
            self.status = String::from_str(t.status_wakeup_ok);
        } else {
            self.status = String::from_str(t.status_wakeup_fail);
        }
    }

    /// "Refresh" read the keyboard status and the start-on-boot setting again.
    pub fn refreshed(&mut self, status: String, autostart: bool)
        ensures
            final(self).status_spec() == status@,
            final(self).autostart_spec() == autostart,
            final(self).config_spec() == old(self).config_spec(),
            final(self).first_frame_spec() == old(self).first_frame_spec(),
            final(self).visible_spec() == old(self).visible_spec(),
    {
        self.status = status;
        self.autostart = autostart;
    }

    /// The start of a frame, in order: a restore request from the tray shows
    /// the window; a hidden window does nothing else this frame; otherwise a
    /// configuration reloaded after the hotkey replaces the current one with
    /// the hotkey status, and then a close request with "Close to Tray" (of
    /// the configuration now current) hides the window with the tray status
    /// and cancels the close. The texts are those of the configuration the
    /// frame started with.
    pub fn frame_start(
        &mut self,
        restore: bool,
        reloaded: Option<KeyboardConfig>,
        close_requested: bool,
    ) -> (r: FrameStart)
        ensures
            r.draw == (restore || old(self).visible_spec()),
            !r.draw ==> !r.cancel_close && final(self).config_spec() == old(self).config_spec()
                && final(self).status_spec() == old(self).status_spec()
                && !final(self).visible_spec(),
            r.draw ==> ({
                let t = texts_of(language_of_code(old(self).config_spec().language@));
                let cfg = match reloaded {
                    Some(c) => c,
                    None => old(self).config_spec(),
                };
                let status = match reloaded {
                    Some(_) => t.status_hotkey@,
                    None => old(self).status_spec(),
                };
                &&& final(self).config_spec() == cfg
                &&& r.cancel_close == (close_requested && cfg.close_to_tray)
                &&& r.cancel_close ==> !final(self).visible_spec() && final(self).status_spec()
                    == t.status_tray@
                &&& !r.cancel_close ==> final(self).visible_spec() && final(self).status_spec()
                    == status
            }),
            final(self).autostart_spec() == old(self).autostart_spec(),
            final(self).first_frame_spec() == old(self).first_frame_spec(),
    {
        if restore {
            self.restore_from_tray();
        }
        if !self.is_visible {
            return FrameStart { draw: false, cancel_close: false };
        }
        let t = self.texts();
        match reloaded {
            Some(c) => self.hotkey_toggled(&t, c),
            None => {},
        }
        let cancel_close = close_requested && self.close_requested(&t);
        FrameStart { draw: true, cancel_close }
    }
}

} // verus!