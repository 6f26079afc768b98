//! Verified core of an RGB lighting controller for MSI keyboards: the
//! configuration, the HID reports, the hotkey, the UI texts and the
//! decisions of the windows and the tray.

pub mod config;
pub mod gui;
pub mod hid;
pub mod hotkey;
pub mod i18n;
pub mod startup;
pub mod text;
pub mod tray;
pub mod window;
