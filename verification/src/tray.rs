//! The tray icon: which mouse events and menu choices do what.

use vstd::prelude::*;

verus! {

/// Message id the tray icon posts to its window (WM_USER + 1).
pub const WM_TRAYICON: u32 = 0x8000 + 1;

/// Left button released on the icon.
pub const WM_LBUTTONUP: u32 = 0x0202;

/// Left button double-clicked on the icon.
pub const WM_LBUTTONDBLCLK: u32 = 0x0203;

/// Right button released on the icon.
pub const WM_RBUTTONUP: u32 = 0x0205;

/// Menu item id of "Open Controller".
pub const MENU_OPEN: usize = 1;

/// Menu item id of "Exit App".
pub const MENU_EXIT: usize = 2;

/// How many times the tray waits for the main window to exist before giving up.
pub const SHOW_RETRIES: u32 = 20;

/// Milliseconds between two such waits.
pub const SHOW_RETRY_DELAY_MS: u64 = 100;

/// `ShowWindow` command that restores a minimized window.
pub const SW_RESTORE: i32 = 9;

/// What the tray does in answer to an event.
#[derive(Clone, Copy, PartialEq, Eq, Debug, Structural)]
pub enum TrayAction {
    /// Nothing.
    Ignore,
    /// Show and focus the main window.
    ShowWindow,
    /// Open the context menu.
    OpenMenu,
    /// Quit the application.
    Exit,
}

/// The mouse event that a tray notification carries in the low word of its
/// `lparam`.
pub open spec fn tray_event(lparam: isize) -> u32 {
    (lparam & 0xFFFF) as u32
}

/// The action for a tray icon notification.
pub open spec fn tray_icon_action_spec(lparam: isize) -> TrayAction {
    let e = tray_event(lparam);
    if e == WM_LBUTTONUP || e == WM_LBUTTONDBLCLK {
        TrayAction::ShowWindow
    } else if e == WM_RBUTTONUP {
        TrayAction::OpenMenu
    } else {
        TrayAction::Ignore
    }
}

/// The action for a tray icon notification: a left click or double click
/// shows the window, a right click opens the menu.
pub fn tray_icon_action(lparam: isize) -> (r: TrayAction)
    ensures
        r == tray_icon_action_spec(lparam),
{
    let event = (lparam & 0xFFFF) as u32;
    if event == WM_LBUTTONUP || event == WM_LBUTTONDBLCLK {
        TrayAction::ShowWindow
    } else if event == WM_RBUTTONUP {
        TrayAction::OpenMenu
    } else {
        TrayAction::Ignore
    }
}

/// The action for the item chosen in the context menu (0 when none was).
pub fn tray_menu_action(cmd: i32) -> (r: TrayAction)
    ensures
        r == (if cmd == 1 {
            TrayAction::ShowWindow
        } else if cmd == 2 {
            TrayAction::Exit
        } else {
            TrayAction::Ignore
        }),
{
    if cmd == 1 {
        TrayAction::ShowWindow
    } else if cmd == 2 {
        TrayAction::Exit
    } else {
        TrayAction::Ignore
    }
}

/// A left click (button up, 0x0202) or double click (0x0203) on the icon
/// shows the window, a right click (button up, 0x0205) opens the menu, and
/// any other mouse event does nothing; in the menu, item 1 shows the window,
/// item 2 quits, and no choice does nothing.
pub proof fn lemma_tray_actions(lparam: isize, cmd: i32)
    ensures
        (lparam & 0xFFFF) as u32 == 0x0202 ==> tray_icon_action_spec(lparam) == TrayAction::ShowWindow,
        (lparam & 0xFFFF) as u32 == 0x0203 ==> tray_icon_action_spec(lparam) == TrayAction::ShowWindow,
        (lparam & 0xFFFF) as u32 == 0x0205 ==> tray_icon_action_spec(lparam) == TrayAction::OpenMenu,
        (lparam & 0xFFFF) as u32 != 0x0202 && (lparam & 0xFFFF) as u32 != 0x0203 && (lparam
            & 0xFFFF) as u32 != 0x0205 ==> tray_icon_action_spec(lparam) == TrayAction::Ignore,
        tray_icon_action_spec(lparam) != TrayAction::Exit,
{
}

/// The high bits of `lparam` do not change what a notification does.
pub proof fn lemma_only_low_word_matters(a: isize, b: isize)
    requires
        a & 0xFFFF == b & 0xFFFF,
    ensures
        tray_icon_action_spec(a) == tray_icon_action_spec(b),
{
}

/// Number of wide characters of the tooltip that fit the icon's tooltip
/// buffer.
pub fn tooltip_copy_len(tip_len: usize, capacity: usize) -> (r: usize)
    ensures
        r == (if tip_len < capacity { tip_len } else { capacity }),
{
    if tip_len < capacity {
        tip_len
    } else {
        capacity
    }
}

} // verus!
