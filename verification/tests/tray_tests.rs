use rustkeyboard::tray::{tooltip_copy_len, tray_icon_action, tray_menu_action, TrayAction, WM_TRAYICON};

#[test]
fn tray_icon_events() {
    assert_eq!(WM_TRAYICON, 0x8001);
    assert_eq!(tray_icon_action(0x0202), TrayAction::ShowWindow);
    assert_eq!(tray_icon_action(0x0203), TrayAction::ShowWindow);
    assert_eq!(tray_icon_action(0x0205), TrayAction::OpenMenu);
    assert_eq!(tray_icon_action(0x0200), TrayAction::Ignore);
    assert_eq!(tray_icon_action(0x7_0000 | 0x0202), TrayAction::ShowWindow);
    assert_eq!(tray_icon_action(-1), TrayAction::Ignore);
}

#[test]
fn tray_menu_choices() {
    assert_eq!(tray_menu_action(1), TrayAction::ShowWindow);
    assert_eq!(tray_menu_action(2), TrayAction::Exit);
    assert_eq!(tray_menu_action(0), TrayAction::Ignore);
}

#[test]
fn tooltip_fits_buffer() {
    assert_eq!(tooltip_copy_len(29, 128), 29);
    assert_eq!(tooltip_copy_len(200, 128), 128);
}
