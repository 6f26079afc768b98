use rustkeyboard::config::KeyboardConfig;
use rustkeyboard::hid::{
    bootloader_wakeup_report, get_keyboard_status, is_bootloader, is_msi_keyboard, keyboard_status,
    lighting_report, retry_after_apply, wakeup_retry_delay_ms, KeyboardStatus, MSI_PIDS, MSI_VENDOR_ID,
};

#[test]
fn msi_ids() {
    assert_eq!(MSI_VENDOR_ID, 0x1462);
    assert_eq!(MSI_PIDS, [5474, 5475, 5476]);
    assert!(is_msi_keyboard(0x1462, 5474));
    assert!(is_msi_keyboard(0x1462, 5476));
    assert!(!is_msi_keyboard(0x1462, 5477));
    assert!(!is_msi_keyboard(0x1463, 5474));
    assert!(is_bootloader(0x2E3C, 0xAF01));
    assert!(!is_bootloader(0x2E3C, 0xAF02));
}

#[test]
fn wakeup_report_layout() {
    let r = bootloader_wakeup_report();
    assert_eq!(r.len(), 65);
    assert_eq!(&r[..3], &[1, 0x5A, 0xA6]);
    assert!(r[3..].iter().all(|&b| b == 0));
}

#[test]
fn lighting_report_layout() {
    let c = KeyboardConfig::default();
    let r = lighting_report(&c);
    assert_eq!(r.len(), 64);
    assert_eq!(&r[..6], &[2, 0, 1, 1, 10, 7]);
    assert_eq!(&r[6..9], &[255, 255, 255]);
    assert_eq!(&r[9..12], &[255, 0, 0]);
    assert_eq!(&r[12..15], &[255, 165, 0]);
    assert_eq!(&r[24..27], &[255, 0, 255]);
    assert!(r[27..].iter().all(|&b| b == 0));
}

#[test]
fn lighting_report_with_few_colors() {
    let mut c = KeyboardConfig::default();
    c.colors = vec![[1, 2, 3]];
    c.mode = 6;
    c.speed = 2;
    c.brightness = 3;
    let r = lighting_report(&c);
    assert_eq!(&r[..9], &[2, 0, 6, 2, 3, 7, 1, 2, 3]);
    assert!(r[9..].iter().all(|&b| b == 0));
}

#[test]
fn lighting_report_ignores_extra_colors() {
    let mut c = KeyboardConfig::default();
    c.colors = (0..9u8).map(|i| [i, i + 10, i + 20]).collect();
    let r = lighting_report(&c);
    assert_eq!(&r[24..27], &[6, 16, 26]);
    assert!(r[27..].iter().all(|&b| b == 0));
}

#[test]
fn status_classification() {
    assert_eq!(keyboard_status(&vec![]), KeyboardStatus::NotFound);
    assert_eq!(keyboard_status(&vec![(0x1462, 5475)]), KeyboardStatus::Normal);
    assert_eq!(
        keyboard_status(&vec![(0x1462, 5475), (0x2E3C, 0xAF01)]),
        KeyboardStatus::Bootloader
    );
    assert_eq!(keyboard_status(&vec![(0x1234, 5475), (0x1462, 1)]), KeyboardStatus::NotFound);
}

#[test]
fn status_texts() {
    assert_eq!(get_keyboard_status(None), "Error accessing HID API");
    assert_eq!(get_keyboard_status(Some(&vec![])), "Not Found");
    assert_eq!(
        get_keyboard_status(Some(&vec![(0x2E3C, 0xAF01)])),
        "Connected (Bootloader Mode)"
    );
    assert_eq!(
        get_keyboard_status(Some(&vec![(0x1462, 5474)])),
        "Connected (Normal Operating Mode)"
    );
}

#[test]
fn wakeup_retry_delays() {
    assert_eq!(wakeup_retry_delay_ms(0), 300);
    assert_eq!(wakeup_retry_delay_ms(1), 500);
    assert_eq!(wakeup_retry_delay_ms(9), 500);
}

#[test]
fn retry_policy_after_wakeup() {
    assert!(!retry_after_apply(false, 0, false));
    assert!(!retry_after_apply(true, 0, true));
    assert!(retry_after_apply(true, 0, false));
    assert!(retry_after_apply(true, 8, false));
    assert!(!retry_after_apply(true, 9, false));
    // at most ten attempts when every one fails
    let mut attempts = 0;
    let mut attempt = 0u32;
    loop {
        attempts += 1;
        if !retry_after_apply(true, attempt, false) {
            break;
        }
        attempt += 1;
    }
    assert_eq!(attempts, 10);
}
