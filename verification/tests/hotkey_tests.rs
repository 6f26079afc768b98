use rustkeyboard::hotkey::{is_fn_f8, next_hardware_mode, on_key_event, HookOutcome};

#[test]
fn recognises_fn_f8() {
    assert!(is_fn_f8(0x77, 0));
    assert!(is_fn_f8(0xFF, 0xE));
    assert!(!is_fn_f8(0xFF, 0xF));
    assert!(!is_fn_f8(0x76, 0xE));
}

#[test]
fn mode_cycles_through_seven() {
    assert_eq!(next_hardware_mode(0), 1);
    assert_eq!(next_hardware_mode(5), 6);
    assert_eq!(next_hardware_mode(6), 0);
    assert_eq!(next_hardware_mode(10), 4);
    assert_eq!(next_hardware_mode(254), 3);
    assert_eq!(next_hardware_mode(255), 0);
    for m in 0..=255u8 {
        assert!(next_hardware_mode(m) < 7);
    }
    let mut m = 3;
    for _ in 0..7 {
        m = next_hardware_mode(m);
    }
    assert_eq!(m, 3);
}

#[test]
fn hook_ignores_non_keydown_and_negative_codes() {
    assert_eq!(
        on_key_event(-1, true, 0x77, 0, 10_000, 0),
        HookOutcome { record_key: false, cycle_mode: false, last_toggle_ms: 0 }
    );
    assert_eq!(
        on_key_event(0, false, 0x77, 0, 10_000, 0),
        HookOutcome { record_key: false, cycle_mode: false, last_toggle_ms: 0 }
    );
}

#[test]
fn hook_records_other_keys() {
    assert_eq!(
        on_key_event(0, true, 0x41, 0, 10_000, 0),
        HookOutcome { record_key: true, cycle_mode: false, last_toggle_ms: 0 }
    );
}

#[test]
fn hook_debounces_f8() {
    let first = on_key_event(0, true, 0x77, 0, 10_000, 0);
    assert_eq!(first, HookOutcome { record_key: true, cycle_mode: true, last_toggle_ms: 10_000 });
    let second = on_key_event(0, true, 0x77, 0, 10_499, first.last_toggle_ms);
    assert_eq!(second, HookOutcome { record_key: true, cycle_mode: false, last_toggle_ms: 10_000 });
    let third = on_key_event(0, true, 0xFF, 0xE, 10_500, second.last_toggle_ms);
    assert_eq!(third, HookOutcome { record_key: true, cycle_mode: true, last_toggle_ms: 10_500 });
}

#[test]
fn hook_debounce_wraps_like_the_clock() {
    // now before last: the wrapped difference is huge, so it toggles
    let r = on_key_event(0, true, 0x77, 0, 5, 10);
    assert!(r.cycle_mode);
    // last near the top, now just past zero: wrapped difference is small
    let r = on_key_event(0, true, 0x77, 0, 100, u64::MAX - 50);
    assert!(!r.cycle_mode);
}
