//! The Fn+F8 hotkey: recognising the key, debouncing it and cycling the
//! hardware lighting effect.

use vstd::prelude::*;

verus! {

/// Number of hardware lighting effects the keyboard firmware offers.
pub const HW_MODE_COUNT: u8 = 7;

/// Presses of Fn+F8 closer together than this many milliseconds count once.
pub const F8_DEBOUNCE_MS: u64 = 500;

/// Whether a key event is Fn+F8: the F8 virtual key, or the vendor key
/// 0xFF with scan code 0x0E that some MSI keyboards send for it.
pub open spec fn is_fn_f8_spec(vk: u32, scan: u32) -> bool {
    vk == 0x77 || (vk == 0xFF && scan == 0xE)
}

/// Whether a key event is Fn+F8.
pub fn is_fn_f8(vk: u32, scan: u32) -> (r: bool)
    ensures
        r == is_fn_f8_spec(vk, scan),
        r == (vk == 0x77 || (vk == 0xFF && scan == 0x0E)),
{
    vk == 0x77 || (vk == 0xFF && scan == 0xE)
}

/// Milliseconds since the last toggle, as the clock wraps.
pub open spec fn elapsed_ms(now_ms: u64, last_ms: u64) -> int {
    if now_ms >= last_ms {
        now_ms - last_ms
    } else {
        now_ms - last_ms + 0x1_0000_0000_0000_0000
    }
}

/// The effect after the given one, cycling through the seven effects; the
/// byte wraps, so 255 is followed by 0 (Off).
pub open spec fn next_mode_spec(mode: u8) -> u8 {
    (((mode + 1) % 256) % 7) as u8
}

/// The next hardware effect; the hotkey cycles through all seven, and any
/// stored value, however large, gives a valid effect.
pub fn next_hardware_mode(mode: u8) -> (r: u8)
    ensures
        r == next_mode_spec(mode),
        r < HW_MODE_COUNT,
{
    mode.wrapping_add(1) % HW_MODE_COUNT
}

/// What the keyboard hook does with one event.
#[derive(Clone, Copy, PartialEq, Eq, Debug, Structural)]
pub struct HookOutcome {
    /// The event is a key press to be recorded as the last key seen.
    pub record_key: bool,
    /// The hardware effect is to be cycled, saved and applied.
    pub cycle_mode: bool,
    /// Time of the last accepted toggle after this event.
    pub last_toggle_ms: u64,
}

/// The outcome that the hook owes for an event.
pub open spec fn hook_outcome_spec(
    code: i32,
    is_keydown: bool,
    vk: u32,
    scan: u32,
    now_ms: u64,
    last_toggle_ms: u64,
) -> HookOutcome {
    let pressed = code >= 0 && is_keydown;
    let toggles = pressed && is_fn_f8_spec(vk, scan) && elapsed_ms(now_ms, last_toggle_ms) >= 500;
    HookOutcome {
        record_key: pressed,
        cycle_mode: toggles,
        last_toggle_ms: if toggles { now_ms } else { last_toggle_ms },
    }
}

/// Decide what the low-level keyboard hook does with an event: record key
/// presses, and on Fn+F8 toggle unless the last toggle was under 500 ms ago.
pub fn on_key_event(
    code: i32,
    is_keydown: bool,
    vk: u32,
    scan: u32,
    now_ms: u64,
    last_toggle_ms: u64,
) -> (r: HookOutcome)
    ensures
        r == hook_outcome_spec(code, is_keydown, vk, scan, now_ms, last_toggle_ms),
        r.cycle_mode ==> code >= 0 && is_keydown && (vk == 0x77 || (vk == 0xFF && scan == 0x0E)),
{
    if code >= 0 && is_keydown {
        if is_fn_f8(vk, scan) {
            let since = now_ms.wrapping_sub(last_toggle_ms);
            if since < F8_DEBOUNCE_MS {
                return HookOutcome { record_key: true, cycle_mode: false, last_toggle_ms };
            }
            return HookOutcome { record_key: true, cycle_mode: true, last_toggle_ms: now_ms };
        }
        HookOutcome { record_key: true, cycle_mode: false, last_toggle_ms }
    } else {
        HookOutcome { record_key: false, cycle_mode: false, last_toggle_ms }
    }
}

/// `n` steps of the effect cycle from `mode`.
pub open spec fn cycle_steps(mode: u8, n: nat) -> u8
    decreases n,
{
    if n == 0 {
        mode
    } else {
        next_mode_spec(cycle_steps(mode, (n - 1) as nat))
    }
}

/// From a valid effect, `n` presses move `n` places round the cycle.
proof fn lemma_cycle_steps_formula(mode: u8, n: nat)
    requires
        mode < 7,
    ensures
        cycle_steps(mode, n) == (mode + n) % 7,
    decreases n,
{
    if n > 0 {
        lemma_cycle_steps_formula(mode, (n - 1) as nat);
        assert(cycle_steps(mode, (n - 1) as nat) < 7);
    }
}

/// Every effect that the cycle produces is a valid hardware effect, and
/// seven presses bring a valid effect back to itself.
pub proof fn lemma_cycle_returns_after_seven(mode: u8)
    requires
        mode < 7,
    ensures
        forall|n: nat| #[trigger] cycle_steps(mode, n) < 7,
        cycle_steps(mode, 7) == mode,
{
    assert forall|n: nat| #[trigger] cycle_steps(mode, n) < 7 by {
        lemma_cycle_steps_formula(mode, n);
    }
    lemma_cycle_steps_formula(mode, 7);
}

/// Whatever effect the configuration holds, one press gives a valid effect.
pub proof fn lemma_next_mode_valid(mode: u8)
    ensures
        next_mode_spec(mode) < 7,
        mode < 6 ==> next_mode_spec(mode) == mode + 1,
        mode == 6 ==> next_mode_spec(mode) == 0,
        mode == 255 ==> next_mode_spec(mode) == 0,
{
}

/// Only Fn+F8 cycles the effect: the F8 key (0x77), or the vendor key 0xFF
/// with scan code 0x0E; any other key, the vendor key with another scan
/// code among them, is only recorded. A key press of Fn+F8 at least 500 ms
/// after the last toggle always cycles.
pub proof fn lemma_only_fn_f8_cycles(
    code: i32,
    is_keydown: bool,
    vk: u32,
    scan: u32,
    now_ms: u64,
    last_ms: u64,
)
    ensures
        hook_outcome_spec(code, is_keydown, vk, scan, now_ms, last_ms).cycle_mode ==> (vk == 0x77
            || (vk == 0xFF && scan == 0x0E)),
        hook_outcome_spec(code, is_keydown, vk, scan, now_ms, last_ms).record_key == (code >= 0
            && is_keydown),
        !hook_outcome_spec(code, is_keydown, vk, scan, now_ms, last_ms).cycle_mode
            ==> hook_outcome_spec(code, is_keydown, vk, scan, now_ms, last_ms).last_toggle_ms
            == last_ms,
        code >= 0 && is_keydown && (vk == 0x77 || (vk == 0xFF && scan == 0x0E)) && last_ms
            <= now_ms && now_ms - last_ms >= 500 ==> hook_outcome_spec(
            code,
            is_keydown,
            vk,
            scan,
            now_ms,
            last_ms,
        ).cycle_mode && hook_outcome_spec(code, is_keydown, vk, scan, now_ms, last_ms).last_toggle_ms
            == now_ms,
{
}

/// A second Fn+F8 press less than 500 ms after an accepted one does not
/// toggle again, and leaves the time of the last toggle unchanged.
pub proof fn lemma_debounce(t0: u64, t1: u64, last: u64, vk: u32, scan: u32)
    requires
        is_fn_f8_spec(vk, scan),
        hook_outcome_spec(0, true, vk, scan, t0, last).cycle_mode,
        t0 <= t1 < t0 + 500,
    ensures
        !hook_outcome_spec(0, true, vk, scan, t1, t0).cycle_mode,
        hook_outcome_spec(0, true, vk, scan, t1, t0).last_toggle_ms == t0,
{
}

/// Presses at least 500 ms apart each toggle.
pub proof fn lemma_spaced_presses_toggle(t0: u64, t1: u64, vk: u32, scan: u32)
    requires
        is_fn_f8_spec(vk, scan),
        t0 + 500 <= t1,
    ensures
        hook_outcome_spec(0, true, vk, scan, t1, t0).cycle_mode,
        hook_outcome_spec(0, true, vk, scan, t1, t0).last_toggle_ms == t1,
{
}

} // verus!
