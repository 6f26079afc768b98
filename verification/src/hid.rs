//! The USB HID protocol of the keyboard: which devices are the keyboard,
//! the reports sent to it, and how its state is reported.

use vstd::prelude::*;

use crate::config::KeyboardConfig;

verus! {

/// USB vendor id of MSI.
pub const MSI_VENDOR_ID: u16 = 0x1462;

/// MSI keyboard product ids, in the order in which they are tried.
pub const MSI_PIDS: [u16; 3] = [5474, 5475, 5476];

/// USB vendor id of the keyboard's bootloader (Artery MCU).
pub const BOOTLOADER_VENDOR_ID: u16 = 0x2E3C;

/// USB product id of the keyboard's bootloader.
pub const BOOTLOADER_PRODUCT_ID: u16 = 0xAF01;

/// Length of the output report that wakes the bootloader.
pub const WAKEUP_REPORT_LEN: usize = 65;

/// Length of the feature report that sets the lighting.
pub const LIGHTING_REPORT_LEN: usize = 64;

/// Number of colours the lighting report carries.
pub const REPORT_COLOR_COUNT: u8 = 7;

/// How many times the lighting is sent after a wake-up before giving up.
pub const WAKEUP_APPLY_ATTEMPTS: u32 = 10;

/// Error text when no MSI keyboard could be opened.
pub const KEYBOARD_NOT_FOUND: &'static str = "MSI keyboard not found";

/// Error text when the HID library could not be initialised.
pub const HID_UNAVAILABLE: &'static str = "HID API not available";

/// Whether a vendor/product id pair is an MSI keyboard in normal mode.
pub open spec fn is_msi_keyboard_spec(vid: u16, pid: u16) -> bool {
    vid == MSI_VENDOR_ID && (pid == 5474 || pid == 5475 || pid == 5476)
}

/// Whether a vendor/product id pair is the keyboard's bootloader.
pub open spec fn is_bootloader_spec(vid: u16, pid: u16) -> bool {
    vid == BOOTLOADER_VENDOR_ID && pid == BOOTLOADER_PRODUCT_ID
}

/// Whether a vendor/product id pair is an MSI keyboard in normal mode.
pub fn is_msi_keyboard(vid: u16, pid: u16) -> (r: bool)
    ensures
        r == is_msi_keyboard_spec(vid, pid),
        r == (vid == 0x1462 && (pid == 5474 || pid == 5475 || pid == 5476)),
{
    let pids = MSI_PIDS;
    let mut found = false;
    let mut i: usize = 0;
    while i < 3
        invariant
            i <= 3,
            pids@ == seq![5474u16, 5475u16, 5476u16],
            found == exists|j: int| 0 <= j < i && pids[j] == pid,
        decreases 3 - i,
    {
        if pids[i] == pid {
            found = true;
        }
        i = i + 1;
    }
    assert(found == (pid == 5474 || pid == 5475 || pid == 5476)) by {
        if pid == 5474 { assert(pids[0] == pid); }
        if pid == 5475 { assert(pids[1] == pid); }
        if pid == 5476 { assert(pids[2] == pid); }
    }
    vid == MSI_VENDOR_ID && found
}

/// Whether a vendor/product id pair is the keyboard's bootloader.
pub fn is_bootloader(vid: u16, pid: u16) -> (r: bool)
    ensures
        r == is_bootloader_spec(vid, pid),
        r == (vid == 0x2E3C && pid == 0xAF01),
{
    vid == BOOTLOADER_VENDOR_ID && pid == BOOTLOADER_PRODUCT_ID
}

/// The report that makes the bootloader jump to the application:
/// report id 1, sync byte 0x5A, command 0xA6, the rest zero.
pub open spec fn is_wakeup_report(r: Seq<u8>) -> bool {
    &&& r.len() == 65
    &&& r[0] == 1
    &&& r[1] == 0x5A
    &&& r[2] == 0xA6
    &&& forall|j: int| 3 <= j < 65 ==> #[trigger] r[j] == 0
}

/// Build the report that wakes a keyboard stuck in its bootloader.
pub fn bootloader_wakeup_report() -> (r: Vec<u8>)
    ensures
        is_wakeup_report(r@),
{
    let mut buf: Vec<u8> = vec![0u8; WAKEUP_REPORT_LEN];
    buf.set(0, 1);
    buf.set(1, 0x5A);
    buf.set(2, 0xA6);
    buf
}

/// Number of configured colours that the lighting report carries.
pub open spec fn reported_color_count(c: KeyboardConfig) -> int {
    if c.colors@.len() < 7 {
        c.colors@.len() as int
    } else {
        7
    }
}

/// The lighting feature report for a configuration: report id 2, a zero
/// byte, effect, speed, brightness, the colour count 7, then the first
/// (at most seven) colours as red, green, blue triples, the rest zero.
pub open spec fn is_lighting_report(c: KeyboardConfig, r: Seq<u8>) -> bool {
    &&& r.len() == 64
    &&& r[0] == 2
    &&& r[1] == 0
    &&& r[2] == c.mode
    &&& r[3] == c.speed
    &&& r[4] == c.brightness
    &&& r[5] == 7
    &&& forall|i: int, k: int|
        0 <= i < reported_color_count(c) && 0 <= k < 3 ==> #[trigger] r[6 + 3 * i + k]
            == c.colors@[i][k]
    &&& forall|j: int| 6 + 3 * reported_color_count(c) <= j < 64 ==> #[trigger] r[j] == 0
}

/// Build the feature report that applies a configuration's lighting.
pub fn lighting_report(config: &KeyboardConfig) -> (r: Vec<u8>)
    ensures
        is_lighting_report(*config, r@),
{
    let mut buf: Vec<u8> = vec![0u8; LIGHTING_REPORT_LEN];
    buf.set(0, 2);
    buf.set(1, 0);
    buf.set(2, config.mode);
    buf.set(3, config.speed);
    buf.set(4, config.brightness);
    buf.set(5, REPORT_COLOR_COUNT);
    let n: usize = if config.colors.len() < 7 { config.colors.len() } else { 7 };
    let mut i: usize = 0;
    while i < n
        invariant
            n == reported_color_count(*config),
            n <= 7,
            i <= n,
            buf@.len() == 64,
            buf@[0] == 2,
            buf@[1] == 0,
            buf@[2] == config.mode,
            buf@[3] == config.speed,
            buf@[4] == config.brightness,
            buf@[5] == 7,
            forall|a: int, k: int|
                0 <= a < i && 0 <= k < 3 ==> #[trigger] buf@[6 + 3 * a + k] == config.colors@[a][k],
            forall|j: int| 6 + 3 * i <= j < 64 ==> #[trigger] buf@[j] == 0,
        decreases n - i,
    {
        let color = config.colors[i];
        let offset = i * 3 + 6;
        if offset + 2 < buf.len() {
            buf.set(offset, color[0]);
            buf.set(offset + 1, color[1]);
            buf.set(offset + 2, color[2]);
        }
        assert forall|a: int, k: int|
            0 <= a < i + 1 && 0 <= k < 3 implies #[trigger] buf@[6 + 3 * a + k] == config.colors@[a][k] by {
            if a == i {
                assert(6 + 3 * a + k == offset + k);
            }
        }
        i = i + 1;
    }
    buf
}

/// What the HID device list says of the keyboard.
#[derive(Clone, Copy, PartialEq, Eq, Debug, Structural)]
pub enum KeyboardStatus {
    /// The bootloader is present: the keyboard is stuck and needs waking.
    Bootloader,
    /// An MSI keyboard is present in normal operating mode.
    Normal,
    /// Neither is present.
    NotFound,
}

/// The status that a list of (vendor id, product id) pairs shows; the
/// bootloader takes precedence over a normal keyboard.
pub open spec fn status_of_devices(devices: Seq<(u16, u16)>) -> KeyboardStatus {
    if exists|i: int| 0 <= i < devices.len() && is_bootloader_spec(#[trigger] devices[i].0, devices[i].1) {
        KeyboardStatus::Bootloader
    } else if exists|i: int| 0 <= i < devices.len() && is_msi_keyboard_spec(#[trigger] devices[i].0, devices[i].1) {
        KeyboardStatus::Normal
    } else {
        KeyboardStatus::NotFound
    }
}

/// Classify the connected HID devices, given as (vendor id, product id) pairs.
pub fn keyboard_status(devices: &Vec<(u16, u16)>) -> (r: KeyboardStatus)
    ensures
        r == status_of_devices(devices@),
{
    let mut has_bootloader = false;
    let mut has_normal = false;
    let mut i: usize = 0;
    while i < devices.len()
        invariant
            i <= devices@.len(),
            has_bootloader == exists|j: int| 0 <= j < i && is_bootloader_spec(#[trigger] devices@[j].0, devices@[j].1),
            has_normal == exists|j: int| 0 <= j < i && is_msi_keyboard_spec(#[trigger] devices@[j].0, devices@[j].1),
        decreases devices@.len() - i,
    {
        let (vid, pid) = devices[i];
        if is_bootloader(vid, pid) {
            has_bootloader = true;
        }
        if is_msi_keyboard(vid, pid) {
            has_normal = true;
        }
        i = i + 1;
    }
    if has_bootloader {
        KeyboardStatus::Bootloader
    } else if has_normal {
        KeyboardStatus::Normal
    } else {
        KeyboardStatus::NotFound
    }
}

/// The status line text for a keyboard status.
pub open spec fn status_text_spec(s: KeyboardStatus) -> Seq<char> {
    match s {
        KeyboardStatus::Bootloader => "Connected (Bootloader Mode)"@,
        KeyboardStatus::Normal => "Connected (Normal Operating Mode)"@,
        KeyboardStatus::NotFound => "Not Found"@,
    }
}

impl KeyboardStatus {
    /// The status line text for this status.
    pub fn text(self) -> (r: &'static str)
        ensures
            r@ == status_text_spec(self),
    {
        match self {
            KeyboardStatus::Bootloader => "Connected (Bootloader Mode)",
            KeyboardStatus::Normal => "Connected (Normal Operating Mode)",
            KeyboardStatus::NotFound => "Not Found",
        }
    }
}

/// The keyboard status text: the classification of the device list, or an
/// error text when the HID library could not be used (`None`).
pub fn get_keyboard_status(devices: Option<&Vec<(u16, u16)>>) -> (r: String)
    ensures
        r@ == (match devices {
            Some(d) => status_text_spec(status_of_devices(d@)),
            None => "Error accessing HID API"@,
        }),
{
    match devices {
        Some(d) => String::from_str(keyboard_status(d).text()),
        None => String::from_str("Error accessing HID API"),
    }
}

/// Delay before the given attempt at applying the lighting after a wake-up:
/// longer before the first, while the keyboard re-enumerates.
pub fn wakeup_retry_delay_ms(attempt: u32) -> (r: u64)
    ensures
        r == (if attempt == 0 { 300u64 } else { 500u64 }),
{
    if attempt == 0 {
        300
    } else {
        500
    }
}

/// Whether to try applying the lighting again after attempt number
/// `attempt` (counting from 0): only after a wake-up, only while the last
/// attempt failed, and at most `WAKEUP_APPLY_ATTEMPTS` attempts in all.
/// Without a wake-up the lighting is tried once.
pub fn retry_after_apply(woke: bool, attempt: u32, applied: bool) -> (again: bool)
    ensures
        again == (woke && !applied && attempt + 1 < WAKEUP_APPLY_ATTEMPTS),
{
    woke && !applied && attempt < WAKEUP_APPLY_ATTEMPTS - 1
}

/// Whether the attempt numbered `attempt` is made, given the results of the
/// attempts before it: the first always is; a later one only after a
/// wake-up, while every earlier attempt failed, and within the limit.
pub open spec fn attempt_made(woke: bool, results: Seq<bool>, attempt: int) -> bool
    decreases attempt,
{
    if attempt <= 0 {
        attempt == 0
    } else {
        attempt_made(woke, results, attempt - 1) && (woke && !results[attempt - 1] && (attempt
            - 1) + 1 < WAKEUP_APPLY_ATTEMPTS)
    }
}

/// The start-up policy: at most ten attempts after a wake-up, none after
/// the first that succeeds, and a single attempt without a wake-up.
pub proof fn lemma_apply_attempts_bounded(woke: bool, results: Seq<bool>, attempt: int)
    requires
        attempt_made(woke, results, attempt),
    ensures
        0 <= attempt < WAKEUP_APPLY_ATTEMPTS,
        !woke ==> attempt == 0,
        forall|k: int| 0 <= k < attempt ==> !#[trigger] results[k],
    decreases attempt,
{
    if attempt > 0 {
        lemma_apply_attempts_bounded(woke, results, attempt - 1);
    }
}

/// How the keyboard status follows from the device list, wherever in the
/// list the devices stand: the bootloader (0x2E3C:0xAF01) anywhere gives
/// bootloader mode; otherwise an MSI keyboard (0x1462 with product 5474,
/// 5475 or 5476) anywhere gives normal mode; and "not found" comes exactly
/// when the list holds neither.
pub proof fn lemma_status_from_any_position(devices: Seq<(u16, u16)>)
    ensures
        (exists|i: int|
            0 <= i < devices.len() && devices[i].0 == 0x2E3C && devices[i].1 == 0xAF01)
            ==> status_of_devices(devices) == KeyboardStatus::Bootloader,
        (forall|i: int|
            0 <= i < devices.len() ==> !(devices[i].0 == 0x2E3C && devices[i].1 == 0xAF01)) && (
        exists|i: int|
            0 <= i < devices.len() && devices[i].0 == 0x1462 && (devices[i].1 == 5474
                || devices[i].1 == 5475 || devices[i].1 == 5476)) ==> status_of_devices(devices)
            == KeyboardStatus::Normal,
        status_of_devices(devices) == KeyboardStatus::NotFound <==> (forall|i: int|
            0 <= i < devices.len() ==> !(devices[i].0 == 0x2E3C && devices[i].1 == 0xAF01) && !(
            devices[i].0 == 0x1462 && (devices[i].1 == 5474 || devices[i].1 == 5475
                || devices[i].1 == 5476))),
{
    if exists|i: int|
        0 <= i < devices.len() && devices[i].0 == 0x2E3C && devices[i].1 == 0xAF01 {
        let w = choose|i: int|
            0 <= i < devices.len() && devices[i].0 == 0x2E3C && devices[i].1 == 0xAF01;
        assert(is_bootloader_spec(devices[w].0, devices[w].1));
    }
    if exists|i: int|
        0 <= i < devices.len() && devices[i].0 == 0x1462 && (devices[i].1 == 5474
            || devices[i].1 == 5475 || devices[i].1 == 5476) {
        let w = choose|i: int|
            0 <= i < devices.len() && devices[i].0 == 0x1462 && (devices[i].1 == 5474
                || devices[i].1 == 5475 || devices[i].1 == 5476);
        assert(is_msi_keyboard_spec(devices[w].0, devices[w].1));
    }
    if status_of_devices(devices) == KeyboardStatus::NotFound {
        assert forall|i: int| 0 <= i < devices.len() implies !(devices[i].0 == 0x2E3C
            && devices[i].1 == 0xAF01) && !(devices[i].0 == 0x1462 && (devices[i].1 == 5474
            || devices[i].1 == 5475 || devices[i].1 == 5476)) by {
            if devices[i].0 == 0x2E3C && devices[i].1 == 0xAF01 {
                assert(is_bootloader_spec(devices[i].0, devices[i].1));
            }
            if devices[i].0 == 0x1462 && (devices[i].1 == 5474 || devices[i].1 == 5475
                || devices[i].1 == 5476) {
                assert(is_msi_keyboard_spec(devices[i].0, devices[i].1));
            }
        }
    }
}

/// The status texts name the three states, each its own.
pub proof fn lemma_status_texts()
    ensures
        status_text_spec(KeyboardStatus::Bootloader) == "Connected (Bootloader Mode)"@,
        status_text_spec(KeyboardStatus::Normal) == "Connected (Normal Operating Mode)"@,
        status_text_spec(KeyboardStatus::NotFound) == "Not Found"@,
{
}

/// The lighting report starts with report id 2, a zero byte, the effect,
/// the speed, the brightness and the colour count 7, in that order, and is
/// 64 bytes long; the wake-up report is 65 bytes: 1, 0x5A, 0xA6, zeros.
pub proof fn lemma_report_headers(c: KeyboardConfig, r: Seq<u8>, w: Seq<u8>)
    requires
        is_lighting_report(c, r),
        is_wakeup_report(w),
    ensures
        r.len() == 64,
        r[0] == 2 && r[1] == 0 && r[2] == c.mode && r[3] == c.speed && r[4] == c.brightness
            && r[5] == 7,
        c.colors@.len() == 0 ==> forall|j: int| 6 <= j < 64 ==> r[j] == 0,
        w.len() == 65,
        w[0] == 1 && w[1] == 0x5A && w[2] == 0xA6,
        forall|j: int| 3 <= j < 65 ==> w[j] == 0,
{
}

/// A keyboard shown both in bootloader mode and in normal mode counts as
/// being in bootloader mode.
pub proof fn lemma_bootloader_takes_precedence(devices: Seq<(u16, u16)>, i: int)
    requires
        0 <= i < devices.len(),
        is_bootloader_spec(devices[i].0, devices[i].1),
    ensures
        status_of_devices(devices) == KeyboardStatus::Bootloader,
{
}

/// The colour bytes of the lighting report are the configured colours, so
/// the configured colours can be read back from it.
pub proof fn lemma_report_carries_colors(c: KeyboardConfig, r: Seq<u8>, i: int)
    requires
        is_lighting_report(c, r),
        0 <= i < 7,
        i < c.colors@.len(),
    ensures
        r[6 + 3 * i] == c.colors@[i][0],
        r[6 + 3 * i + 1] == c.colors@[i][1],
        r[6 + 3 * i + 2] == c.colors@[i][2],
{
    assert(r[6 + 3 * i + 0] == c.colors@[i][0]);
    assert(r[6 + 3 * i + 1] == c.colors@[i][1]);
    assert(r[6 + 3 * i + 2] == c.colors@[i][2]);
}

} // verus!
