//! A virtual gamepad on the host, via `/dev/uinput`: the device description and the input
//! events, as the bytes the kernel reads.
//!
//! There is no gamepad in Wayland; games read controllers from evdev, below the display server,
//! so a touch gamepad reaches a game only as a real kernel input device. The device reports
//! itself as an Xbox 360 controller (`045e:028e`) with the exact `xpad` layout, so every game
//! already ships a correct mapping for it.
//!
//! The kernel reads `struct uinput_user_dev` and `struct input_event` as fixed little-endian
//! layouts; they are built here byte by byte rather than by reinterpreting a struct's memory.

use vstd::prelude::*;
use vstd::bytes::{spec_u16_to_le_bytes, spec_u32_to_le_bytes, spec_u64_to_le_bytes};

verus! {

/// `_IOW('U', nr, int)`: every uinput setup ioctl has this shape.
pub fn uinput_iow(nr: u64) -> (req: u64)
    ensures
        req == 0x4004_5500u64 | nr,
{
    0x4004_5500u64 | nr
}

/// `UI_SET_EVBIT`, `_IOW('U', 100, int)`.
pub const UI_SET_EVBIT: u64 = 0x4004_5564;
/// `UI_SET_KEYBIT`, `_IOW('U', 101, int)`.
pub const UI_SET_KEYBIT: u64 = 0x4004_5565;
/// `UI_SET_ABSBIT`, `_IOW('U', 103, int)`.
pub const UI_SET_ABSBIT: u64 = 0x4004_5567;
/// `UI_DEV_CREATE`, `_IO('U', 1)`.
pub const UI_DEV_CREATE: u64 = 0x5501;
/// `UI_DEV_DESTROY`, `_IO('U', 2)`.
pub const UI_DEV_DESTROY: u64 = 0x5502;

pub const EV_SYN: u16 = 0x00;
pub const EV_KEY: u16 = 0x01;
pub const EV_ABS: u16 = 0x03;
pub const SYN_REPORT: u16 = 0x00;

/// `sizeof(struct input_event)` on a 64-bit kernel.
pub const INPUT_EVENT_SIZE: usize = 24;
/// `sizeof(struct uinput_user_dev)`.
pub const UINPUT_USER_DEV_SIZE: usize = 1116;

/// The setup request numbers are `_IOW('U', nr, int)` of their command numbers.
pub proof fn law_ioctl_numbers_are_iow()
    ensures
        0x4004_5500u64 | 100u64 == UI_SET_EVBIT,
        0x4004_5500u64 | 101u64 == UI_SET_KEYBIT,
        0x4004_5500u64 | 103u64 == UI_SET_ABSBIT,
{
    assert(0x4004_5500u64 | 100u64 == 0x4004_5564u64) by (bit_vector);
    assert(0x4004_5500u64 | 101u64 == 0x4004_5565u64) by (bit_vector);
    assert(0x4004_5500u64 | 103u64 == 0x4004_5567u64) by (bit_vector);
}

/// The `xpad` button codes, in the order the driver reports them: A, B, X, Y, TL, TR, SELECT,
/// START, MODE, THUMBL, THUMBR.
pub open spec fn spec_buttons() -> Seq<u16> {
    seq![0x130u16, 0x131, 0x133, 0x134, 0x136, 0x137, 0x13a, 0x13b, 0x13c, 0x13d, 0x13e]
}

/// The `xpad` button set.
pub fn buttons() -> (b: [u16; 11])
    ensures
        b@ == spec_buttons(),
{
    let b: [u16; 11] = [0x130, 0x131, 0x133, 0x134, 0x136, 0x137, 0x13a, 0x13b, 0x13c, 0x13d, 0x13e];
    proof {
        assert(b@ =~= spec_buttons());
    }
    b
}

/// The `xpad` axes as `(code, min, max)`: sticks are signed 16-bit, triggers 0..255, and the
/// hat is the three-state -1/0/1 of a D-pad.
pub open spec fn spec_axes() -> Seq<(u16, i32, i32)> {
    seq![
        (0x00u16, -32768i32, 32767i32),
        (0x01u16, -32768i32, 32767i32),
        (0x02u16, 0i32, 255i32),
        (0x03u16, -32768i32, 32767i32),
        (0x04u16, -32768i32, 32767i32),
        (0x05u16, 0i32, 255i32),
        (0x10u16, -1i32, 1i32),
        (0x11u16, -1i32, 1i32),
    ]
}

/// The `xpad` axis set.
pub fn axes() -> (a: [(u16, i32, i32); 8])
    ensures
        a@ == spec_axes(),
{
    let a: [(u16, i32, i32); 8] = [
        (0x00, -32768, 32767),
        (0x01, -32768, 32767),
        (0x02, 0, 255),
        (0x03, -32768, 32767),
        (0x04, -32768, 32767),
        (0x05, 0, 255),
        (0x10, -1, 1),
        (0x11, -1, 1),
    ];
    proof {
        assert(a@ =~= spec_axes());
    }
    a
}

/// Every axis code indexes the 64-entry `abs*` tables, and every range is non-empty.
pub proof fn law_every_axis_fits_the_abs_tables()
    ensures
        forall|i: int| 0 <= i < spec_axes().len() ==> (#[trigger] spec_axes()[i]).0 < 64 && spec_axes()[i].1 < spec_axes()[i].2,
{
}

/// `value` clamped to `[min, max]`.
pub open spec fn clamp_i32(value: i32, min: i32, max: i32) -> i32 {
    if value < min { min } else if value > max { max } else { value }
}

/// The first axis with this code, if the device has one.
pub open spec fn axis_index(code: u16) -> Option<int> {
    if exists|i: int| 0 <= i < spec_axes().len() && spec_axes()[i].0 == code {
        Some(choose|i: int| 0 <= i < spec_axes().len() && spec_axes()[i].0 == code)
    } else {
        None
    }
}

/// The value to report for axis `code`: clamped to the range the device advertised (the
/// kernel silently drops an out-of-range value, which looks like a dead stick), or `None` when
/// the device has no such axis.
pub fn axis_value(code: u16, value: i32) -> (v: Option<i32>)
    ensures
        match axis_index(code) {
            Some(i) => v == Some(clamp_i32(value, spec_axes()[i].1, spec_axes()[i].2)),
            None => v is None,
        },
        v == reported_axis_value(code, value),
{
    let table = axes();
    let mut i: usize = 0;
    while i < 8
        invariant
            table@ == spec_axes(),
            i <= 8,
            forall|j: int| 0 <= j < i ==> spec_axes()[j].0 != code,
        decreases 8 - i,
    {
        let (c, min, max) = table[i];
        if c == code {
            proof {
                // The codes are distinct, so the first match is the only one.
                assert forall|j: int| 0 <= j < spec_axes().len() && spec_axes()[j].0 == code implies j == i by {}
            }
            let clamped = if value < min { min } else if value > max { max } else { value };
            return Some(clamped);
        }
        i = i + 1;
    }
    None
}

/// What the device reports for a value sent to axis `code`: the value held to the axis's
/// advertised range, or nothing when the device has no such axis.
pub open spec fn reported_axis_value(code: u16, value: i32) -> Option<i32> {
    match axis_index(code) {
        Some(i) => Some(clamp_i32(value, spec_axes()[i].1, spec_axes()[i].2)),
        None => None,
    }
}

/// Axis `i` of the table is the one its code finds.
proof fn lemma_axis_index_of(i: int)
    requires
        0 <= i < spec_axes().len(),
    ensures
        axis_index(spec_axes()[i].0) == Some(i),
{
    let code = spec_axes()[i].0;
    assert(0 <= i < spec_axes().len() && spec_axes()[i].0 == code);
    let j = choose|j: int| 0 <= j < spec_axes().len() && spec_axes()[j].0 == code;
    assert(j == i);
}

/// The device behaves as an Xbox 360 pad: the four stick axes (X, Y, RX, RY) pass every
/// signed 16-bit value through, the two triggers (Z, RZ) every value from 0 to 255, and the
/// D-pad hat axes (HAT0X, HAT0Y) are three-state, passing -1, 0 and 1 through, so a D-pad
/// pressed left or up reaches the game. Values beyond an axis's range are held to its nearest
/// end, and a code the device does not have is not reported at all.
pub proof fn law_axes_carry_their_whole_range(code: u16, value: i32)
    ensures
        (code == 0x00 || code == 0x01 || code == 0x03 || code == 0x04) ==> {
            &&& (-32768 <= value <= 32767 ==> reported_axis_value(code, value) == Some(value))
            &&& (value < -32768 ==> reported_axis_value(code, value) == Some(-32768i32))
            &&& (value > 32767 ==> reported_axis_value(code, value) == Some(32767i32))
        },
        (code == 0x02 || code == 0x05) ==> {
            &&& (0 <= value <= 255 ==> reported_axis_value(code, value) == Some(value))
            &&& (value < 0 ==> reported_axis_value(code, value) == Some(0i32))
            &&& (value > 255 ==> reported_axis_value(code, value) == Some(255i32))
        },
        (code == 0x10 || code == 0x11) ==> {
            &&& (-1 <= value <= 1 ==> reported_axis_value(code, value) == Some(value))
            &&& (value < -1 ==> reported_axis_value(code, value) == Some(-1i32))
            &&& (value > 1 ==> reported_axis_value(code, value) == Some(1i32))
        },
        !(code == 0x00 || code == 0x01 || code == 0x02 || code == 0x03 || code == 0x04 || code == 0x05 || code
            == 0x10 || code == 0x11) ==> reported_axis_value(code, value) is None,
{
    lemma_axis_index_of(0);
    lemma_axis_index_of(1);
    lemma_axis_index_of(2);
    lemma_axis_index_of(3);
    lemma_axis_index_of(4);
    lemma_axis_index_of(5);
    lemma_axis_index_of(6);
    lemma_axis_index_of(7);
    assert(spec_axes()[0].0 == 0x00 && spec_axes()[1].0 == 0x01 && spec_axes()[2].0 == 0x02);
    assert(spec_axes()[3].0 == 0x03 && spec_axes()[4].0 == 0x04 && spec_axes()[5].0 == 0x05);
    assert(spec_axes()[6].0 == 0x10 && spec_axes()[7].0 == 0x11);
}

/// `struct input_event` as the kernel reads it: a zero timestamp (the kernel stamps it), then
/// type, code and value, little-endian.
pub open spec fn spec_event_bytes(kind: u16, code: u16, value: i32) -> Seq<u8> {
    spec_u64_to_le_bytes(0) + spec_u64_to_le_bytes(0) + spec_u16_to_le_bytes(kind) + spec_u16_to_le_bytes(code)
        + spec_u32_to_le_bytes(value as u32)
}

/// The bytes of one input event.
pub fn event_bytes(kind: u16, code: u16, value: i32) -> (b: Vec<u8>)
    ensures
        b@ == spec_event_bytes(kind, code, value),
        b@.len() == INPUT_EVENT_SIZE,
{
    let mut b = vstd::bytes::u64_to_le_bytes(0);
    let mut usec = vstd::bytes::u64_to_le_bytes(0);
    let mut k = vstd::bytes::u16_to_le_bytes(kind);
    let mut c = vstd::bytes::u16_to_le_bytes(code);
    let mut v = vstd::bytes::u32_to_le_bytes(value as u32);
    b.append(&mut usec);
    b.append(&mut k);
    b.append(&mut c);
    b.append(&mut v);
    b
}

/// The bytes that press or release one button: the key event, then the report that ends the
/// frame.
pub fn button_report(code: u16, pressed: bool) -> (b: Vec<u8>)
    ensures
        b@ == spec_event_bytes(EV_KEY, code, if pressed { 1 } else { 0 }) + spec_event_bytes(EV_SYN, SYN_REPORT, 0),
{
    let mut b = event_bytes(EV_KEY, code, if pressed { 1 } else { 0 });
    let mut sync = event_bytes(EV_SYN, SYN_REPORT, 0);
    b.append(&mut sync);
    b
}

/// The bytes that move one axis, with the value clamped to the axis range, then the report
/// that ends the frame; `None` for an axis this device does not have.
pub fn axis_report(code: u16, value: i32) -> (b: Option<Vec<u8>>)
    ensures
        match axis_index(code) {
            Some(i) => b matches Some(bytes) && bytes@ == spec_event_bytes(
                EV_ABS,
                code,
                clamp_i32(value, spec_axes()[i].1, spec_axes()[i].2),
            ) + spec_event_bytes(EV_SYN, SYN_REPORT, 0),
            None => b is None,
        },
{
    match axis_value(code, value) {
        Some(v) => {
            let mut b = event_bytes(EV_ABS, code, v);
            let mut sync = event_bytes(EV_SYN, SYN_REPORT, 0);
            b.append(&mut sync);
            Some(b)
        },
        None => None,
    }
}

/// The device name, as the bytes that lead the 80-byte name field.
pub open spec fn spec_name() -> Seq<u8> {
    "wado virtual gamepad"@.map_values(|c: char| c as u8)
}

/// The advertised limit of `abs` table entry `code`: the axis maximum (or minimum) for an axis
/// of the device, zero for every other entry.
pub open spec fn abs_limit(code: int, max: bool) -> i32 {
    if exists|i: int| 0 <= i < spec_axes().len() && spec_axes()[i].0 == code {
        let i = choose|i: int| 0 <= i < spec_axes().len() && spec_axes()[i].0 == code;
        if max { spec_axes()[i].2 } else { spec_axes()[i].1 }
    } else {
        0
    }
}

/// A 64-entry `abs*` table of little-endian `i32`s.
pub open spec fn abs_table(max: bool) -> Seq<u8> {
    Seq::new(64, |c: int| spec_u32_to_le_bytes(abs_limit(c, max) as u32)).flatten()
}

/// A 64-entry table of zeros.
pub open spec fn zero_table() -> Seq<u8> {
    Seq::new(64, |c: int| spec_u32_to_le_bytes(0)).flatten()
}

/// `struct uinput_user_dev` for this device: the name padded to 80 bytes, the virtual bus, the
/// Xbox 360 vendor, product and version, no force-feedback effects, the axis maxima and minima,
/// and zero fuzz and flat.
pub open spec fn spec_setup_bytes() -> Seq<u8> {
    spec_name() + Seq::new(60, |i: int| 0u8) + spec_u16_to_le_bytes(0x06) + spec_u16_to_le_bytes(0x045e)
        + spec_u16_to_le_bytes(0x028e) + spec_u16_to_le_bytes(0x0110) + spec_u32_to_le_bytes(0) + abs_table(true)
        + abs_table(false) + zero_table() + zero_table()
}

/// The abs-table limit for one code, looked up in the axis table.
fn limit_for(code: u16, max: bool) -> (l: i32)
    ensures
        l == abs_limit(code as int, max),
{
    let table = axes();
    let mut i: usize = 0;
    while i < 8
        invariant
            table@ == spec_axes(),
            i <= 8,
            forall|j: int| 0 <= j < i ==> spec_axes()[j].0 != code,
        decreases 8 - i,
    {
        let (c, min, lim) = table[i];
        if c == code {
            proof {
                assert forall|j: int| 0 <= j < spec_axes().len() && spec_axes()[j].0 == code implies j == i by {}
            }
            return if max { lim } else { min };
        }
        i = i + 1;
    }
    0
}

/// Append a 64-entry table of little-endian `i32`s: the axis limits, or zeros.
fn push_table(out: &mut Vec<u8>, limits: bool, max: bool)
    ensures
        final(out)@ == old(out)@ + if limits { abs_table(max) } else { zero_table() },
        final(out)@.len() == old(out)@.len() + 256,
{
    let ghost start = old(out)@;
    let ghost entries = if limits {
        Seq::new(64, |c: int| spec_u32_to_le_bytes(abs_limit(c, max) as u32))
    } else {
        Seq::new(64, |c: int| spec_u32_to_le_bytes(0))
    };
    let mut code: u16 = 0;
    while code < 64
        invariant
            code <= 64,
            entries.len() == 64,
            entries == if limits {
                Seq::new(64, |c: int| spec_u32_to_le_bytes(abs_limit(c, max) as u32))
            } else {
                Seq::new(64, |c: int| spec_u32_to_le_bytes(0))
            },
            out@ == start + entries.subrange(0, code as int).flatten(),
            out@.len() == start.len() + 4 * code,
        decreases 64 - code,
    {
        let value: i32 = if limits { limit_for(code, max) } else { 0 };
        let mut bytes = vstd::bytes::u32_to_le_bytes(value as u32);
        proof {
            assert(entries.subrange(0, code + 1) =~= entries.subrange(0, code as int).push(entries[code as int]));
            entries.subrange(0, code as int).lemma_flatten_push(entries[code as int]);
            assert(bytes@ == entries[code as int]);
        }
        out.append(&mut bytes);
        code = code + 1;
        proof {
            assert(out@ =~= start + entries.subrange(0, code as int).flatten());
        }
    }
    proof {
        assert(entries.subrange(0, 64) =~= entries);
    }
}

/// The bytes of the device description written to `/dev/uinput` before `UI_DEV_CREATE`.
pub fn setup_bytes() -> (b: Vec<u8>)
    ensures
        b@ == spec_setup_bytes(),
        b@.len() == UINPUT_USER_DEV_SIZE,
{
    let name = "wado virtual gamepad";
    proof {
        reveal_strlit("wado virtual gamepad");
    }
    let n = name.unicode_len();
    let mut b: Vec<u8> = Vec::new();
    let mut i: usize = 0;
    while i < n
        invariant
            n == name@.len(),
            n == 20,
            i <= n,
            name@ == "wado virtual gamepad"@,
            b@ == spec_name().subrange(0, i as int),
        decreases n - i,
    {
        let c = name.get_char(i);
        b.push(c as u8);
        i = i + 1;
        proof {
            assert(b@ =~= spec_name().subrange(0, i as int));
        }
    }
    proof {
        assert(spec_name().subrange(0, 20) =~= spec_name());
    }
    while i < 80
        invariant
            20 <= i <= 80,
            b@ == spec_name() + Seq::new((i - 20) as nat, |k: int| 0u8),
        decreases 80 - i,
    {
        b.push(0);
        i = i + 1;
        proof {
            assert(b@ =~= spec_name() + Seq::new((i - 20) as nat, |k: int| 0u8));
        }
    }
    let mut bus = vstd::bytes::u16_to_le_bytes(0x06);
    let mut vendor = vstd::bytes::u16_to_le_bytes(0x045e);
    let mut product = vstd::bytes::u16_to_le_bytes(0x028e);
    let mut version = vstd::bytes::u16_to_le_bytes(0x0110);
    let mut effects = vstd::bytes::u32_to_le_bytes(0);
    b.append(&mut bus);
    b.append(&mut vendor);
    b.append(&mut product);
    b.append(&mut version);
    b.append(&mut effects);
    push_table(&mut b, true, true);
    push_table(&mut b, true, false);
    push_table(&mut b, false, false);
    push_table(&mut b, false, false);
    proof {
        assert(b@ =~= spec_setup_bytes());
    }
    b
}

} // verus!
