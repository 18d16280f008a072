//! Joy-Con HID protocol: identifiers, input report decoding and the
//! analog-stick dead-zone.

use vstd::prelude::*;

verus! {

// ── Subcommand and report identifiers ─────────────────────────────────────
pub const SUBCMD_SET_INPUT_REPORT_MODE: u8 = 0x03;

pub const SUBCMD_ENABLE_VIBRATION: u8 = 0x48;

pub const SUBCMD_ENABLE_IMU: u8 = 0x40;

/// Report id of the full input report (sticks, buttons and IMU at 60 Hz).
pub const INPUT_REPORT_FULL: u8 = 0x30;

/// Report id of the simple input report (buttons and sticks, lower bandwidth).
pub const INPUT_REPORT_SIMPLE: u8 = 0x3F;

/// Smallest full report that holds the buttons and both sticks.
pub const FULL_REPORT_MIN_LEN: usize = 13;

/// Smallest simple report that holds the buttons and both sticks.
pub const SIMPLE_REPORT_MIN_LEN: usize = 12;

/// 12-bit midpoint of a stick axis.
pub const STICK_CENTER: u16 = 2048;

/// Default dead-zone radius around the stick center.
pub const STICK_DEADZONE: u16 = 150;

/// Which Joy-Con of the pair a device or a report belongs to.
#[derive(Debug, Clone, Copy, PartialEq, Eq, Structural)]
pub enum Side {
    Left,
    Right,
}

/// Decoded input of a single Joy-Con.
#[derive(Debug, Clone, Copy, PartialEq, Eq, Structural)]
pub struct JoyConInput {
    pub side: Option<Side>,
    // Buttons of the left Joy-Con
    pub btn_left: bool,
    pub btn_right: bool,
    pub btn_up: bool,
    pub btn_down: bool,
    pub btn_sl_l: bool,
    pub btn_sr_l: bool,
    pub btn_minus: bool,
    pub btn_lstick: bool,
    // Buttons of the right Joy-Con
    pub btn_a: bool,
    pub btn_b: bool,
    pub btn_x: bool,
    pub btn_y: bool,
    pub btn_sl_r: bool,
    pub btn_sr_r: bool,
    pub btn_plus: bool,
    pub btn_rstick: bool,
    pub btn_home: bool,
    pub btn_capture: bool,
    // Shoulders and triggers
    pub btn_l: bool,
    pub btn_zl: bool,
    pub btn_r: bool,
    pub btn_zr: bool,
    // Raw 12-bit stick axes
    pub stick_x: u16,
    pub stick_y: u16,
}

/// The input with no side, no button pressed and both axes at zero.
pub open spec fn neutral_input() -> JoyConInput {
    JoyConInput {
        side: None,
        btn_left: false,
        btn_right: false,
        btn_up: false,
        btn_down: false,
        btn_sl_l: false,
        btn_sr_l: false,
        btn_minus: false,
        btn_lstick: false,
        btn_a: false,
        btn_b: false,
        btn_x: false,
        btn_y: false,
        btn_sl_r: false,
        btn_sr_r: false,
        btn_plus: false,
        btn_rstick: false,
        btn_home: false,
        btn_capture: false,
        btn_l: false,
        btn_zl: false,
        btn_r: false,
        btn_zr: false,
        stick_x: 0,
        stick_y: 0,
    }
}

impl Default for JoyConInput {
    fn default() -> (r: Self)
        ensures
            r == neutral_input(),
    {
        JoyConInput {
            side: None,
            btn_left: false,
            btn_right: false,
            btn_up: false,
            btn_down: false,
            btn_sl_l: false,
            btn_sr_l: false,
            btn_minus: false,
            btn_lstick: false,
            btn_a: false,
            btn_b: false,
            btn_x: false,
            btn_y: false,
            btn_sl_r: false,
            btn_sr_r: false,
            btn_plus: false,
            btn_rstick: false,
            btn_home: false,
            btn_capture: false,
            btn_l: false,
            btn_zl: false,
            btn_r: false,
            btn_zr: false,
            stick_x: 0,
            stick_y: 0,
        }
    }
}

/// Bit `index` (0 = least significant) of `byte` is set.
pub open spec fn bit(byte: u8, index: u8) -> bool {
    (byte >> index) & 1 == 1
}

/// First 12-bit axis of a packed stick triple: all of `b0` below the low
/// nibble of `b1`.
pub open spec fn low_axis(b0: u8, b1: u8) -> int {
    b0 + (b1 % 16) * 256
}

/// Second 12-bit axis of a packed stick triple: the high nibble of `b1`
/// below all of `b2`.
pub open spec fn high_axis(b1: u8, b2: u8) -> int {
    b1 / 16 + b2 * 16
}

/// The input that a full report gives: right buttons in `r`, shared buttons
/// in `s`, left buttons in `l`, one bit per button from the least
/// significant up.
pub open spec fn full_input(side: Side, r: u8, s: u8, l: u8, x: int, y: int) -> JoyConInput {
    JoyConInput {
        side: Some(side),
        btn_down: bit(l, 0),
        btn_up: bit(l, 1),
        btn_right: bit(l, 2),
        btn_left: bit(l, 3),
        btn_sl_l: bit(l, 4),
        btn_sr_l: bit(l, 5),
        btn_l: bit(l, 6),
        btn_zl: bit(l, 7),
        btn_y: bit(r, 0),
        btn_x: bit(r, 1),
        btn_b: bit(r, 2),
        btn_a: bit(r, 3),
        btn_sl_r: bit(r, 4),
        btn_sr_r: bit(r, 5),
        btn_r: bit(r, 6),
        btn_zr: bit(r, 7),
        btn_minus: bit(s, 0),
        btn_plus: bit(s, 1),
        btn_rstick: bit(s, 2),
        btn_lstick: bit(s, 3),
        btn_home: bit(s, 4),
        btn_capture: bit(s, 5),
        stick_x: x as u16,
        stick_y: y as u16,
    }
}

/// What a full (0x30) report says: right buttons in byte 3, shared buttons in
/// byte 4, left buttons in byte 5, the left stick in bytes 6..9 and the right
/// stick in bytes 9..12; the stick of `side` is kept.
pub open spec fn full_report(buf: Seq<u8>, side: Side) -> JoyConInput {
    match side {
        Side::Left => full_input(
            side,
            buf[3],
            buf[4],
            buf[5],
            low_axis(buf[6], buf[7]),
            high_axis(buf[7], buf[8]),
        ),
        Side::Right => full_input(
            side,
            buf[3],
            buf[4],
            buf[5],
            low_axis(buf[9], buf[10]),
            high_axis(buf[10], buf[11]),
        ),
    }
}

/// What a simple (0x3F) report says: byte 1 and byte 2 hold the buttons, the
/// left stick is packed in bytes 4..7 and the right stick in bytes 7..10.
/// The d-pad is read from the same bits of byte 2 as minus, plus and the stick
/// clicks; SL, SR and capture are never reported.
pub open spec fn simple_report(buf: Seq<u8>, side: Side) -> JoyConInput {
    let b1 = buf[1];
    let b2 = buf[2];
    let (x, y) = match side {
        Side::Left => (low_axis(buf[4], buf[5]), high_axis(buf[5], buf[6])),
        Side::Right => (low_axis(buf[7], buf[8]), high_axis(buf[8], buf[9])),
    };
    JoyConInput {
        side: Some(side),
        btn_y: bit(b1, 0),
        btn_x: bit(b1, 1),
        btn_b: bit(b1, 2),
        btn_a: bit(b1, 3),
        btn_r: bit(b1, 6),
        btn_zr: bit(b1, 7),
        btn_minus: bit(b2, 0),
        btn_plus: bit(b2, 1),
        btn_rstick: bit(b2, 2),
        btn_lstick: bit(b2, 3),
        btn_home: bit(b2, 4),
        btn_down: bit(b2, 0),
        btn_up: bit(b2, 1),
        btn_left: bit(b2, 2),
        btn_right: bit(b2, 3),
        btn_l: bit(b2, 6),
        btn_zl: bit(b2, 7),
        btn_sl_l: false,
        btn_sr_l: false,
        btn_sl_r: false,
        btn_sr_r: false,
        btn_capture: false,
        stick_x: x as u16,
        stick_y: y as u16,
    }
}

/// The full report a buffer holds, if it holds one.
pub open spec fn parsed_full(buf: Seq<u8>, side: Side) -> Option<JoyConInput> {
    if buf.len() < FULL_REPORT_MIN_LEN || buf[0] != INPUT_REPORT_FULL {
        None
    } else {
        Some(full_report(buf, side))
    }
}

/// The simple report a buffer holds, if it holds one.
pub open spec fn parsed_simple(buf: Seq<u8>, side: Side) -> Option<JoyConInput> {
    if buf.len() < SIMPLE_REPORT_MIN_LEN || buf[0] != INPUT_REPORT_SIMPLE {
        None
    } else {
        Some(simple_report(buf, side))
    }
}

/// The input after a report arrives: a full report if the buffer holds one,
/// else a simple report, else the input before.
pub open spec fn updated_input(prev: JoyConInput, buf: Seq<u8>, side: Side) -> JoyConInput {
    match parsed_full(buf, side) {
        Some(inp) => inp,
        None => match parsed_simple(buf, side) {
            Some(inp) => inp,
            None => prev,
        },
    }
}

fn flag(byte: u8, index: u8) -> (r: bool)
    requires
        index < 8,
    ensures
        r == bit(byte, index),
{
    (byte >> index) & 1 == 1
}

/// Packs the low 8 bits and the low nibble of the next byte into an axis.
fn low_axis_of(b0: u8, b1: u8) -> (r: u16)
    ensures
        r == low_axis(b0, b1),
{
    let r: u16 = (b0 as u16) | (((b1 & 0x0F) as u16) << 8);
    assert((b0 as u16) | (((b1 & 0x0F) as u16) << 8) == b0 as u16 + ((b1 % 16) as u16) * 256)
        by (bit_vector);
    r
}

/// Packs the high nibble of a byte and all of the next byte into an axis.
fn high_axis_of(b1: u8, b2: u8) -> (r: u16)
    ensures
        r == high_axis(b1, b2),
{
    let r: u16 = ((b1 >> 4) as u16) | ((b2 as u16) << 4);
    assert(((b1 >> 4) as u16) | ((b2 as u16) << 4) == (b1 / 16) as u16 + (b2 as u16) * 16)
        by (bit_vector);
    r
}

/// Decode two 12-bit stick axes from 3 packed bytes:
/// `[x low 8 bits, y low nibble << 4 | x high nibble, y high 8 bits]`.
pub fn decode_stick(bytes: &[u8]) -> (r: (u16, u16))
    requires
        bytes@.len() >= 3,
    ensures
        r.0 == low_axis(bytes@[0], bytes@[1]),
        r.1 == high_axis(bytes@[1], bytes@[2]),
        r.0 < 4096,
        r.1 < 4096,
{
    let x = low_axis_of(bytes[0], bytes[1]);
    let y = high_axis_of(bytes[1], bytes[2]);
    (x, y)
}

impl JoyConInput {
    /// The input of a full report from its three button bytes and the axes
    /// of its side's stick.
    fn from_full_bytes(side: Side, r: u8, s: u8, l: u8, stick_x: u16, stick_y: u16) -> (res: Self)
        ensures
            res == full_input(side, r, s, l, stick_x as int, stick_y as int),
    {
        JoyConInput {
            side: Some(side),
            btn_down: flag(l, 0),
            btn_up: flag(l, 1),
            btn_right: flag(l, 2),
            btn_left: flag(l, 3),
            btn_sl_l: flag(l, 4),
            btn_sr_l: flag(l, 5),
            btn_l: flag(l, 6),
            btn_zl: flag(l, 7),
            btn_y: flag(r, 0),
            btn_x: flag(r, 1),
            btn_b: flag(r, 2),
            btn_a: flag(r, 3),
            btn_sl_r: flag(r, 4),
            btn_sr_r: flag(r, 5),
            btn_r: flag(r, 6),
            btn_zr: flag(r, 7),
            btn_minus: flag(s, 0),
            btn_plus: flag(s, 1),
            btn_rstick: flag(s, 2),
            btn_lstick: flag(s, 3),
            btn_home: flag(s, 4),
            btn_capture: flag(s, 5),
            stick_x,
            stick_y,
        }
    }

    /// Parse a 0x30 full-input HID report; `buf` starts at the report id.
    /// Gives `None` for a buffer shorter than 13 bytes or with another id.
    pub fn parse_full_report(buf: &[u8], side: Side) -> (r: Option<Self>)
        ensures
            r == parsed_full(buf@, side),
    {
        if buf.len() < FULL_REPORT_MIN_LEN {
            return None;
        }
        if buf[0] != INPUT_REPORT_FULL {
            return None;
        }
        let btn_right_byte = buf[3];
        let btn_shared_byte = buf[4];
        let btn_left_byte = buf[5];

        let left_stick = vstd::slice::slice_subrange(buf, 6, 9);
        let right_stick = vstd::slice::slice_subrange(buf, 9, 12);
        let (lx, ly) = decode_stick(left_stick);
        let (rx, ry) = decode_stick(right_stick);

        let (stick_x, stick_y) = match side {
            Side::Left => (lx, ly),
            Side::Right => (rx, ry),
        };

        Some(Self::from_full_bytes(side, btn_right_byte, btn_shared_byte, btn_left_byte, stick_x, stick_y))
    }

    /// Parse a 0x3F simple report (the mode a Joy-Con is in before it is
    /// switched). Gives `None` for a buffer shorter than 12 bytes or with
    /// another id.
    pub fn parse_simple_report(buf: &[u8], side: Side) -> (r: Option<Self>)
        ensures
            r == parsed_simple(buf@, side),
    {
        if buf.len() < SIMPLE_REPORT_MIN_LEN || buf[0] != INPUT_REPORT_SIMPLE {
            return None;
        }
        let btn1 = buf[1];
        let btn2 = buf[2];
        let sx = low_axis_of(buf[4], buf[5]);
        let sy = high_axis_of(buf[5], buf[6]);

        let (stick_x, stick_y) = match side {
            Side::Left => (sx, sy),
            Side::Right => {
                let rx = low_axis_of(buf[7], buf[8]);
                let ry = high_axis_of(buf[8], buf[9]);
                (rx, ry)
            },
        };

        Some(
            JoyConInput {
                side: Some(side),
                btn_y: flag(btn1, 0),
                btn_x: flag(btn1, 1),
                btn_b: flag(btn1, 2),
                btn_a: flag(btn1, 3),
                btn_r: flag(btn1, 6),
                btn_zr: flag(btn1, 7),
                btn_minus: flag(btn2, 0),
                btn_plus: flag(btn2, 1),
                btn_rstick: flag(btn2, 2),
                btn_lstick: flag(btn2, 3),
                btn_home: flag(btn2, 4),
                btn_down: flag(btn2, 0),
                btn_up: flag(btn2, 1),
                btn_left: flag(btn2, 2),
                btn_right: flag(btn2, 3),
                btn_l: flag(btn2, 6),
                btn_zl: flag(btn2, 7),
                btn_sl_l: false,
                btn_sr_l: false,
                btn_sl_r: false,
                btn_sr_r: false,
                btn_capture: false,
                stick_x,
                stick_y,
            },
        )
    }

    /// The input after a report arrives in `buf`: the full report if the
    /// buffer holds one, else the simple report, else `prev` unchanged.
    pub fn apply_report(prev: Self, buf: &[u8], side: Side) -> (r: Self)
        ensures
            r == updated_input(prev, buf@, side),
    {
        if let Some(inp) = Self::parse_full_report(buf, side) {
            inp
        } else if let Some(inp) = Self::parse_simple_report(buf, side) {
            inp
        } else {
            prev
        }
    }
}

// ── Laws of report decoding ───────────────────────────────────────────────

/// Bit `k` of a byte is the bit that the mask `1 << k` selects.
proof fn lemma_bit_masks(b: u8)
    by (bit_vector)
    ensures
        bit(b, 0) == (b & 0x01 != 0),
        bit(b, 1) == (b & 0x02 != 0),
        bit(b, 2) == (b & 0x04 != 0),
        bit(b, 3) == (b & 0x08 != 0),
        bit(b, 4) == (b & 0x10 != 0),
        bit(b, 5) == (b & 0x20 != 0),
        bit(b, 6) == (b & 0x40 != 0),
        bit(b, 7) == (b & 0x80 != 0),
{
}

/// A full report is accepted exactly when it has at least 13 bytes and id
/// 0x30. Its buttons are read from the raw buffer, each from its own bit:
/// byte 3 holds Y, X, B, A, SL, SR, R, ZR; byte 4 holds minus, plus, the right
/// and the left stick click, home and capture; byte 5 holds down, up, right,
/// left, SL, SR, L, ZL (least significant bit first). The stick of the
/// caller's side is read from bytes 6..9 (left) or 9..12 (right).
pub proof fn lemma_full_report_layout(buf: Seq<u8>, side: Side)
    ensures
        parsed_full(buf, side) is Some <==> (buf.len() >= 13 && buf[0] == 0x30),
        parsed_full(buf, side) matches Some(inp) ==> {
            &&& inp.side == Some(side)
            &&& inp.btn_y == (buf[3] & 0x01 != 0)
            &&& inp.btn_x == (buf[3] & 0x02 != 0)
            &&& inp.btn_b == (buf[3] & 0x04 != 0)
            &&& inp.btn_a == (buf[3] & 0x08 != 0)
            &&& inp.btn_sl_r == (buf[3] & 0x10 != 0)
            &&& inp.btn_sr_r == (buf[3] & 0x20 != 0)
            &&& inp.btn_r == (buf[3] & 0x40 != 0)
            &&& inp.btn_zr == (buf[3] & 0x80 != 0)
            &&& inp.btn_minus == (buf[4] & 0x01 != 0)
            &&& inp.btn_plus == (buf[4] & 0x02 != 0)
            &&& inp.btn_rstick == (buf[4] & 0x04 != 0)
            &&& inp.btn_lstick == (buf[4] & 0x08 != 0)
            &&& inp.btn_home == (buf[4] & 0x10 != 0)
            &&& inp.btn_capture == (buf[4] & 0x20 != 0)
            &&& inp.btn_down == (buf[5] & 0x01 != 0)
            &&& inp.btn_up == (buf[5] & 0x02 != 0)
            &&& inp.btn_right == (buf[5] & 0x04 != 0)
            &&& inp.btn_left == (buf[5] & 0x08 != 0)
            &&& inp.btn_sl_l == (buf[5] & 0x10 != 0)
            &&& inp.btn_sr_l == (buf[5] & 0x20 != 0)
            &&& inp.btn_l == (buf[5] & 0x40 != 0)
            &&& inp.btn_zl == (buf[5] & 0x80 != 0)
            &&& side == Side::Left ==> inp.stick_x == buf[6] + (buf[7] % 16) * 256
                && inp.stick_y == buf[7] / 16 + buf[8] * 16
            &&& side == Side::Right ==> inp.stick_x == buf[9] + (buf[10] % 16) * 256
                && inp.stick_y == buf[10] / 16 + buf[11] * 16
        },
{
    if buf.len() >= 13 && buf[0] == 0x30 {
        lemma_bit_masks(buf[3]);
        lemma_bit_masks(buf[4]);
        lemma_bit_masks(buf[5]);
    }
}

/// A simple report is accepted exactly when it has at least 12 bytes and id
/// 0x3F. Byte 1 gives Y, X, B, A (bits 0..4), R and ZR (bits 6, 7); byte 2
/// gives minus, plus, the right and the left stick click, home (bits 0..5) and
/// L, ZL (bits 6, 7), and the d-pad down, up, left, right from the same bits
/// 0..4; SL, SR and capture are never set. The stick of the caller's side is
/// read from bytes 4..7 (left) or 7..10 (right).
pub proof fn lemma_simple_report_layout(buf: Seq<u8>, side: Side)
    ensures
        parsed_simple(buf, side) is Some <==> (buf.len() >= 12 && buf[0] == 0x3F),
        parsed_simple(buf, side) matches Some(inp) ==> {
            &&& inp.side == Some(side)
            &&& inp.btn_y == (buf[1] & 0x01 != 0)
            &&& inp.btn_x == (buf[1] & 0x02 != 0)
            &&& inp.btn_b == (buf[1] & 0x04 != 0)
            &&& inp.btn_a == (buf[1] & 0x08 != 0)
            &&& inp.btn_r == (buf[1] & 0x40 != 0)
            &&& inp.btn_zr == (buf[1] & 0x80 != 0)
            &&& inp.btn_minus == (buf[2] & 0x01 != 0)
            &&& inp.btn_plus == (buf[2] & 0x02 != 0)
            &&& inp.btn_rstick == (buf[2] & 0x04 != 0)
            &&& inp.btn_lstick == (buf[2] & 0x08 != 0)
            &&& inp.btn_home == (buf[2] & 0x10 != 0)
            &&& inp.btn_down == (buf[2] & 0x01 != 0)
            &&& inp.btn_up == (buf[2] & 0x02 != 0)
            &&& inp.btn_left == (buf[2] & 0x04 != 0)
            &&& inp.btn_right == (buf[2] & 0x08 != 0)
            &&& inp.btn_l == (buf[2] & 0x40 != 0)
            &&& inp.btn_zl == (buf[2] & 0x80 != 0)
            &&& !inp.btn_sl_l && !inp.btn_sr_l && !inp.btn_sl_r && !inp.btn_sr_r
            &&& !inp.btn_capture
            &&& side == Side::Left ==> inp.stick_x == buf[4] + (buf[5] % 16) * 256
                && inp.stick_y == buf[5] / 16 + buf[6] * 16
            &&& side == Side::Right ==> inp.stick_x == buf[7] + (buf[8] % 16) * 256
                && inp.stick_y == buf[8] / 16 + buf[9] * 16
        },
{
    if buf.len() >= 12 && buf[0] == 0x3F {
        lemma_bit_masks(buf[1]);
        lemma_bit_masks(buf[2]);
    }
}

/// An arriving report updates the input of the caller's side: a full report
/// (at least 13 bytes, id 0x30) gives that side's full report, else a simple
/// report (at least 12 bytes, id 0x3F) gives that side's simple report; either
/// way the input is marked with that side. Any other buffer leaves the input
/// as it was.
pub proof fn lemma_report_updates_own_side(prev: JoyConInput, buf: Seq<u8>, side: Side)
    ensures
        buf.len() >= 13 && buf[0] == 0x30 ==> Some(updated_input(prev, buf, side)) == parsed_full(
            buf,
            side,
        ),
        !(buf.len() >= 13 && buf[0] == 0x30) && buf.len() >= 12 && buf[0] == 0x3F ==> Some(
            updated_input(prev, buf, side),
        ) == parsed_simple(buf, side),
        (buf.len() >= 13 && buf[0] == 0x30) || (buf.len() >= 12 && buf[0] == 0x3F) ==> updated_input(
            prev,
            buf,
            side,
        ).side == Some(side),
        !(buf.len() >= 13 && buf[0] == 0x30) && !(buf.len() >= 12 && buf[0] == 0x3F)
            ==> updated_input(prev, buf, side) == prev,
{
    lemma_full_report_layout(buf, side);
    lemma_simple_report_layout(buf, side);
}

// ── Dead-zone ──────────────────────────────────────────────────────────────

/// Full-scale deflection of a 12-bit axis from its center.
pub const AXIS_HALF_RANGE: i32 = 2048;

pub open spec fn abs_int(v: int) -> int {
    if v < 0 {
        -v
    } else {
        v
    }
}

/// Division of `a` by a positive `d`, rounded toward zero.
pub open spec fn div_toward_zero(a: int, d: int) -> int {
    if a >= 0 {
        a / d
    } else {
        -((-a) / d)
    }
}

/// `v` limited to the `i16` range.
pub open spec fn clamp_i16(v: int) -> int {
    if v < -32768 {
        -32768
    } else if v > 32767 {
        32767
    } else {
        v
    }
}

/// The axis value for `raw`: zero within `deadzone` of `center`, else the
/// offset from `center` scaled by 32767/2048 (rounded toward zero) and
/// limited to the `i16` range.
pub open spec fn deadzone_value(raw: u16, center: u16, deadzone: u16) -> int {
    let offset = raw - center;
    if abs_int(offset) <= deadzone {
        0
    } else {
        clamp_i16(div_toward_zero(offset * 32767, 2048))
    }
}

/// Apply a circular dead-zone to a raw 12-bit axis value and scale it to the
/// XInput range -32768..=32767.
pub fn apply_deadzone(raw: u16, center: u16, deadzone: u16) -> (r: i16)
    ensures
        r == deadzone_value(raw, center, deadzone),
{
    let signed: i32 = raw as i32 - center as i32;
    let magnitude: u32 = if signed < 0 {
        (0 - signed) as u32
    } else {
        signed as u32
    };
    if magnitude <= deadzone as u32 {
        return 0;
    }
    assert(magnitude * 32767 <= 65535 * 32767) by (nonlinear_arith)
        requires
            magnitude <= 65535,
    ;
    let scaled: u32 = magnitude * 32767 / (AXIS_HALF_RANGE as u32);
    if signed < 0 {
        if scaled >= 32768 {
            -32768
        } else {
            (0 - (scaled as i32)) as i16
        }
    } else {
        if scaled > 32767 {
            32767
        } else {
            scaled as i16
        }
    }
}

/// The axis value always fits the XInput range.
pub proof fn lemma_deadzone_range(raw: u16, center: u16, deadzone: u16)
    ensures
        -32768 <= deadzone_value(raw, center, deadzone) <= 32767,
{
}

proof fn lemma_div_toward_zero_ordered(a: int, b: int)
    requires
        a <= b,
    ensures
        div_toward_zero(a, 2048) <= div_toward_zero(b, 2048),
{
    if a >= 0 {
        vstd::arithmetic::div_mod::lemma_div_is_ordered(a, b, 2048);
    } else if b < 0 {
        vstd::arithmetic::div_mod::lemma_div_is_ordered(-b, -a, 2048);
    }
}

proof fn lemma_scaled_sign(offset: int)
    ensures
        offset > 0 ==> div_toward_zero(offset * 32767, 2048) > 0,
        offset < 0 ==> div_toward_zero(offset * 32767, 2048) < 0,
{
    if offset > 0 {
        vstd::arithmetic::mul::lemma_mul_inequality(1, offset, 32767);
        vstd::arithmetic::div_mod::lemma_div_is_ordered(32767, offset * 32767, 2048);
    } else if offset < 0 {
        vstd::arithmetic::mul::lemma_mul_inequality(1, -offset, 32767);
        vstd::arithmetic::div_mod::lemma_div_is_ordered(32767, (-offset) * 32767, 2048);
        assert((-offset) * 32767 == -(offset * 32767)) by (nonlinear_arith);
    }
}

/// Inside the dead-zone the axis reads zero; outside it the axis is never zero
/// and points the same way as the stick's offset from the center.
pub proof fn lemma_deadzone_direction(raw: u16, center: u16, deadzone: u16)
    ensures
        abs_int(raw - center) <= deadzone ==> deadzone_value(raw, center, deadzone) == 0,
        abs_int(raw - center) > deadzone && raw > center ==> deadzone_value(raw, center, deadzone) > 0,
        abs_int(raw - center) > deadzone && raw < center ==> deadzone_value(raw, center, deadzone) < 0,
{
    lemma_scaled_sign(raw - center);
}

/// For a fixed center and dead-zone the axis value never decreases as the raw
/// reading grows.
pub proof fn lemma_deadzone_monotonic(raw1: u16, raw2: u16, center: u16, deadzone: u16)
    requires
        raw1 <= raw2,
    ensures
        deadzone_value(raw1, center, deadzone) <= deadzone_value(raw2, center, deadzone),
{
    let d1 = raw1 - center;
    let d2 = raw2 - center;
    lemma_scaled_sign(d1);
    lemma_scaled_sign(d2);
    vstd::arithmetic::mul::lemma_mul_inequality(d1, d2, 32767);
    lemma_div_toward_zero_ordered(d1 * 32767, d2 * 32767);
}

/// Within full-scale deflection (2048 steps either way) the axis is odd:
/// two readings the same distance either side of the center give values of
/// equal size and opposite sign.
pub proof fn lemma_deadzone_odd(below: u16, above: u16, center: u16, deadzone: u16)
    requires
        above - center == center - below,
        abs_int(above - center) <= 2048,
    ensures
        deadzone_value(above, center, deadzone) == -deadzone_value(below, center, deadzone),
{
    let offset = above - center;
    let a = abs_int(offset);
    vstd::arithmetic::mul::lemma_mul_inequality(a, 2048, 32767);
    vstd::arithmetic::div_mod::lemma_div_is_ordered(a * 32767, 2048int * 32767, 2048);
    assert(2048int * 32767 / 2048 == 32767);
    assert((below - center) * 32767 == -(offset * 32767)) by (nonlinear_arith)
        requires
            below - center == -offset,
    ;
    if offset < 0 {
        assert(a * 32767 == -(offset * 32767)) by (nonlinear_arith)
            requires
                a == -offset,
        ;
    }
}

} // verus!
