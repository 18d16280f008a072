//! The state of a virtual Xbox 360 pad, laid out as XInput lays it out, and
//! how it is built from button flags and axis values.

use vstd::prelude::*;

verus! {

// XInput button bits, as the ViGEm client declares them.
pub const BUTTON_UP: u16 = 0x0001;

pub const BUTTON_DOWN: u16 = 0x0002;

pub const BUTTON_LEFT: u16 = 0x0004;

pub const BUTTON_RIGHT: u16 = 0x0008;

pub const BUTTON_START: u16 = 0x0010;

pub const BUTTON_BACK: u16 = 0x0020;

pub const BUTTON_LTHUMB: u16 = 0x0040;

pub const BUTTON_RTHUMB: u16 = 0x0080;

pub const BUTTON_LB: u16 = 0x0100;

pub const BUTTON_RB: u16 = 0x0200;

pub const BUTTON_GUIDE: u16 = 0x0400;

pub const BUTTON_A: u16 = 0x1000;

pub const BUTTON_B: u16 = 0x2000;

pub const BUTTON_X: u16 = 0x4000;

pub const BUTTON_Y: u16 = 0x8000;

/// One report of a virtual Xbox 360 pad.
#[derive(Debug, Clone, Copy, PartialEq, Eq, Structural)]
pub struct Gamepad {
    /// Pressed buttons, one `BUTTON_*` bit each.
    pub buttons: u16,
    pub left_trigger: u8,
    pub right_trigger: u8,
    pub thumb_lx: i16,
    pub thumb_ly: i16,
    pub thumb_rx: i16,
    pub thumb_ry: i16,
}

/// `mask` when `pressed`, else no bit.
pub open spec fn mask_if(pressed: bool, mask: u16) -> u16 {
    if pressed {
        mask
    } else {
        0
    }
}

/// The button word with exactly the bits of the pressed buttons set.
pub open spec fn button_word(
    a: bool,
    b: bool,
    x: bool,
    y: bool,
    start: bool,
    back: bool,
    lb: bool,
    rb: bool,
    ls: bool,
    rs: bool,
    dpad_up: bool,
    dpad_down: bool,
    dpad_left: bool,
    dpad_right: bool,
    guide: bool,
) -> u16 {
    mask_if(dpad_up, BUTTON_UP) | mask_if(dpad_down, BUTTON_DOWN) | mask_if(dpad_left, BUTTON_LEFT)
        | mask_if(dpad_right, BUTTON_RIGHT) | mask_if(start, BUTTON_START) | mask_if(
        back,
        BUTTON_BACK,
    ) | mask_if(ls, BUTTON_LTHUMB) | mask_if(rs, BUTTON_RTHUMB) | mask_if(lb, BUTTON_LB) | mask_if(
        rb,
        BUTTON_RB,
    ) | mask_if(a, BUTTON_A) | mask_if(b, BUTTON_B) | mask_if(x, BUTTON_X) | mask_if(y, BUTTON_Y)
        | mask_if(guide, BUTTON_GUIDE)
}

/// Whether the button of `mask` is pressed in a button word.
pub open spec fn pressed(word: u16, mask: u16) -> bool {
    word & mask != 0
}

/// Every button of a built word reads back as pressed exactly when its flag
/// was set, and the one bit no button uses stays clear.
pub proof fn lemma_button_word_reads_back(
    a: bool,
    b: bool,
    x: bool,
    y: bool,
    start: bool,
    back: bool,
    lb: bool,
    rb: bool,
    ls: bool,
    rs: bool,
    dpad_up: bool,
    dpad_down: bool,
    dpad_left: bool,
    dpad_right: bool,
    guide: bool,
)
    ensures
        ({
            let w = button_word(
                a,
                b,
                x,
                y,
                start,
                back,
                lb,
                rb,
                ls,
                rs,
                dpad_up,
                dpad_down,
                dpad_left,
                dpad_right,
                guide,
            );
            &&& pressed(w, BUTTON_A) == a
            &&& pressed(w, BUTTON_B) == b
            &&& pressed(w, BUTTON_X) == x
            &&& pressed(w, BUTTON_Y) == y
            &&& pressed(w, BUTTON_START) == start
            &&& pressed(w, BUTTON_BACK) == back
            &&& pressed(w, BUTTON_LB) == lb
            &&& pressed(w, BUTTON_RB) == rb
            &&& pressed(w, BUTTON_LTHUMB) == ls
            &&& pressed(w, BUTTON_RTHUMB) == rs
            &&& pressed(w, BUTTON_UP) == dpad_up
            &&& pressed(w, BUTTON_DOWN) == dpad_down
            &&& pressed(w, BUTTON_LEFT) == dpad_left
            &&& pressed(w, BUTTON_RIGHT) == dpad_right
            &&& pressed(w, BUTTON_GUIDE) == guide
            &&& w & 0x0800 == 0
        }),
{
    let w = button_word(a, b, x, y, start, back, lb, rb, ls, rs, dpad_up, dpad_down, dpad_left, dpad_right, guide);
    let m0 = mask_if(dpad_up, BUTTON_UP);
    let m1 = mask_if(dpad_down, BUTTON_DOWN);
    let m2 = mask_if(dpad_left, BUTTON_LEFT);
    let m3 = mask_if(dpad_right, BUTTON_RIGHT);
    let m4 = mask_if(start, BUTTON_START);
    let m5 = mask_if(back, BUTTON_BACK);
    let m6 = mask_if(ls, BUTTON_LTHUMB);
    let m7 = mask_if(rs, BUTTON_RTHUMB);
    let m8 = mask_if(lb, BUTTON_LB);
    let m9 = mask_if(rb, BUTTON_RB);
    let m10 = mask_if(a, BUTTON_A);
    let m11 = mask_if(b, BUTTON_B);
    let m12 = mask_if(x, BUTTON_X);
    let m13 = mask_if(y, BUTTON_Y);
    let m14 = mask_if(guide, BUTTON_GUIDE);
    assert(w == m0 | m1 | m2 | m3 | m4 | m5 | m6 | m7 | m8 | m9 | m10 | m11 | m12 | m13 | m14);
    assert((m0 | m1 | m2 | m3 | m4 | m5 | m6 | m7 | m8 | m9 | m10 | m11 | m12 | m13 | m14) & 0x0001u16 != 0 <==> m0 != 0) by (bit_vector)
        requires
            m1 == 0 || m1 == 0x0002u16,
            m2 == 0 || m2 == 0x0004u16,
            m3 == 0 || m3 == 0x0008u16,
            m4 == 0 || m4 == 0x0010u16,
            m5 == 0 || m5 == 0x0020u16,
            m6 == 0 || m6 == 0x0040u16,
            m7 == 0 || m7 == 0x0080u16,
            m8 == 0 || m8 == 0x0100u16,
            m9 == 0 || m9 == 0x0200u16,
            m10 == 0 || m10 == 0x1000u16,
            m11 == 0 || m11 == 0x2000u16,
            m12 == 0 || m12 == 0x4000u16,
            m13 == 0 || m13 == 0x8000u16,
            m14 == 0 || m14 == 0x0400u16,
            m0 == 0 || m0 == 0x0001u16,
    ;
    assert((m0 | m1 | m2 | m3 | m4 | m5 | m6 | m7 | m8 | m9 | m10 | m11 | m12 | m13 | m14) & 0x0002u16 != 0 <==> m1 != 0) by (bit_vector)
        requires
            m0 == 0 || m0 == 0x0001u16,
            m2 == 0 || m2 == 0x0004u16,
            m3 == 0 || m3 == 0x0008u16,
            m4 == 0 || m4 == 0x0010u16,
            m5 == 0 || m5 == 0x0020u16,
            m6 == 0 || m6 == 0x0040u16,
            m7 == 0 || m7 == 0x0080u16,
            m8 == 0 || m8 == 0x0100u16,
            m9 == 0 || m9 == 0x0200u16,
            m10 == 0 || m10 == 0x1000u16,
            m11 == 0 || m11 == 0x2000u16,
            m12 == 0 || m12 == 0x4000u16,
            m13 == 0 || m13 == 0x8000u16,
            m14 == 0 || m14 == 0x0400u16,
            m1 == 0 || m1 == 0x0002u16,
    ;
    assert((m0 | m1 | m2 | m3 | m4 | m5 | m6 | m7 | m8 | m9 | m10 | m11 | m12 | m13 | m14) & 0x0004u16 != 0 <==> m2 != 0) by (bit_vector)
        requires
            m0 == 0 || m0 == 0x0001u16,
            m1 == 0 || m1 == 0x0002u16,
            m3 == 0 || m3 == 0x0008u16,
            m4 == 0 || m4 == 0x0010u16,
            m5 == 0 || m5 == 0x0020u16,
            m6 == 0 || m6 == 0x0040u16,
            m7 == 0 || m7 == 0x0080u16,
            m8 == 0 || m8 == 0x0100u16,
            m9 == 0 || m9 == 0x0200u16,
            m10 == 0 || m10 == 0x1000u16,
            m11 == 0 || m11 == 0x2000u16,
            m12 == 0 || m12 == 0x4000u16,
            m13 == 0 || m13 == 0x8000u16,
            m14 == 0 || m14 == 0x0400u16,
            m2 == 0 || m2 == 0x0004u16,
    ;
    assert((m0 | m1 | m2 | m3 | m4 | m5 | m6 | m7 | m8 | m9 | m10 | m11 | m12 | m13 | m14) & 0x0008u16 != 0 <==> m3 != 0) by (bit_vector)
        requires
            m0 == 0 || m0 == 0x0001u16,
            m1 == 0 || m1 == 0x0002u16,
            m2 == 0 || m2 == 0x0004u16,
            m4 == 0 || m4 == 0x0010u16,
            m5 == 0 || m5 == 0x0020u16,
            m6 == 0 || m6 == 0x0040u16,
            m7 == 0 || m7 == 0x0080u16,
            m8 == 0 || m8 == 0x0100u16,
            m9 == 0 || m9 == 0x0200u16,
            m10 == 0 || m10 == 0x1000u16,
            m11 == 0 || m11 == 0x2000u16,
            m12 == 0 || m12 == 0x4000u16,
            m13 == 0 || m13 == 0x8000u16,
            m14 == 0 || m14 == 0x0400u16,
            m3 == 0 || m3 == 0x0008u16,
    ;
    assert((m0 | m1 | m2 | m3 | m4 | m5 | m6 | m7 | m8 | m9 | m10 | m11 | m12 | m13 | m14) & 0x0010u16 != 0 <==> m4 != 0) by (bit_vector)
        requires
            m0 == 0 || m0 == 0x0001u16,
            m1 == 0 || m1 == 0x0002u16,
            m2 == 0 || m2 == 0x0004u16,
            m3 == 0 || m3 == 0x0008u16,
            m5 == 0 || m5 == 0x0020u16,
            m6 == 0 || m6 == 0x0040u16,
            m7 == 0 || m7 == 0x0080u16,
            m8 == 0 || m8 == 0x0100u16,
            m9 == 0 || m9 == 0x0200u16,
            m10 == 0 || m10 == 0x1000u16,
            m11 == 0 || m11 == 0x2000u16,
            m12 == 0 || m12 == 0x4000u16,
            m13 == 0 || m13 == 0x8000u16,
            m14 == 0 || m14 == 0x0400u16,
            m4 == 0 || m4 == 0x0010u16,
    ;
    assert((m0 | m1 | m2 | m3 | m4 | m5 | m6 | m7 | m8 | m9 | m10 | m11 | m12 | m13 | m14) & 0x0020u16 != 0 <==> m5 != 0) by (bit_vector)
        requires
            m0 == 0 || m0 == 0x0001u16,
            m1 == 0 || m1 == 0x0002u16,
            m2 == 0 || m2 == 0x0004u16,
            m3 == 0 || m3 == 0x0008u16,
            m4 == 0 || m4 == 0x0010u16,
            m6 == 0 || m6 == 0x0040u16,
            m7 == 0 || m7 == 0x0080u16,
            m8 == 0 || m8 == 0x0100u16,
            m9 == 0 || m9 == 0x0200u16,
            m10 == 0 || m10 == 0x1000u16,
            m11 == 0 || m11 == 0x2000u16,
            m12 == 0 || m12 == 0x4000u16,
            m13 == 0 || m13 == 0x8000u16,
            m14 == 0 || m14 == 0x0400u16,
            m5 == 0 || m5 == 0x0020u16,
    ;
    assert((m0 | m1 | m2 | m3 | m4 | m5 | m6 | m7 | m8 | m9 | m10 | m11 | m12 | m13 | m14) & 0x0040u16 != 0 <==> m6 != 0) by (bit_vector)
        requires
            m0 == 0 || m0 == 0x0001u16,
            m1 == 0 || m1 == 0x0002u16,
            m2 == 0 || m2 == 0x0004u16,
            m3 == 0 || m3 == 0x0008u16,
            m4 == 0 || m4 == 0x0010u16,
            m5 == 0 || m5 == 0x0020u16,
            m7 == 0 || m7 == 0x0080u16,
            m8 == 0 || m8 == 0x0100u16,
            m9 == 0 || m9 == 0x0200u16,
            m10 == 0 || m10 == 0x1000u16,
            m11 == 0 || m11 == 0x2000u16,
            m12 == 0 || m12 == 0x4000u16,
            m13 == 0 || m13 == 0x8000u16,
            m14 == 0 || m14 == 0x0400u16,
            m6 == 0 || m6 == 0x0040u16,
    ;
    assert((m0 | m1 | m2 | m3 | m4 | m5 | m6 | m7 | m8 | m9 | m10 | m11 | m12 | m13 | m14) & 0x0080u16 != 0 <==> m7 != 0) by (bit_vector)
        requires
            m0 == 0 || m0 == 0x0001u16,
            m1 == 0 || m1 == 0x0002u16,
            m2 == 0 || m2 == 0x0004u16,
            m3 == 0 || m3 == 0x0008u16,
            m4 == 0 || m4 == 0x0010u16,
            m5 == 0 || m5 == 0x0020u16,
            m6 == 0 || m6 == 0x0040u16,
            m8 == 0 || m8 == 0x0100u16,
            m9 == 0 || m9 == 0x0200u16,
            m10 == 0 || m10 == 0x1000u16,
            m11 == 0 || m11 == 0x2000u16,
            m12 == 0 || m12 == 0x4000u16,
            m13 == 0 || m13 == 0x8000u16,
            m14 == 0 || m14 == 0x0400u16,
            m7 == 0 || m7 == 0x0080u16,
    ;
    assert((m0 | m1 | m2 | m3 | m4 | m5 | m6 | m7 | m8 | m9 | m10 | m11 | m12 | m13 | m14) & 0x0100u16 != 0 <==> m8 != 0) by (bit_vector)
        requires
            m0 == 0 || m0 == 0x0001u16,
            m1 == 0 || m1 == 0x0002u16,
            m2 == 0 || m2 == 0x0004u16,
            m3 == 0 || m3 == 0x0008u16,
            m4 == 0 || m4 == 0x0010u16,
            m5 == 0 || m5 == 0x0020u16,
            m6 == 0 || m6 == 0x0040u16,
            m7 == 0 || m7 == 0x0080u16,
            m9 == 0 || m9 == 0x0200u16,
            m10 == 0 || m10 == 0x1000u16,
            m11 == 0 || m11 == 0x2000u16,
            m12 == 0 || m12 == 0x4000u16,
            m13 == 0 || m13 == 0x8000u16,
            m14 == 0 || m14 == 0x0400u16,
            m8 == 0 || m8 == 0x0100u16,
    ;
    assert((m0 | m1 | m2 | m3 | m4 | m5 | m6 | m7 | m8 | m9 | m10 | m11 | m12 | m13 | m14) & 0x0200u16 != 0 <==> m9 != 0) by (bit_vector)
        requires
            m0 == 0 || m0 == 0x0001u16,
            m1 == 0 || m1 == 0x0002u16,
            m2 == 0 || m2 == 0x0004u16,
            m3 == 0 || m3 == 0x0008u16,
            m4 == 0 || m4 == 0x0010u16,
            m5 == 0 || m5 == 0x0020u16,
            m6 == 0 || m6 == 0x0040u16,
            m7 == 0 || m7 == 0x0080u16,
            m8 == 0 || m8 == 0x0100u16,
            m10 == 0 || m10 == 0x1000u16,
            m11 == 0 || m11 == 0x2000u16,
            m12 == 0 || m12 == 0x4000u16,
            m13 == 0 || m13 == 0x8000u16,
            m14 == 0 || m14 == 0x0400u16,
            m9 == 0 || m9 == 0x0200u16,
    ;
    assert((m0 | m1 | m2 | m3 | m4 | m5 | m6 | m7 | m8 | m9 | m10 | m11 | m12 | m13 | m14) & 0x1000u16 != 0 <==> m10 != 0) by (bit_vector)
        requires
            m0 == 0 || m0 == 0x0001u16,
            m1 == 0 || m1 == 0x0002u16,
            m2 == 0 || m2 == 0x0004u16,
            m3 == 0 || m3 == 0x0008u16,
            m4 == 0 || m4 == 0x0010u16,
            m5 == 0 || m5 == 0x0020u16,
            m6 == 0 || m6 == 0x0040u16,
            m7 == 0 || m7 == 0x0080u16,
            m8 == 0 || m8 == 0x0100u16,
            m9 == 0 || m9 == 0x0200u16,
            m11 == 0 || m11 == 0x2000u16,
            m12 == 0 || m12 == 0x4000u16,
            m13 == 0 || m13 == 0x8000u16,
            m14 == 0 || m14 == 0x0400u16,
            m10 == 0 || m10 == 0x1000u16,
    ;
    assert((m0 | m1 | m2 | m3 | m4 | m5 | m6 | m7 | m8 | m9 | m10 | m11 | m12 | m13 | m14) & 0x2000u16 != 0 <==> m11 != 0) by (bit_vector)
        requires
            m0 == 0 || m0 == 0x0001u16,
            m1 == 0 || m1 == 0x0002u16,
            m2 == 0 || m2 == 0x0004u16,
            m3 == 0 || m3 == 0x0008u16,
            m4 == 0 || m4 == 0x0010u16,
            m5 == 0 || m5 == 0x0020u16,
            m6 == 0 || m6 == 0x0040u16,
            m7 == 0 || m7 == 0x0080u16,
            m8 == 0 || m8 == 0x0100u16,
            m9 == 0 || m9 == 0x0200u16,
            m10 == 0 || m10 == 0x1000u16,
            m12 == 0 || m12 == 0x4000u16,
            m13 == 0 || m13 == 0x8000u16,
            m14 == 0 || m14 == 0x0400u16,
            m11 == 0 || m11 == 0x2000u16,
    ;
    assert((m0 | m1 | m2 | m3 | m4 | m5 | m6 | m7 | m8 | m9 | m10 | m11 | m12 | m13 | m14) & 0x4000u16 != 0 <==> m12 != 0) by (bit_vector)
        requires
            m0 == 0 || m0 == 0x0001u16,
            m1 == 0 || m1 == 0x0002u16,
            m2 == 0 || m2 == 0x0004u16,
            m3 == 0 || m3 == 0x0008u16,
            m4 == 0 || m4 == 0x0010u16,
            m5 == 0 || m5 == 0x0020u16,
            m6 == 0 || m6 == 0x0040u16,
            m7 == 0 || m7 == 0x0080u16,
            m8 == 0 || m8 == 0x0100u16,
            m9 == 0 || m9 == 0x0200u16,
            m10 == 0 || m10 == 0x1000u16,
            m11 == 0 || m11 == 0x2000u16,
            m13 == 0 || m13 == 0x8000u16,
            m14 == 0 || m14 == 0x0400u16,
            m12 == 0 || m12 == 0x4000u16,
    ;
    assert((m0 | m1 | m2 | m3 | m4 | m5 | m6 | m7 | m8 | m9 | m10 | m11 | m12 | m13 | m14) & 0x8000u16 != 0 <==> m13 != 0) by (bit_vector)
        requires
            m0 == 0 || m0 == 0x0001u16,
            m1 == 0 || m1 == 0x0002u16,
            m2 == 0 || m2 == 0x0004u16,
            m3 == 0 || m3 == 0x0008u16,
            m4 == 0 || m4 == 0x0010u16,
            m5 == 0 || m5 == 0x0020u16,
            m6 == 0 || m6 == 0x0040u16,
            m7 == 0 || m7 == 0x0080u16,
            m8 == 0 || m8 == 0x0100u16,
            m9 == 0 || m9 == 0x0200u16,
            m10 == 0 || m10 == 0x1000u16,
            m11 == 0 || m11 == 0x2000u16,
            m12 == 0 || m12 == 0x4000u16,
            m14 == 0 || m14 == 0x0400u16,
            m13 == 0 || m13 == 0x8000u16,
    ;
    assert((m0 | m1 | m2 | m3 | m4 | m5 | m6 | m7 | m8 | m9 | m10 | m11 | m12 | m13 | m14) & 0x0400u16 != 0 <==> m14 != 0) by (bit_vector)
        requires
            m0 == 0 || m0 == 0x0001u16,
            m1 == 0 || m1 == 0x0002u16,
            m2 == 0 || m2 == 0x0004u16,
            m3 == 0 || m3 == 0x0008u16,
            m4 == 0 || m4 == 0x0010u16,
            m5 == 0 || m5 == 0x0020u16,
            m6 == 0 || m6 == 0x0040u16,
            m7 == 0 || m7 == 0x0080u16,
            m8 == 0 || m8 == 0x0100u16,
            m9 == 0 || m9 == 0x0200u16,
            m10 == 0 || m10 == 0x1000u16,
            m11 == 0 || m11 == 0x2000u16,
            m12 == 0 || m12 == 0x4000u16,
            m13 == 0 || m13 == 0x8000u16,
            m14 == 0 || m14 == 0x0400u16,
    ;
    assert((m0 | m1 | m2 | m3 | m4 | m5 | m6 | m7 | m8 | m9 | m10 | m11 | m12 | m13 | m14) & 0x0800u16 == 0) by (bit_vector)
        requires
            m0 == 0 || m0 == 0x0001u16,
            m1 == 0 || m1 == 0x0002u16,
            m2 == 0 || m2 == 0x0004u16,
            m3 == 0 || m3 == 0x0008u16,
            m4 == 0 || m4 == 0x0010u16,
            m5 == 0 || m5 == 0x0020u16,
            m6 == 0 || m6 == 0x0040u16,
            m7 == 0 || m7 == 0x0080u16,
            m8 == 0 || m8 == 0x0100u16,
            m9 == 0 || m9 == 0x0200u16,
            m10 == 0 || m10 == 0x1000u16,
            m11 == 0 || m11 == 0x2000u16,
            m12 == 0 || m12 == 0x4000u16,
            m13 == 0 || m13 == 0x8000u16,
            m14 == 0 || m14 == 0x0400u16,
    ;
}

/// Build a pad report from merged button flags, trigger values and axes.
/// The home flag is accepted for symmetry with the Joy-Con's buttons and does
/// not reach the report; the guide flag sets the guide bit.
pub fn build_gamepad(
    a: bool,
    b: bool,
    x: bool,
    y: bool,
    start: bool,
    back: bool,
    lb: bool,
    rb: bool,
    lt_val: u8,
    rt_val: u8,
    ls: bool,
    rs: bool,
    dpad_up: bool,
    dpad_down: bool,
    dpad_left: bool,
    dpad_right: bool,
    _home: bool,
    guide: bool,
    lx: i16,
    ly: i16,
    rx: i16,
    ry: i16,
) -> (g: Gamepad)
    ensures
        g.buttons == button_word(
            a,
            b,
            x,
            y,
            start,
            back,
            lb,
            rb,
            ls,
            rs,
            dpad_up,
            dpad_down,
            dpad_left,
            dpad_right,
            guide,
        ),
        g.left_trigger == lt_val,
        g.right_trigger == rt_val,
        g.thumb_lx == lx,
        g.thumb_ly == ly,
        g.thumb_rx == rx,
        g.thumb_ry == ry,
{
    assert(forall|v: u16| #[trigger] (v | 0u16) == v) by (bit_vector);
    assert(forall|v: u16| #[trigger] (0u16 | v) == v) by (bit_vector);
    let mut raw: u16 = 0;
    if dpad_up {
        raw |= BUTTON_UP;
    }
    if dpad_down {
        raw |= BUTTON_DOWN;
    }
    if dpad_left {
        raw |= BUTTON_LEFT;
    }
    if dpad_right {
        raw |= BUTTON_RIGHT;
    }
    if start {
        raw |= BUTTON_START;
    }
    if back {
        raw |= BUTTON_BACK;
    }
    if ls {
        raw |= BUTTON_LTHUMB;
    }
    if rs {
        raw |= BUTTON_RTHUMB;
    }
    if lb {
        raw |= BUTTON_LB;
    }
    if rb {
        raw |= BUTTON_RB;
    }
    if a {
        raw |= BUTTON_A;
    }
    if b {
        raw |= BUTTON_B;
    }
    if x {
        raw |= BUTTON_X;
    }
    if y {
        raw |= BUTTON_Y;
    }
    if guide {
        raw |= BUTTON_GUIDE;
    }
    Gamepad {
        buttons: raw,
        left_trigger: lt_val,
        right_trigger: rt_val,
        thumb_lx: lx,
        thumb_ly: ly,
        thumb_rx: rx,
        thumb_ry: ry,
    }
}

} // verus!
