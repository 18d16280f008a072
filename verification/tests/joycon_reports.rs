use joycon_merger::joycon::{
    apply_deadzone, decode_stick, JoyConInput, Side, INPUT_REPORT_FULL, INPUT_REPORT_SIMPLE,
    STICK_CENTER, STICK_DEADZONE,
};

fn full_report_bytes() -> Vec<u8> {
    let mut buf = vec![0u8; 49];
    buf[0] = INPUT_REPORT_FULL;
    buf[3] = 0x08 | 0x80; // A, ZR
    buf[4] = 0x01 | 0x10; // minus, home
    buf[5] = 0x02 | 0x40; // up, L
    // left stick x = 0x123, y = 0x456
    buf[6] = 0x23;
    buf[7] = 0x61;
    buf[8] = 0x45;
    // right stick x = 0xABC, y = 0x7FF
    buf[9] = 0xBC;
    buf[10] = 0xFA;
    buf[11] = 0x7F;
    buf
}

#[test]
fn full_report_left_buttons_and_stick() {
    let inp = JoyConInput::parse_full_report(&full_report_bytes(), Side::Left).unwrap();
    assert_eq!(inp.side, Some(Side::Left));
    assert!(inp.btn_a && inp.btn_zr && inp.btn_minus && inp.btn_home && inp.btn_up && inp.btn_l);
    assert!(!inp.btn_b && !inp.btn_x && !inp.btn_y && !inp.btn_down && !inp.btn_zl);
    assert!(!inp.btn_plus && !inp.btn_capture && !inp.btn_sl_l && !inp.btn_sr_r);
    assert_eq!(inp.stick_x, 0x123);
    assert_eq!(inp.stick_y, 0x456);
}

#[test]
fn full_report_right_takes_right_stick() {
    let inp = JoyConInput::parse_full_report(&full_report_bytes(), Side::Right).unwrap();
    assert_eq!(inp.side, Some(Side::Right));
    assert_eq!(inp.stick_x, 0xABC);
    assert_eq!(inp.stick_y, 0x7FF);
}

#[test]
fn full_report_every_bit() {
    let mut buf = vec![0u8; 13];
    buf[0] = 0x30;
    buf[3] = 0xFF;
    buf[4] = 0x3F;
    buf[5] = 0xFF;
    let inp = JoyConInput::parse_full_report(&buf, Side::Left).unwrap();
    assert!(inp.btn_y && inp.btn_x && inp.btn_b && inp.btn_a && inp.btn_sl_r && inp.btn_sr_r);
    assert!(inp.btn_r && inp.btn_zr && inp.btn_minus && inp.btn_plus && inp.btn_rstick);
    assert!(inp.btn_lstick && inp.btn_home && inp.btn_capture);
    assert!(inp.btn_down && inp.btn_up && inp.btn_right && inp.btn_left && inp.btn_sl_l);
    assert!(inp.btn_sr_l && inp.btn_l && inp.btn_zl);
}

#[test]
fn full_report_rejects_short_or_other_id() {
    let buf = full_report_bytes();
    assert_eq!(JoyConInput::parse_full_report(&buf[..12], Side::Left), None);
    let mut other = buf.clone();
    other[0] = 0x21;
    assert_eq!(JoyConInput::parse_full_report(&other, Side::Left), None);
    assert!(JoyConInput::parse_full_report(&buf[..13], Side::Left).is_some());
}

#[test]
fn simple_report_buttons_and_sticks() {
    let mut buf = vec![0u8; 12];
    buf[0] = INPUT_REPORT_SIMPLE;
    buf[1] = 0x01 | 0x08 | 0x40; // Y, A, R
    buf[2] = 0x02 | 0x10 | 0x80; // plus/up, home, ZL
    buf[4] = 0xFF;
    buf[5] = 0x3F;
    buf[6] = 0x10;
    buf[7] = 0x01;
    buf[8] = 0x02;
    buf[9] = 0x03;
    let left = JoyConInput::parse_simple_report(&buf, Side::Left).unwrap();
    assert!(left.btn_y && left.btn_a && left.btn_r && !left.btn_b && !left.btn_zr);
    assert!(left.btn_plus && left.btn_up && left.btn_home && left.btn_zl);
    assert!(!left.btn_minus && !left.btn_down && !left.btn_sl_l && !left.btn_capture);
    assert_eq!(left.stick_x, 0xFFF);
    assert_eq!(left.stick_y, 0x103);
    let right = JoyConInput::parse_simple_report(&buf, Side::Right).unwrap();
    assert_eq!(right.side, Some(Side::Right));
    assert_eq!(right.stick_x, 0x201);
    assert_eq!(right.stick_y, 0x030);
}

#[test]
fn simple_report_dpad_shares_bits_with_shared_buttons() {
    let mut buf = vec![0u8; 12];
    buf[0] = 0x3F;
    buf[2] = 0x01 | 0x04;
    let inp = JoyConInput::parse_simple_report(&buf, Side::Left).unwrap();
    assert!(inp.btn_minus && inp.btn_down);
    assert!(inp.btn_rstick && inp.btn_left);
    assert!(!inp.btn_plus && !inp.btn_up && !inp.btn_right && !inp.btn_lstick);
}

#[test]
fn simple_report_rejects_short_or_other_id() {
    let mut buf = vec![0u8; 12];
    buf[0] = 0x3F;
    assert!(JoyConInput::parse_simple_report(&buf, Side::Left).is_some());
    assert_eq!(JoyConInput::parse_simple_report(&buf[..11], Side::Left), None);
    buf[0] = 0x30;
    assert_eq!(JoyConInput::parse_simple_report(&buf, Side::Left), None);
}

#[test]
fn apply_report_falls_back_in_order() {
    let prev = JoyConInput { stick_x: 7, ..JoyConInput::default() };
    let full = full_report_bytes();
    assert_eq!(
        JoyConInput::apply_report(prev, &full, Side::Left),
        JoyConInput::parse_full_report(&full, Side::Left).unwrap()
    );
    let mut simple = vec![0u8; 12];
    simple[0] = 0x3F;
    simple[1] = 0x08;
    assert!(JoyConInput::apply_report(prev, &simple, Side::Left).btn_a);
    let junk = vec![0x21u8; 20];
    assert_eq!(JoyConInput::apply_report(prev, &junk, Side::Left), prev);
}

#[test]
fn default_input_is_neutral() {
    let d = JoyConInput::default();
    assert_eq!(d.side, None);
    assert_eq!(d.stick_x, 0);
    assert_eq!(d.stick_y, 0);
    assert!(!d.btn_a && !d.btn_home && !d.btn_zl);
}

#[test]
fn decode_stick_packs_twelve_bits() {
    assert_eq!(decode_stick(&[0x00, 0x08, 0x80]), (0x800, 0x800));
    assert_eq!(decode_stick(&[0xFF, 0xFF, 0xFF]), (0xFFF, 0xFFF));
    assert_eq!(decode_stick(&[0x34, 0x12, 0x00]), (0x234, 0x001));
}

#[test]
fn deadzone_center_and_zone_read_zero() {
    assert_eq!(apply_deadzone(STICK_CENTER, STICK_CENTER, STICK_DEADZONE), 0);
    assert_eq!(apply_deadzone(2048 + 150, 2048, 150), 0);
    assert_eq!(apply_deadzone(2048 - 150, 2048, 150), 0);
}

#[test]
fn deadzone_scales_outside_zone() {
    assert_eq!(apply_deadzone(2048 + 151, 2048, 150), 2415);
    assert_eq!(apply_deadzone(2048 - 151, 2048, 150), -2415);
    assert_eq!(apply_deadzone(4095, 2048, 150), 32751);
    assert_eq!(apply_deadzone(0, 2048, 150), -32767);
}

#[test]
fn deadzone_clamps_to_i16() {
    assert_eq!(apply_deadzone(65535, 0, 0), 32767);
    assert_eq!(apply_deadzone(0, 65535, 0), -32768);
    assert_eq!(apply_deadzone(4000 + 2049, 4000, 0), 32767);
    assert_eq!(apply_deadzone(4000 - 2049, 4000, 0), -32768);
}

#[test]
fn deadzone_is_monotonic_on_samples() {
    let mut prev = i16::MIN;
    for raw in (0..=4095u16).step_by(7) {
        let v = apply_deadzone(raw, STICK_CENTER, STICK_DEADZONE);
        assert!(v >= prev);
        prev = v;
    }
}

#[test]
fn deadzone_is_odd_within_full_scale() {
    for d in [151i32, 500, 1000, 2048] {
        let above = apply_deadzone((2048 + d) as u16, 2048, 150);
        let below = apply_deadzone((2048 - d) as u16, 2048, 150);
        assert_eq!(above, -below);
        assert!(above > 0);
    }
}
