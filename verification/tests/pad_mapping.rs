use joycon_merger::joycon::{JoyConInput, STICK_CENTER};
use joycon_merger::merger::merge;
use joycon_merger::vigem::{
    build_gamepad, BUTTON_A, BUTTON_B, BUTTON_BACK, BUTTON_DOWN, BUTTON_GUIDE, BUTTON_LB,
    BUTTON_LEFT, BUTTON_LTHUMB, BUTTON_RB, BUTTON_RIGHT, BUTTON_RTHUMB, BUTTON_START, BUTTON_UP,
    BUTTON_X, BUTTON_Y,
};

#[test]
fn build_gamepad_sets_one_bit_per_button() {
    let g = build_gamepad(
        true, false, true, false, true, false, true, false, 10, 20, true, false, true, false,
        true, false, false, false, 1, -2, 3, -4,
    );
    assert_eq!(
        g.buttons,
        BUTTON_A | BUTTON_X | BUTTON_START | BUTTON_LB | BUTTON_LTHUMB | BUTTON_UP | BUTTON_LEFT
    );
    assert_eq!((g.left_trigger, g.right_trigger), (10, 20));
    assert_eq!((g.thumb_lx, g.thumb_ly, g.thumb_rx, g.thumb_ry), (1, -2, 3, -4));
}

#[test]
fn build_gamepad_all_buttons_and_none() {
    let all = build_gamepad(
        true, true, true, true, true, true, true, true, 0, 0, true, true, true, true, true, true,
        true, true, 0, 0, 0, 0,
    );
    assert_eq!(all.buttons, 0xF7FF);
    let none = build_gamepad(
        false, false, false, false, false, false, false, false, 0, 0, false, false, false, false,
        false, false, true, false, 0, 0, 0, 0,
    );
    assert_eq!(none.buttons, 0);
}

#[test]
fn build_gamepad_guide_flag_sets_guide() {
    let g = build_gamepad(
        false, false, false, false, false, false, false, false, 0, 0, false, false, false, false,
        false, false, false, true, 0, 0, 0, 0,
    );
    assert_eq!(g.buttons, BUTTON_GUIDE);
}

#[test]
fn merge_maps_left_joycon() {
    let l = JoyConInput {
        btn_up: true,
        btn_down: true,
        btn_left: true,
        btn_right: true,
        btn_minus: true,
        btn_l: true,
        btn_zl: true,
        btn_lstick: true,
        // buttons of the right Joy-Con on the left one do not count
        btn_a: true,
        btn_home: true,
        stick_x: 4095,
        stick_y: 0,
        ..JoyConInput::default()
    };
    let r = JoyConInput { stick_x: STICK_CENTER, stick_y: STICK_CENTER, ..JoyConInput::default() };
    let g = merge(&l, &r);
    assert_eq!(
        g.buttons,
        BUTTON_UP | BUTTON_DOWN | BUTTON_LEFT | BUTTON_RIGHT | BUTTON_BACK | BUTTON_LB | BUTTON_LTHUMB
    );
    assert_eq!(g.left_trigger, 255);
    assert_eq!(g.right_trigger, 0);
    assert_eq!((g.thumb_lx, g.thumb_ly), (32751, -32767));
    assert_eq!((g.thumb_rx, g.thumb_ry), (0, 0));
}

#[test]
fn merge_maps_right_joycon_home_to_guide() {
    let l = JoyConInput { stick_x: STICK_CENTER, stick_y: STICK_CENTER, ..JoyConInput::default() };
    let r = JoyConInput {
        btn_a: true,
        btn_b: true,
        btn_x: true,
        btn_y: true,
        btn_plus: true,
        btn_r: true,
        btn_zr: true,
        btn_rstick: true,
        btn_home: true,
        // buttons of the left Joy-Con on the right one do not count
        btn_up: true,
        btn_minus: true,
        stick_x: 2048 + 151,
        stick_y: 2048 - 151,
        ..JoyConInput::default()
    };
    let g = merge(&l, &r);
    assert_eq!(
        g.buttons,
        BUTTON_A | BUTTON_B | BUTTON_X | BUTTON_Y | BUTTON_START | BUTTON_RB | BUTTON_RTHUMB
            | BUTTON_GUIDE
    );
    assert_eq!(g.right_trigger, 255);
    assert_eq!(g.left_trigger, 0);
    assert_eq!((g.thumb_rx, g.thumb_ry), (2415, -2415));
    assert_eq!((g.thumb_lx, g.thumb_ly), (0, 0));
}

#[test]
fn merge_of_neutral_inputs_at_zero_axes() {
    // A default input has raw axes at 0, far from the center.
    let g = merge(&JoyConInput::default(), &JoyConInput::default());
    assert_eq!(g.buttons, 0);
    assert_eq!((g.thumb_lx, g.thumb_ly, g.thumb_rx, g.thumb_ry), (-32767, -32767, -32767, -32767));
}
