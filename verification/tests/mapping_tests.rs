use sdl2xinput::config::{AxisConfig, ButtonRemap, Config, XboxButton};
use sdl2xinput::mapping::{
    apply_deadzone, saturating_neg, trigger_value, update_from_sdl_gamepad, xbox_button_bit,
    GamepadSnapshot, BUTTON_A, BUTTON_B, BUTTON_DPAD_UP, BUTTON_GUIDE, BUTTON_X, BUTTON_Y,
};
use sdl2xinput::viiper_bridge::Xbox360DeviceState;

fn idle() -> GamepadSnapshot {
    GamepadSnapshot {
        south: false,
        east: false,
        west: false,
        north: false,
        start: false,
        back: false,
        guide: false,
        left_stick: false,
        right_stick: false,
        left_shoulder: false,
        right_shoulder: false,
        dpad_up: false,
        dpad_down: false,
        dpad_left: false,
        dpad_right: false,
        left_x: 0,
        left_y: 0,
        right_x: 0,
        right_y: 0,
        trigger_left: 0,
        trigger_right: 0,
    }
}

fn map(gp: &GamepadSnapshot, cfg: &Config, deadzone: i16) -> Xbox360DeviceState {
    let mut st = Xbox360DeviceState::default();
    update_from_sdl_gamepad(&mut st, gp, cfg, deadzone);
    st
}

#[test]
fn button_bits() {
    assert_eq!(xbox_button_bit(XboxButton::A), 0x1000);
    assert_eq!(xbox_button_bit(XboxButton::B), 0x2000);
    assert_eq!(xbox_button_bit(XboxButton::X), 0x4000);
    assert_eq!(xbox_button_bit(XboxButton::Y), 0x8000);
    assert_eq!(xbox_button_bit(XboxButton::Start), 0x0010);
    assert_eq!(xbox_button_bit(XboxButton::Back), 0x0020);
    assert_eq!(xbox_button_bit(XboxButton::Guide), 0x0400);
    assert_eq!(xbox_button_bit(XboxButton::LeftStick), 0x0040);
    assert_eq!(xbox_button_bit(XboxButton::RightStick), 0x0080);
    assert_eq!(xbox_button_bit(XboxButton::LeftShoulder), 0x0100);
    assert_eq!(xbox_button_bit(XboxButton::RightShoulder), 0x0200);
    assert_eq!(xbox_button_bit(XboxButton::DPadUp), 0x0001);
    assert_eq!(xbox_button_bit(XboxButton::DPadDown), 0x0002);
    assert_eq!(xbox_button_bit(XboxButton::DPadLeft), 0x0004);
    assert_eq!(xbox_button_bit(XboxButton::DPadRight), 0x0008);
}

#[test]
fn identity_mapping_sends_natural_bits() {
    let cfg = Config::default();
    let mut gp = idle();
    gp.south = true;
    gp.north = true;
    gp.dpad_up = true;
    gp.guide = true;
    let st = map(&gp, &cfg, 1000);
    assert_eq!(st.buttons, BUTTON_A | BUTTON_Y | BUTTON_DPAD_UP | BUTTON_GUIDE);

    let mut all = idle();
    all.south = true;
    all.east = true;
    all.west = true;
    all.north = true;
    all.start = true;
    all.back = true;
    all.guide = true;
    all.left_stick = true;
    all.right_stick = true;
    all.left_shoulder = true;
    all.right_shoulder = true;
    all.dpad_up = true;
    all.dpad_down = true;
    all.dpad_left = true;
    all.dpad_right = true;
    assert_eq!(map(&all, &cfg, 1000).buttons, 0xF7FF);
    assert_eq!(map(&idle(), &cfg, 1000).buttons, 0);
}

#[test]
fn nintendo_layout_swaps_a_and_b() {
    let mut cfg = Config::default();
    cfg.buttons = ButtonRemap { south: XboxButton::B, east: XboxButton::A, ..ButtonRemap::default() };
    let mut gp = idle();
    gp.south = true;
    assert_eq!(map(&gp, &cfg, 0).buttons, BUTTON_B);
    let mut gp = idle();
    gp.east = true;
    assert_eq!(map(&gp, &cfg, 0).buttons, BUTTON_A);
}

#[test]
fn two_buttons_on_one_target_set_one_bit() {
    let mut cfg = Config::default();
    cfg.buttons = ButtonRemap { west: XboxButton::A, ..ButtonRemap::default() };
    let mut gp = idle();
    gp.south = true;
    gp.west = true;
    assert_eq!(map(&gp, &cfg, 0).buttons, BUTTON_A);
    assert_eq!(map(&gp, &cfg, 0).buttons & BUTTON_X, 0);
}

#[test]
fn triggers_scale_to_a_byte() {
    assert_eq!(trigger_value(0), 0);
    assert_eq!(trigger_value(-32768), 0);
    assert_eq!(trigger_value(128), 0);
    assert_eq!(trigger_value(129), 1);
    assert_eq!(trigger_value(16384), 127);
    assert_eq!(trigger_value(32767), 255);

    let cfg = Config::default();
    let mut gp = idle();
    gp.trigger_left = 32767;
    gp.trigger_right = 16384;
    let st = map(&gp, &cfg, 0);
    assert_eq!((st.lt, st.rt), (255, 127));
}

#[test]
fn swap_triggers_exchanges_them() {
    let mut cfg = Config::default();
    cfg.axes = AxisConfig { swap_triggers: true, ..AxisConfig::default() };
    let mut gp = idle();
    gp.trigger_left = 32767;
    gp.trigger_right = 0;
    let st = map(&gp, &cfg, 0);
    assert_eq!((st.lt, st.rt), (0, 255));
}

#[test]
fn deadzone_zeroes_small_readings() {
    assert_eq!(apply_deadzone(999, 1000), 0);
    assert_eq!(apply_deadzone(-999, 1000), 0);
    assert_eq!(apply_deadzone(1000, 1000), 1000);
    assert_eq!(apply_deadzone(-1000, 1000), -1000);
    assert_eq!(apply_deadzone(-32768, 1000), -32768);
    assert_eq!(apply_deadzone(1, 0), 1);
    assert_eq!(apply_deadzone(0, 0), 0);
    assert_eq!(apply_deadzone(5, -3), 5);
}

#[test]
fn saturating_negation() {
    assert_eq!(saturating_neg(5), -5);
    assert_eq!(saturating_neg(-5), 5);
    assert_eq!(saturating_neg(0), 0);
    assert_eq!(saturating_neg(i16::MIN), i16::MAX);
    assert_eq!(saturating_neg(i16::MAX), -i16::MAX);
}

#[test]
fn sticks_negate_y_and_apply_deadzone() {
    let cfg = Config::default();
    let mut gp = idle();
    gp.left_x = 500;
    gp.left_y = -20000;
    gp.right_x = -30000;
    gp.right_y = i16::MIN;
    let st = map(&gp, &cfg, 1000);
    assert_eq!(st.lx, 0);
    assert_eq!(st.ly, 20000);
    assert_eq!(st.rx, -30000);
    assert_eq!(st.ry, i16::MAX);
}

#[test]
fn inverted_axes_flip_sign() {
    let mut cfg = Config::default();
    cfg.axes = AxisConfig {
        invert_left_x: true,
        invert_left_y: true,
        invert_right_x: true,
        invert_right_y: false,
        swap_triggers: false,
    };
    let mut gp = idle();
    gp.left_x = 12000;
    gp.left_y = 12000;
    gp.right_x = -32768;
    gp.right_y = 4000;
    let st = map(&gp, &cfg, 1000);
    assert_eq!(st.lx, -12000);
    assert_eq!(st.ly, 12000);
    assert_eq!(st.rx, 32767);
    assert_eq!(st.ry, -4000);
}

#[test]
fn reserved_bytes_are_kept() {
    let cfg = Config::default();
    let mut st = Xbox360DeviceState::default();
    st.reserved = [1, 2, 3, 4, 5, 6];
    st.buttons = 0xFFFF;
    update_from_sdl_gamepad(&mut st, &idle(), &cfg, 0);
    assert_eq!(st.reserved, [1, 2, 3, 4, 5, 6]);
    assert_eq!(st.buttons, 0);
}
