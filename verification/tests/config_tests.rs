use sdl2xinput::cli::Args;
use sdl2xinput::config::{AxisConfig, ButtonRemap, Config, KeyboardConfig, XboxButton};
use sdl2xinput::viiper_bridge::{KeyboardDeviceState, MouseDeviceState, Xbox360DeviceState};

#[test]
fn default_remap_is_identity() {
    let r = ButtonRemap::default();
    assert_eq!(r.south, XboxButton::A);
    assert_eq!(r.east, XboxButton::B);
    assert_eq!(r.west, XboxButton::X);
    assert_eq!(r.north, XboxButton::Y);
    assert_eq!(r.start, XboxButton::Start);
    assert_eq!(r.back, XboxButton::Back);
    assert_eq!(r.guide, XboxButton::Guide);
    assert_eq!(r.left_stick, XboxButton::LeftStick);
    assert_eq!(r.right_stick, XboxButton::RightStick);
    assert_eq!(r.left_shoulder, XboxButton::LeftShoulder);
    assert_eq!(r.right_shoulder, XboxButton::RightShoulder);
    assert_eq!(r.dpad_up, XboxButton::DPadUp);
    assert_eq!(r.dpad_down, XboxButton::DPadDown);
    assert_eq!(r.dpad_left, XboxButton::DPadLeft);
    assert_eq!(r.dpad_right, XboxButton::DPadRight);
}

#[test]
fn default_config_has_no_tweaks() {
    let c = Config::default();
    assert_eq!(c.buttons, ButtonRemap::default());
    assert_eq!(c.axes, AxisConfig::default());
    assert!(!c.axes.swap_triggers && !c.axes.invert_left_x && !c.axes.invert_left_y);
    assert!(!c.axes.invert_right_x && !c.axes.invert_right_y);
    let k = KeyboardConfig::default();
    assert!(!k.enabled);
    assert!(k.mapping.is_empty());
    assert!(!c.keyboard.enabled);
}

#[test]
fn default_args() {
    let a = Args::default();
    assert_eq!(a.max_controllers, 1);
    assert_eq!(a.polling_rate, 250);
    assert_eq!(a.deadzone, 1000);
    assert!(a.config.is_none());
    assert!(a.filter_devices.is_empty());
    assert!(!a.empty_device_filter);
    assert!(!a.no_tray);
    assert!(a.usb_server_addr.is_none());
}

#[test]
fn default_device_states_are_zero() {
    let x = Xbox360DeviceState::default();
    assert_eq!((x.buttons, x.lt, x.rt, x.lx, x.ly, x.rx, x.ry), (0, 0, 0, 0, 0, 0, 0));
    assert_eq!(x.reserved, [0; 6]);
    assert_eq!(MouseDeviceState::default(), MouseDeviceState { buttons: 0, dx: 0, dy: 0, wheel: 0, pan: 0 });
    assert_eq!(KeyboardDeviceState::default().key_bitmap, [0u8; 32]);
}
