use sdl2xinput::config::Config;
use sdl2xinput::keys::Action;
use sdl2xinput::mapping::{GamepadSnapshot, BUTTON_A};
use sdl2xinput::session::{
    rumble_magnitude, wants_virtual_keyboard, wants_virtual_mouse, RumbleCommand, SessionState,
    DEFAULT_HARD_ACTION, DEFAULT_SOFT_ACTION,
};

const MS: u128 = 1_000_000;

fn idle() -> GamepadSnapshot {
    GamepadSnapshot {
        south: false,
        east: false,
        west: false,
        north: false,
        start: false,
        back: false,
        guide: false,
        left_stick: false,
        right_stick: false,
        left_shoulder: false,
        right_shoulder: false,
        dpad_up: false,
        dpad_down: false,
        dpad_left: false,
        dpad_right: false,
        left_x: 0,
        left_y: 0,
        right_x: 0,
        right_y: 0,
        trigger_left: 0,
        trigger_right: 0,
    }
}

fn key_held(s: &SessionState, code: u8) -> bool {
    (s.keyboard_state.key_bitmap[(code / 8) as usize] >> (code % 8)) & 1 == 1
}

#[test]
fn virtual_device_decisions() {
    assert!(wants_virtual_mouse(1, true));
    assert!(!wants_virtual_mouse(0, true));
    assert!(!wants_virtual_mouse(2, false));
    assert!(wants_virtual_keyboard(true, false));
    assert!(wants_virtual_keyboard(false, true));
    assert!(!wants_virtual_keyboard(false, false));
}

#[test]
fn magnitude_repeats_the_byte() {
    assert_eq!(rumble_magnitude(0), 0);
    assert_eq!(rumble_magnitude(1), 0x0101);
    assert_eq!(rumble_magnitude(0x80), 0x8080);
    assert_eq!(rumble_magnitude(255), 0xFFFF);
}

#[test]
fn rumble_plays_latest_request_and_refreshes() {
    let mut s = SessionState::new(false, false);
    // Nothing received, nothing active: nothing to do.
    assert_eq!(s.apply_rumble(&vec![], 0), RumbleCommand::Unchanged);
    // A new request plays the latest of the batch.
    let cmd = s.apply_rumble(&vec![(10, 20), (0x40, 0x80)], 5 * MS);
    assert_eq!(cmd, RumbleCommand::Play { low_frequency: 0x4040, high_frequency: 0x8080, duration_ms: 500 });
    assert_eq!(s.rumble_state, (0x40, 0x80));
    assert_eq!(s.last_rumble_update, Some(5 * MS));
    // The same request again is no change; too early to refresh.
    assert_eq!(s.apply_rumble(&vec![(0x40, 0x80)], 100 * MS), RumbleCommand::Unchanged);
    assert_eq!(s.apply_rumble(&vec![], 204 * MS + MS - 1), RumbleCommand::Unchanged);
    // 200 whole milliseconds later it is sent again.
    let cmd = s.apply_rumble(&vec![], 205 * MS);
    assert_eq!(cmd, RumbleCommand::Play { low_frequency: 0x4040, high_frequency: 0x8080, duration_ms: 500 });
    assert_eq!(s.last_rumble_update, Some(205 * MS));
    // A change to zero stops the motors.
    assert_eq!(s.apply_rumble(&vec![(0, 0)], 210 * MS), RumbleCommand::Stop);
    assert_eq!(s.last_rumble_update, None);
    // Zero and unchanged: nothing, however long it has been.
    assert_eq!(s.apply_rumble(&vec![(0, 0)], 10_000 * MS), RumbleCommand::Unchanged);
}

#[test]
fn rumble_batch_returning_to_start_still_counts_as_change() {
    let mut s = SessionState::new(false, false);
    let cmd = s.apply_rumble(&vec![(5, 5), (0, 0)], 0);
    assert_eq!(cmd, RumbleCommand::Stop);
    assert_eq!(s.rumble_state, (0, 0));
}

#[test]
fn rumble_clock_going_backwards_waits() {
    let mut s = SessionState::new(false, false);
    s.apply_rumble(&vec![(1, 0)], 1000 * MS);
    assert_eq!(s.apply_rumble(&vec![], 0), RumbleCommand::Unchanged);
}

#[test]
fn key_and_mouse_actions_press_and_release() {
    let mut s = SessionState::new(true, true);
    s.apply_parsed_action(Action::Keyboard(0x04), true);
    s.apply_parsed_action(Action::Keyboard(0x05), true);
    assert!(key_held(&s, 0x04) && key_held(&s, 0x05));
    assert_eq!(s.keyboard_state.key_bitmap[0], 0x30);
    s.apply_parsed_action(Action::Keyboard(0x04), false);
    assert!(!key_held(&s, 0x04) && key_held(&s, 0x05));
    s.apply_parsed_action(Action::Keyboard(0x81), true);
    assert_eq!(s.keyboard_state.key_bitmap[16], 0x02);

    s.apply_parsed_action(Action::Mouse(0x01), true);
    s.apply_parsed_action(Action::Mouse(0x04), true);
    assert_eq!(s.mouse_state.buttons, 0x05);
    s.apply_parsed_action(Action::Mouse(0x01), false);
    assert_eq!(s.mouse_state.buttons, 0x04);
    s.apply_parsed_action(Action::NoAction, true);
    assert_eq!(s.mouse_state.buttons, 0x04);
}

#[test]
fn touchpad_actions_need_a_mouse_and_mouse_emulation() {
    let mut s = SessionState::new(true, true);
    s.handle_touchpad_down(true, "MouseLeft");
    assert_eq!(s.mouse_state.buttons, 0x01);
    s.handle_touchpad_button(true, true, "MouseRight");
    assert_eq!(s.mouse_state.buttons, 0x03);
    s.handle_touchpad_up(true, "MouseLeft");
    assert_eq!(s.mouse_state.buttons, 0x02);
    s.handle_touchpad_button(false, true, "MouseRight");
    assert_eq!(s.mouse_state.buttons, 0);
    s.handle_touchpad_down(true, "space");
    assert!(key_held(&s, 0x2C));

    // Mouse emulation off: nothing happens.
    s.handle_touchpad_down(false, "MouseLeft");
    assert_eq!(s.mouse_state.buttons, 0);
    // No virtual mouse: nothing happens.
    let mut t = SessionState::new(false, true);
    assert!(!t.touchpad_active(true));
    t.handle_touchpad_down(true, "MouseLeft");
    assert_eq!(t.mouse_state.buttons, 0);
}

#[test]
fn frames_consume_mouse_motion_and_keep_held_keys() {
    let cfg = Config::default();
    let mut s = SessionState::new(true, true);
    s.add_mouse_motion(10, -4);
    s.add_mouse_motion(5, 1);
    s.handle_touchpad_down(true, "MouseLeft");
    s.apply_parsed_action(Action::Keyboard(0x04), true);
    let mut gp = idle();
    gp.south = true;
    let f = s.next_frame(&gp, &cfg, 1000);
    assert_eq!(f.xbox.buttons, BUTTON_A);
    let m = f.mouse.unwrap();
    assert_eq!((m.buttons, m.dx, m.dy), (0x01, 15, -3));
    assert_eq!(f.keyboard.unwrap().key_bitmap[0], 0x10);
    let f2 = s.next_frame(&gp, &cfg, 1000);
    let m2 = f2.mouse.unwrap();
    assert_eq!((m2.buttons, m2.dx, m2.dy, m2.wheel, m2.pan), (0x01, 0, 0, 0, 0));
}

#[test]
fn frames_without_virtual_devices() {
    let cfg = Config::default();
    let mut s = SessionState::new(false, false);
    s.add_mouse_motion(3, 3);
    let f = s.next_frame(&idle(), &cfg, 0);
    assert!(f.mouse.is_none());
    assert!(f.keyboard.is_none());
    assert_eq!((s.mouse_state.dx, s.mouse_state.dy), (3, 3));
}

#[test]
fn repeating_an_action_is_the_same_as_once() {
    let mut s = SessionState::new(true, true);
    s.apply_parsed_action(Action::Keyboard(0x2C), true);
    let once = s.keyboard_state.key_bitmap;
    s.apply_parsed_action(Action::Keyboard(0x2C), true);
    assert_eq!(s.keyboard_state.key_bitmap, once);
    s.apply_parsed_action(Action::Mouse(0x02), false);
    s.apply_parsed_action(Action::Mouse(0x02), false);
    assert_eq!(s.mouse_state.buttons, 0);
    s.apply_parsed_action(Action::Mouse(0x02), true);
    s.apply_parsed_action(Action::Mouse(0x02), true);
    assert_eq!(s.mouse_state.buttons, 0x02);
}

#[test]
fn default_touchpad_actions_press_and_release_the_mouse_buttons() {
    let mut s = SessionState::new(true, false);
    s.handle_touchpad_down(true, DEFAULT_SOFT_ACTION);
    assert_eq!(s.mouse_state.buttons, 0x01);
    s.handle_touchpad_up(true, DEFAULT_SOFT_ACTION);
    assert_eq!(s.mouse_state.buttons, 0);
    s.handle_touchpad_button(true, true, DEFAULT_HARD_ACTION);
    assert_eq!(s.mouse_state.buttons, 0x02);
}
