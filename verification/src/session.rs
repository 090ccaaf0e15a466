use vstd::prelude::*;

use crate::config::Config;
use crate::keys::{
    law_default_touchpad_actions, spec_is_ascii, spec_parse_action, spec_parse_ascii_action, Action,
};
use crate::mapping::{spec_mapped_state, update_from_sdl_gamepad, GamepadSnapshot};
use crate::viiper_bridge::{KeyboardDeviceState, MouseDeviceState, Xbox360DeviceState};

verus! {

/// The touchpad soft-press action when none is configured.
pub const DEFAULT_SOFT_ACTION: &'static str = "MouseLeft";

/// The touchpad hard-press (click) action when none is configured.
pub const DEFAULT_HARD_ACTION: &'static str = "MouseRight";

/// How long, in milliseconds, an active rumble may go without being sent to
/// the physical gamepad again.
pub const RUMBLE_REFRESH_MS: u128 = 200;

/// How long, in milliseconds, each rumble command asks the gamepad to rumble.
pub const RUMBLE_DURATION_MS: u32 = 500;

/// What to do with the physical gamepad's rumble motors after draining the
/// rumble requests of the virtual controller.
#[derive(Clone, Copy, Debug, PartialEq, Eq, Structural)]
pub enum RumbleCommand {
    /// Leave the motors as they are.
    Unchanged,
    /// Rumble with these motor strengths for `duration_ms` milliseconds.
    Play { low_frequency: u16, high_frequency: u16, duration_ms: u32 },
    /// Stop the motors (strength 0, duration 0).
    Stop,
}

/// The per-controller state that the translation keeps between polls: the
/// last rumble request and when it was last sent, whether the session has a
/// virtual mouse and keyboard, and the pending mouse and keyboard state that
/// touchpad actions build up.
pub struct SessionState {
    pub rumble_state: (u8, u8),
    /// Nanoseconds since the session started at which rumble was last sent.
    pub last_rumble_update: Option<u128>,
    pub has_mouse: bool,
    pub has_keyboard: bool,
    pub mouse_state: MouseDeviceState,
    pub keyboard_state: KeyboardDeviceState,
}

/// What one poll sends: the Xbox 360 state, and the mouse and keyboard states
/// for the virtual devices the session has.
pub struct Frame {
    pub xbox: Xbox360DeviceState,
    pub mouse: Option<MouseDeviceState>,
    pub keyboard: Option<KeyboardDeviceState>,
}

/// A virtual mouse is spawned for a gamepad that has touchpads when mouse
/// emulation is on.
pub open spec fn spec_wants_virtual_mouse(touchpads: u16, mouse_enabled: bool) -> bool {
    touchpads > 0 && mouse_enabled
}

/// A virtual keyboard is spawned when keyboard or mouse emulation is on.
pub open spec fn spec_wants_virtual_keyboard(keyboard_enabled: bool, mouse_enabled: bool) -> bool {
    keyboard_enabled || mouse_enabled
}

/// Whether the session gets a virtual mouse.
pub fn wants_virtual_mouse(touchpads: u16, mouse_enabled: bool) -> (r: bool)
    ensures
        r == spec_wants_virtual_mouse(touchpads, mouse_enabled),
{
    touchpads > 0 && mouse_enabled
}

/// Whether the session gets a virtual keyboard.
pub fn wants_virtual_keyboard(keyboard_enabled: bool, mouse_enabled: bool) -> (r: bool)
    ensures
        r == spec_wants_virtual_keyboard(keyboard_enabled, mouse_enabled),
{
    keyboard_enabled || mouse_enabled
}

/// A rumble strength in 0..=255 spread over the 16-bit motor range.
pub open spec fn spec_rumble_magnitude(v: u8) -> u16 {
    (v * 257) as u16
}

/// Spreads a rumble strength over the 16-bit motor range by repeating the
/// byte (`v << 8 | v`).
pub fn rumble_magnitude(v: u8) -> (r: u16)
    ensures
        r == spec_rumble_magnitude(v),
        r == v * 257,
{
    let w: u16 = v as u16;
    assert((w << 8u16) | w == w * 257) by (bit_vector)
        requires
            w < 256,
    ;
    (w << 8u16) | w
}

/// The rumble request after draining `received` in order, and whether any of
/// them differed from the request before it.
pub open spec fn spec_rumble_drain(init: (u8, u8), received: Seq<(u8, u8)>) -> ((u8, u8), bool)
    decreases received.len(),
{
    if received.len() == 0 {
        (init, false)
    } else {
        let (st, changed) = spec_rumble_drain(init, received.drop_last());
        if st != received.last() {
            (received.last(), true)
        } else {
            (st, changed)
        }
    }
}

/// Whether an active rumble is due to be sent again at `now` (nanoseconds):
/// never sent yet, or at least 200 whole milliseconds since it last was (a
/// `now` before the last send counts as no time at all).
pub open spec fn spec_needs_refresh(last: Option<u128>, now: u128) -> bool {
    match last {
        Some(l) => (if now >= l { now - l } else { 0 }) / 1_000_000 >= RUMBLE_REFRESH_MS,
        None => true,
    }
}

/// One rumble step: the session after draining `received` at `now`, and the
/// command for the motors.
pub open spec fn spec_rumble_step(s: SessionState, received: Seq<(u8, u8)>, now: u128) -> (SessionState, RumbleCommand) {
    let (st, changed) = spec_rumble_drain(s.rumble_state, received);
    let active = st.0 > 0 || st.1 > 0;
    let base = SessionState { rumble_state: st, ..s };
    if changed || (spec_needs_refresh(s.last_rumble_update, now) && active) {
        if active {
            (
                SessionState { last_rumble_update: Some(now), ..base },
                RumbleCommand::Play {
                    low_frequency: spec_rumble_magnitude(st.0),
                    high_frequency: spec_rumble_magnitude(st.1),
                    duration_ms: RUMBLE_DURATION_MS,
                },
            )
        } else {
            (SessionState { last_rumble_update: None, ..base }, RumbleCommand::Stop)
        }
    } else {
        (base, RumbleCommand::Unchanged)
    }
}

/// Whether key `code` is held in a key bitmap.
pub open spec fn spec_key_held(bitmap: [u8; 32], code: u8) -> bool {
    (bitmap@[(code / 8) as int] >> (code % 8)) & 1u8 == 1u8
}

/// The key bitmap with key `code` held (`down`) or released.
pub open spec fn spec_set_key(bitmap: [u8; 32], code: u8, down: bool) -> Seq<u8> {
    let idx = (code / 8) as int;
    let mask = 1u8 << (code % 8);
    bitmap@.update(idx, if down { bitmap@[idx] | mask } else { bitmap@[idx] & !mask })
}

/// The session after applying an action pressed (`down`) or released.
pub open spec fn spec_apply_parsed_action(s: SessionState, action: Action, down: bool) -> SessionState {
    match action {
        Action::Mouse(btn) => SessionState {
            mouse_state: MouseDeviceState {
                buttons: if down { s.mouse_state.buttons | btn } else { s.mouse_state.buttons & !btn },
                ..s.mouse_state
            },
            ..s
        },
        Action::Keyboard(key) => SessionState {
            keyboard_state: KeyboardDeviceState {
                key_bitmap: vstd::array::spec_array_update(
                    s.keyboard_state.key_bitmap,
                    (key / 8) as int,
                    spec_set_key(s.keyboard_state.key_bitmap, key, down)[(key / 8) as int],
                ),
            },
            ..s
        },
        Action::NoAction => s,
    }
}

/// Whether the touchpad drives the virtual mouse in this session.
pub open spec fn spec_touchpad_active(s: SessionState, mouse_enabled: bool) -> bool {
    s.has_mouse && mouse_enabled
}

/// The mouse state with its per-poll motion (dx, dy, wheel, pan) cleared.
pub open spec fn spec_consumed_motion(m: MouseDeviceState) -> MouseDeviceState {
    MouseDeviceState { dx: 0, dy: 0, wheel: 0, pan: 0, ..m }
}

impl SessionState {
    /// A fresh session: no rumble, nothing pressed, no motion.
    pub fn new(has_mouse: bool, has_keyboard: bool) -> (s: SessionState)
        ensures
            s.rumble_state == (0u8, 0u8),
            s.last_rumble_update is None,
            s.has_mouse == has_mouse,
            s.has_keyboard == has_keyboard,
            s.mouse_state == MouseDeviceState::spec_zero(),
            forall|i: int| 0 <= i < 32 ==> #[trigger] s.keyboard_state.key_bitmap@[i] == 0,
    {
        SessionState {
            rumble_state: (0, 0),
            last_rumble_update: None,
            has_mouse,
            has_keyboard,
            mouse_state: MouseDeviceState::default(),
            keyboard_state: KeyboardDeviceState::default(),
        }
    }

    /// Takes the rumble requests received since the last poll, in order, at
    /// `now_ns` nanoseconds since the session started, and says what the
    /// physical motors should do: play the latest request when it changed,
    /// or when it is non-zero and was last sent 200 ms or more ago (or never);
    /// stop them when the request changed to zero; otherwise leave them.
    pub fn apply_rumble(&mut self, received: &Vec<(u8, u8)>, now_ns: u128) -> (cmd: RumbleCommand)
        ensures
            (*final(self), cmd) == spec_rumble_step(*old(self), received@, now_ns),
    {
        let mut changed = false;
        let mut i: usize = 0;
        assert(received@.take(0) =~= Seq::<(u8, u8)>::empty());
        while i < received.len()
            invariant
                i <= received.len(),
                (self.rumble_state, changed) == spec_rumble_drain(
                    old(self).rumble_state,
                    received@.take(i as int),
                ),
                self.last_rumble_update == old(self).last_rumble_update,
                self.has_mouse == old(self).has_mouse,
                self.has_keyboard == old(self).has_keyboard,
                self.mouse_state == old(self).mouse_state,
                self.keyboard_state == old(self).keyboard_state,
            decreases received.len() - i,
        {
            let val = received[i];
            assert(received@.take(i + 1).drop_last() =~= received@.take(i as int));
            if self.rumble_state.0 != val.0 || self.rumble_state.1 != val.1 {
                self.rumble_state = val;
                changed = true;
            }
            i = i + 1;
        }
        assert(received@.take(received.len() as int) =~= received@);

        let (left, right) = self.rumble_state;
        let needs_refresh = match self.last_rumble_update {
            Some(last) => {
                let elapsed: u128 = if now_ns >= last { now_ns - last } else { 0 };
                elapsed / 1_000_000 >= RUMBLE_REFRESH_MS
            },
            None => true,
        };

        if changed || (needs_refresh && (left > 0 || right > 0)) {
            if left > 0 || right > 0 {
                self.last_rumble_update = Some(now_ns);
                return RumbleCommand::Play {
                    low_frequency: rumble_magnitude(left),
                    high_frequency: rumble_magnitude(right),
                    duration_ms: RUMBLE_DURATION_MS,
                };
            } else if changed {
                self.last_rumble_update = None;
                return RumbleCommand::Stop;
            }
        }
        RumbleCommand::Unchanged
    }

    /// Presses (`down`) or releases an action: a mouse action sets or clears
    /// its button bits, a keyboard action sets or clears its key's bit, and no
    /// action changes nothing.
    pub fn apply_parsed_action(&mut self, action: Action, down: bool)
        ensures
            *final(self) == spec_apply_parsed_action(*old(self), action, down),
    {
        match action {
            Action::Mouse(btn) => {
                let buttons = if down {
                    self.mouse_state.buttons | btn
                } else {
                    self.mouse_state.buttons & !btn
                };
                self.mouse_state = MouseDeviceState { buttons, ..self.mouse_state };
            },
            Action::Keyboard(key) => {
                let idx: usize = (key / 8) as usize;
                let mask: u8 = 1u8 << (key % 8);
                let byte = self.keyboard_state.key_bitmap[idx];
                let updated = if down { byte | mask } else { byte & !mask };
                self.keyboard_state.key_bitmap[idx] = updated;
            },
            Action::NoAction => {},
        }
    }

    /// Presses or releases the action that a configured name denotes.
    fn apply_action(&mut self, action_str: &str, down: bool)
        ensures
            *final(self) == spec_apply_parsed_action(*old(self), spec_parse_action(action_str@), down),
            spec_is_ascii(action_str@) ==> *final(self) == spec_apply_parsed_action(
                *old(self),
                spec_parse_ascii_action(action_str@),
                down,
            ),
    {
        let action = Action::parse(action_str);
        self.apply_parsed_action(action, down);
    }

    /// Whether touchpad input drives the virtual mouse: the session has one
    /// and mouse emulation is on.
    pub fn touchpad_active(&self, mouse_enabled: bool) -> (r: bool)
        ensures
            r == spec_touchpad_active(*self, mouse_enabled),
    {
        self.has_mouse && mouse_enabled
    }

    /// A finger touched the touchpad: press the soft-press action.
    pub fn handle_touchpad_down(&mut self, mouse_enabled: bool, soft_action: &str)
        ensures
            *final(self) == if spec_touchpad_active(*old(self), mouse_enabled) {
                spec_apply_parsed_action(*old(self), spec_parse_action(soft_action@), true)
            } else {
                *old(self)
            },
            spec_is_ascii(soft_action@) ==> *final(self) == if spec_touchpad_active(*old(self), mouse_enabled) {
                spec_apply_parsed_action(*old(self), spec_parse_ascii_action(soft_action@), true)
            } else {
                *old(self)
            },
    {
        if !self.touchpad_active(mouse_enabled) {
            return;
        }
        self.apply_action(soft_action, true);
    }

    /// A finger left the touchpad: release the soft-press action.
    pub fn handle_touchpad_up(&mut self, mouse_enabled: bool, soft_action: &str)
        ensures
            *final(self) == if spec_touchpad_active(*old(self), mouse_enabled) {
                spec_apply_parsed_action(*old(self), spec_parse_action(soft_action@), false)
            } else {
                *old(self)
            },
            spec_is_ascii(soft_action@) ==> *final(self) == if spec_touchpad_active(*old(self), mouse_enabled) {
                spec_apply_parsed_action(*old(self), spec_parse_ascii_action(soft_action@), false)
            } else {
                *old(self)
            },
    {
        if !self.touchpad_active(mouse_enabled) {
            return;
        }
        self.apply_action(soft_action, false);
    }

    /// The touchpad was clicked (`down`) or released: press or release the
    /// hard-press action.
    pub fn handle_touchpad_button(&mut self, down: bool, mouse_enabled: bool, hard_action: &str)
        ensures
            *final(self) == if spec_touchpad_active(*old(self), mouse_enabled) {
                spec_apply_parsed_action(*old(self), spec_parse_action(hard_action@), down)
            } else {
                *old(self)
            },
            spec_is_ascii(hard_action@) ==> *final(self) == if spec_touchpad_active(*old(self), mouse_enabled) {
                spec_apply_parsed_action(*old(self), spec_parse_ascii_action(hard_action@), down)
            } else {
                *old(self)
            },
    {
        if !self.touchpad_active(mouse_enabled) {
            return;
        }
        self.apply_action(hard_action, down);
    }

    /// Adds touchpad motion to the pending mouse motion.
    pub fn add_mouse_motion(&mut self, dx: i16, dy: i16)
        requires
            i16::MIN <= old(self).mouse_state.dx + dx <= i16::MAX,
            i16::MIN <= old(self).mouse_state.dy + dy <= i16::MAX,
        ensures
            final(self).mouse_state == (MouseDeviceState {
                dx: (old(self).mouse_state.dx + dx) as i16,
                dy: (old(self).mouse_state.dy + dy) as i16,
                ..old(self).mouse_state
            }),
            final(self).rumble_state == old(self).rumble_state,
            final(self).last_rumble_update == old(self).last_rumble_update,
            final(self).has_mouse == old(self).has_mouse,
            final(self).has_keyboard == old(self).has_keyboard,
            final(self).keyboard_state == old(self).keyboard_state,
    {
        self.mouse_state.dx = self.mouse_state.dx + dx;
        self.mouse_state.dy = self.mouse_state.dy + dy;
    }

    /// The states to send for one poll: the Xbox 360 state from the gamepad
    /// reading; the keyboard state with the keys that touchpad actions hold;
    /// the pending mouse state, whose motion is then consumed.
    pub fn next_frame(&mut self, gp: &GamepadSnapshot, cfg: &Config, deadzone: i16) -> (frame: Frame)
        ensures
            frame.xbox == spec_mapped_state(
                Xbox360DeviceState::spec_zero(),
                *gp,
                cfg.buttons,
                cfg.axes,
                deadzone,
            ),
            frame.keyboard == if old(self).has_keyboard {
                Some(old(self).keyboard_state)
            } else {
                None
            },
            frame.mouse == if old(self).has_mouse {
                Some(old(self).mouse_state)
            } else {
                None
            },
            *final(self) == if old(self).has_mouse {
                SessionState { mouse_state: spec_consumed_motion(old(self).mouse_state), ..*old(self) }
            } else {
                *old(self)
            },
    {
        let mut state = Xbox360DeviceState::default();
        update_from_sdl_gamepad(&mut state, gp, cfg, deadzone);

        let keyboard = if self.has_keyboard {
            Some(KeyboardDeviceState { key_bitmap: self.keyboard_state.key_bitmap })
        } else {
            None
        };

        let mouse = if self.has_mouse {
            let sent = self.mouse_state;
            // Mouse motion is consumed each poll.
            self.mouse_state.dx = 0;
            self.mouse_state.dy = 0;
            self.mouse_state.wheel = 0;
            self.mouse_state.pan = 0;
            Some(sent)
        } else {
            None
        };

        Frame { xbox: state, mouse, keyboard }
    }
}

proof fn lemma_bit_set_clear(x: u8, i: u8, j: u8)
    by (bit_vector)
    requires
        i < 8,
        j < 8,
    ensures
        ((x | (1u8 << i)) >> j) & 1u8 == (if i == j { 1u8 } else { (x >> j) & 1u8 }),
        ((x & !(1u8 << i)) >> j) & 1u8 == (if i == j { 0u8 } else { (x >> j) & 1u8 }),
{
}

/// Pressing a key holds it, releasing it lets it go, and neither touches any
/// other key or anything else in the session.
pub proof fn law_key_press_release(s: SessionState, key: u8, other: u8, down: bool)
    ensures
        ({
            let t = spec_apply_parsed_action(s, Action::Keyboard(key), down);
            &&& ((t.keyboard_state.key_bitmap@[(key / 8) as int] >> (key % 8)) & 1u8 == 1u8) == down
            &&& other != key ==> (t.keyboard_state.key_bitmap@[(other / 8) as int] >> (other % 8))
                & 1u8 == (s.keyboard_state.key_bitmap@[(other / 8) as int] >> (other % 8)) & 1u8
            &&& t.mouse_state == s.mouse_state
            &&& t.rumble_state == s.rumble_state
        }),
{
    let t = spec_apply_parsed_action(s, Action::Keyboard(key), down);
    let old_map = s.keyboard_state.key_bitmap;
    let new_map = t.keyboard_state.key_bitmap;
    let idx = (key / 8) as int;
    assert(new_map@ == spec_set_key(old_map, key, down));
    lemma_bit_set_clear(old_map@[idx], key % 8, key % 8);
    if other != key {
        let oidx = (other / 8) as int;
        if oidx == idx {
            lemma_bit_set_clear(old_map@[idx], key % 8, other % 8);
        } else {
            assert(new_map@[oidx] == old_map@[oidx]);
        }
    }
}

/// Pressing a mouse action sets its button bits, releasing clears them, and
/// the other buttons keep their state.
pub proof fn law_mouse_press_release(s: SessionState, btn: u8, down: bool)
    ensures
        ({
            let t = spec_apply_parsed_action(s, Action::Mouse(btn), down);
            &&& down ==> t.mouse_state.buttons & btn == btn
            &&& !down ==> t.mouse_state.buttons & btn == 0
            &&& t.mouse_state.buttons & !btn == s.mouse_state.buttons & !btn
            &&& t.keyboard_state == s.keyboard_state
        }),
{
    let x = s.mouse_state.buttons;
    assert((x | btn) & btn == btn && (x & !btn) & btn == 0 && (x | btn) & !btn == x & !btn && (x
        & !btn) & !btn == x & !btn) by (bit_vector);
}

/// Rumble refresh: whenever the latest request is non-zero and it changed,
/// was never sent, or was last sent at least 200 ms ago, the motors are told
/// to play it at full 16-bit scale; a stop is sent only when the request
/// changed to zero; an unchanged zero request sends nothing.
pub proof fn law_rumble_refresh(s: SessionState, received: Seq<(u8, u8)>, now: u128)
    ensures
        ({
            let (st, changed) = spec_rumble_drain(s.rumble_state, received);
            let (t, cmd) = spec_rumble_step(s, received, now);
            &&& t.rumble_state == st
            &&& ((st.0 > 0 || st.1 > 0) && (changed || spec_needs_refresh(s.last_rumble_update, now)))
                ==> cmd == RumbleCommand::Play {
                low_frequency: (st.0 * 257) as u16,
                high_frequency: (st.1 * 257) as u16,
                duration_ms: RUMBLE_DURATION_MS,
            } && t.last_rumble_update == Some(now)
            &&& cmd == RumbleCommand::Stop ==> changed && st == (0u8, 0u8)
                && t.last_rumble_update is None
            &&& (!changed && st == (0u8, 0u8)) ==> cmd == RumbleCommand::Unchanged
            &&& cmd == RumbleCommand::Unchanged ==> t.last_rumble_update == s.last_rumble_update
        }),
{
}

/// The latest rumble request wins: after draining a non-empty batch the
/// session holds the last request of the batch, and the batch counts as a
/// change exactly when some request differs from the one before it.
pub proof fn law_rumble_latest_wins(init: (u8, u8), received: Seq<(u8, u8)>)
    ensures
        received.len() > 0 ==> spec_rumble_drain(init, received).0 == received.last(),
        received.len() == 0 ==> spec_rumble_drain(init, received) == (init, false),
        spec_rumble_drain(init, received).1 <==> exists|i: int|
            0 <= i < received.len() && (#[trigger] received[i]) != (if i == 0 {
                init
            } else {
                received[i - 1]
            }),
    decreases received.len(),
{
    if received.len() > 0 {
        let init_seq = received.drop_last();
        law_rumble_latest_wins(init, init_seq);
        let n = received.len() - 1;
        let prev_state = spec_rumble_drain(init, init_seq).0;
        assert(prev_state == (if n == 0 { init } else { received[n - 1] })) by {
            if n > 0 {
                assert(init_seq.last() == received[n - 1]);
            }
        }
        if exists|i: int|
            0 <= i < init_seq.len() && (#[trigger] init_seq[i]) != (if i == 0 {
                init
            } else {
                init_seq[i - 1]
            }) {
            let i = choose|i: int|
                0 <= i < init_seq.len() && (#[trigger] init_seq[i]) != (if i == 0 {
                    init
                } else {
                    init_seq[i - 1]
                });
            assert(received[i] == init_seq[i]);
            if i > 0 {
                assert(received[i - 1] == init_seq[i - 1]);
            }
        }
        if exists|i: int|
            0 <= i < received.len() && (#[trigger] received[i]) != (if i == 0 {
                init
            } else {
                received[i - 1]
            }) {
            let i = choose|i: int|
                0 <= i < received.len() && (#[trigger] received[i]) != (if i == 0 {
                    init
                } else {
                    received[i - 1]
                });
            if i < n {
                assert(init_seq[i] == received[i]);
                if i > 0 {
                    assert(init_seq[i - 1] == received[i - 1]);
                }
            }
        }
    }
}

/// Mouse motion is reported once: the frame carries the pending motion, and
/// the session is left with none, so a following frame without new motion
/// reports zero motion with the same buttons.
pub proof fn law_motion_reported_once(m: MouseDeviceState)
    ensures
        spec_consumed_motion(m).dx == 0,
        spec_consumed_motion(m).dy == 0,
        spec_consumed_motion(m).wheel == 0,
        spec_consumed_motion(m).pan == 0,
        spec_consumed_motion(m).buttons == m.buttons,
        spec_consumed_motion(spec_consumed_motion(m)) == spec_consumed_motion(m),
{
}


proof fn lemma_repeat_bit_ops(x: u8, m: u8)
    by (bit_vector)
    ensures
        (x | m) | m == x | m,
        (x & !m) & !m == x & !m,
        x & m == 0 ==> (x | m) & !m == x,
{
}

/// Pressing (or releasing) the same action twice in a row has the same
/// effect as doing it once.
pub proof fn law_repeat_action_idempotent(s: SessionState, action: Action, down: bool)
    ensures
        spec_apply_parsed_action(spec_apply_parsed_action(s, action, down), action, down)
            == spec_apply_parsed_action(s, action, down),
{
    let once = spec_apply_parsed_action(s, action, down);
    let twice = spec_apply_parsed_action(once, action, down);
    match action {
        Action::Mouse(btn) => {
            lemma_repeat_bit_ops(s.mouse_state.buttons, btn);
        },
        Action::Keyboard(key) => {
            let idx = (key / 8) as int;
            let mask = 1u8 << (key % 8);
            let byte = s.keyboard_state.key_bitmap@[idx];
            lemma_repeat_bit_ops(byte, mask);
            assert(twice.keyboard_state.key_bitmap =~= once.keyboard_state.key_bitmap) by {
                assert forall|i: int| 0 <= i < 32 implies twice.keyboard_state.key_bitmap[i]
                    == once.keyboard_state.key_bitmap[i] by {}
            }
        },
        Action::NoAction => {},
    }
}

/// Whether the button bits or the key that an action presses are all
/// released in the session.
pub open spec fn spec_action_released(s: SessionState, action: Action) -> bool {
    match action {
        Action::Mouse(btn) => s.mouse_state.buttons & btn == 0,
        Action::Keyboard(key) => !spec_key_held(s.keyboard_state.key_bitmap, key),
        Action::NoAction => true,
    }
}

proof fn lemma_clear_bit_restores(x: u8, i: u8)
    by (bit_vector)
    requires
        i < 8,
        (x >> i) & 1u8 != 1u8,
    ensures
        (x | (1u8 << i)) & !(1u8 << i) == x,
{
}

/// Pressing an action that was released and then releasing it leaves the
/// session exactly as it was.
pub proof fn law_press_release_restores(s: SessionState, action: Action)
    requires
        spec_action_released(s, action),
    ensures
        spec_apply_parsed_action(spec_apply_parsed_action(s, action, true), action, false) == s,
{
    let pressed = spec_apply_parsed_action(s, action, true);
    let released = spec_apply_parsed_action(pressed, action, false);
    match action {
        Action::Mouse(btn) => {
            lemma_repeat_bit_ops(s.mouse_state.buttons, btn);
            assert(released.mouse_state == s.mouse_state);
        },
        Action::Keyboard(key) => {
            let idx = (key / 8) as int;
            lemma_clear_bit_restores(s.keyboard_state.key_bitmap@[idx], key % 8);
            assert(released.keyboard_state.key_bitmap =~= s.keyboard_state.key_bitmap) by {
                assert forall|i: int| 0 <= i < 32 implies released.keyboard_state.key_bitmap[i]
                    == s.keyboard_state.key_bitmap[i] by {}
            }
            assert(released.keyboard_state == s.keyboard_state);
        },
        Action::NoAction => {},
    }
}

/// With the default soft-press action, a touch followed by a lift leaves the
/// session as it was when the left mouse button was not held; and the default
/// actions are ASCII, so the touchpad handlers' ASCII clauses apply to them.
pub proof fn law_default_soft_action_press_release(s: SessionState)
    requires
        s.mouse_state.buttons & 0x01u8 == 0,
    ensures
        spec_is_ascii(DEFAULT_SOFT_ACTION@),
        spec_is_ascii(DEFAULT_HARD_ACTION@),
        spec_parse_ascii_action(DEFAULT_SOFT_ACTION@) == Action::Mouse(0x01),
        spec_parse_ascii_action(DEFAULT_HARD_ACTION@) == Action::Mouse(0x02),
        spec_apply_parsed_action(
            spec_apply_parsed_action(s, spec_parse_ascii_action(DEFAULT_SOFT_ACTION@), true),
            spec_parse_ascii_action(DEFAULT_SOFT_ACTION@),
            false,
        ) == s,
{
    law_default_touchpad_actions();
    assert(DEFAULT_SOFT_ACTION@ == "MouseLeft"@);
    assert(DEFAULT_HARD_ACTION@ == "MouseRight"@);
    law_press_release_restores(s, Action::Mouse(0x01));
}


/// Virtual device decisions: a keyboard is spawned whenever keyboard
/// emulation or mouse emulation is on and never otherwise; a mouse exactly
/// when the gamepad has a touchpad and mouse emulation is on.
pub proof fn law_virtual_devices(touchpads: u16, keyboard_enabled: bool, mouse_enabled: bool)
    ensures
        keyboard_enabled ==> spec_wants_virtual_keyboard(keyboard_enabled, mouse_enabled),
        mouse_enabled ==> spec_wants_virtual_keyboard(keyboard_enabled, mouse_enabled),
        spec_wants_virtual_keyboard(keyboard_enabled, mouse_enabled) ==> keyboard_enabled
            || mouse_enabled,
        touchpads == 0 ==> !spec_wants_virtual_mouse(touchpads, mouse_enabled),
        !mouse_enabled ==> !spec_wants_virtual_mouse(touchpads, mouse_enabled),
        touchpads >= 1 && mouse_enabled ==> spec_wants_virtual_mouse(touchpads, mouse_enabled),
{
}

/// Rumble timing in absolute terms: with a previous send at `l` nanoseconds,
/// a refresh is due exactly from `l` + 200 ms on (earlier clocks never make
/// it due), always when nothing was sent yet; every play command asks for
/// 500 ms at the request's byte repeated over 16 bits.
pub proof fn law_rumble_timing(s: SessionState, received: Seq<(u8, u8)>, now: u128, l: u128)
    ensures
        spec_needs_refresh(Some(l), now) <==> now >= l + 200_000_000,
        spec_needs_refresh(None, now),
        ({
            let (t, cmd) = spec_rumble_step(s, received, now);
            cmd matches RumbleCommand::Play { low_frequency, high_frequency, duration_ms } ==> (
            duration_ms == 500 && low_frequency as int == t.rumble_state.0 as int * 257
                && high_frequency as int == t.rumble_state.1 as int * 257
                && (t.rumble_state.0 > 0 || t.rumble_state.1 > 0))
        }),
{
    if now >= l {
        assert((now - l) / 1_000_000 >= 200 <==> now - l >= 200_000_000) by (nonlinear_arith)
            requires
                now >= l,
        ;
    }
    let (st, _) = spec_rumble_drain(s.rumble_state, received);
    assert(st.0 * 257 <= 65535 && st.1 * 257 <= 65535) by (nonlinear_arith)
        requires
            st.0 < 256,
            st.1 < 256,
    ;
}

} // verus!
