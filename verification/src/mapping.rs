use vstd::prelude::*;

use crate::config::{AxisConfig, ButtonRemap, Config, XboxButton};
use crate::viiper_bridge::Xbox360DeviceState;

verus! {

// XInput button bitmasks, as the virtual device expects them.
pub const BUTTON_DPAD_UP: u32 = 0x0001;
pub const BUTTON_DPAD_DOWN: u32 = 0x0002;
pub const BUTTON_DPAD_LEFT: u32 = 0x0004;
pub const BUTTON_DPAD_RIGHT: u32 = 0x0008;
pub const BUTTON_START: u32 = 0x0010;
pub const BUTTON_BACK: u32 = 0x0020;
pub const BUTTON_L_THUMB: u32 = 0x0040;
pub const BUTTON_R_THUMB: u32 = 0x0080;
pub const BUTTON_L_SHOULDER: u32 = 0x0100;
pub const BUTTON_R_SHOULDER: u32 = 0x0200;
pub const BUTTON_GUIDE: u32 = 0x0400;
pub const BUTTON_A: u32 = 0x1000;
pub const BUTTON_B: u32 = 0x2000;
pub const BUTTON_X: u32 = 0x4000;
pub const BUTTON_Y: u32 = 0x8000;

/// One reading of a physical gamepad: the fifteen buttons that can be
/// remapped and the six axes, each axis in -32768..=32767 (triggers use the
/// non-negative half).
#[derive(Clone, Copy, Debug, PartialEq, Eq, Structural)]
pub struct GamepadSnapshot {
    pub south: bool,
    pub east: bool,
    pub west: bool,
    pub north: bool,
    pub start: bool,
    pub back: bool,
    pub guide: bool,
    pub left_stick: bool,
    pub right_stick: bool,
    pub left_shoulder: bool,
    pub right_shoulder: bool,
    pub dpad_up: bool,
    pub dpad_down: bool,
    pub dpad_left: bool,
    pub dpad_right: bool,
    pub left_x: i16,
    pub left_y: i16,
    pub right_x: i16,
    pub right_y: i16,
    pub trigger_left: i16,
    pub trigger_right: i16,
}

/// The bit position of each Xbox 360 button in the XInput bitmask.
pub open spec fn spec_button_shift(btn: XboxButton) -> u32 {
    match btn {
        XboxButton::A => 12,
        XboxButton::B => 13,
        XboxButton::X => 14,
        XboxButton::Y => 15,
        XboxButton::Start => 4,
        XboxButton::Back => 5,
        XboxButton::Guide => 10,
        XboxButton::LeftStick => 6,
        XboxButton::RightStick => 7,
        XboxButton::LeftShoulder => 8,
        XboxButton::RightShoulder => 9,
        XboxButton::DPadUp => 0,
        XboxButton::DPadDown => 1,
        XboxButton::DPadLeft => 2,
        XboxButton::DPadRight => 3,
    }
}

/// The XInput bitmask bit of each Xbox 360 button.
pub open spec fn spec_button_bit(btn: XboxButton) -> u32 {
    match btn {
        XboxButton::A => BUTTON_A,
        XboxButton::B => BUTTON_B,
        XboxButton::X => BUTTON_X,
        XboxButton::Y => BUTTON_Y,
        XboxButton::Start => BUTTON_START,
        XboxButton::Back => BUTTON_BACK,
        XboxButton::Guide => BUTTON_GUIDE,
        XboxButton::LeftStick => BUTTON_L_THUMB,
        XboxButton::RightStick => BUTTON_R_THUMB,
        XboxButton::LeftShoulder => BUTTON_L_SHOULDER,
        XboxButton::RightShoulder => BUTTON_R_SHOULDER,
        XboxButton::DPadUp => BUTTON_DPAD_UP,
        XboxButton::DPadDown => BUTTON_DPAD_DOWN,
        XboxButton::DPadLeft => BUTTON_DPAD_LEFT,
        XboxButton::DPadRight => BUTTON_DPAD_RIGHT,
    }
}

/// Converts an `XboxButton` to its XInput bitmask bit.
pub fn xbox_button_bit(btn: XboxButton) -> (bit: u32)
    ensures
        bit == spec_button_bit(btn),
{
    match btn {
        XboxButton::A => BUTTON_A,
        XboxButton::B => BUTTON_B,
        XboxButton::X => BUTTON_X,
        XboxButton::Y => BUTTON_Y,
        XboxButton::Start => BUTTON_START,
        XboxButton::Back => BUTTON_BACK,
        XboxButton::Guide => BUTTON_GUIDE,
        XboxButton::LeftStick => BUTTON_L_THUMB,
        XboxButton::RightStick => BUTTON_R_THUMB,
        XboxButton::LeftShoulder => BUTTON_L_SHOULDER,
        XboxButton::RightShoulder => BUTTON_R_SHOULDER,
        XboxButton::DPadUp => BUTTON_DPAD_UP,
        XboxButton::DPadDown => BUTTON_DPAD_DOWN,
        XboxButton::DPadLeft => BUTTON_DPAD_LEFT,
        XboxButton::DPadRight => BUTTON_DPAD_RIGHT,
    }
}

/// Each physical button's reading paired with the Xbox 360 button it is
/// remapped to, in a fixed order.
pub open spec fn spec_pressed_targets(gp: GamepadSnapshot, remap: ButtonRemap) -> Seq<(bool, XboxButton)> {
    seq![
        (gp.south, remap.south),
        (gp.east, remap.east),
        (gp.west, remap.west),
        (gp.north, remap.north),
        (gp.start, remap.start),
        (gp.back, remap.back),
        (gp.guide, remap.guide),
        (gp.left_stick, remap.left_stick),
        (gp.right_stick, remap.right_stick),
        (gp.left_shoulder, remap.left_shoulder),
        (gp.right_shoulder, remap.right_shoulder),
        (gp.dpad_up, remap.dpad_up),
        (gp.dpad_down, remap.dpad_down),
        (gp.dpad_left, remap.dpad_left),
        (gp.dpad_right, remap.dpad_right),
    ]
}

/// The bitwise or of the bits of the targets whose physical button is pressed.
pub open spec fn spec_fold_buttons(s: Seq<(bool, XboxButton)>) -> u32
    decreases s.len(),
{
    if s.len() == 0 {
        0
    } else {
        let rest = spec_fold_buttons(s.drop_last());
        if s.last().0 {
            rest | spec_button_bit(s.last().1)
        } else {
            rest
        }
    }
}

/// `val`, or 0 when its magnitude is below the deadzone.
pub open spec fn spec_apply_deadzone(val: i16, deadzone: i16) -> i16 {
    let magnitude: int = if val < 0 { -val } else { val as int };
    if magnitude < deadzone {
        0
    } else {
        val
    }
}

/// Negation that maps -32768 to 32767 instead of overflowing.
pub open spec fn spec_saturating_neg(v: i16) -> i16 {
    if v == i16::MIN {
        i16::MAX
    } else {
        (-v) as i16
    }
}

/// A trigger axis reading scaled to 0..=255: negative readings count as 0, and
/// 0..=32767 is scaled by 255/32767, rounding down.
pub open spec fn spec_trigger(axis: i16) -> u8 {
    if axis <= 0 {
        0
    } else {
        ((axis * 255) / 32767) as u8
    }
}

/// A stick axis after the deadzone and the optional inversion.
pub open spec fn spec_stick(axis: i16, invert: bool, deadzone: i16) -> i16 {
    let v = spec_apply_deadzone(axis, deadzone);
    if invert {
        spec_saturating_neg(v)
    } else {
        v
    }
}

/// The Xbox 360 state that a gamepad reading gives under a remapping and axis
/// settings. Y axes are negated first (the physical axis points down, XInput's
/// up); `reserved` is kept from the state being updated.
pub open spec fn spec_mapped_state(
    prev: Xbox360DeviceState,
    gp: GamepadSnapshot,
    remap: ButtonRemap,
    axes: AxisConfig,
    deadzone: i16,
) -> Xbox360DeviceState {
    Xbox360DeviceState {
        buttons: spec_fold_buttons(spec_pressed_targets(gp, remap)),
        lt: spec_trigger(if axes.swap_triggers { gp.trigger_right } else { gp.trigger_left }),
        rt: spec_trigger(if axes.swap_triggers { gp.trigger_left } else { gp.trigger_right }),
        lx: spec_stick(gp.left_x, axes.invert_left_x, deadzone),
        ly: spec_stick(spec_saturating_neg(gp.left_y), axes.invert_left_y, deadzone),
        rx: spec_stick(gp.right_x, axes.invert_right_x, deadzone),
        ry: spec_stick(spec_saturating_neg(gp.right_y), axes.invert_right_y, deadzone),
        reserved: prev.reserved,
    }
}

/// Negation that maps -32768 to 32767 instead of overflowing.
pub fn saturating_neg(v: i16) -> (r: i16)
    ensures
        r == spec_saturating_neg(v),
{
    if v == i16::MIN {
        i16::MAX
    } else {
        -v
    }
}

/// Applies a center deadzone to prevent micro-jitter: readings whose
/// magnitude is below `deadzone` become 0, others pass unchanged.
pub fn apply_deadzone(val: i16, deadzone: i16) -> (r: i16)
    ensures
        r == spec_apply_deadzone(val, deadzone),
{
    let wide: i32 = val as i32;
    let magnitude: i32 = if wide < 0 { -wide } else { wide };
    if magnitude < deadzone as i32 {
        0
    } else {
        val
    }
}

/// Scales a trigger axis reading to the 0..=255 range of an Xbox 360 trigger.
pub fn trigger_value(axis: i16) -> (r: u8)
    ensures
        r == spec_trigger(axis),
{
    let raw: i32 = if axis < 0 { 0 } else { axis as i32 };
    assert(0 <= raw * 255 <= 32767 * 255) by (nonlinear_arith)
        requires
            0 <= raw <= 32767,
    ;
    let scaled: i32 = (raw * 255) / 32767;
    assert(0 <= scaled <= 255) by (nonlinear_arith)
        requires
            0 <= raw <= 32767,
            scaled == (raw * 255) / 32767,
    ;
    let clamped: i32 = if scaled < 0 {
        0
    } else if scaled > 255 {
        255
    } else {
        scaled
    };
    clamped as u8
}

/// The or of the target bits of the pressed buttons in `pairs`.
fn fold_buttons(pairs: &[(bool, XboxButton); 15]) -> (b: u32)
    ensures
        b == spec_fold_buttons(pairs@),
{
    let mut b: u32 = 0;
    let mut i: usize = 0;
    assert(pairs@.take(0) =~= Seq::<(bool, XboxButton)>::empty());
    while i < 15
        invariant
            i <= 15,
            pairs@.len() == 15,
            b == spec_fold_buttons(pairs@.take(i as int)),
        decreases 15 - i,
    {
        let (pressed, target) = pairs[i];
        assert(pairs@.take(i + 1).drop_last() =~= pairs@.take(i as int));
        if pressed {
            b = b | xbox_button_bit(target);
        }
        i = i + 1;
    }
    assert(pairs@.take(15) =~= pairs@);
    b
}

/// Fills `istate` from one gamepad reading: each pressed physical button sets
/// the bit of the Xbox 360 button it is remapped to, triggers are scaled to
/// 0..=255 (and swapped if configured), Y axes are negated to XInput's
/// orientation, and each stick axis gets the deadzone and optional inversion.
pub fn update_from_sdl_gamepad(
    istate: &mut Xbox360DeviceState,
    gp: &GamepadSnapshot,
    cfg: &Config,
    deadzone: i16,
)
    ensures
        *final(istate) == spec_mapped_state(*old(istate), *gp, cfg.buttons, cfg.axes, deadzone),
{
    let remap = &cfg.buttons;
    let pairs: [(bool, XboxButton); 15] = [
        (gp.south, remap.south),
        (gp.east, remap.east),
        (gp.west, remap.west),
        (gp.north, remap.north),
        (gp.start, remap.start),
        (gp.back, remap.back),
        (gp.guide, remap.guide),
        (gp.left_stick, remap.left_stick),
        (gp.right_stick, remap.right_stick),
        (gp.left_shoulder, remap.left_shoulder),
        (gp.right_shoulder, remap.right_shoulder),
        (gp.dpad_up, remap.dpad_up),
        (gp.dpad_down, remap.dpad_down),
        (gp.dpad_left, remap.dpad_left),
        (gp.dpad_right, remap.dpad_right),
    ];
    assert(pairs@ =~= spec_pressed_targets(*gp, *remap));
    istate.buttons = fold_buttons(&pairs);

    // Triggers
    let (lt_raw, rt_raw) = if cfg.axes.swap_triggers {
        (gp.trigger_right, gp.trigger_left)
    } else {
        (gp.trigger_left, gp.trigger_right)
    };
    istate.lt = trigger_value(lt_raw);
    istate.rt = trigger_value(rt_raw);

    // Sticks: the physical Y axes point down, XInput's point up.
    let lx = apply_deadzone(gp.left_x, deadzone);
    let ly = apply_deadzone(saturating_neg(gp.left_y), deadzone);
    let rx = apply_deadzone(gp.right_x, deadzone);
    let ry = apply_deadzone(saturating_neg(gp.right_y), deadzone);

    istate.lx = if cfg.axes.invert_left_x { saturating_neg(lx) } else { lx };
    istate.ly = if cfg.axes.invert_left_y { saturating_neg(ly) } else { ly };
    istate.rx = if cfg.axes.invert_right_x { saturating_neg(rx) } else { rx };
    istate.ry = if cfg.axes.invert_right_y { saturating_neg(ry) } else { ry };
}

/// Each button constant is a single bit, at the position `spec_button_shift`
/// gives.
proof fn lemma_button_constants_are_single_bits()
    by (bit_vector)
    ensures
        BUTTON_DPAD_UP == 1u32 << 0u32,
        BUTTON_DPAD_DOWN == 1u32 << 1u32,
        BUTTON_DPAD_LEFT == 1u32 << 2u32,
        BUTTON_DPAD_RIGHT == 1u32 << 3u32,
        BUTTON_START == 1u32 << 4u32,
        BUTTON_BACK == 1u32 << 5u32,
        BUTTON_L_THUMB == 1u32 << 6u32,
        BUTTON_R_THUMB == 1u32 << 7u32,
        BUTTON_L_SHOULDER == 1u32 << 8u32,
        BUTTON_R_SHOULDER == 1u32 << 9u32,
        BUTTON_GUIDE == 1u32 << 10u32,
        BUTTON_A == 1u32 << 12u32,
        BUTTON_B == 1u32 << 13u32,
        BUTTON_X == 1u32 << 14u32,
        BUTTON_Y == 1u32 << 15u32,
{
}

proof fn lemma_single_bits_overlap(i: u32, j: u32)
    by (bit_vector)
    requires
        i < 32,
        j < 32,
    ensures
        ((1u32 << i) & (1u32 << j) != 0) == (i == j),
{
}

proof fn lemma_or_and_nonzero(a: u32, b: u32, m: u32)
    by (bit_vector)
    ensures
        ((a | b) & m != 0) == ((a & m != 0) || (b & m != 0)),
        (0u32 & m) == 0,
{
}

/// Two button bits overlap exactly when the buttons are the same.
pub proof fn lemma_button_bits_disjoint(x: XboxButton, t: XboxButton)
    ensures
        (spec_button_bit(x) & spec_button_bit(t) != 0) == (x == t),
        spec_button_bit(x) == 1u32 << spec_button_shift(x),
{
    lemma_button_constants_are_single_bits();
    lemma_single_bits_overlap(spec_button_shift(x), spec_button_shift(t));
}

/// The bit of button `t` is set in the or of the pressed targets exactly when
/// some pressed physical button in `s` is remapped to `t`.
pub proof fn lemma_fold_buttons_bit(s: Seq<(bool, XboxButton)>, t: XboxButton)
    ensures
        (spec_fold_buttons(s) & spec_button_bit(t) != 0) <==> exists|i: int|
            0 <= i < s.len() && (#[trigger] s[i]).0 && s[i].1 == t,
    decreases s.len(),
{
    let m = spec_button_bit(t);
    if s.len() == 0 {
        lemma_or_and_nonzero(0, 0, m);
    } else {
        let init = s.drop_last();
        lemma_fold_buttons_bit(init, t);
        let rest = spec_fold_buttons(init);
        lemma_or_and_nonzero(rest, spec_button_bit(s.last().1), m);
        lemma_button_bits_disjoint(s.last().1, t);
        if exists|i: int| 0 <= i < init.len() && (#[trigger] init[i]).0 && init[i].1 == t {
            let i = choose|i: int| 0 <= i < init.len() && (#[trigger] init[i]).0 && init[i].1 == t;
            assert(s[i] == init[i]);
        }
        if exists|i: int| 0 <= i < s.len() && (#[trigger] s[i]).0 && s[i].1 == t {
            let i = choose|i: int| 0 <= i < s.len() && (#[trigger] s[i]).0 && s[i].1 == t;
            if i < s.len() - 1 {
                assert(init[i] == s[i]);
            }
        }
    }
}

/// Remapping law: in the state a reading gives, the bit of Xbox 360 button `t`
/// is set exactly when some pressed physical button is remapped to `t`.
pub proof fn law_button_bit_set_iff_pressed_source(
    prev: Xbox360DeviceState,
    gp: GamepadSnapshot,
    remap: ButtonRemap,
    axes: AxisConfig,
    deadzone: i16,
    t: XboxButton,
)
    ensures
        (spec_mapped_state(prev, gp, remap, axes, deadzone).buttons & spec_button_bit(t) != 0)
            <==> exists|i: int|
            0 <= i < 15 && (#[trigger] spec_pressed_targets(gp, remap)[i]).0
                && spec_pressed_targets(gp, remap)[i].1 == t,
{
    lemma_fold_buttons_bit(spec_pressed_targets(gp, remap), t);
}

/// When exactly one physical button is remapped to `t`, the bit of `t` tells
/// whether that button is pressed.
proof fn lemma_unique_target(s: Seq<(bool, XboxButton)>, k: int, t: XboxButton)
    requires
        0 <= k < s.len(),
        s[k].1 == t,
        forall|i: int| 0 <= i < s.len() && i != k ==> (#[trigger] s[i]).1 != t,
    ensures
        (spec_fold_buttons(s) & spec_button_bit(t) != 0) == s[k].0,
{
    lemma_fold_buttons_bit(s, t);
}

/// The default (identity) mapping sends each physical button to its natural
/// Xbox 360 equivalent: the natural bit is set exactly when that button is
/// pressed.
pub proof fn law_identity_remap(
    prev: Xbox360DeviceState,
    gp: GamepadSnapshot,
    axes: AxisConfig,
    deadzone: i16,
)
    ensures
        ({
            let b = spec_mapped_state(prev, gp, ButtonRemap::spec_identity(), axes, deadzone).buttons;
            &&& (b & BUTTON_A != 0) == gp.south
            &&& (b & BUTTON_B != 0) == gp.east
            &&& (b & BUTTON_X != 0) == gp.west
            &&& (b & BUTTON_Y != 0) == gp.north
            &&& (b & BUTTON_START != 0) == gp.start
            &&& (b & BUTTON_BACK != 0) == gp.back
            &&& (b & BUTTON_GUIDE != 0) == gp.guide
            &&& (b & BUTTON_L_THUMB != 0) == gp.left_stick
            &&& (b & BUTTON_R_THUMB != 0) == gp.right_stick
            &&& (b & BUTTON_L_SHOULDER != 0) == gp.left_shoulder
            &&& (b & BUTTON_R_SHOULDER != 0) == gp.right_shoulder
            &&& (b & BUTTON_DPAD_UP != 0) == gp.dpad_up
            &&& (b & BUTTON_DPAD_DOWN != 0) == gp.dpad_down
            &&& (b & BUTTON_DPAD_LEFT != 0) == gp.dpad_left
            &&& (b & BUTTON_DPAD_RIGHT != 0) == gp.dpad_right
        }),
{
    let s = spec_pressed_targets(gp, ButtonRemap::spec_identity());
    lemma_unique_target(s, 0, XboxButton::A);
    lemma_unique_target(s, 1, XboxButton::B);
    lemma_unique_target(s, 2, XboxButton::X);
    lemma_unique_target(s, 3, XboxButton::Y);
    lemma_unique_target(s, 4, XboxButton::Start);
    lemma_unique_target(s, 5, XboxButton::Back);
    lemma_unique_target(s, 6, XboxButton::Guide);
    lemma_unique_target(s, 7, XboxButton::LeftStick);
    lemma_unique_target(s, 8, XboxButton::RightStick);
    lemma_unique_target(s, 9, XboxButton::LeftShoulder);
    lemma_unique_target(s, 10, XboxButton::RightShoulder);
    lemma_unique_target(s, 11, XboxButton::DPadUp);
    lemma_unique_target(s, 12, XboxButton::DPadDown);
    lemma_unique_target(s, 13, XboxButton::DPadLeft);
    lemma_unique_target(s, 14, XboxButton::DPadRight);
}

/// Swapping the triggers exchanges the left and right trigger values and
/// changes nothing else.
pub proof fn law_swap_triggers(
    prev: Xbox360DeviceState,
    gp: GamepadSnapshot,
    remap: ButtonRemap,
    axes: AxisConfig,
    deadzone: i16,
)
    ensures
        ({
            let plain = spec_mapped_state(prev, gp, remap, AxisConfig { swap_triggers: false, ..axes }, deadzone);
            let swapped = spec_mapped_state(prev, gp, remap, AxisConfig { swap_triggers: true, ..axes }, deadzone);
            &&& swapped.lt == plain.rt
            &&& swapped.rt == plain.lt
            &&& swapped.buttons == plain.buttons
            &&& swapped.lx == plain.lx && swapped.ly == plain.ly
            &&& swapped.rx == plain.rx && swapped.ry == plain.ry
        }),
{
}

/// Inverting an axis negates (saturating) what the axis gives without the
/// inversion, and the Y axes without inversion are the negated readings.
pub proof fn law_axis_inversion(
    prev: Xbox360DeviceState,
    gp: GamepadSnapshot,
    remap: ButtonRemap,
    axes: AxisConfig,
    deadzone: i16,
)
    ensures
        ({
            let plain = spec_mapped_state(prev, gp, remap, AxisConfig {
                invert_left_x: false, invert_left_y: false,
                invert_right_x: false, invert_right_y: false, ..axes }, deadzone);
            let inverted = spec_mapped_state(prev, gp, remap, AxisConfig {
                invert_left_x: true, invert_left_y: true,
                invert_right_x: true, invert_right_y: true, ..axes }, deadzone);
            &&& inverted.lx == spec_saturating_neg(plain.lx)
            &&& inverted.ly == spec_saturating_neg(plain.ly)
            &&& inverted.rx == spec_saturating_neg(plain.rx)
            &&& inverted.ry == spec_saturating_neg(plain.ry)
            &&& plain.ly == spec_apply_deadzone(spec_saturating_neg(gp.left_y), deadzone)
            &&& plain.ry == spec_apply_deadzone(spec_saturating_neg(gp.right_y), deadzone)
        }),
{
}

/// The deadzone gives either 0 or the reading itself; a deadzone of 0 (or
/// less) lets every reading through, and readings inside it become 0.
pub proof fn law_deadzone(val: i16, deadzone: i16)
    ensures
        spec_apply_deadzone(val, deadzone) == 0 || spec_apply_deadzone(val, deadzone) == val,
        deadzone <= 0 ==> spec_apply_deadzone(val, deadzone) == val,
        -deadzone < val < deadzone ==> spec_apply_deadzone(val, deadzone) == 0,
        (val >= deadzone || val <= -deadzone) ==> spec_apply_deadzone(val, deadzone) == val,
{
}

/// Trigger scaling: released (or negative) is 0, fully pressed is 255, and
/// pressing further never lowers the value.
pub proof fn law_trigger_scaling(a: i16, b: i16)
    ensures
        spec_trigger(0) == 0,
        spec_trigger(32767) == 255,
        a <= b ==> spec_trigger(a) <= spec_trigger(b),
        spec_trigger(a) == 0 <==> a < 129,
{
    if 0 < a <= b {
        assert((a * 255) / 32767 <= (b * 255) / 32767) by (nonlinear_arith)
            requires
                0 < a <= b,
        ;
    }
    if a > 0 {
        assert(0 <= (a * 255) / 32767 <= 255) by (nonlinear_arith)
            requires
                0 < a <= 32767,
        ;
        assert(((a * 255) / 32767 == 0) == (a < 129)) by (nonlinear_arith)
            requires
                0 < a <= 32767,
        ;
    }
    if b > 0 {
        assert(0 <= (b * 255) / 32767 <= 255) by (nonlinear_arith)
            requires
                0 < b <= 32767,
        ;
    }
}

/// Saturating negation undoes itself on every reading but -32768.
pub proof fn law_saturating_neg_involution(v: i16)
    requires
        v != i16::MIN,
    ensures
        spec_saturating_neg(spec_saturating_neg(v)) == v,
        spec_saturating_neg(i16::MIN) == i16::MAX,
{
}


/// Each axis of the mapped state, in terms of the reading alone: a stick
/// axis is 0 inside the deadzone and otherwise the reading (a Y reading
/// negated first, -32768 becoming 32767), negated when and only when that
/// axis's own inversion flag is set; each trigger is the positive part of its
/// own reading (or of the other one when swapped) scaled by 255/32767.
pub proof fn law_axes_explicit(
    prev: Xbox360DeviceState,
    gp: GamepadSnapshot,
    remap: ButtonRemap,
    axes: AxisConfig,
    deadzone: i16,
)
    ensures
        ({
            let st = spec_mapped_state(prev, gp, remap, axes, deadzone);
            let dz = deadzone as int;
            let lx = gp.left_x as int;
            let rx = gp.right_x as int;
            let ly = if gp.left_y == i16::MIN { 32767int } else { -(gp.left_y as int) };
            let ry = if gp.right_y == i16::MIN { 32767int } else { -(gp.right_y as int) };
            let lt_raw = (if axes.swap_triggers { gp.trigger_right } else { gp.trigger_left }) as int;
            let rt_raw = (if axes.swap_triggers { gp.trigger_left } else { gp.trigger_right }) as int;
            &&& st.lx as int == if (if lx < 0 { -lx } else { lx }) < dz {
                0
            } else if axes.invert_left_x {
                if lx == -32768 { 32767 } else { -lx }
            } else {
                lx
            }
            &&& st.rx as int == if (if rx < 0 { -rx } else { rx }) < dz {
                0
            } else if axes.invert_right_x {
                if rx == -32768 { 32767 } else { -rx }
            } else {
                rx
            }
            &&& st.ly as int == if (if ly < 0 { -ly } else { ly }) < dz {
                0
            } else if axes.invert_left_y {
                -ly
            } else {
                ly
            }
            &&& st.ry as int == if (if ry < 0 { -ry } else { ry }) < dz {
                0
            } else if axes.invert_right_y {
                -ry
            } else {
                ry
            }
            &&& st.lt as int == if lt_raw <= 0 { 0 } else { lt_raw * 255 / 32767 }
            &&& st.rt as int == if rt_raw <= 0 { 0 } else { rt_raw * 255 / 32767 }
            &&& st.reserved == prev.reserved
        }),
{
    let a = gp.trigger_left;
    let b = gp.trigger_right;
    if a > 0 {
        assert(0 <= (a * 255) / 32767 <= 255) by (nonlinear_arith)
            requires
                0 < a <= 32767,
        ;
    }
    if b > 0 {
        assert(0 <= (b * 255) / 32767 <= 255) by (nonlinear_arith)
            requires
                0 < b <= 32767,
        ;
    }
}

} // verus!
