use vstd::prelude::*;

verus! {

/// All valid Xbox 360 button targets that a physical button can be remapped to.
#[derive(Debug, Clone, Copy, PartialEq, Eq, Structural, Hash)]
pub enum XboxButton {
    A,
    B,
    X,
    Y,
    Start,
    Back,
    Guide,
    LeftStick,
    RightStick,
    LeftShoulder,
    RightShoulder,
    DPadUp,
    DPadDown,
    DPadLeft,
    DPadRight,
}

/// Remaps each physical button to a virtual Xbox 360 button.
///
/// Example (Nintendo-style layout): `south = B`, `east = A`.
#[derive(Debug, Clone, Copy, PartialEq, Eq, Structural)]
pub struct ButtonRemap {
    // Face buttons
    pub south: XboxButton,
    pub east: XboxButton,
    pub west: XboxButton,
    pub north: XboxButton,
    // Menu / system
    pub start: XboxButton,
    pub back: XboxButton,
    pub guide: XboxButton,
    // Sticks
    pub left_stick: XboxButton,
    pub right_stick: XboxButton,
    // Shoulders
    pub left_shoulder: XboxButton,
    pub right_shoulder: XboxButton,
    // D-Pad
    pub dpad_up: XboxButton,
    pub dpad_down: XboxButton,
    pub dpad_left: XboxButton,
    pub dpad_right: XboxButton,
}

impl ButtonRemap {
    /// The identity mapping: each physical button goes to its natural Xbox 360
    /// equivalent.
    pub open spec fn spec_identity() -> ButtonRemap {
        ButtonRemap {
            south: XboxButton::A,
            east: XboxButton::B,
            west: XboxButton::X,
            north: XboxButton::Y,
            start: XboxButton::Start,
            back: XboxButton::Back,
            guide: XboxButton::Guide,
            left_stick: XboxButton::LeftStick,
            right_stick: XboxButton::RightStick,
            left_shoulder: XboxButton::LeftShoulder,
            right_shoulder: XboxButton::RightShoulder,
            dpad_up: XboxButton::DPadUp,
            dpad_down: XboxButton::DPadDown,
            dpad_left: XboxButton::DPadLeft,
            dpad_right: XboxButton::DPadRight,
        }
    }
}

impl Default for ButtonRemap {
    /// The identity mapping: each physical button goes to its natural Xbox 360
    /// equivalent.
    fn default() -> (r: Self)
        ensures
            r == ButtonRemap::spec_identity(),
    {
        ButtonRemap {
            south: XboxButton::A,
            east: XboxButton::B,
            west: XboxButton::X,
            north: XboxButton::Y,
            start: XboxButton::Start,
            back: XboxButton::Back,
            guide: XboxButton::Guide,
            left_stick: XboxButton::LeftStick,
            right_stick: XboxButton::RightStick,
            left_shoulder: XboxButton::LeftShoulder,
            right_shoulder: XboxButton::RightShoulder,
            dpad_up: XboxButton::DPadUp,
            dpad_down: XboxButton::DPadDown,
            dpad_left: XboxButton::DPadLeft,
            dpad_right: XboxButton::DPadRight,
        }
    }
}

/// Axis / trigger tweaks.
#[derive(Debug, Clone, Copy, PartialEq, Eq, Structural)]
pub struct AxisConfig {
    /// Invert the left stick Y axis (useful for flight/racing games).
    pub invert_left_y: bool,
    /// Invert the right stick Y axis.
    pub invert_right_y: bool,
    /// Invert the left stick X axis.
    pub invert_left_x: bool,
    /// Invert the right stick X axis.
    pub invert_right_x: bool,
    /// Swap the left and right triggers.
    pub swap_triggers: bool,
}

impl Default for AxisConfig {
    /// No axis is inverted and the triggers are not swapped.
    fn default() -> (r: Self)
        ensures
            !r.invert_left_y,
            !r.invert_right_y,
            !r.invert_left_x,
            !r.invert_right_x,
            !r.swap_triggers,
    {
        AxisConfig {
            invert_left_y: false,
            invert_right_y: false,
            invert_left_x: false,
            invert_right_x: false,
            swap_triggers: false,
        }
    }
}

/// Keyboard emulation mapping physical buttons to keys: each entry pairs a
/// physical button name with a key name.
#[derive(Debug, Clone)]
pub struct KeyboardConfig {
    pub enabled: bool,
    pub mapping: Vec<(String, String)>,
}

impl Default for KeyboardConfig {
    /// Keyboard emulation off, with no mapping.
    fn default() -> (r: Self)
        ensures
            !r.enabled,
            r.mapping@.len() == 0,
    {
        KeyboardConfig { enabled: false, mapping: Vec::new() }
    }
}

/// The remapping and axis settings that the input translation reads, and the
/// keyboard emulation settings.
#[derive(Debug, Clone)]
pub struct Config {
    pub buttons: ButtonRemap,
    pub axes: AxisConfig,
    pub keyboard: KeyboardConfig,
}

impl Default for Config {
    /// The identity button mapping, no axis tweaks, keyboard emulation off.
    fn default() -> (r: Self)
        ensures
            r.buttons == ButtonRemap::spec_identity(),
            !r.axes.invert_left_y,
            !r.axes.invert_right_y,
            !r.axes.invert_left_x,
            !r.axes.invert_right_x,
            !r.axes.swap_triggers,
            !r.keyboard.enabled,
            r.keyboard.mapping@.len() == 0,
    {
        Config {
            buttons: ButtonRemap::default(),
            axes: AxisConfig::default(),
            keyboard: KeyboardConfig::default(),
        }
    }
}

} // verus!
