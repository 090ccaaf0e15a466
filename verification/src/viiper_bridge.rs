use vstd::prelude::*;

verus! {

/// The state of one virtual Xbox 360 controller, laid out as the virtual
/// device library expects it.
#[derive(Clone, Copy, Debug)]
pub struct Xbox360DeviceState {
    pub buttons: u32,
    pub lt: u8,
    pub rt: u8,
    pub lx: i16,
    pub ly: i16,
    pub rx: i16,
    pub ry: i16,
    pub reserved: [u8; 6],
}

impl Xbox360DeviceState {
    /// The all-zero state: nothing pressed, sticks centred, triggers released.
    pub open spec fn spec_zero() -> Xbox360DeviceState {
        Xbox360DeviceState {
            buttons: 0,
            lt: 0,
            rt: 0,
            lx: 0,
            ly: 0,
            rx: 0,
            ry: 0,
            reserved: [0u8, 0u8, 0u8, 0u8, 0u8, 0u8],
        }
    }
}

impl Default for Xbox360DeviceState {
    /// The all-zero state.
    fn default() -> (r: Self)
        ensures
            r == Xbox360DeviceState::spec_zero(),
    {
        Xbox360DeviceState {
            buttons: 0,
            lt: 0,
            rt: 0,
            lx: 0,
            ly: 0,
            rx: 0,
            ry: 0,
            reserved: [0u8, 0u8, 0u8, 0u8, 0u8, 0u8],
        }
    }
}

/// The state of one virtual mouse: pressed buttons (a bitmask) and the motion,
/// wheel and pan accumulated since the last report.
#[derive(Clone, Copy, Debug, PartialEq, Eq, Structural)]
pub struct MouseDeviceState {
    pub buttons: u8,
    pub dx: i16,
    pub dy: i16,
    pub wheel: i16,
    pub pan: i16,
}

impl MouseDeviceState {
    /// No button pressed and no motion.
    pub open spec fn spec_zero() -> MouseDeviceState {
        MouseDeviceState { buttons: 0, dx: 0, dy: 0, wheel: 0, pan: 0 }
    }
}

impl Default for MouseDeviceState {
    /// No button pressed and no motion.
    fn default() -> (r: Self)
        ensures
            r == MouseDeviceState::spec_zero(),
    {
        MouseDeviceState { buttons: 0, dx: 0, dy: 0, wheel: 0, pan: 0 }
    }
}

/// The state of one virtual keyboard: one bit per HID key usage code, the bit
/// `code % 8` of byte `code / 8` telling whether key `code` is held.
#[derive(Clone, Copy, Debug)]
pub struct KeyboardDeviceState {
    pub key_bitmap: [u8; 32],
}

impl Default for KeyboardDeviceState {
    /// No key held.
    fn default() -> (r: Self)
        ensures
            forall|i: int| 0 <= i < 32 ==> #[trigger] r.key_bitmap@[i] == 0,
    {
        KeyboardDeviceState { key_bitmap: [0u8; 32] }
    }
}

} // verus!
