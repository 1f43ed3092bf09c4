use vstd::prelude::*;
use vstd::std_specs::convert::IntoSpec;

use crate::dluid::virtual_input::DLUserInputDeviceImpl;

verus! {

/// Bit `i` (0 = least significant) of a button word.
pub open spec fn button_bit(word: u16, i: u16) -> bool {
    (word >> i) & 1u16 == 1u16
}

/// `word` with bit `i` set to `value`.
pub open spec fn with_bit(word: u16, i: u16, value: bool) -> u16 {
    if value {
        word | (1u16 << i)
    } else {
        word & !(1u16 << i)
    }
}

/// Writing bit `i` of a button word changes that bit and no other.
pub proof fn lemma_with_bit(word: u16, i: u16, value: bool, k: u16)
    requires
        i < 16,
        k < 16,
    ensures
        button_bit(with_bit(word, i, value), k) == if k == i {
            value
        } else {
            button_bit(word, k)
        },
{
    assert(((word | (1u16 << i)) >> k) & 1u16 == 1u16 <==> (k == i || (word >> k) & 1u16 == 1u16))
        by (bit_vector)
        requires
            i < 16,
            k < 16,
    ;
    assert(((word & !(1u16 << i)) >> k) & 1u16 == 1u16 <==> (k != i && (word >> k) & 1u16 == 1u16))
        by (bit_vector)
        requires
            i < 16,
            k < 16,
    ;
}

/// The `wButtons` word of XInput's `XINPUT_GAMEPAD`: one bit per button.
///
/// Bits 10 and 11 carry no button.
#[derive(Clone, Copy, Debug, PartialEq, Eq, Structural)]
pub struct WButtons(pub u16);

impl WButtons {
    fn bit(&self, i: u16) -> (b: bool)
        requires
            i < 16,
        ensures
            b == button_bit(self.0, i),
    {
        (self.0 >> i) & 1 == 1
    }

    fn set_bit(&mut self, i: u16, value: bool)
        requires
            i < 16,
        ensures
            final(self).0 == with_bit(old(self).0, i, value),
    {
        if value {
            self.0 = self.0 | (1u16 << i);
        } else {
            self.0 = self.0 & !(1u16 << i);
        }
    }

    /// Whether dpad up is pressed (bit 0).
    pub fn dpad_up(&self) -> (b: bool)
        ensures
            b == button_bit(self.0, 0),
    {
        self.bit(0)
    }

    /// Sets the state of dpad up (bit 0).
    pub fn set_dpad_up(&mut self, value: bool)
        ensures
            final(self).0 == with_bit(old(self).0, 0, value),
    {
        self.set_bit(0, value)
    }

    /// Whether dpad down is pressed (bit 1).
    pub fn dpad_down(&self) -> (b: bool)
        ensures
            b == button_bit(self.0, 1),
    {
        self.bit(1)
    }

    /// Sets the state of dpad down (bit 1).
    pub fn set_dpad_down(&mut self, value: bool)
        ensures
            final(self).0 == with_bit(old(self).0, 1, value),
    {
        self.set_bit(1, value)
    }

    /// Whether dpad left is pressed (bit 2).
    pub fn dpad_left(&self) -> (b: bool)
        ensures
            b == button_bit(self.0, 2),
    {
        self.bit(2)
    }

    /// Sets the state of dpad left (bit 2).
    pub fn set_dpad_left(&mut self, value: bool)
        ensures
            final(self).0 == with_bit(old(self).0, 2, value),
    {
        self.set_bit(2, value)
    }

    /// Whether dpad right is pressed (bit 3).
    pub fn dpad_right(&self) -> (b: bool)
        ensures
            b == button_bit(self.0, 3),
    {
        self.bit(3)
    }

    /// Sets the state of dpad right (bit 3).
    pub fn set_dpad_right(&mut self, value: bool)
        ensures
            final(self).0 == with_bit(old(self).0, 3, value),
    {
        self.set_bit(3, value)
    }

    /// Whether start is pressed (bit 4).
    pub fn start(&self) -> (b: bool)
        ensures
            b == button_bit(self.0, 4),
    {
        self.bit(4)
    }

    /// Sets the state of start (bit 4).
    pub fn set_start(&mut self, value: bool)
        ensures
            final(self).0 == with_bit(old(self).0, 4, value),
    {
        self.set_bit(4, value)
    }

    /// Whether back is pressed (bit 5).
    pub fn back(&self) -> (b: bool)
        ensures
            b == button_bit(self.0, 5),
    {
        self.bit(5)
    }

    /// Sets the state of back (bit 5).
    pub fn set_back(&mut self, value: bool)
        ensures
            final(self).0 == with_bit(old(self).0, 5, value),
    {
        self.set_bit(5, value)
    }

    /// Whether left thumb is pressed (bit 6).
    pub fn left_thumb(&self) -> (b: bool)
        ensures
            b == button_bit(self.0, 6),
    {
        self.bit(6)
    }

    /// Sets the state of left thumb (bit 6).
    pub fn set_left_thumb(&mut self, value: bool)
        ensures
            final(self).0 == with_bit(old(self).0, 6, value),
    {
        self.set_bit(6, value)
    }

    /// Whether right thumb is pressed (bit 7).
    pub fn right_thumb(&self) -> (b: bool)
        ensures
            b == button_bit(self.0, 7),
    {
        self.bit(7)
    }

    /// Sets the state of right thumb (bit 7).
    pub fn set_right_thumb(&mut self, value: bool)
        ensures
            final(self).0 == with_bit(old(self).0, 7, value),
    {
        self.set_bit(7, value)
    }

    /// Whether left shoulder is pressed (bit 8).
    pub fn left_shoulder(&self) -> (b: bool)
        ensures
            b == button_bit(self.0, 8),
    {
        self.bit(8)
    }

    /// Sets the state of left shoulder (bit 8).
    pub fn set_left_shoulder(&mut self, value: bool)
        ensures
            final(self).0 == with_bit(old(self).0, 8, value),
    {
        self.set_bit(8, value)
    }

    /// Whether right shoulder is pressed (bit 9).
    pub fn right_shoulder(&self) -> (b: bool)
        ensures
            b == button_bit(self.0, 9),
    {
        self.bit(9)
    }

    /// Sets the state of right shoulder (bit 9).
    pub fn set_right_shoulder(&mut self, value: bool)
        ensures
            final(self).0 == with_bit(old(self).0, 9, value),
    {
        self.set_bit(9, value)
    }

    /// Whether button a is pressed (bit 12).
    pub fn button_a(&self) -> (b: bool)
        ensures
            b == button_bit(self.0, 12),
    {
        self.bit(12)
    }

    /// Sets the state of button a (bit 12).
    pub fn set_a(&mut self, value: bool)
        ensures
            final(self).0 == with_bit(old(self).0, 12, value),
    {
        self.set_bit(12, value)
    }

    /// Whether button b is pressed (bit 13).
    pub fn button_b(&self) -> (b: bool)
        ensures
            b == button_bit(self.0, 13),
    {
        self.bit(13)
    }

    /// Sets the state of button b (bit 13).
    pub fn set_b(&mut self, value: bool)
        ensures
            final(self).0 == with_bit(old(self).0, 13, value),
    {
        self.set_bit(13, value)
    }

    /// Whether button x is pressed (bit 14).
    pub fn button_x(&self) -> (b: bool)
        ensures
            b == button_bit(self.0, 14),
    {
        self.bit(14)
    }

    /// Sets the state of button x (bit 14).
    pub fn set_x(&mut self, value: bool)
        ensures
            final(self).0 == with_bit(old(self).0, 14, value),
    {
        self.set_bit(14, value)
    }

    /// Whether button y is pressed (bit 15).
    pub fn button_y(&self) -> (b: bool)
        ensures
            b == button_bit(self.0, 15),
    {
        self.bit(15)
    }

    /// Sets the state of button y (bit 15).
    pub fn set_y(&mut self, value: bool)
        ensures
            final(self).0 == with_bit(old(self).0, 15, value),
    {
        self.set_bit(15, value)
    }
}

/// DirectInput mouse buttons, the indices of [DIMouseState2::buttons].
#[derive(Debug, Clone, Copy, PartialEq, Eq, Structural)]
pub enum DIMouseButton {
    Left,
    Right,
    Middle,
    Button4,
    Button5,
    Button6,
    Button7,
    Button8,
}

/// The index of a mouse button in [DIMouseState2::buttons].
pub open spec fn mouse_button_index(button: DIMouseButton) -> usize {
    match button {
        DIMouseButton::Left => 0,
        DIMouseButton::Right => 1,
        DIMouseButton::Middle => 2,
        DIMouseButton::Button4 => 3,
        DIMouseButton::Button5 => 4,
        DIMouseButton::Button6 => 5,
        DIMouseButton::Button7 => 6,
        DIMouseButton::Button8 => 7,
    }
}

impl From<DIMouseButton> for usize {
    fn from(button: DIMouseButton) -> (index: usize) {
        match button {
            DIMouseButton::Left => 0,
            DIMouseButton::Right => 1,
            DIMouseButton::Middle => 2,
            DIMouseButton::Button4 => 3,
            DIMouseButton::Button5 => 4,
            DIMouseButton::Button6 => 5,
            DIMouseButton::Button7 => 6,
            DIMouseButton::Button8 => 7,
        }
    }
}

impl vstd::std_specs::convert::FromSpecImpl<DIMouseButton> for usize {
    open spec fn obeys_from_spec() -> bool {
        true
    }

    open spec fn from_spec(button: DIMouseButton) -> usize {
        mouse_button_index(button)
    }
}

/// Distinct mouse buttons have distinct indices, each below 8.
pub proof fn lemma_mouse_button_indices(a: DIMouseButton, b: DIMouseButton)
    ensures
        mouse_button_index(a) < 8,
        mouse_button_index(a) == mouse_button_index(b) ==> a == b,
{
}

/// Whether a DirectInput state byte reports its key or button as down.
pub open spec fn is_down(state: u8) -> bool {
    state & 0x80u8 != 0
}

/// DirectX 8 `DIMOUSESTATE2`: the result of `GetDeviceState` on a mouse.
pub struct DIMouseState2 {
    /// Horizontal mouse movement.
    pub lx: i32,
    /// Vertical mouse movement.
    pub ly: i32,
    /// Scroll mouse movement.
    pub lz: i32,
    /// Mouse buttons 1-8.
    pub buttons: [u8; 8],
}

impl DIMouseState2 {
    /// Whether `button` is down (see [DIMouseButton]).
    pub fn pressed<K: Into<usize>>(&self, button: K) -> (down: bool)
        requires
            <K as IntoSpec<usize>>::obeys_into_spec(),
            button.into_spec() < 8,
        ensures
            down == is_down(self.buttons@[button.into_spec() as int]),
    {
        let index: usize = button.into();
        self.buttons[index] & 0x80 != 0
    }
}

/// A keyboard: the DirectInput state of each of its 256 keys.
pub struct KeyboardDevice {
    pub user_input_device_impl: DLUserInputDeviceImpl,
    /// One byte per scan code (see [DIKey](crate::dluid::di_key::DIKey)).
    pub di_kb_state: [u8; 256],
}

impl KeyboardDevice {
    /// Whether `key` is down (see [DIKey](crate::dluid::di_key::DIKey)).
    pub fn pressed<K: Into<usize>>(&self, key: K) -> (down: bool)
        requires
            <K as IntoSpec<usize>>::obeys_into_spec(),
            key.into_spec() < 256,
        ensures
            down == is_down(self.di_kb_state@[key.into_spec() as int]),
    {
        let index: usize = key.into();
        self.di_kb_state[index] & 0x80 != 0
    }
}

/// A mouse device.
pub struct MouseDevice {
    pub user_input_device_impl: DLUserInputDeviceImpl,
    /// Result of DirectX 8 `GetDeviceState`.
    pub mouse_state: DIMouseState2,
    /// Horizontal mouse movement, as the bit pattern of its `f32` value.
    pub normalized_lx: u32,
    /// Vertical mouse movement, as the bit pattern of its `f32` value.
    pub normalized_ly: u32,
    /// Scroll mouse movement, as the bit pattern of its `f32` value.
    pub normalized_lz: u32,
}

/// An XInput game pad.
pub struct PadDevice {
    pub user_input_device_impl: DLUserInputDeviceImpl,
    /// `wButtons` of `XInputGetState()`.
    pub w_buttons: WButtons,
    /// Index of the user's controller, from 0 to 3.
    pub dw_user_index: i32,
    /// Left stick x, as the bit pattern of its `f32` value.
    pub s_thumb_lx: u32,
    /// Left stick y, as the bit pattern of its `f32` value.
    pub s_thumb_ly: u32,
    /// Right stick x, as the bit pattern of its `f32` value.
    pub s_thumb_rx: u32,
    /// Right stick y, as the bit pattern of its `f32` value.
    pub s_thumb_ry: u32,
    /// Left trigger, as the bit pattern of its `f32` value.
    pub b_left_trigger: u32,
    /// Right trigger, as the bit pattern of its `f32` value.
    pub b_right_trigger: u32,
}

/// The device that merges the pad, mouse and keyboard devices.
pub struct VirtualMultiDevice {
    pub user_input_device_impl: DLUserInputDeviceImpl,
    /// Addresses of the pad, mouse and keyboard devices it merges.
    device_list: Vec<u64>,
}

/// A device that reports no input.
pub struct DummyDevice {
    user_input_device_impl: DLUserInputDeviceImpl,
}

/// The fallback states of the multi-device.
#[allow(non_camel_case_types)]
pub struct MultiDevices_0x78 {
    pub bitset_fallback: [bool; 162],
}

/// The set of input devices of the game; devices are referred to by address.
pub struct MultiDevices {
    pub virtual_multi_device: u64,
    pub pad_devices: [u64; 4],
    pub mouse_device: u64,
    pub keyboard_device: u64,
    pub unk78: MultiDevices_0x78,
}

} // verus!
