use vstd::prelude::*;

use crate::dluid::bitset::DynamicBitset;

verus! {

/// Analog key values of a device.
///
/// The game stores `f32` values here; the models of this crate hold each
/// value as its IEEE-754 single-precision bit pattern (`f32::to_bits`).
pub struct DLVirtualAnalogKeyInfo<T> {
    pub vector: Vec<T>,
}

/// The analog and digital input state of a device.
pub struct DLVirtualInputData {
    /// Movement inputs such as mouse, stick and character movement keys, each
    /// held as the bit pattern of its `f32` value.
    pub analog_key_info: DLVirtualAnalogKeyInfo<u32>,
    /// Action inputs such as jump, crouch and attacks.
    pub dynamic_bitset: DynamicBitset,
}

/// The analog value at `index`, or the bit pattern of `0.0` (which is `0`)
/// where `index` lies past the end of `values`.
pub open spec fn analog_value(values: Seq<u32>, index: int) -> u32 {
    if 0 <= index < values.len() {
        values[index]
    } else {
        0
    }
}

impl DLVirtualInputData {
    /// The analog value at `index`; `0.0` where there is none.
    pub fn get_analog(&self, index: usize) -> (v: u32)
        ensures
            v == analog_value(self.analog_key_info.vector@, index as int),
    {
        let vector = &self.analog_key_info.vector;
        if index < vector.len() {
            let items = self.analog_key_info.vector.as_slice();
            return items[index];
        }
        0
    }

    /// Writes the analog value at `index`; does nothing where `index` lies
    /// past the end of the values.
    pub fn set_analog(&mut self, index: usize, state: u32)
        ensures
            final(self).analog_key_info.vector@ == if index < old(
                self,
            ).analog_key_info.vector@.len() {
                old(self).analog_key_info.vector@.update(index as int, state)
            } else {
                old(self).analog_key_info.vector@
            },
            final(self).dynamic_bitset == old(self).dynamic_bitset,
    {
        let vector = &mut self.analog_key_info.vector;
        if index < vector.len() {
            let items = vector.as_mut_slice();
            items[index] = state;
        }
    }

    /// The state of digital input `index`.
    pub fn get_digital(&self, index: usize) -> (b: bool)
        requires
            index < 32 * self.dynamic_bitset.words().len(),
        ensures
            b == self.dynamic_bitset@[index as int],
    {
        self.dynamic_bitset.get(index)
    }

    /// Sets digital input `index` to `state`.
    pub fn set_digital(&mut self, index: usize, state: bool)
        requires
            index < 32 * old(self).dynamic_bitset.words().len(),
        ensures
            final(self).dynamic_bitset@ == old(self).dynamic_bitset@.update(index as int, state),
            final(self).dynamic_bitset.words().len() == old(self).dynamic_bitset.words().len(),
            final(self).analog_key_info.vector@ == old(self).analog_key_info.vector@,
    {
        self.dynamic_bitset.set(index, state);
    }
}

/// One slot of the ring of input snapshots kept by a device.
#[derive(Clone, Copy)]
pub struct DLuserInputDeviceImpl0x138Entry {
    /// Address of the [DLVirtualInputData] this slot refers to.
    pub virtual_input_data: u64,
    /// Value of the device's counter when this slot was written.
    pub counter_reference: u64,
    /// Result of Windows `QueryPerformanceCounter`.
    pub performance_counter: usize,
}

/// The ring of input snapshots kept by a device.
pub struct DLuserInputDeviceImpl0x138 {
    pub entries: [DLuserInputDeviceImpl0x138Entry; 64],
    /// Index the game will use to update from an entry.
    pub index: usize,
    /// Counter that gets incremented.
    pub counter: u64,
    /// Copied over from `counter`.
    pub counter_reference: u64,
}

/// A user input device (pad, mouse, keyboard or the virtual multi-device).
pub struct DLUserInputDeviceImpl {
    /// The input data the pad manager polls.
    pub virtual_input_data: DLVirtualInputData,
    /// Positive axis values, as `f32` bit patterns.
    pub analog_positive_axis: DLVirtualAnalogKeyInfo<u32>,
    /// Negative axis values, as `f32` bit patterns.
    pub analog_negative_axis: DLVirtualAnalogKeyInfo<u32>,
    pub unk138: DLuserInputDeviceImpl0x138,
    /// The input data that gets copied over to `virtual_input_data`.
    pub initial_virtual_input_data: DLVirtualInputData,
}

impl DLUserInputDeviceImpl {
    /// The analog value at `index` of the polled input data; `0.0` where
    /// there is none.
    pub fn get_virtual_analog_state(&self, index: usize) -> (v: u32)
        ensures
            v == analog_value(self.virtual_input_data.analog_key_info.vector@, index as int),
    {
        self.virtual_input_data.get_analog(index)
    }

    /// Writes the analog value at `index` of the polled input data; does
    /// nothing where `index` lies past its end.
    pub fn set_virtual_analog_state(&mut self, index: usize, state: u32)
        ensures
            final(self).virtual_input_data.analog_key_info.vector@ == if index < old(
                self,
            ).virtual_input_data.analog_key_info.vector@.len() {
                old(self).virtual_input_data.analog_key_info.vector@.update(index as int, state)
            } else {
                old(self).virtual_input_data.analog_key_info.vector@
            },
            final(self).virtual_input_data.dynamic_bitset == old(
                self,
            ).virtual_input_data.dynamic_bitset,
            final(self).analog_positive_axis == old(self).analog_positive_axis,
            final(self).analog_negative_axis == old(self).analog_negative_axis,
            final(self).unk138 == old(self).unk138,
            final(self).initial_virtual_input_data == old(self).initial_virtual_input_data,
    {
        self.virtual_input_data.set_analog(index, state)
    }

    /// The state of digital input `index` of the polled input data.
    pub fn get_virtual_digital_state(&self, index: usize) -> (b: bool)
        requires
            index < 32 * self.virtual_input_data.dynamic_bitset.words().len(),
        ensures
            b == self.virtual_input_data.dynamic_bitset@[index as int],
    {
        self.virtual_input_data.get_digital(index)
    }

    /// Sets digital input `index` of the polled input data to `state`.
    pub fn set_virtual_digital_state(&mut self, index: usize, state: bool)
        requires
            index < 32 * old(self).virtual_input_data.dynamic_bitset.words().len(),
        ensures
            final(self).virtual_input_data.dynamic_bitset@ == old(
                self,
            ).virtual_input_data.dynamic_bitset@.update(index as int, state),
            final(self).virtual_input_data.dynamic_bitset.words().len() == old(
                self,
            ).virtual_input_data.dynamic_bitset.words().len(),
            final(self).virtual_input_data.analog_key_info.vector@ == old(
                self,
            ).virtual_input_data.analog_key_info.vector@,
            final(self).analog_positive_axis == old(self).analog_positive_axis,
            final(self).analog_negative_axis == old(self).analog_negative_axis,
            final(self).unk138 == old(self).unk138,
            final(self).initial_virtual_input_data == old(self).initial_virtual_input_data,
    {
        self.virtual_input_data.set_digital(index, state)
    }
}

/// An analog value reads back as written where its index is in range; a
/// write past the end changes nothing, and reading there gives `0.0`.
pub proof fn lemma_analog_get_after_set(values: Seq<u32>, index: usize, state: u32, other: usize)
    ensures
        index < values.len() ==> analog_value(values.update(index as int, state), index as int)
            == state,
        index < values.len() && other != index ==> analog_value(
            values.update(index as int, state),
            other as int,
        ) == analog_value(values, other as int),
        index >= values.len() ==> analog_value(values, index as int) == 0,
{
}

} // verus!
