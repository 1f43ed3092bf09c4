use fromsoftware::dluid::bitset::DynamicBitset;
use fromsoftware::dluid::virtual_input::{
    DLUserInputDeviceImpl, DLVirtualAnalogKeyInfo, DLVirtualInputData, DLuserInputDeviceImpl0x138,
    DLuserInputDeviceImpl0x138Entry,
};

fn input_data(analog: Vec<f32>, words: Vec<u32>) -> DLVirtualInputData {
    DLVirtualInputData {
        analog_key_info: DLVirtualAnalogKeyInfo {
            vector: analog.into_iter().map(f32::to_bits).collect(),
        },
        dynamic_bitset: DynamicBitset::from_words(words),
    }
}

fn device(analog: Vec<f32>, words: Vec<u32>) -> DLUserInputDeviceImpl {
    let entry = DLuserInputDeviceImpl0x138Entry {
        virtual_input_data: 0,
        counter_reference: 0,
        performance_counter: 0,
    };
    DLUserInputDeviceImpl {
        virtual_input_data: input_data(analog, words),
        analog_positive_axis: DLVirtualAnalogKeyInfo { vector: vec![] },
        analog_negative_axis: DLVirtualAnalogKeyInfo { vector: vec![] },
        unk138: DLuserInputDeviceImpl0x138 {
            entries: [entry; 64],
            index: 0,
            counter: 0,
            counter_reference: 0,
        },
        initial_virtual_input_data: input_data(vec![9.5], vec![7]),
    }
}

#[test]
fn get_analog_in_range_reads_the_value() {
    let d = input_data(vec![0.25, -1.5], vec![0]);
    assert_eq!(f32::from_bits(d.get_analog(0)), 0.25);
    assert_eq!(f32::from_bits(d.get_analog(1)), -1.5);
}

#[test]
fn get_analog_past_the_end_is_zero() {
    let d = input_data(vec![0.25], vec![0]);
    assert_eq!(d.get_analog(1), 0);
    assert_eq!(f32::from_bits(d.get_analog(100)), 0.0);
}

#[test]
fn set_analog_then_get_gives_back_the_value() {
    let mut d = input_data(vec![0.0, 0.0], vec![0]);
    d.set_analog(1, 3.75f32.to_bits());
    assert_eq!(f32::from_bits(d.get_analog(1)), 3.75);
    assert_eq!(f32::from_bits(d.get_analog(0)), 0.0);
}

#[test]
fn set_analog_past_the_end_does_nothing() {
    let mut d = input_data(vec![1.0], vec![0]);
    d.set_analog(1, 2.0f32.to_bits());
    assert_eq!(d.analog_key_info.vector, vec![1.0f32.to_bits()]);
    assert_eq!(d.get_analog(1), 0);
}

#[test]
fn digital_round_trip() {
    let mut d = input_data(vec![], vec![0, 0]);
    d.set_digital(14, true);
    assert!(d.get_digital(14));
    assert!(!d.get_digital(15));
    assert_eq!(d.dynamic_bitset.as_slice(), &[1 << 14, 0]);
    d.set_digital(14, false);
    assert!(!d.get_digital(14));
}

#[test]
fn device_state_goes_to_the_polled_input_data_only() {
    let mut dev = device(vec![0.0, 0.0], vec![0]);
    dev.set_virtual_analog_state(0, 0.5f32.to_bits());
    dev.set_virtual_digital_state(3, true);
    assert_eq!(f32::from_bits(dev.get_virtual_analog_state(0)), 0.5);
    assert_eq!(dev.get_virtual_analog_state(5), 0);
    assert!(dev.get_virtual_digital_state(3));
    assert!(!dev.get_virtual_digital_state(2));
    assert_eq!(dev.initial_virtual_input_data.dynamic_bitset.as_slice(), &[7]);
    assert_eq!(
        dev.initial_virtual_input_data.analog_key_info.vector,
        vec![9.5f32.to_bits()]
    );
}
