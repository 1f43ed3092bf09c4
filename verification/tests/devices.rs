use fromsoftware::dluid::bitset::DynamicBitset;
use fromsoftware::dluid::devices::{DIMouseButton, DIMouseState2, KeyboardDevice, WButtons};
use fromsoftware::dluid::di_key::DIKey;
use fromsoftware::dluid::virtual_input::{
    DLUserInputDeviceImpl, DLVirtualAnalogKeyInfo, DLVirtualInputData, DLuserInputDeviceImpl0x138,
    DLuserInputDeviceImpl0x138Entry,
};

fn empty_input() -> DLVirtualInputData {
    DLVirtualInputData {
        analog_key_info: DLVirtualAnalogKeyInfo { vector: vec![] },
        dynamic_bitset: DynamicBitset::from_words(vec![]),
    }
}

fn empty_device() -> DLUserInputDeviceImpl {
    let entry = DLuserInputDeviceImpl0x138Entry {
        virtual_input_data: 0,
        counter_reference: 0,
        performance_counter: 0,
    };
    DLUserInputDeviceImpl {
        virtual_input_data: empty_input(),
        analog_positive_axis: DLVirtualAnalogKeyInfo { vector: vec![] },
        analog_negative_axis: DLVirtualAnalogKeyInfo { vector: vec![] },
        unk138: DLuserInputDeviceImpl0x138 {
            entries: [entry; 64],
            index: 0,
            counter: 0,
            counter_reference: 0,
        },
        initial_virtual_input_data: empty_input(),
    }
}

#[test]
fn mouse_button_pressed_reads_the_high_bit() {
    let state = DIMouseState2 {
        lx: 3,
        ly: -2,
        lz: 120,
        buttons: [0x80, 0x7F, 0xFF, 0, 0, 0, 0, 0x81],
    };
    assert!(state.pressed(DIMouseButton::Left));
    assert!(!state.pressed(DIMouseButton::Right));
    assert!(state.pressed(DIMouseButton::Middle));
    assert!(!state.pressed(DIMouseButton::Button4));
    assert!(state.pressed(DIMouseButton::Button8));
    assert!(state.pressed(7usize));
    assert!(!state.pressed(1usize));
}

#[test]
fn mouse_button_indices() {
    let all = [
        DIMouseButton::Left,
        DIMouseButton::Right,
        DIMouseButton::Middle,
        DIMouseButton::Button4,
        DIMouseButton::Button5,
        DIMouseButton::Button6,
        DIMouseButton::Button7,
        DIMouseButton::Button8,
    ];
    for (i, b) in all.into_iter().enumerate() {
        assert_eq!(usize::from(b), i);
    }
}

#[test]
fn keyboard_pressed_by_scan_code() {
    let mut state = [0u8; 256];
    state[0x39] = 0x80;
    state[0xED] = 0x80;
    state[0x01] = 0x7F;
    let kb = KeyboardDevice { user_input_device_impl: empty_device(), di_kb_state: state };
    assert!(kb.pressed(DIKey::SPACE));
    assert!(kb.pressed(DIKey::MEDIASELECT));
    assert!(!kb.pressed(DIKey::ESCAPE));
    assert!(!kb.pressed(DIKey::_W));
    assert!(kb.pressed(0x39usize));
}

#[test]
fn key_codes() {
    assert_eq!(usize::from(DIKey::ESCAPE), 0x01);
    assert_eq!(usize::from(DIKey::_1), 0x02);
    assert_eq!(usize::from(DIKey::_0), 0x0B);
    assert_eq!(usize::from(DIKey::_W), 0x11);
    assert_eq!(usize::from(DIKey::OEM_102), 0x56);
    assert_eq!(usize::from(DIKey::NUMPADENTER), 0x9C);
    assert_eq!(usize::from(DIKey::DELETE), 0xD3);
    assert_eq!(usize::from(DIKey::MEDIASELECT), 0xED);
}

#[test]
fn button_word_accessors_read_their_bits() {
    let w = WButtons(0b1010_0000_0101_0101);
    assert!(w.dpad_up());
    assert!(!w.dpad_down());
    assert!(w.dpad_left());
    assert!(!w.dpad_right());
    assert!(w.start());
    assert!(!w.back());
    assert!(w.left_thumb());
    assert!(!w.right_thumb());
    assert!(!w.left_shoulder());
    assert!(!w.right_shoulder());
    assert!(!w.button_a());
    assert!(w.button_b());
    assert!(!w.button_x());
    assert!(w.button_y());
}

#[test]
fn button_word_setters_change_their_bit_only() {
    let mut w = WButtons(0);
    w.set_a(true);
    assert_eq!(w.0, 1 << 12);
    assert!(w.button_a());
    w.set_right_shoulder(true);
    assert_eq!(w.0, (1 << 12) | (1 << 9));
    w.set_a(false);
    assert_eq!(w.0, 1 << 9);
    let mut all = WButtons(0xFFFF);
    all.set_dpad_up(false);
    all.set_y(false);
    assert_eq!(all.0, 0x7FFE);
    all.set_dpad_down(true);
    assert_eq!(all.0, 0x7FFE);
    assert!(!all.dpad_up());
    assert!(all.dpad_down());
    all.set_dpad_left(false);
    all.set_dpad_right(false);
    all.set_start(false);
    all.set_back(false);
    all.set_left_thumb(false);
    all.set_right_thumb(false);
    all.set_left_shoulder(false);
    all.set_right_shoulder(false);
    all.set_b(false);
    all.set_x(false);
    assert_eq!(all.0, 0b0001_1100_0000_0010);
}
