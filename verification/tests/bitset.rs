use fromsoftware::dluid::bitset::DynamicBitset;

#[test]
fn zeroed_bitset_has_every_bit_clear() {
    let b = DynamicBitset::from_words(vec![0, 0, 0]);
    assert_eq!(b.len(), 3);
    for i in 0..96 {
        assert!(!b.get(i));
    }
}

#[test]
fn bit_lives_in_word_index_div_32_at_index_mod_32() {
    let b = DynamicBitset::from_words(vec![0, 0b10]);
    assert!(b.get(33));
    assert!(!b.get(1));
    assert!(!b.get(32));
}

#[test]
fn set_then_get_gives_back_the_state() {
    let mut b = DynamicBitset::from_words(vec![0, 0]);
    b.set(37, true);
    assert!(b.get(37));
    assert_eq!(b.as_slice(), &[0, 1 << 5]);
    b.set(37, false);
    assert!(!b.get(37));
    assert_eq!(b.as_slice(), &[0, 0]);
}

#[test]
fn set_leaves_other_bits_alone() {
    let mut b = DynamicBitset::from_words(vec![0xFFFF_FFFF, 0x1234_5678]);
    b.set(31, false);
    assert_eq!(b.as_slice(), &[0x7FFF_FFFF, 0x1234_5678]);
    b.set(0, false);
    assert_eq!(b.as_slice(), &[0x7FFF_FFFE, 0x1234_5678]);
    b.set(63, true);
    assert_eq!(b.as_slice(), &[0x7FFF_FFFE, 0x9234_5678]);
}

#[test]
fn writing_the_current_state_changes_nothing() {
    let mut b = DynamicBitset::from_words(vec![0xDEAD_BEEF]);
    for i in 0..32 {
        let s = b.get(i);
        b.set(i, s);
    }
    assert_eq!(b.as_slice(), &[0xDEAD_BEEF]);
}

#[test]
fn last_write_wins_and_writes_commute() {
    let mut a = DynamicBitset::from_words(vec![0, 0]);
    a.set(5, true);
    a.set(5, false);
    a.set(40, true);
    let mut b = DynamicBitset::from_words(vec![0, 0]);
    b.set(40, true);
    b.set(5, false);
    assert_eq!(a.as_slice(), b.as_slice());
}

#[test]
fn as_slice_mut_writes_through() {
    let mut b = DynamicBitset::from_words(vec![0, 0]);
    b.as_slice_mut()[1] = 0x8000_0000;
    assert!(b.get(63));
    assert_eq!(b.len(), 2);
}
