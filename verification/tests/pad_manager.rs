use fromsoftware::fd4::pad_manager::{ActionInput, FD4PadManager, GamePadNode};

fn manager(keys: &[u64]) -> FD4PadManager {
    FD4PadManager {
        game_pad_tree: keys
            .iter()
            .enumerate()
            .map(|(i, &k)| GamePadNode { unk1: k, pad: 0x1000 + i as u64, saturated: false })
            .collect(),
    }
}

#[test]
fn lookup_picks_last_node_at_most_va() {
    let mut m = manager(&[10, 20, 30, 40]);
    assert_eq!(m.get_cs_pad(Some(35)), Some(0x1002));
    let sat: Vec<bool> = m.game_pad_tree.iter().map(|n| n.saturated).collect();
    assert_eq!(sat, vec![false, false, true, false]);
}

#[test]
fn lookup_stops_at_the_first_larger_key() {
    let mut m = manager(&[10, 50, 20]);
    assert_eq!(m.get_cs_pad(Some(30)), Some(0x1000));
    assert!(m.game_pad_tree[0].saturated);
    assert!(!m.game_pad_tree[2].saturated);
}

#[test]
fn lookup_with_equal_key_picks_it() {
    let mut m = manager(&[10, 20]);
    assert_eq!(m.get_cs_pad(Some(20)), Some(0x1001));
}

#[test]
fn lookup_finds_nothing_below_the_first_key() {
    let mut m = manager(&[10, 20]);
    assert_eq!(m.get_cs_pad(Some(9)), None);
    assert!(m.game_pad_tree.iter().all(|n| !n.saturated));
}

#[test]
fn lookup_in_empty_tree_finds_nothing() {
    let mut m = manager(&[]);
    assert_eq!(m.get_cs_pad(Some(u64::MAX)), None);
}

#[test]
fn lookup_without_address_finds_nothing() {
    let mut m = manager(&[0]);
    assert_eq!(m.get_cs_pad(None), None);
    assert!(!m.game_pad_tree[0].saturated);
}

#[test]
fn repeated_lookup_gives_the_same_pad() {
    let mut m = manager(&[1, 2, 3]);
    let first = m.get_cs_pad(Some(2));
    let sat: Vec<bool> = m.game_pad_tree.iter().map(|n| n.saturated).collect();
    let second = m.get_cs_pad(Some(2));
    let sat2: Vec<bool> = m.game_pad_tree.iter().map(|n| n.saturated).collect();
    assert_eq!(first, Some(0x1001));
    assert_eq!(first, second);
    assert_eq!(sat, sat2);
}

#[test]
fn action_input_codes() {
    assert_eq!(i32::from(ActionInput::Attack), 7);
    assert_eq!(i32::from(ActionInput::StrongAttack), 8);
    assert_eq!(i32::from(ActionInput::Guard), 9);
    assert_eq!(i32::from(ActionInput::Skill), 10);
    assert_eq!(i32::from(ActionInput::BackstepHeld), 12);
    assert_eq!(i32::from(ActionInput::BackstepTapped), 13);
    assert_eq!(i32::from(ActionInput::Jump), 14);
    assert_eq!(i32::from(ActionInput::UseItem), 15);
    assert_eq!(i32::from(ActionInput::CameraReset), 20);
    assert_eq!(i32::from(ActionInput::Crouch), 21);
    assert_eq!(i32::from(ActionInput::LockOn), 26);
}
