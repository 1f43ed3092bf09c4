use vstd::prelude::*;

verus! {

/// One entry of the key assignment's index vector.
pub struct Unk18VectorItem {
    /// Key referenced inside `virtual_input_data_index_map`.
    pub key: i32,
    /// Value referenced inside `virtual_input_data_index_map`.
    pub value: i32,
    pub unk8: i32,
    pub unkc: i32,
    pub unk10: i32,
}

/// The base of the game's key assignments.
pub struct FD4BaseKeyAssign {
    /// Address of the class's virtual function table.
    pub vftable: u64,
    virtual_input_data_index_vector: Vec<Unk18VectorItem>,
    /// Maps the result of the input type group to an index into the
    /// `DLVirtualInputData`, as (key, value) pairs in map order.
    pub virtual_input_data_index_map: Vec<(i32, i32)>,
    /// Mouse button states, as (key, value) pairs in map order.
    pub mouse_button_states_map: Vec<(i32, i32)>,
}

} // verus!
