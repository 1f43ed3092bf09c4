use vstd::prelude::*;

verus! {

/// The Havok physics manager (source of name: RTTI).
pub struct CSHavokMan {
    pub phys_world: Box<CSPhysWorld>,
}

/// The Havok physics world (source of name: RTTI).
pub struct CSPhysWorld {}

/// The user configuration (source of name: RTTI).
pub struct UserConfig {
    /// The debug properties, as UTF-16 key and value strings, in map order.
    pub debug_property_map: Vec<(Vec<u16>, Vec<u16>)>,
}

} // verus!
