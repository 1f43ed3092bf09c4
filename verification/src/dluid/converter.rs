use vstd::prelude::*;

verus! {

/// Base class of the modifiers and converters of user input.
pub struct UserInputExtension {}

/// A [UserInputExtension] that modifies physical analog input.
pub struct DLUserInputPhysicalAnalogModifier {}

/// A [UserInputExtension] that converts physical input to virtual input.
pub struct DLUserInputDirectConverter {
    unk08: Vec<usize>,
    unk28: Vec<usize>,
}

} // verus!
