//! The `FD4` framework layer: pad manager and key assignment.
pub mod base_key_assign;
pub mod pad_manager;
