//! The `DLUID` user-input device layer.
pub mod bitset;
pub mod virtual_input;
pub mod di_key;
pub mod devices;
pub mod converter;
