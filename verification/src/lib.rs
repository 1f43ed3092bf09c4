//! Verified models of the input-handling structures of FromSoftware games
//! (Elden Ring, Dark Souls III, Sekiro): dynamic bitsets, virtual input data,
//! DirectInput device states, XInput button words and the pad manager lookup.
pub mod cs;
pub mod dluid;
pub mod ds3;
pub mod fd4;
pub mod stl;
