//! Constants and data types of the codec.

pub mod constants;
pub mod enums;
pub mod structs;
pub mod typedefs;
