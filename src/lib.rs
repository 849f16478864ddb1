//! Decoders for the collision-geometry formats of a 3D game engine and for their
//! attribute tables, with the bitfield schema that gives attribute records their meaning.
//!
//! Every decoder works on a fully buffered file and returns a typed error on malformed
//! input; floats are kept as their IEEE-754 bit patterns.
pub mod bytes;
pub mod dzb;
pub mod error;
pub mod fields;
pub mod kcl;
pub mod octree;
pub mod plc;

pub use dzb::DZB;
pub use error::DecodeError;
pub use kcl::KCL;
pub use plc::{PLCEntry, PLC};
