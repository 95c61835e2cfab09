//! The generator and its operations, for a glob import.
pub use crate::Shr3;
pub use crate::Shr3Ops as _;
