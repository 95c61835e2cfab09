//! The two formulations of the SHR3 transition.
pub mod avr;
pub mod generic;
