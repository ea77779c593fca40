//! The control state of a morphing second-order filter effect: which
//! parameters exist, what range each one lives in, how a whole snapshot is
//! stored and read back, and how the words that encode the values are ordered.
//!
//! Parameter values are single-precision numbers. They are held here as their
//! 32-bit IEEE-754 encodings, so that every rule about them is a statement
//! about integers.

pub mod array;
pub mod bank;
pub mod filter_type;
pub mod parameter;
pub mod parameters;
pub mod word;
