//! A fast atomic type for 8-bit values on 8-bit microcontrollers.
//!
//! A cell holds one byte. Values of any type that implements
//! [`AvrAtomicConvert`] are stored in it by encoding them to a byte and read
//! back by decoding the byte.
mod cell;
mod convert;
mod primitive;

pub use cell::AvrAtomic;
pub use convert::{lemma_round_trip_built_in, lemma_zero_decodes_to_default, AvrAtomicConvert};
