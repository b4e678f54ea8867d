//! A morse-code keying trainer's core: a circular buffer of key samples, the
//! morse alphabet, the timing state machine that turns ticks into letters, and
//! the decisions of the actors that drive it.

pub mod engine;
pub mod menu;
pub mod morse;
pub mod pipeline;
pub mod ring;
mod text;

pub use morse::{decode_symbols, encode_character};
