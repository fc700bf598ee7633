//! Decoder for 32-bit ARM (ARMv5-class) machine words.
//!
//! A 32-bit word is classified by its condition field and major opcode
//! group, then decoded into a fully typed instruction value; reserved
//! bits that must be zero make decoding fail rather than guess.  The
//! decode of a word is a pure function of the word: no state is kept
//! across words.

pub mod arithmetic;
pub mod bitfield;
pub mod branch;
pub mod coprocessor;
pub mod dataprocessing;
pub mod dsi;
pub mod encodings;
pub mod errors;
pub mod exception;
pub mod instruction;
pub mod loadstore;
pub mod multiply;
pub mod operands;
pub mod parser;
pub mod register_access;
pub mod semaphore;
pub mod unconditional;
