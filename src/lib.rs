//! Decoding, validation and in-place increment of a persisted 64-bit counter
//! held in the single account of a program invocation's input buffer.

pub mod account;
pub mod cursor;
pub mod error;
mod host;
pub mod laws;
pub mod layout;
pub mod processor;

pub use account::{decode_account, decode_header, decode_instruction, AccountDescriptor, InstructionContext};
pub use cursor::Cursor;
pub use error::CounterError;
pub use processor::{decode_counter, entrypoint, increment, process};
