//! Key handling, instruction building and message signing for a ledger
//! gateway: the validation and encoding rules behind its request handlers.

pub mod codec;
pub mod envelope;
pub mod error;
pub mod handlers;
pub mod instruction;
pub mod signing;
