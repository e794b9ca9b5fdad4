//! Instruction dispatcher for a fungible-token program.
//!
//! The library receives the positional account list and the raw instruction
//! bytes that the host runtime hands to the program, validates the
//! operation-independent preconditions (delegate-program identity, signer
//! authority, rent exemption), decodes the operation selector and its
//! arguments, and constructs the call that is forwarded to the external
//! token engine.  Every decision the dispatcher makes is specified and
//! verified; the engine's own instruction builders and rent arithmetic are
//! reached through a small set of trusted wrappers.

pub mod account;
pub mod dispatch;
pub mod engine;
pub mod error;
pub mod laws;
pub mod operation;
pub mod rent;
