//! A lock predicate that lets a resource be spent only by its owner and,
//! optionally, only once a point in time has passed.
//!
//! The stages are kept apart so that a host can run the cheap ones first:
//! the lock arguments are decoded ([`args`]), the time condition is checked
//! against header timestamps ([`time_gate`]), the signing digest is built
//! from the transaction hash and its witnesses ([`digest`]), and the key-hash
//! recovered from the signature is compared with the owner's ([`verify`]).
mod error;
pub mod args;
pub mod time_gate;
pub mod digest;
pub mod verify;

pub use error::Error;
