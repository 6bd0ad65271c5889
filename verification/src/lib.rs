//! A single-beneficiary token vesting ledger.
//!
//! One grant of a fungible asset is released linearly to a recipient over a
//! fixed window, gated by a cliff, and may be revoked early by the owner.
//! The ledger itself only decides and keeps books: every call is handed the
//! caller's identity, the current block timestamp and the attached deposit by
//! the hosting platform, and every token movement is returned to the host as
//! an explicit [`transfer::TransferRequest`] to perform.
//!
//! Two schedule flavours are provided: [`monthly`] releases in whole-month
//! buckets, [`linear`] releases continuously, nanosecond by nanosecond.

pub mod errors;
pub mod linear;
pub mod monthly;
pub mod transfer;
pub mod utils;
