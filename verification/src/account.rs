//! A snapshot of one persisted account, as the runtime hands it to the
//! library: its address, its owning program, and its raw data bytes.
//!
//! The library never reads storage itself; the caller resolves an account
//! and passes this plain-value snapshot in.

use vstd::prelude::*;

verus! {

/// One account's address, owner and data, read at the start of an operation.
#[derive(Debug)]
pub struct RawAccount {
    /// Address of the account itself.
    pub key: [u8; 32],
    /// Program that owns the account.
    pub owner: [u8; 32],
    /// The account's raw data.
    pub data: Vec<u8>,
}

} // verus!
