//! The library's plain-value picture of a ledger account buffer.

use vstd::prelude::*;

use crate::key::Key;

verus! {

/// What the loader reads of an externally supplied account: the address the
/// buffer was read from, the program that the storage system records as its
/// custodian, its writability flag, and the raw data bytes.
pub struct AccountView {
    /// The address the buffer was read from.
    pub key: Key,
    /// The buffer's declared custodian.
    pub owner: Key,
    /// Whether the surrounding storage system flags the buffer mutable.
    pub is_writable: bool,
    /// The raw record bytes.
    pub data: Vec<u8>,
}

} // verus!
