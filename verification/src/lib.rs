//! Accounting and trust-validation core for a custodial pooled-asset vault.
//!
//! A [`vault::Vault`] record tracks the identity, configuration and
//! accounting counters of one vault: it accepts deposits of a base asset and
//! issues a proportional claim ("receipt") token against the pool, enforcing
//! capacity, fee and overflow rules on every transition.  The
//! [`sanitized::SanitizedVault`] loader authenticates an untrusted byte
//! buffer (ownership, structural validity, derived address) before handing
//! back a mutable, save-able handle on the decoded record.

use vstd::prelude::*;

pub mod account;
pub mod encoding;
pub mod key;
pub mod pda;
pub mod result;
pub mod sanitized;
pub mod vault;

verus! {

/// Discriminant stored in the first byte of every record, telling the record
/// kinds that share the same storage space apart.
#[derive(Clone, Copy, Debug, PartialEq, Eq, Structural)]
pub enum AccountType {
    /// The global configuration record.
    Config,
    /// A vault record.
    Vault,
}

} // verus!
