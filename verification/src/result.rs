//! The error taxonomy of the vault core.  Every operation returns success or
//! one of these tags; no failure mutates state and none is swallowed.

use vstd::prelude::*;

verus! {

/// A tagged failure of a vault-core operation.
#[derive(Clone, Copy, Debug, PartialEq, Eq, Structural)]
pub enum VaultCoreError {
    /// A deposit's multiplication, addition or supply increment would exceed
    /// the integer width.
    DepositOverflow,
    /// A deposit would push the custodied total above the configured
    /// capacity.
    DepositExceedsCapacity,
    /// A fee calculation's multiplication would exceed the integer width.
    FeeCalculationOverflow,
    /// The buffer is empty where a record was expected.
    UninitializedState,
    /// The buffer's declared custodian differs from the expected authority.
    OwnershipMismatch,
    /// The bytes do not decode to the fixed record layout.
    MalformedEncoding,
    /// The decoded discriminant is not the vault record kind.
    StructurallyInvalid,
    /// The recomputed canonical address disagrees with the address the
    /// buffer was read from.
    AddressMismatch,
    /// A write was requested on a buffer not flagged mutable.
    WritabilityViolation,
}

/// The result type of every fallible vault-core operation.
pub type VaultCoreResult<T> = Result<T, VaultCoreError>;

} // verus!
