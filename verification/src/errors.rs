use vstd::prelude::*;

verus! {

/// Reason codes for rejected vesting operations.
///
/// Every mutating or querying operation that can fail returns one of these;
/// a failed operation leaves the grant record unchanged.
#[derive(Clone, Copy, Debug, PartialEq, Eq, Structural)]
pub enum VestingError {
    /// The cliff/duration/start constraints were violated at creation.
    InvalidSchedule,
    /// The ledger slot already holds an initialized grant.
    AlreadyInitialized,
    /// The caller is not the identity the operation demands, or a privileged
    /// call arrived without its explicit confirmation deposit.
    Unauthorized,
    /// The grant was already revoked and is permanently inactive.
    GrantInactive,
    /// Revocation was attempted on a grant created as non-revocable.
    NotRevocable,
    /// A claim was attempted while the releasable amount is zero.
    NothingToClaim,
    /// A checked arithmetic operation overflowed or underflowed.
    ArithmeticOverflow,
    /// A sweep was attempted while the grant is still active.
    GrantStillActive,
}

} // verus!
