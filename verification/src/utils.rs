use vstd::prelude::*;

verus! {

/// Nanoseconds in one mean Gregorian month: 30 days, 10 hours, 29 minutes
/// and 6 seconds. The month-bucketed schedule releases one share per such
/// month.
pub const ONE_MONTH: u64 = 2629746000000000;

/// Interface of the external fungible-token ledger that actually holds the
/// balances. The ledger is an external collaborator: this crate only builds
/// [`crate::transfer::TransferRequest`] values describing the calls the host
/// should make against an implementation of this interface.
pub trait FungibleToken {
    /// Move `amount` of the token to `receiver_id`, with an optional memo.
    fn ft_transfer(&mut self, receiver_id: String, amount: u128, memo: Option<String>);

    /// Query the balance held by `account_id`.
    fn ft_balance_of(&self, account_id: String);
}

/// Interface through which the host delivers the completion signal of a
/// revocation's outbound transfers back to the vesting ledger.
pub trait Vesting {
    /// Finalize a revocation once its transfer requests have been issued.
    fn callback_revoke(&mut self);
}

} // verus!
