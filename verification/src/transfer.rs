use vstd::prelude::*;

verus! {

/// One outbound request to the token transfer service: move `amount` of the
/// fungible asset held by the contract at `token` to `receiver`.
///
/// The request is fire-and-forget: issuing it says nothing about whether the
/// transfer eventually succeeds, and the ledger never learns the outcome
/// within the call that issued it.
#[derive(Debug)]
pub struct TransferRequest {
    /// Account of the fungible-token contract that holds the balance.
    pub token: String,
    /// Account the tokens are sent to.
    pub receiver: String,
    /// Quantity of tokens to move.
    pub amount: u128,
    /// Optional human-readable note attached to the transfer.
    pub memo: Option<String>,
}

/// The pair of outbound transfer requests a revocation issues, together with
/// the acknowledged split of the remaining balance.
#[derive(Debug)]
pub struct RevokeOutcome {
    /// Vested-but-unclaimed tokens, owed to the grant's recipient.
    pub payout: TransferRequest,
    /// Unvested tokens, returned to the owner (or a designated address);
    /// its `amount` is the value the revocation acknowledges to the caller.
    pub refund: TransferRequest,
}

} // verus!
