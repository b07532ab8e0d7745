use vstd::prelude::*;
use crate::identity::Identity;

verus! {

/// One event in a campaign's audit trail: a donation credited to it or a
/// withdrawal debited from it. It is written once and never changed.
#[derive(Clone, Copy, Debug, PartialEq, Eq)]
pub struct Transaction {
    /// The campaign that the event belongs to.
    pub cid: u64,
    /// The donor, or the creator who withdrew.
    pub owner: Identity,
    /// The amount donated, or the full amount withdrawn.
    pub amount: u64,
    /// When the event happened.
    pub timestamp: u64,
    /// `true` for a donation, `false` for a withdrawal.
    pub credited: bool,
}

/// A transaction together with the sequence number under which it is
/// stored: the record is addressed by its owner, its campaign and that
/// number, separately for donations and for withdrawals.
#[derive(Clone, Copy, Debug, PartialEq, Eq)]
pub struct LedgerEntry {
    /// The campaign's donor counter (for a donation) or withdrawal counter
    /// (for a withdrawal) as it stood when the request was made, before
    /// this event was counted: the first event of each kind has number 0.
    pub sequence: u64,
    /// The event itself.
    pub transaction: Transaction,
}

} // verus!
