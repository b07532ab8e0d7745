use vstd::prelude::*;
use crate::campaign::{above_minimum, Campaign, CampaignView};
use crate::constants::MINIMUM_UNIT;
use crate::errors::{ErrorCode, Failure};
use crate::identity::Identity;
use crate::program_state::{ProgramState, ProgramStateView};
use crate::transaction::{LedgerEntry, Transaction};

verus! {

/// What the runtime reports of a campaign's escrow account.
#[derive(Clone, Copy, Debug, PartialEq, Eq)]
pub struct Escrow {
    /// The currency that the account holds.
    pub funds: u64,
    /// The least that the account must keep, given the storage it occupies.
    pub minimum_reserve: u64,
}

impl Escrow {
    /// What the account can pay out: its funds above the reserve.
    pub open spec fn spendable(self) -> int {
        if self.funds >= self.minimum_reserve {
            self.funds - self.minimum_reserve
        } else {
            0
        }
    }
}

/// How a withdrawn amount is shared out.
#[derive(Clone, Copy, Debug, PartialEq, Eq)]
pub struct Payout {
    /// What goes from escrow to the creator.
    pub creator_amount: u64,
    /// What goes from escrow to the platform's address.
    pub platform_fee_amount: u64,
}

/// What an accepted withdrawal yields.
#[derive(Clone, Copy, Debug, PartialEq, Eq)]
pub struct Withdrawal {
    /// The two amounts that left escrow.
    pub payout: Payout,
    /// The debit to append to the audit trail.
    pub entry: LedgerEntry,
}

/// The platform's share of a withdrawal: `fee` percent of `amount`, rounded
/// down.
pub open spec fn platform_fee_amount(amount: u64, fee: u64) -> int {
    (amount * fee) / 100
}

/// The split of `amount` at `fee` percent: the platform gets its share and
/// the creator gets the rest.
pub open spec fn fee_split(amount: u64, fee: u64) -> Payout {
    Payout {
        creator_amount: (amount - platform_fee_amount(amount, fee)) as u64,
        platform_fee_amount: platform_fee_amount(amount, fee) as u64,
    }
}

/// The decision on a withdrawal request: the first rule that the request
/// breaks, or the payout that the runtime is to make.
pub open spec fn withdrawal_plan(
    campaign: CampaignView,
    state: ProgramStateView,
    withdrawer: Identity,
    platform_address: Identity,
    cid: u64,
    amount: u64,
    escrow: Escrow,
) -> Result<Payout, ErrorCode> {
    if campaign.cid != cid {
        Err(ErrorCode::CampaignNotFound)
    } else if campaign.creator != withdrawer {
        Err(ErrorCode::UnauthorisedAccess)
    } else if !above_minimum(amount) {
        Err(ErrorCode::InvalidWithdrawAmount)
    } else if amount >= campaign.balance {
        Err(ErrorCode::InsufficientFund)
    } else if platform_address != state.platform_address {
        Err(ErrorCode::InvalidPlatformAddress)
    } else if amount > escrow.spendable() {
        Err(ErrorCode::InsufficientFund)
    } else {
        Ok(fee_split(amount, state.platform_fee))
    }
}

/// The campaign after a withdrawal of `amount`: the full amount leaves the
/// balance and the withdrawal is counted. What was raised stays.
pub open spec fn after_withdrawal(campaign: CampaignView, amount: u64) -> CampaignView {
    CampaignView {
        balance: (campaign.balance - amount) as u64,
        withdrawals: (campaign.withdrawals + 1) as u64,
        ..campaign
    }
}

/// The debit that a withdrawal leaves in the audit trail.
pub open spec fn withdrawal_entry(
    campaign: CampaignView,
    withdrawer: Identity,
    amount: u64,
    now: u64,
) -> LedgerEntry {
    LedgerEntry {
        sequence: campaign.withdrawals,
        transaction: Transaction {
            cid: campaign.cid,
            owner: withdrawer,
            amount,
            timestamp: now,
            credited: false,
        },
    }
}

/// Splits `amount` between the platform and the creator at the platform's
/// current fee.
pub fn split_fee(state: &ProgramState, amount: u64) -> (payout: Payout)
    ensures
        payout == fee_split(amount, state@.platform_fee),
        payout.platform_fee_amount == (amount * state@.platform_fee) / 100,
        payout.creator_amount + payout.platform_fee_amount == amount,
{
    proof {
        use_type_invariant(state);
    }
    let fee: u64 = state.platform_fee;
    assert(0 <= (amount * fee) / 100 <= amount) by (nonlinear_arith)
        requires
            0 <= fee <= 15,
            0 <= amount,
    ;
    assert(amount * fee <= u128::MAX) by (nonlinear_arith)
        requires
            0 <= fee <= 15,
            0 <= amount <= u64::MAX,
    ;
    let share: u128 = (amount as u128) * (fee as u128) / 100;
    let platform_fee_amount: u64 = share as u64;
    Payout { creator_amount: amount - platform_fee_amount, platform_fee_amount }
}

/// Decides on a withdrawal request without changing anything.
///
/// The checks come in this order: the record is the campaign asked for,
/// the withdrawer is its creator, the amount is above the minimum unit and
/// strictly below the campaign's balance, the fee recipient is the
/// platform's address, and the escrow account can spare the amount above
/// its reserve. A deleted campaign can still be withdrawn from.
pub fn plan_withdrawal(
    campaign: &Campaign,
    state: &ProgramState,
    withdrawer: Identity,
    platform_address: Identity,
    cid: u64,
    amount: u64,
    escrow: Escrow,
) -> (plan: Result<Payout, ErrorCode>)
    ensures
        plan == withdrawal_plan(
            campaign@,
            state@,
            withdrawer,
            platform_address,
            cid,
            amount,
            escrow,
        ),
        plan matches Ok(payout) ==> {
            &&& payout.platform_fee_amount == (amount * state@.platform_fee) / 100
            &&& payout.creator_amount + payout.platform_fee_amount == amount
        },
        amount >= campaign@.balance ==> plan is Err,
        withdrawer != campaign@.creator ==> plan is Err,
{
    if campaign.cid != cid {
        return Err(ErrorCode::CampaignNotFound);
    }
    if !campaign.creator.same_as(&withdrawer) {
        return Err(ErrorCode::UnauthorisedAccess);
    }
    if amount <= MINIMUM_UNIT {
        return Err(ErrorCode::InvalidWithdrawAmount);
    }
    if amount >= campaign.balance {
        return Err(ErrorCode::InsufficientFund);
    }
    if !platform_address.same_as(&state.platform_address) {
        return Err(ErrorCode::InvalidPlatformAddress);
    }
    if escrow.funds < escrow.minimum_reserve || amount > escrow.funds - escrow.minimum_reserve {
        return Err(ErrorCode::InsufficientFund);
    }
    Ok(split_fee(state, amount))
}

/// Withdraws `amount` from a campaign's escrow.
///
/// `transfers` is what the runtime reported after it was asked to make the
/// payout of `plan_withdrawal`: `Ok` where both transfers went through. A
/// request that breaks a rule is rejected whatever `transfers` holds, and a
/// failed transfer is handed back as it came. In both cases the campaign
/// is left as it was. Otherwise the full amount leaves the balance, the
/// withdrawal is counted, and the debit for the audit trail is returned
/// with the payout.
pub fn withdraw<E>(
    campaign: &mut Campaign,
    state: &ProgramState,
    withdrawer: Identity,
    platform_address: Identity,
    cid: u64,
    amount: u64,
    escrow: Escrow,
    transfers: Result<(), E>,
    now: u64,
) -> (outcome: Result<Withdrawal, Failure<E>>)
    ensures
        match withdrawal_plan(
            old(campaign)@,
            state@,
            withdrawer,
            platform_address,
            cid,
            amount,
            escrow,
        ) {
            Err(code) => outcome == Err::<Withdrawal, Failure<E>>(Failure::Rejected(code))
                && final(campaign)@ == old(campaign)@,
            Ok(payout) => match transfers {
                Err(error) => outcome == Err::<Withdrawal, Failure<E>>(Failure::Transfer(error))
                    && final(campaign)@ == old(campaign)@,
                Ok(_) => outcome == Ok::<Withdrawal, Failure<E>>(
                    Withdrawal {
                        payout,
                        entry: withdrawal_entry(old(campaign)@, withdrawer, amount, now),
                    },
                ) && final(campaign)@ == after_withdrawal(old(campaign)@, amount),
            },
        },
        outcome matches Ok(withdrawal) ==> {
            &&& withdrawal.payout.platform_fee_amount == (amount * state@.platform_fee) / 100
            &&& withdrawal.payout.creator_amount + withdrawal.payout.platform_fee_amount
                == amount
            &&& final(campaign)@.balance == old(campaign)@.balance - amount
            &&& final(campaign)@.withdrawals == old(campaign)@.withdrawals + 1
        },
        amount >= old(campaign)@.balance ==> outcome is Err,
        withdrawer != old(campaign)@.creator ==> outcome is Err,
        final(campaign)@.wf(),
        final(campaign)@.balance <= final(campaign)@.amount_raised,
        final(campaign)@.amount_raised == old(campaign)@.amount_raised,
        final(campaign)@.donors == old(campaign)@.donors,
        final(campaign)@.withdrawals >= old(campaign)@.withdrawals,
{
    proof {
        use_type_invariant(&*campaign);
    }
    let payout = match plan_withdrawal(
        campaign,
        state,
        withdrawer,
        platform_address,
        cid,
        amount,
        escrow,
    ) {
        Ok(payout) => payout,
        Err(code) => {
            return Err(Failure::Rejected(code));
        },
    };
    if let Err(error) = transfers {
        return Err(Failure::Transfer(error));
    }
    let sequence: u64 = campaign.withdrawals;
    campaign.balance = campaign.balance - amount;
    campaign.withdrawals = campaign.withdrawals + 1;
    let entry = LedgerEntry {
        sequence,
        transaction: Transaction { cid, owner: withdrawer, amount, timestamp: now, credited: false },
    };
    Ok(Withdrawal { payout, entry })
}

} // verus!
