use vstd::prelude::*;
use crate::campaign::{above_minimum, Campaign, CampaignView};
use crate::constants::MINIMUM_UNIT;
use crate::errors::{ErrorCode, Failure};
use crate::identity::Identity;
use crate::transaction::{LedgerEntry, Transaction};

verus! {

/// The first rule that a donation request breaks, if any.
///
/// The goal is compared with what was raised before this donation: a
/// donation that reaches or passes the goal is accepted, and only a
/// donation to a campaign that is already there is turned away.
pub open spec fn donation_rejection(campaign: CampaignView, cid: u64, amount: u64) -> Option<
    ErrorCode,
> {
    if campaign.cid != cid {
        Some(ErrorCode::CampaignNotFound)
    } else if !campaign.active {
        Some(ErrorCode::InActiveCampaign)
    } else if !above_minimum(amount) {
        Some(ErrorCode::InvalidDonationAmount)
    } else if campaign.amount_raised >= campaign.goal {
        Some(ErrorCode::CampaignGoalReached)
    } else {
        None
    }
}

/// Whether the campaign's books can take a donation of `amount`: the new
/// total still fits in 64 bits.
pub open spec fn donation_fits(campaign: CampaignView, amount: u64) -> bool {
    campaign.amount_raised + amount <= u64::MAX
}

/// The campaign after a donation of `amount`: the amount is added to what
/// was raised and to the balance, and the donor is counted.
pub open spec fn after_donation(campaign: CampaignView, amount: u64) -> CampaignView {
    CampaignView {
        amount_raised: (campaign.amount_raised + amount) as u64,
        balance: (campaign.balance + amount) as u64,
        donors: (campaign.donors + 1) as u64,
        ..campaign
    }
}

/// The credit that a donation leaves in the audit trail.
pub open spec fn donation_entry(
    campaign: CampaignView,
    donor: Identity,
    amount: u64,
    now: u64,
) -> LedgerEntry {
    LedgerEntry {
        sequence: campaign.donors,
        transaction: Transaction {
            cid: campaign.cid,
            owner: donor,
            amount,
            timestamp: now,
            credited: true,
        },
    }
}

/// Decides on a donation request without changing anything: `Ok` where
/// the runtime is to move `amount` from the donor to the campaign's escrow.
///
/// The checks come in this order: the record is the campaign asked for, it
/// is active, the amount is above the minimum unit, and the campaign has
/// not yet raised its goal.
pub fn check_donation(campaign: &Campaign, cid: u64, amount: u64) -> (decision: Result<
    (),
    ErrorCode,
>)
    ensures
        decision == match donation_rejection(campaign@, cid, amount) {
            Some(code) => Err::<(), ErrorCode>(code),
            None => Ok::<(), ErrorCode>(()),
        },
        amount <= MINIMUM_UNIT ==> decision is Err,
        campaign@.cid == cid && campaign@.active && amount > MINIMUM_UNIT ==> (decision is Ok
            <==> campaign@.amount_raised < campaign@.goal),
{
    if campaign.cid != cid {
        return Err(ErrorCode::CampaignNotFound);
    }
    if !campaign.active {
        return Err(ErrorCode::InActiveCampaign);
    }
    if amount <= MINIMUM_UNIT {
        return Err(ErrorCode::InvalidDonationAmount);
    }
    if campaign.amount_raised >= campaign.goal {
        return Err(ErrorCode::CampaignGoalReached);
    }
    Ok(())
}

/// Donates `amount` to a campaign.
///
/// `transfer` is what the runtime reported after it was asked to move
/// `amount` from the donor to the campaign's escrow. A request that breaks
/// a rule is rejected whatever `transfer` holds, and a failed transfer is
/// handed back as it came. In both cases the campaign is left as it was.
/// Otherwise the amount is added to what was raised and to the balance, the
/// donor is counted, and the credit for the audit trail is returned.
///
/// The total raised is kept in 64 bits: a donation that is accepted and
/// transferred must not take it beyond that.
pub fn donate<E>(
    campaign: &mut Campaign,
    donor: Identity,
    cid: u64,
    amount: u64,
    transfer: Result<(), E>,
    now: u64,
) -> (outcome: Result<LedgerEntry, Failure<E>>)
    requires
        donation_rejection(old(campaign)@, cid, amount) is None && transfer is Ok
            ==> donation_fits(old(campaign)@, amount),
    ensures
        match donation_rejection(old(campaign)@, cid, amount) {
            Some(code) => outcome == Err::<LedgerEntry, Failure<E>>(Failure::Rejected(code))
                && final(campaign)@ == old(campaign)@,
            None => match transfer {
                Err(error) => outcome == Err::<LedgerEntry, Failure<E>>(
                    Failure::Transfer(error),
                ) && final(campaign)@ == old(campaign)@,
                Ok(_) => outcome == Ok::<LedgerEntry, Failure<E>>(
                    donation_entry(old(campaign)@, donor, amount, now),
                ) && final(campaign)@ == after_donation(old(campaign)@, amount),
            },
        },
        outcome is Ok ==> {
            &&& final(campaign)@.amount_raised == old(campaign)@.amount_raised + amount
            &&& final(campaign)@.balance == old(campaign)@.balance + amount
            &&& final(campaign)@.donors == old(campaign)@.donors + 1
        },
        final(campaign)@.amount_raised - final(campaign)@.balance == old(campaign)@.amount_raised
            - old(campaign)@.balance,
        amount <= MINIMUM_UNIT ==> outcome is Err,
        old(campaign)@.cid == cid && old(campaign)@.active && amount > MINIMUM_UNIT
            && transfer is Ok ==> (outcome is Ok <==> old(campaign)@.amount_raised < old(
            campaign,
        )@.goal),
        final(campaign)@.wf(),
        final(campaign)@.balance <= final(campaign)@.amount_raised,
        final(campaign)@.amount_raised >= old(campaign)@.amount_raised,
        final(campaign)@.donors >= old(campaign)@.donors,
        final(campaign)@.withdrawals == old(campaign)@.withdrawals,
{
    proof {
        use_type_invariant(&*campaign);
    }
    if let Err(code) = check_donation(campaign, cid, amount) {
        return Err(Failure::Rejected(code));
    }
    if let Err(error) = transfer {
        return Err(Failure::Transfer(error));
    }
    let sequence: u64 = campaign.donors;
    campaign.amount_raised = campaign.amount_raised + amount;
    campaign.balance = campaign.balance + amount;
    campaign.donors = campaign.donors + 1;
    let entry = LedgerEntry {
        sequence,
        transaction: Transaction { cid, owner: donor, amount, timestamp: now, credited: true },
    };
    Ok(entry)
}

/// Donates `amount` to a campaign, whatever the arguments.
///
/// This is `donate` for callers that cannot promise that the new total
/// fits in 64 bits: where the donation is in order and was transferred but
/// the books cannot take it, the result is `None` and the campaign is left
/// as it was. In every other case the result is that of `donate`.
pub fn try_donate<E>(
    campaign: &mut Campaign,
    donor: Identity,
    cid: u64,
    amount: u64,
    transfer: Result<(), E>,
    now: u64,
) -> (outcome: Option<Result<LedgerEntry, Failure<E>>>)
    ensures
        match donation_rejection(old(campaign)@, cid, amount) {
            Some(code) => outcome == Some(
                Err::<LedgerEntry, Failure<E>>(Failure::Rejected(code)),
            ) && final(campaign)@ == old(campaign)@,
            None => match transfer {
                Err(error) => outcome == Some(
                    Err::<LedgerEntry, Failure<E>>(Failure::Transfer(error)),
                ) && final(campaign)@ == old(campaign)@,
                Ok(_) => if donation_fits(old(campaign)@, amount) {
                    outcome == Some(
                        Ok::<LedgerEntry, Failure<E>>(
                            donation_entry(old(campaign)@, donor, amount, now),
                        ),
                    ) && final(campaign)@ == after_donation(old(campaign)@, amount)
                } else {
                    outcome is None && final(campaign)@ == old(campaign)@
                },
            },
        },
        outcome matches Some(Ok(_)) ==> {
            &&& final(campaign)@.amount_raised == old(campaign)@.amount_raised + amount
            &&& final(campaign)@.balance == old(campaign)@.balance + amount
            &&& final(campaign)@.donors == old(campaign)@.donors + 1
        },
        final(campaign)@.amount_raised - final(campaign)@.balance == old(campaign)@.amount_raised
            - old(campaign)@.balance,
        amount <= MINIMUM_UNIT ==> outcome matches Some(Err(_)),
        final(campaign)@.wf(),
        final(campaign)@.balance <= final(campaign)@.amount_raised,
        final(campaign)@.amount_raised >= old(campaign)@.amount_raised,
        final(campaign)@.donors >= old(campaign)@.donors,
        final(campaign)@.withdrawals == old(campaign)@.withdrawals,
{
    proof {
        use_type_invariant(&*campaign);
    }
    if check_donation(campaign, cid, amount).is_ok() && transfer.is_ok() && amount > u64::MAX
        - campaign.amount_raised {
        return None;
    }
    Some(donate(campaign, donor, cid, amount, transfer, now))
}

} // verus!
