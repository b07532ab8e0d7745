use vstd::prelude::*;
use crate::campaign::{owner_rejection, Campaign, CampaignView};
use crate::errors::ErrorCode;
use crate::identity::Identity;

verus! {

/// The campaign after its deletion: no longer active, and otherwise as it
/// was. The record stays, and its balance can still be withdrawn.
pub open spec fn after_deletion(campaign: CampaignView) -> CampaignView {
    CampaignView { active: false, ..campaign }
}

/// Deletes a campaign on behalf of `caller`: marks it as no longer active.
///
/// A request that breaks a rule of `owner_rejection` is rejected and the
/// campaign is left as it was. Nothing makes a deleted campaign active
/// again.
pub fn delete_campaign(campaign: &mut Campaign, caller: Identity, cid: u64) -> (outcome: Result<
    (),
    ErrorCode,
>)
    ensures
        match owner_rejection(old(campaign)@, caller, cid) {
            Some(code) => outcome == Err::<(), ErrorCode>(code) && final(campaign)@ == old(
                campaign,
            )@,
            None => outcome == Ok::<(), ErrorCode>(()) && final(campaign)@ == after_deletion(
                old(campaign)@,
            ),
        },
        caller != old(campaign)@.creator ==> outcome == Err::<(), ErrorCode>(
            ErrorCode::UnauthorisedAccess,
        ),
        outcome is Ok ==> !final(campaign)@.active,
        final(campaign)@.wf(),
        final(campaign)@.balance <= final(campaign)@.amount_raised,
        final(campaign)@.amount_raised == old(campaign)@.amount_raised,
        final(campaign)@.balance == old(campaign)@.balance,
        final(campaign)@.donors == old(campaign)@.donors,
        final(campaign)@.withdrawals == old(campaign)@.withdrawals,
{
    proof {
        use_type_invariant(&*campaign);
    }
    if let Err(code) = campaign.check_owner(&caller, cid) {
        return Err(code);
    }
    campaign.active = false;
    Ok(())
}

} // verus!
