use vstd::prelude::*;
use crate::campaign::{details_rejection, owner_rejection, Campaign, CampaignView};
use crate::errors::ErrorCode;
use crate::identity::Identity;

verus! {

/// The first rule that a request to change a campaign breaks, if any: the
/// rules of `owner_rejection` come first, then those of
/// `details_rejection`.
pub open spec fn update_rejection(
    campaign: CampaignView,
    caller: Identity,
    cid: u64,
    title: Seq<char>,
    description: Seq<char>,
    image_url: Seq<char>,
    goal: u64,
) -> Option<ErrorCode> {
    match owner_rejection(campaign, caller, cid) {
        Some(code) => Some(code),
        None => details_rejection(title, description, image_url, goal),
    }
}

/// The campaign with new details: only the title, the description, the
/// image URL and the goal are replaced.
pub open spec fn after_update(
    campaign: CampaignView,
    title: Seq<char>,
    description: Seq<char>,
    image_url: Seq<char>,
    goal: u64,
) -> CampaignView {
    CampaignView { title, description, image_url, goal, ..campaign }
}

/// Replaces the details of a campaign on behalf of `caller`.
///
/// A request that breaks a rule is rejected and the campaign is left as it
/// was. Otherwise the four details are replaced and the books stay as
/// they are.
pub fn update_campaign(
    campaign: &mut Campaign,
    caller: Identity,
    cid: u64,
    title: String,
    description: String,
    image_url: String,
    goal: u64,
) -> (outcome: Result<(), ErrorCode>)
    ensures
        match update_rejection(old(campaign)@, caller, cid, title@, description@, image_url@, goal) {
            Some(code) => outcome == Err::<(), ErrorCode>(code) && final(campaign)@ == old(
                campaign,
            )@,
            None => outcome == Ok::<(), ErrorCode>(()) && final(campaign)@ == after_update(
                old(campaign)@,
                title@,
                description@,
                image_url@,
                goal,
            ),
        },
        caller != old(campaign)@.creator ==> outcome == Err::<(), ErrorCode>(
            ErrorCode::UnauthorisedAccess,
        ),
        final(campaign)@.wf(),
        final(campaign)@.balance <= final(campaign)@.amount_raised,
        final(campaign)@.amount_raised == old(campaign)@.amount_raised,
        final(campaign)@.balance == old(campaign)@.balance,
        final(campaign)@.donors == old(campaign)@.donors,
        final(campaign)@.withdrawals == old(campaign)@.withdrawals,
{
    proof {
        use_type_invariant(&*campaign);
    }
    if let Err(code) = campaign.check_owner(&caller, cid) {
        return Err(code);
    }
    if let Err(code) = Campaign::check_details(
        title.as_str(),
        description.as_str(),
        image_url.as_str(),
        goal,
    ) {
        return Err(code);
    }
    campaign.title = title;
    campaign.description = description;
    campaign.image_url = image_url;
    campaign.goal = goal;
    Ok(())
}

} // verus!
