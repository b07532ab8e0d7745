use vstd::prelude::*;
use crate::campaign::{details_rejection, Campaign, CampaignView};
use crate::errors::ErrorCode;
use crate::identity::Identity;
use crate::program_state::{ProgramState, ProgramStateView};

verus! {

/// The campaign that a creation yields: the next identifier, the creator as
/// its owner, empty books, and active.
pub open spec fn new_campaign(
    state: ProgramStateView,
    creator: Identity,
    title: Seq<char>,
    description: Seq<char>,
    image_url: Seq<char>,
    goal: u64,
    now: u64,
) -> CampaignView {
    CampaignView {
        cid: (state.campaign_count + 1) as u64,
        creator,
        title,
        description,
        image_url,
        goal,
        amount_raised: 0,
        balance: 0,
        donors: 0,
        withdrawals: 0,
        timestamp: now,
        active: true,
    }
}

/// The registry after a campaign was created: one more campaign.
pub open spec fn after_creation(state: ProgramStateView) -> ProgramStateView {
    ProgramStateView { campaign_count: (state.campaign_count + 1) as u64, ..state }
}

/// Creates a campaign owned by `creator`, at the time `now`.
///
/// Details that break a rule are rejected and the registry is left as it
/// was. Otherwise the registry counts one more campaign, and the new
/// campaign gets that count as its identifier.
///
/// The counter is kept in 64 bits: where the details are in order, it must
/// have room for one more campaign.
pub fn create_campaign(
    state: &mut ProgramState,
    creator: Identity,
    title: String,
    description: String,
    image_url: String,
    goal: u64,
    now: u64,
) -> (outcome: Result<Campaign, ErrorCode>)
    requires
        details_rejection(title@, description@, image_url@, goal) is None ==> old(
            state,
        )@.campaign_count < u64::MAX,
    ensures
        match details_rejection(title@, description@, image_url@, goal) {
            Some(code) => outcome == Err::<Campaign, ErrorCode>(code) && final(state)@ == old(
                state,
            )@,
            None => outcome matches Ok(campaign) && campaign@ == new_campaign(
                old(state)@,
                creator,
                title@,
                description@,
                image_url@,
                goal,
                now,
            ) && campaign@.wf() && final(state)@ == after_creation(old(state)@),
        },
        outcome matches Ok(campaign) ==> {
            &&& campaign@.cid == final(state)@.campaign_count
            &&& final(state)@.campaign_count == old(state)@.campaign_count + 1
            &&& campaign@.amount_raised == 0
            &&& campaign@.balance == 0
            &&& campaign@.donors == 0
            &&& campaign@.withdrawals == 0
            &&& campaign@.active
        },
        outcome is Err ==> final(state)@.campaign_count == old(state)@.campaign_count,
        final(state)@.wf(),
        final(state)@.campaign_count >= old(state)@.campaign_count,
        final(state)@.initialized == old(state)@.initialized,
        final(state)@.platform_fee == old(state)@.platform_fee,
        final(state)@.platform_address == old(state)@.platform_address,
{
    proof {
        use_type_invariant(&*state);
    }
    if let Err(code) = Campaign::check_details(
        title.as_str(),
        description.as_str(),
        image_url.as_str(),
        goal,
    ) {
        return Err(code);
    }
    state.campaign_count = state.campaign_count + 1;
    Ok(
        Campaign {
            cid: state.campaign_count,
            creator,
            title,
            description,
            image_url,
            goal,
            amount_raised: 0,
            balance: 0,
            donors: 0,
            withdrawals: 0,
            timestamp: now,
            active: true,
        },
    )
}

/// Creates a campaign owned by `creator`, at the time `now`, whatever the
/// arguments.
///
/// This is `create_campaign` for callers that cannot promise that the
/// counter has room: where the details are in order but the counter is
/// full, the result is `None` and the registry is left as it was. In every
/// other case the result is that of `create_campaign`.
pub fn try_create_campaign(
    state: &mut ProgramState,
    creator: Identity,
    title: String,
    description: String,
    image_url: String,
    goal: u64,
    now: u64,
) -> (outcome: Option<Result<Campaign, ErrorCode>>)
    ensures
        match details_rejection(title@, description@, image_url@, goal) {
            Some(code) => outcome matches Some(Err(error)) && error == code && final(state)@
                == old(state)@,
            None => if old(state)@.campaign_count < u64::MAX {
                outcome matches Some(Ok(campaign)) && campaign@ == new_campaign(
                    old(state)@,
                    creator,
                    title@,
                    description@,
                    image_url@,
                    goal,
                    now,
                ) && campaign@.wf() && final(state)@ == after_creation(old(state)@)
            } else {
                outcome is None && final(state)@ == old(state)@
            },
        },
        outcome matches Some(Ok(campaign)) ==> {
            &&& campaign@.cid == final(state)@.campaign_count
            &&& final(state)@.campaign_count == old(state)@.campaign_count + 1
            &&& campaign@.amount_raised == 0
            &&& campaign@.balance == 0
            &&& campaign@.donors == 0
            &&& campaign@.withdrawals == 0
            &&& campaign@.active
        },
        !(outcome matches Some(Ok(_))) ==> final(state)@.campaign_count == old(
            state,
        )@.campaign_count,
        final(state)@.wf(),
        final(state)@.campaign_count >= old(state)@.campaign_count,
        final(state)@.initialized == old(state)@.initialized,
        final(state)@.platform_fee == old(state)@.platform_fee,
        final(state)@.platform_address == old(state)@.platform_address,
{
    proof {
        use_type_invariant(&*state);
    }
    if state.campaign_count() == u64::MAX && Campaign::check_details(
        title.as_str(),
        description.as_str(),
        image_url.as_str(),
        goal,
    ).is_ok() {
        return None;
    }
    Some(create_campaign(state, creator, title, description, image_url, goal, now))
}

} // verus!
