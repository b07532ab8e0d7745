//! What holds of the operations taken together: over any sequence of
//! requests the books of a campaign stay balanced and its totals and
//! counters never go down.

use vstd::prelude::*;
use crate::campaign::{above_minimum, details_rejection, owner_rejection, CampaignView};
use crate::errors::ErrorCode;
use crate::identity::Identity;
use crate::instructions::create_campaign::after_creation;
use crate::instructions::delete_campaign::after_deletion;
use crate::instructions::donate::{after_donation, donation_fits, donation_rejection};
use crate::instructions::initialize::initial_state;
use crate::instructions::update_campaign::{after_update, update_rejection};
use crate::instructions::update_platform_settings::settings_rejection;
use crate::instructions::withdraw::{after_withdrawal, withdrawal_plan, Escrow, Payout};
use crate::program_state::ProgramStateView;

verus! {

/// A request made against one campaign, with what the runtime reported
/// where the request needs a transfer.
pub enum CampaignRequest {
    Update {
        caller: Identity,
        cid: u64,
        title: Seq<char>,
        description: Seq<char>,
        image_url: Seq<char>,
        goal: u64,
    },
    Delete { caller: Identity, cid: u64 },
    Donate { cid: u64, amount: u64, transferred: bool },
    Withdraw {
        state: ProgramStateView,
        withdrawer: Identity,
        platform_address: Identity,
        cid: u64,
        amount: u64,
        escrow: Escrow,
        transferred: bool,
    },
}

/// Whether the request is accepted on this campaign and carried out. A
/// donation is carried out only where the total raised stays within 64
/// bits: one that does not fit leaves the campaign as it was.
pub open spec fn request_succeeds(campaign: CampaignView, request: CampaignRequest) -> bool {
    match request {
        CampaignRequest::Update { caller, cid, title, description, image_url, goal } => {
            update_rejection(campaign, caller, cid, title, description, image_url, goal) is None
        },
        CampaignRequest::Delete { caller, cid } => owner_rejection(campaign, caller, cid) is None,
        CampaignRequest::Donate { cid, amount, transferred } => {
            donation_rejection(campaign, cid, amount) is None && transferred && donation_fits(
                campaign,
                amount,
            )
        },
        CampaignRequest::Withdraw {
            state,
            withdrawer,
            platform_address,
            cid,
            amount,
            escrow,
            transferred,
        } => {
            withdrawal_plan(campaign, state, withdrawer, platform_address, cid, amount, escrow)
                is Ok && transferred
        },
    }
}

/// The campaign after the request: changed as the operation's contract
/// says where the request succeeds, and as it was where it does not.
pub open spec fn after_request(campaign: CampaignView, request: CampaignRequest) -> CampaignView {
    if !request_succeeds(campaign, request) {
        campaign
    } else {
        match request {
            CampaignRequest::Update { title, description, image_url, goal, .. } => {
                after_update(campaign, title, description, image_url, goal)
            },
            CampaignRequest::Delete { .. } => after_deletion(campaign),
            CampaignRequest::Donate { amount, .. } => after_donation(campaign, amount),
            CampaignRequest::Withdraw { amount, .. } => after_withdrawal(campaign, amount),
        }
    }
}

/// The campaign after the requests, made one after the other.
pub open spec fn after_requests(campaign: CampaignView, requests: Seq<CampaignRequest>)
    -> CampaignView
    decreases requests.len(),
{
    if requests.len() == 0 {
        campaign
    } else {
        after_request(after_requests(campaign, requests.drop_last()), requests.last())
    }
}

/// Whether `later` can follow `earlier` in the life of one campaign: the
/// identifier, the creator and the time of creation are the same, the
/// total raised and the two counters have not gone down, and a campaign
/// that was deleted is still deleted.
pub open spec fn campaign_advanced(earlier: CampaignView, later: CampaignView) -> bool {
    &&& later.cid == earlier.cid
    &&& later.creator == earlier.creator
    &&& later.timestamp == earlier.timestamp
    &&& later.amount_raised >= earlier.amount_raised
    &&& later.donors >= earlier.donors
    &&& later.withdrawals >= earlier.withdrawals
    &&& !earlier.active ==> !later.active
}

/// A well-formed campaign never holds more than it has raised.
pub proof fn balance_within_raised(campaign: CampaignView)
    requires
        campaign.wf(),
    ensures
        campaign.balance <= campaign.amount_raised,
{
}

/// One request, whatever it is and whether or not it succeeds, leaves a
/// well-formed campaign well formed, with a balance no greater than what
/// was raised, and never takes the total raised or a counter down.
pub proof fn request_keeps_books(campaign: CampaignView, request: CampaignRequest)
    requires
        campaign.wf(),
    ensures
        after_request(campaign, request).wf(),
        after_request(campaign, request).balance <= after_request(campaign, request).amount_raised,
        campaign_advanced(campaign, after_request(campaign, request)),
{
}

/// Any sequence of requests leaves a well-formed campaign well formed,
/// with a balance no greater than what was raised, and never takes the
/// total raised or a counter down.
pub proof fn requests_keep_books(campaign: CampaignView, requests: Seq<CampaignRequest>)
    requires
        campaign.wf(),
    ensures
        after_requests(campaign, requests).wf(),
        after_requests(campaign, requests).balance <= after_requests(
            campaign,
            requests,
        ).amount_raised,
        campaign_advanced(campaign, after_requests(campaign, requests)),
    decreases requests.len(),
{
    if requests.len() > 0 {
        requests_keep_books(campaign, requests.drop_last());
        request_keeps_books(after_requests(campaign, requests.drop_last()), requests.last());
    }
}

/// A donation that takes the total raised to exactly the goal is accepted,
/// and the next donation to that campaign is turned away: because the goal
/// is reached, where the request is otherwise in order.
pub proof fn goal_reached_ends_donations(
    campaign: CampaignView,
    amount: u64,
    next_cid: u64,
    next_amount: u64,
)
    requires
        campaign.wf(),
        campaign.active,
        above_minimum(amount),
        campaign.amount_raised + amount == campaign.goal,
    ensures
        donation_rejection(campaign, campaign.cid, amount) is None,
        donation_rejection(after_donation(campaign, amount), next_cid, next_amount) is Some,
        next_cid == campaign.cid && above_minimum(next_amount) ==> donation_rejection(
            after_donation(campaign, amount),
            next_cid,
            next_amount,
        ) == Some(ErrorCode::CampaignGoalReached),
{
}

/// Nobody but the creator can change, delete or withdraw from a campaign.
/// A request to change or delete is rejected as unauthorised; so is a
/// request to withdraw from the campaign that the record holds.
pub proof fn only_creator_acts(
    campaign: CampaignView,
    caller: Identity,
    cid: u64,
    title: Seq<char>,
    description: Seq<char>,
    image_url: Seq<char>,
    goal: u64,
    state: ProgramStateView,
    platform_address: Identity,
    amount: u64,
    escrow: Escrow,
)
    requires
        caller != campaign.creator,
    ensures
        update_rejection(campaign, caller, cid, title, description, image_url, goal) == Some(
            ErrorCode::UnauthorisedAccess,
        ),
        owner_rejection(campaign, caller, cid) == Some(ErrorCode::UnauthorisedAccess),
        withdrawal_plan(campaign, state, caller, platform_address, cid, amount, escrow) is Err,
        cid == campaign.cid ==> withdrawal_plan(
            campaign,
            state,
            caller,
            platform_address,
            cid,
            amount,
            escrow,
        ) == Err::<Payout, ErrorCode>(ErrorCode::UnauthorisedAccess),
{
}

/// Deleting a campaign ends donations to it and leaves withdrawals as they
/// were: the decision on a withdrawal does not look at whether the
/// campaign is active.
pub proof fn deletion_keeps_withdrawals(
    campaign: CampaignView,
    donation_cid: u64,
    donation_amount: u64,
    state: ProgramStateView,
    withdrawer: Identity,
    platform_address: Identity,
    cid: u64,
    amount: u64,
    escrow: Escrow,
)
    ensures
        donation_rejection(after_deletion(campaign), donation_cid, donation_amount) is Some,
        donation_cid == campaign.cid ==> donation_rejection(
            after_deletion(campaign),
            donation_cid,
            donation_amount,
        ) == Some(ErrorCode::InActiveCampaign),
        withdrawal_plan(
            after_deletion(campaign),
            state,
            withdrawer,
            platform_address,
            cid,
            amount,
            escrow,
        ) == withdrawal_plan(campaign, state, withdrawer, platform_address, cid, amount, escrow),
{
}

/// A request made against the registry.
pub enum RegistryRequest {
    Initialize { deployer: Identity },
    UpdateSettings { caller: Identity, new_fee: u64 },
    CreateCampaign { title: Seq<char>, description: Seq<char>, image_url: Seq<char>, goal: u64 },
}

/// The registry after the request: changed as the operation's contract
/// says where the request succeeds, and as it was where it does not. A
/// campaign is created only where the counter has room for it.
pub open spec fn registry_after_request(state: ProgramStateView, request: RegistryRequest)
    -> ProgramStateView {
    match request {
        RegistryRequest::Initialize { deployer } => if state.initialized {
            state
        } else {
            initial_state(deployer)
        },
        RegistryRequest::UpdateSettings { caller, new_fee } => if settings_rejection(
            state,
            caller,
            new_fee,
        ) is None {
            ProgramStateView { platform_fee: new_fee, ..state }
        } else {
            state
        },
        RegistryRequest::CreateCampaign { title, description, image_url, goal } => if
            details_rejection(title, description, image_url, goal) is None && state.campaign_count
            < u64::MAX {
            after_creation(state)
        } else {
            state
        },
    }
}

/// The registry after the requests, made one after the other.
pub open spec fn registry_after_requests(state: ProgramStateView, requests: Seq<RegistryRequest>)
    -> ProgramStateView
    decreases requests.len(),
{
    if requests.len() == 0 {
        state
    } else {
        registry_after_request(
            registry_after_requests(state, requests.drop_last()),
            requests.last(),
        )
    }
}

/// Any sequence of requests leaves an initialized registry initialized and
/// well formed, with the same platform address, and never takes the
/// campaign counter down.
pub proof fn registry_requests_keep_count(
    state: ProgramStateView,
    requests: Seq<RegistryRequest>,
)
    requires
        state.wf(),
        state.initialized,
    ensures
        registry_after_requests(state, requests).wf(),
        registry_after_requests(state, requests).initialized,
        registry_after_requests(state, requests).platform_address == state.platform_address,
        registry_after_requests(state, requests).campaign_count >= state.campaign_count,
    decreases requests.len(),
{
    if requests.len() > 0 {
        registry_requests_keep_count(state, requests.drop_last());
    }
}

/// Initialization works once: whatever the registry was, a second call
/// right after the first changes nothing.
pub proof fn second_initialization_fails(
    state: ProgramStateView,
    first: Identity,
    second: Identity,
)
    ensures
        registry_after_request(state, RegistryRequest::Initialize { deployer: first }).initialized,
        registry_after_request(
            registry_after_request(state, RegistryRequest::Initialize { deployer: first }),
            RegistryRequest::Initialize { deployer: second },
        ) == registry_after_request(state, RegistryRequest::Initialize { deployer: first }),
{
}

} // verus!
