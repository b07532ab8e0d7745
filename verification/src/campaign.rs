use vstd::prelude::*;
use vstd::string::StrSliceExecFns;
use crate::constants::{MAX_TEXT_LEN, MINIMUM_UNIT};
use crate::errors::ErrorCode;
use crate::identity::Identity;

verus! {

/// Whether a text is short enough to be stored in a campaign: it has at
/// most `MAX_TEXT_LEN` characters.
pub open spec fn text_fits(text: Seq<char>) -> bool {
    text.len() <= MAX_TEXT_LEN
}

/// Whether an amount is large enough to be a goal, a donation or a
/// withdrawal: strictly above the minimum unit.
pub open spec fn above_minimum(amount: u64) -> bool {
    amount > MINIMUM_UNIT
}

/// The first rule that a campaign's details break, if any: the title, the
/// description and the image URL must fit, in this order, and the goal must
/// be above the minimum unit.
pub open spec fn details_rejection(
    title: Seq<char>,
    description: Seq<char>,
    image_url: Seq<char>,
    goal: u64,
) -> Option<ErrorCode> {
    if !text_fits(title) {
        Some(ErrorCode::TitleTooLong)
    } else if !text_fits(description) {
        Some(ErrorCode::DescriptionTooLong)
    } else if !text_fits(image_url) {
        Some(ErrorCode::ImageUrlTooLong)
    } else if !above_minimum(goal) {
        Some(ErrorCode::InvalidGoalAmount)
    } else {
        None
    }
}

/// The first rule that a request to change or delete a campaign breaks, if
/// any: the caller must be the creator, the record must be the campaign
/// asked for, and the campaign must be active, in this order.
pub open spec fn owner_rejection(campaign: CampaignView, caller: Identity, cid: u64) -> Option<
    ErrorCode,
> {
    if campaign.creator != caller {
        Some(ErrorCode::UnauthorisedAccess)
    } else if campaign.cid != cid {
        Some(ErrorCode::CampaignNotFound)
    } else if !campaign.active {
        Some(ErrorCode::InActiveCampaign)
    } else {
        None
    }
}

/// What a campaign record holds.
pub struct CampaignView {
    pub cid: u64,
    pub creator: Identity,
    pub title: Seq<char>,
    pub description: Seq<char>,
    pub image_url: Seq<char>,
    pub goal: u64,
    pub amount_raised: u64,
    pub balance: u64,
    pub donors: u64,
    pub withdrawals: u64,
    pub timestamp: u64,
    pub active: bool,
}

impl CampaignView {
    /// The accounting invariant of a campaign.
    ///
    /// The texts fit, the goal is above the minimum unit, and the books
    /// balance: every accepted donation added more than the minimum unit to
    /// `amount_raised`, and every accepted withdrawal took more than the
    /// minimum unit out of what was raised, so what is left in escrow
    /// never exceeds what was raised.
    pub open spec fn wf(self) -> bool {
        &&& text_fits(self.title)
        &&& text_fits(self.description)
        &&& text_fits(self.image_url)
        &&& above_minimum(self.goal)
        &&& self.donors * (MINIMUM_UNIT + 1) <= self.amount_raised
        &&& self.withdrawals * (MINIMUM_UNIT + 1) + self.balance <= self.amount_raised
    }
}

/// One campaign: its description, its goal and its books.
///
/// A value of this type always satisfies `CampaignView::wf`.
#[derive(Debug, PartialEq, Eq)]
pub struct Campaign {
    pub(crate) cid: u64,
    pub(crate) creator: Identity,
    pub(crate) title: String,
    pub(crate) description: String,
    pub(crate) image_url: String,
    pub(crate) goal: u64,
    pub(crate) amount_raised: u64,
    pub(crate) balance: u64,
    pub(crate) donors: u64,
    pub(crate) withdrawals: u64,
    pub(crate) timestamp: u64,
    pub(crate) active: bool,
}

impl View for Campaign {
    type V = CampaignView;

    open(crate) spec fn view(&self) -> CampaignView {
        CampaignView {
            cid: self.cid,
            creator: self.creator,
            title: self.title@,
            description: self.description@,
            image_url: self.image_url@,
            goal: self.goal,
            amount_raised: self.amount_raised,
            balance: self.balance,
            donors: self.donors,
            withdrawals: self.withdrawals,
            timestamp: self.timestamp,
            active: self.active,
        }
    }
}

impl Clone for Campaign {
    /// A copy of the campaign, equal to it in every field.
    fn clone(&self) -> (copy: Campaign)
        ensures
            copy@ == self@,
    {
        proof {
            use_type_invariant(self);
        }
        Campaign {
            cid: self.cid,
            creator: self.creator,
            title: self.title.clone(),
            description: self.description.clone(),
            image_url: self.image_url.clone(),
            goal: self.goal,
            amount_raised: self.amount_raised,
            balance: self.balance,
            donors: self.donors,
            withdrawals: self.withdrawals,
            timestamp: self.timestamp,
            active: self.active,
        }
    }
}

impl Campaign {
    #[verifier::type_invariant]
    pub open(crate) spec fn inv(&self) -> bool {
        self@.wf()
    }

    /// Checks a campaign's details against the rules of `details_rejection`.
    pub fn check_details(title: &str, description: &str, image_url: &str, goal: u64) -> (decision:
        Result<(), ErrorCode>)
        ensures
            decision == match details_rejection(title@, description@, image_url@, goal) {
                Some(code) => Err::<(), ErrorCode>(code),
                None => Ok::<(), ErrorCode>(()),
            },
    {
        if title.unicode_len() > MAX_TEXT_LEN {
            return Err(ErrorCode::TitleTooLong);
        }
        if description.unicode_len() > MAX_TEXT_LEN {
            return Err(ErrorCode::DescriptionTooLong);
        }
        if image_url.unicode_len() > MAX_TEXT_LEN {
            return Err(ErrorCode::ImageUrlTooLong);
        }
        if goal <= MINIMUM_UNIT {
            return Err(ErrorCode::InvalidGoalAmount);
        }
        Ok(())
    }

    /// Checks a request to change or delete this campaign against the rules
    /// of `owner_rejection`.
    pub fn check_owner(&self, caller: &Identity, cid: u64) -> (decision: Result<(), ErrorCode>)
        ensures
            decision == match owner_rejection(self@, *caller, cid) {
                Some(code) => Err::<(), ErrorCode>(code),
                None => Ok::<(), ErrorCode>(()),
            },
    {
        if !self.creator.same_as(caller) {
            return Err(ErrorCode::UnauthorisedAccess);
        }
        if self.cid != cid {
            return Err(ErrorCode::CampaignNotFound);
        }
        if !self.active {
            return Err(ErrorCode::InActiveCampaign);
        }
        Ok(())
    }

    /// The campaign with the given contents, or `None` where they break the
    /// campaign's invariant.
    pub fn from_parts(
        cid: u64,
        creator: Identity,
        title: String,
        description: String,
        image_url: String,
        goal: u64,
        amount_raised: u64,
        balance: u64,
        donors: u64,
        withdrawals: u64,
        timestamp: u64,
        active: bool,
    ) -> (campaign: Option<Campaign>)
        ensures
            match campaign {
                Some(c) => c@ == (CampaignView {
                    cid,
                    creator,
                    title: title@,
                    description: description@,
                    image_url: image_url@,
                    goal,
                    amount_raised,
                    balance,
                    donors,
                    withdrawals,
                    timestamp,
                    active,
                }) && c@.wf(),
                None => !(CampaignView {
                    cid,
                    creator,
                    title: title@,
                    description: description@,
                    image_url: image_url@,
                    goal,
                    amount_raised,
                    balance,
                    donors,
                    withdrawals,
                    timestamp,
                    active,
                }).wf(),
            },
    {
        if Campaign::check_details(
            title.as_str(),
            description.as_str(),
            image_url.as_str(),
            goal,
        ).is_err() {
            return None;
        }
        let unit: u128 = MINIMUM_UNIT as u128 + 1;
        let raised: u128 = amount_raised as u128;
        assert(donors * unit <= u64::MAX * 1_000_000_001 && withdrawals * unit <= u64::MAX
            * 1_000_000_001) by (nonlinear_arith)
            requires
                unit == 1_000_000_001,
                0 <= donors <= u64::MAX,
                0 <= withdrawals <= u64::MAX,
        ;
        if donors as u128 * unit > raised {
            return None;
        }
        if withdrawals as u128 * unit + balance as u128 > raised {
            return None;
        }
        Some(
            Campaign {
                cid,
                creator,
                title,
                description,
                image_url,
                goal,
                amount_raised,
                balance,
                donors,
                withdrawals,
                timestamp,
                active,
            },
        )
    }

    /// The campaign's identifier.
    pub fn cid(&self) -> (cid: u64)
        ensures
            cid == self@.cid,
    {
        self.cid
    }

    /// The identity that created the campaign and owns it.
    pub fn creator(&self) -> (creator: Identity)
        ensures
            creator == self@.creator,
    {
        self.creator
    }

    /// The campaign's title.
    pub fn title(&self) -> (title: &str)
        ensures
            title@ == self@.title,
            text_fits(title@),
    {
        proof {
            use_type_invariant(self);
        }
        self.title.as_str()
    }

    /// The campaign's description.
    pub fn description(&self) -> (description: &str)
        ensures
            description@ == self@.description,
            text_fits(description@),
    {
        proof {
            use_type_invariant(self);
        }
        self.description.as_str()
    }

    /// Where the campaign's image is found.
    pub fn image_url(&self) -> (image_url: &str)
        ensures
            image_url@ == self@.image_url,
            text_fits(image_url@),
    {
        proof {
            use_type_invariant(self);
        }
        self.image_url.as_str()
    }

    /// The amount that the campaign sets out to raise.
    pub fn goal(&self) -> (goal: u64)
        ensures
            goal == self@.goal,
            goal > MINIMUM_UNIT,
    {
        proof {
            use_type_invariant(self);
        }
        self.goal
    }

    /// The total of all accepted donations. Withdrawals do not reduce it.
    pub fn amount_raised(&self) -> (amount_raised: u64)
        ensures
            amount_raised == self@.amount_raised,
    {
        self.amount_raised
    }

    /// The funds held in escrow that can still be withdrawn.
    pub fn balance(&self) -> (balance: u64)
        ensures
            balance == self@.balance,
            balance <= self@.amount_raised,
    {
        proof {
            use_type_invariant(self);
        }
        self.balance
    }

    /// The number of accepted donations.
    pub fn donors(&self) -> (donors: u64)
        ensures
            donors == self@.donors,
    {
        self.donors
    }

    /// The number of accepted withdrawals.
    pub fn withdrawals(&self) -> (withdrawals: u64)
        ensures
            withdrawals == self@.withdrawals,
    {
        self.withdrawals
    }

    /// When the campaign was created.
    pub fn timestamp(&self) -> (timestamp: u64)
        ensures
            timestamp == self@.timestamp,
    {
        self.timestamp
    }

    /// Whether the campaign is active: `false` once it has been deleted.
    pub fn active(&self) -> (active: bool)
        ensures
            active == self@.active,
    {
        self.active
    }
}

} // verus!
