use vstd::prelude::*;
use crate::constants::{MAX_PLATFORM_FEE, MIN_PLATFORM_FEE};
use crate::identity::Identity;

verus! {

/// What the platform's registry holds.
pub struct ProgramStateView {
    pub initialized: bool,
    pub campaign_count: u64,
    pub platform_fee: u64,
    pub platform_address: Identity,
}

impl ProgramStateView {
    /// The invariant of the registry: the fee percentage never exceeds the
    /// highest allowed one, and once the platform is initialized it is at
    /// least the lowest allowed one.
    pub open spec fn wf(self) -> bool {
        &&& self.platform_fee <= MAX_PLATFORM_FEE
        &&& self.initialized ==> MIN_PLATFORM_FEE <= self.platform_fee
    }
}

/// Whether a fee percentage may be set: between the lowest and the highest
/// allowed one, both included.
pub open spec fn fee_allowed(fee: u64) -> bool {
    MIN_PLATFORM_FEE <= fee <= MAX_PLATFORM_FEE
}

/// The platform's registry: the one record that holds the fee percentage,
/// the identity that receives the fees and may change them, and the number
/// of campaigns created so far.
///
/// A value of this type always satisfies `ProgramStateView::wf`.
#[derive(Clone, Copy, Debug, PartialEq, Eq)]
pub struct ProgramState {
    pub(crate) initialized: bool,
    pub(crate) campaign_count: u64,
    pub(crate) platform_fee: u64,
    pub(crate) platform_address: Identity,
}

impl View for ProgramState {
    type V = ProgramStateView;

    open(crate) spec fn view(&self) -> ProgramStateView {
        ProgramStateView {
            initialized: self.initialized,
            campaign_count: self.campaign_count,
            platform_fee: self.platform_fee,
            platform_address: self.platform_address,
        }
    }
}

impl ProgramState {
    #[verifier::type_invariant]
    pub open(crate) spec fn inv(&self) -> bool {
        self@.wf()
    }

    /// A registry that has not been initialized yet: no campaigns, no fee,
    /// and the zero identity in the place of the platform's address.
    pub fn uninitialized() -> (state: ProgramState)
        ensures
            !state@.initialized,
            state@.campaign_count == 0,
            state@.platform_fee == 0,
            forall|i: int| 0 <= i < 32 ==> state@.platform_address.bytes[i] == 0,
            state@.wf(),
    {
        ProgramState {
            initialized: false,
            campaign_count: 0,
            platform_fee: 0,
            platform_address: Identity::zero(),
        }
    }

    /// The registry with the given contents, or `None` where they break the
    /// registry's invariant.
    pub fn from_parts(
        initialized: bool,
        campaign_count: u64,
        platform_fee: u64,
        platform_address: Identity,
    ) -> (state: Option<ProgramState>)
        ensures
            match state {
                Some(s) => s@ == (ProgramStateView {
                    initialized,
                    campaign_count,
                    platform_fee,
                    platform_address,
                }) && s@.wf(),
                None => !(ProgramStateView {
                    initialized,
                    campaign_count,
                    platform_fee,
                    platform_address,
                }).wf(),
            },
    {
        if platform_fee > MAX_PLATFORM_FEE || (initialized && platform_fee < MIN_PLATFORM_FEE) {
            None
        } else {
            Some(ProgramState { initialized, campaign_count, platform_fee, platform_address })
        }
    }

    /// Whether the platform has been initialized.
    pub fn initialized(&self) -> (initialized: bool)
        ensures
            initialized == self@.initialized,
    {
        self.initialized
    }

    /// The number of campaigns created so far, which is also the
    /// identifier of the newest one.
    pub fn campaign_count(&self) -> (count: u64)
        ensures
            count == self@.campaign_count,
    {
        self.campaign_count
    }

    /// The fee percentage taken from each withdrawal.
    pub fn platform_fee(&self) -> (fee: u64)
        ensures
            fee == self@.platform_fee,
            fee <= MAX_PLATFORM_FEE,
            self@.initialized ==> MIN_PLATFORM_FEE <= fee,
    {
        proof {
            use_type_invariant(self);
        }
        self.platform_fee
    }

    /// The identity that receives the fees and may change the fee.
    pub fn platform_address(&self) -> (address: Identity)
        ensures
            address == self@.platform_address,
    {
        self.platform_address
    }
}

} // verus!
