use vstd::prelude::*;
use crate::constants::DEFAULT_PLATFORM_FEE;
use crate::errors::ErrorCode;
use crate::identity::Identity;
use crate::program_state::{ProgramState, ProgramStateView};

verus! {

/// The registry that initialization by `deployer` yields: no campaigns, the
/// default fee, and the deployer as the platform's address.
pub open spec fn initial_state(deployer: Identity) -> ProgramStateView {
    ProgramStateView {
        initialized: true,
        campaign_count: 0,
        platform_fee: DEFAULT_PLATFORM_FEE,
        platform_address: deployer,
    }
}

/// Initializes the platform on behalf of `deployer`.
///
/// A registry that is already initialized is left as it was and the call
/// is rejected, so a second call on the same registry always fails.
pub fn initialize(state: &mut ProgramState, deployer: Identity) -> (outcome: Result<(), ErrorCode>)
    ensures
        old(state)@.initialized ==> outcome == Err::<(), ErrorCode>(
            ErrorCode::AlreadyInitialized,
        ) && final(state)@ == old(state)@,
        !old(state)@.initialized ==> outcome == Ok::<(), ErrorCode>(()) && final(state)@
            == initial_state(deployer),
        final(state)@.initialized,
        final(state)@.wf(),
{
    proof {
        use_type_invariant(&*state);
    }
    if state.initialized {
        return Err(ErrorCode::AlreadyInitialized);
    }
    state.campaign_count = 0;
    state.platform_fee = DEFAULT_PLATFORM_FEE;
    state.platform_address = deployer;
    state.initialized = true;
    Ok(())
}

} // verus!
