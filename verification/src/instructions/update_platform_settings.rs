use vstd::prelude::*;
use crate::constants::{MAX_PLATFORM_FEE, MIN_PLATFORM_FEE};
use crate::errors::ErrorCode;
use crate::identity::Identity;
use crate::program_state::{fee_allowed, ProgramState, ProgramStateView};

verus! {

/// The first rule that a request to change the fee breaks, if any: the
/// caller must be the platform's address, and the fee must be allowed.
pub open spec fn settings_rejection(state: ProgramStateView, caller: Identity, new_fee: u64)
    -> Option<ErrorCode> {
    if caller != state.platform_address {
        Some(ErrorCode::UnauthorisedAccess)
    } else if !fee_allowed(new_fee) {
        Some(ErrorCode::InvalidPlatformFee)
    } else {
        None
    }
}

/// Sets the platform's fee percentage on behalf of `caller`.
///
/// A request that breaks a rule is rejected and the registry is left as it
/// was. Otherwise the fee is replaced, and nothing else.
pub fn update_platform_settings(state: &mut ProgramState, caller: Identity, new_platform_fee: u64)
    -> (outcome: Result<(), ErrorCode>)
    ensures
        match settings_rejection(old(state)@, caller, new_platform_fee) {
            Some(code) => outcome == Err::<(), ErrorCode>(code) && final(state)@ == old(state)@,
            None => outcome == Ok::<(), ErrorCode>(()) && final(state)@ == (ProgramStateView {
                platform_fee: new_platform_fee,
                ..old(state)@
            }),
        },
        final(state)@.wf(),
        final(state)@.campaign_count == old(state)@.campaign_count,
        final(state)@.initialized == old(state)@.initialized,
        final(state)@.platform_address == old(state)@.platform_address,
{
    proof {
        use_type_invariant(&*state);
    }
    if !caller.same_as(&state.platform_address) {
        return Err(ErrorCode::UnauthorisedAccess);
    }
    if new_platform_fee < MIN_PLATFORM_FEE || new_platform_fee > MAX_PLATFORM_FEE {
        return Err(ErrorCode::InvalidPlatformFee);
    }
    state.platform_fee = new_platform_fee;
    Ok(())
}

} // verus!
