use vstd::prelude::*;

use crate::account::AccountId;
use crate::error::F44Code;
use crate::state::Global;

verus! {

/// The configuration `initialize` leaves behind: the caller holds every
/// role until `set_params` or `set_authority` change them, and every
/// numeric parameter starts at zero.
pub open spec fn spec_initialized_global(caller: AccountId) -> Global {
    Global {
        initialized: true,
        authority: caller,
        fee_recipient: caller,
        owner_wallet: caller,
        agent_amount: 0,
        fee_basis_points: 0,
        mcap_limit: 0,
        create_fee: 0,
        initial_virtual_token_reserves: 0,
        initial_virtual_sol_reserves: 0,
        token_total_supply: 0,
        f44_supply: 0,
    }
}

/// One-time bootstrap of the configuration. The first caller becomes the
/// authority; a second call is refused and changes nothing.
pub fn initialize(global: &mut Global, caller: AccountId) -> (r: Result<(), F44Code>)
    ensures
        (if old(global).initialized {
            &&& r == Err::<(), F44Code>(F44Code::AlreadyInitialized)
            &&& *final(global) == *old(global)
        } else {
            &&& r == Ok::<(), F44Code>(())
            &&& *final(global) == spec_initialized_global(caller)
        }),
        !old(global).initialized ==> final(global).wf(),
{
    if global.initialized {
        return Err(F44Code::AlreadyInitialized);
    }
    *global = Global {
        initialized: true,
        authority: caller,
        fee_recipient: caller,
        owner_wallet: caller,
        agent_amount: 0,
        fee_basis_points: 0,
        mcap_limit: 0,
        create_fee: 0,
        initial_virtual_token_reserves: 0,
        initial_virtual_sol_reserves: 0,
        token_total_supply: 0,
        f44_supply: 0,
    };
    Ok(())
}

} // verus!
