use vstd::prelude::*;

use crate::account::AccountId;
use crate::error::F44Code;
use crate::events::SetParamsEvent;
use crate::pricing;
use crate::state::Global;

verus! {

/// Every parameter `set_params` overwrites, in one value.
#[derive(Clone, Copy, Debug, PartialEq, Eq, Structural)]
pub struct ConfigParams {
    pub fee_recipient: AccountId,
    pub owner_wallet: AccountId,
    pub agent_amount: u64,
    pub fee_basis_points: u64,
    pub mcap_limit: u64,
    pub create_fee: u64,
    pub initial_virtual_token_reserves: u64,
    pub initial_virtual_sol_reserves: u64,
    pub token_total_supply: u64,
}

/// The configuration after a successful `set_params`: the parameters are
/// overwritten, while the lifecycle flag, the authority and the supply
/// counter stand.
pub open spec fn spec_updated_global(g: Global, p: ConfigParams) -> Global {
    Global {
        fee_recipient: p.fee_recipient,
        owner_wallet: p.owner_wallet,
        agent_amount: p.agent_amount,
        fee_basis_points: p.fee_basis_points,
        mcap_limit: p.mcap_limit,
        create_fee: p.create_fee,
        initial_virtual_token_reserves: p.initial_virtual_token_reserves,
        initial_virtual_sol_reserves: p.initial_virtual_sol_reserves,
        token_total_supply: p.token_total_supply,
        ..g
    }
}

/// Why `set_params` refuses, if it does: the checks in the order the
/// handler makes them.
pub open spec fn spec_set_params_err(g: Global, caller: AccountId, p: ConfigParams) -> Option<
    F44Code,
> {
    if !g.initialized {
        Some(F44Code::NotInitialized)
    } else if caller != g.authority {
        Some(F44Code::NotAuthorized)
    } else if p.fee_basis_points > pricing::FEE_BASIS_MAX {
        Some(F44Code::InvalidAmount)
    } else {
        None
    }
}

/// Overwrite the configuration's parameters. Gated on the current
/// authority; a caller holding any other identity is refused and the
/// configuration is left untouched. Changing the authority itself is
/// deliberately not a side effect of this operation: see
/// `set_authority`.
pub fn set_params(global: &mut Global, caller: AccountId, params: ConfigParams) -> (r: Result<
    SetParamsEvent,
    F44Code,
>)
    requires
        old(global).wf(),
    ensures
        (match r {
            Err(e) => {
                &&& spec_set_params_err(*old(global), caller, params) == Some(e)
                &&& *final(global) == *old(global)
            },
            Ok(ev) => {
                &&& spec_set_params_err(*old(global), caller, params) is None
                &&& *final(global) == spec_updated_global(*old(global), params)
                &&& ev == (SetParamsEvent {
                    fee_recipient: params.fee_recipient,
                    owner_wallet: params.owner_wallet,
                    agent_amount: params.agent_amount,
                    fee_basis_points: params.fee_basis_points,
                    mcap_limit: params.mcap_limit,
                    create_fee: params.create_fee,
                    initial_virtual_token_reserves: params.initial_virtual_token_reserves,
                    initial_virtual_sol_reserves: params.initial_virtual_sol_reserves,
                    token_total_supply: params.token_total_supply,
                })
            },
        }),
        final(global).authority == old(global).authority,
        final(global).initialized == old(global).initialized,
        final(global).f44_supply == old(global).f44_supply,
        final(global).wf(),
{
    if !global.initialized {
        return Err(F44Code::NotInitialized);
    }
    if caller != global.authority {
        return Err(F44Code::NotAuthorized);
    }
    if params.fee_basis_points > pricing::FEE_BASIS_MAX {
        return Err(F44Code::InvalidAmount);
    }
    global.fee_recipient = params.fee_recipient;
    global.owner_wallet = params.owner_wallet;
    global.agent_amount = params.agent_amount;
    global.fee_basis_points = params.fee_basis_points;
    global.mcap_limit = params.mcap_limit;
    global.create_fee = params.create_fee;
    global.initial_virtual_token_reserves = params.initial_virtual_token_reserves;
    global.initial_virtual_sol_reserves = params.initial_virtual_sol_reserves;
    global.token_total_supply = params.token_total_supply;
    Ok(
        SetParamsEvent {
            fee_recipient: params.fee_recipient,
            owner_wallet: params.owner_wallet,
            agent_amount: params.agent_amount,
            fee_basis_points: params.fee_basis_points,
            mcap_limit: params.mcap_limit,
            create_fee: params.create_fee,
            initial_virtual_token_reserves: params.initial_virtual_token_reserves,
            initial_virtual_sol_reserves: params.initial_virtual_sol_reserves,
            token_total_supply: params.token_total_supply,
        },
    )
}

/// Hand the authority role to another identity. This is the one
/// operation that rotates the authority, gated on the current one.
pub fn set_authority(global: &mut Global, caller: AccountId, new_authority: AccountId) -> (r:
    Result<(), F44Code>)
    requires
        old(global).wf(),
    ensures
        (if !old(global).initialized {
            &&& r == Err::<(), F44Code>(F44Code::NotInitialized)
            &&& *final(global) == *old(global)
        } else if caller != old(global).authority {
            &&& r == Err::<(), F44Code>(F44Code::NotAuthorized)
            &&& *final(global) == *old(global)
        } else {
            &&& r == Ok::<(), F44Code>(())
            &&& *final(global) == (Global { authority: new_authority, ..*old(global) })
        }),
        final(global).wf(),
{
    if !global.initialized {
        return Err(F44Code::NotInitialized);
    }
    if caller != global.authority {
        return Err(F44Code::NotAuthorized);
    }
    global.authority = new_authority;
    Ok(())
}

} // verus!
