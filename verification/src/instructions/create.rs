use vstd::prelude::*;

use crate::account::AccountId;
use crate::error::F44Code;
use crate::events::CreateEvent;
use crate::pricing;
use crate::requests::{LedgerRequest, Party, SigningAuthority, TokenKind};
use crate::state::{BondingCurve, Global, PricingModel};

verus! {

/// What a successful `create` hands back: the new curve, the transfers
/// the ledger must perform, and the record to emit. The curve exists
/// only if the transfers commit.
pub struct CreateOutcome {
    pub curve: BondingCurve,
    pub requests: Vec<LedgerRequest>,
    pub event: CreateEvent,
}

/// Why `create` refuses, if it does: the checks in the order the handler
/// makes them.
pub open spec fn spec_create_err(
    g: Global,
    model: PricingModel,
    amount: u64,
    token_scale: u64,
) -> Option<F44Code> {
    if !g.initialized {
        Some(F44Code::NotInitialized)
    } else if g.agent_amount * token_scale != amount {
        Some(F44Code::NotEnoughAmount)
    } else {
        match model {
            PricingModel::ConstantProduct => {
                if g.initial_virtual_token_reserves == 0 {
                    Some(F44Code::InvalidReserves)
                } else if pricing::spec_cp_price(
                    g.initial_virtual_sol_reserves as int,
                    g.initial_virtual_token_reserves as int,
                ) > u64::MAX {
                    Some(F44Code::MathOverflow)
                } else {
                    None
                }
            },
            PricingModel::LinearSecondary { initial_price, curve_slope } => {
                if curve_slope * amount > u64::MAX {
                    Some(F44Code::InvalidSlope)
                } else if curve_slope * amount + initial_price > u64::MAX {
                    Some(F44Code::InvalidPrice)
                } else if g.f44_supply + g.create_fee > u64::MAX {
                    Some(F44Code::MathOverflow)
                } else {
                    None
                }
            },
        }
    }
}

/// The curve a successful `create` brings to life. A constant-product
/// curve starts from the configured virtual reserves and is priced
/// against the configured total supply; a linear curve starts at its
/// supplied initial price with nothing sold, and the deposit is its
/// whole supply. Either way the deposit fills the curve's vault and the
/// curve is not complete.
pub open spec fn spec_new_curve(
    g: Global,
    mint: AccountId,
    model: PricingModel,
    amount: u64,
) -> BondingCurve {
    match model {
        PricingModel::ConstantProduct => BondingCurve {
            token_mint: mint,
            model,
            virtual_token_reserves: g.initial_virtual_token_reserves,
            virtual_sol_reserves: g.initial_virtual_sol_reserves,
            real_token_reserves: amount,
            real_sol_reserves: 0,
            token_reserves: 0,
            token_total_supply: g.token_total_supply,
            mcap_limit: g.mcap_limit,
            current_price: pricing::spec_cp_price(
                g.initial_virtual_sol_reserves as int,
                g.initial_virtual_token_reserves as int,
            ) as u64,
            current_mcap: 0,
            complete: false,
        },
        PricingModel::LinearSecondary { initial_price, curve_slope: _ } => BondingCurve {
            token_mint: mint,
            model,
            virtual_token_reserves: 0,
            virtual_sol_reserves: 0,
            real_token_reserves: amount,
            real_sol_reserves: 0,
            token_reserves: 0,
            token_total_supply: amount,
            mcap_limit: g.mcap_limit,
            current_price: initial_price,
            current_mcap: 0,
            complete: false,
        },
    }
}

/// Create a bonding curve for `mint`. The caller must supply exactly the
/// configured agent amount of whole tokens (`token_scale` base units
/// each) as initial liquidity; it is moved into the curve's vault. A
/// linear curve additionally owes the configured creation fee in the
/// secondary token, which the supply counter records.
pub fn create(
    global: &mut Global,
    caller: AccountId,
    mint: AccountId,
    curve_id: AccountId,
    model: PricingModel,
    amount: u64,
    token_scale: u64,
) -> (r: Result<CreateOutcome, F44Code>)
    requires
        old(global).wf(),
    ensures
        (match r {
            Err(e) => {
                &&& spec_create_err(*old(global), model, amount, token_scale) == Some(e)
                &&& *final(global) == *old(global)
            },
            Ok(out) => {
                &&& spec_create_err(*old(global), model, amount, token_scale) is None
                &&& out.curve == spec_new_curve(*old(global), mint, model, amount)
                &&& out.curve.wf()
                &&& !out.curve.complete
                &&& *final(global) == (match model {
                    PricingModel::ConstantProduct => *old(global),
                    PricingModel::LinearSecondary { .. } => Global {
                        f44_supply: (old(global).f44_supply + old(global).create_fee) as u64,
                        ..*old(global)
                    },
                })
                &&& out.requests@ == (match model {
                    PricingModel::ConstantProduct => seq![
                        (LedgerRequest::Transfer {
                            token: TokenKind::CurveToken,
                            from: Party::User,
                            to: Party::CurveVault,
                            amount,
                            authority: SigningAuthority::UserSigner,
                        }),
                    ],
                    PricingModel::LinearSecondary { .. } => seq![
                        (LedgerRequest::Transfer {
                            token: TokenKind::CurveToken,
                            from: Party::User,
                            to: Party::CurveVault,
                            amount,
                            authority: SigningAuthority::UserSigner,
                        }),
                        (LedgerRequest::Transfer {
                            token: TokenKind::SecondaryToken,
                            from: Party::User,
                            to: Party::SecondaryVault,
                            amount: old(global).create_fee,
                            authority: SigningAuthority::UserSigner,
                        }),
                    ],
                })
                &&& out.event == (CreateEvent {
                    mint,
                    bonding_curve: curve_id,
                    user: caller,
                    initial_price: out.curve.current_price,
                })
            },
        }),
        final(global).wf(),
{
    if !global.initialized {
        return Err(F44Code::NotInitialized);
    }
    proof {
        vstd::arithmetic::mul::lemma_mul_upper_bound(
            global.agent_amount as int,
            u64::MAX as int,
            token_scale as int,
            u64::MAX as int,
        );
    }
    let required: u128 = (global.agent_amount as u128) * (token_scale as u128);
    if required != amount as u128 {
        return Err(F44Code::NotEnoughAmount);
    }
    let mut requests: Vec<LedgerRequest> = Vec::new();
    requests.push(
        LedgerRequest::Transfer {
            token: TokenKind::CurveToken,
            from: Party::User,
            to: Party::CurveVault,
            amount,
            authority: SigningAuthority::UserSigner,
        },
    );
    let curve: BondingCurve = match model {
        PricingModel::ConstantProduct => {
            if global.initial_virtual_token_reserves == 0 {
                return Err(F44Code::InvalidReserves);
            }
            let price: u64 = match pricing::mul_div(
                global.initial_virtual_sol_reserves,
                pricing::PRICE_SCALE,
                global.initial_virtual_token_reserves,
            ) {
                Ok(v) => v,
                Err(e) => { return Err(e) },
            };
            BondingCurve {
                token_mint: mint,
                model,
                virtual_token_reserves: global.initial_virtual_token_reserves,
                virtual_sol_reserves: global.initial_virtual_sol_reserves,
                real_token_reserves: amount,
                real_sol_reserves: 0,
                token_reserves: 0,
                token_total_supply: global.token_total_supply,
                mcap_limit: global.mcap_limit,
                current_price: price,
                current_mcap: 0,
                complete: false,
            }
        },
        PricingModel::LinearSecondary { initial_price, curve_slope } => {
            proof {
                vstd::arithmetic::mul::lemma_mul_upper_bound(
                    curve_slope as int,
                    u64::MAX as int,
                    amount as int,
                    u64::MAX as int,
                );
            }
            let slope_part: u128 = (curve_slope as u128) * (amount as u128);
            if slope_part > u64::MAX as u128 {
                return Err(F44Code::InvalidSlope);
            }
            if slope_part + (initial_price as u128) > u64::MAX as u128 {
                return Err(F44Code::InvalidPrice);
            }
            let new_supply: u64 = match global.f44_supply.checked_add(global.create_fee) {
                Some(v) => v,
                None => { return Err(F44Code::MathOverflow) },
            };
            requests.push(
                LedgerRequest::Transfer {
                    token: TokenKind::SecondaryToken,
                    from: Party::User,
                    to: Party::SecondaryVault,
                    amount: global.create_fee,
                    authority: SigningAuthority::UserSigner,
                },
            );
            let curve = BondingCurve {
                token_mint: mint,
                model,
                virtual_token_reserves: 0,
                virtual_sol_reserves: 0,
                real_token_reserves: amount,
                real_sol_reserves: 0,
                token_reserves: 0,
                token_total_supply: amount,
                mcap_limit: global.mcap_limit,
                current_price: initial_price,
                current_mcap: 0,
                complete: false,
            };
            global.f44_supply = new_supply;
            curve
        },
    };
    let event = CreateEvent { mint, bonding_curve: curve_id, user: caller, initial_price: curve.current_price };
    proof {
        assert(requests@ =~= (match model {
            PricingModel::ConstantProduct => seq![
                (LedgerRequest::Transfer {
                    token: TokenKind::CurveToken,
                    from: Party::User,
                    to: Party::CurveVault,
                    amount,
                    authority: SigningAuthority::UserSigner,
                }),
            ],
            PricingModel::LinearSecondary { .. } => seq![
                (LedgerRequest::Transfer {
                    token: TokenKind::CurveToken,
                    from: Party::User,
                    to: Party::CurveVault,
                    amount,
                    authority: SigningAuthority::UserSigner,
                }),
                (LedgerRequest::Transfer {
                    token: TokenKind::SecondaryToken,
                    from: Party::User,
                    to: Party::SecondaryVault,
                    amount: old(global).create_fee,
                    authority: SigningAuthority::UserSigner,
                }),
            ],
        }));
    }
    Ok(CreateOutcome { curve, requests, event })
}

/// Fund the secondary-token vault. The deposit moves `amount` from the
/// caller into the vault and the supply counter records it; an amount
/// the counter cannot hold is refused.
pub fn deposit(global: &mut Global, amount: u64) -> (r: Result<LedgerRequest, F44Code>)
    requires
        old(global).wf(),
    ensures
        (match r {
            Err(e) => {
                &&& e == F44Code::MathOverflow
                &&& old(global).f44_supply + amount > u64::MAX
                &&& *final(global) == *old(global)
            },
            Ok(req) => {
                &&& old(global).f44_supply + amount <= u64::MAX
                &&& *final(global) == (Global {
                    f44_supply: (old(global).f44_supply + amount) as u64,
                    ..*old(global)
                })
                &&& req == (LedgerRequest::Transfer {
                    token: TokenKind::SecondaryToken,
                    from: Party::User,
                    to: Party::SecondaryVault,
                    amount,
                    authority: SigningAuthority::UserSigner,
                })
            },
        }),
        final(global).wf(),
{
    let new_supply: u64 = match global.f44_supply.checked_add(amount) {
        Some(v) => v,
        None => { return Err(F44Code::MathOverflow) },
    };
    global.f44_supply = new_supply;
    Ok(
        LedgerRequest::Transfer {
            token: TokenKind::SecondaryToken,
            from: Party::User,
            to: Party::SecondaryVault,
            amount,
            authority: SigningAuthority::UserSigner,
        },
    )
}

} // verus!
