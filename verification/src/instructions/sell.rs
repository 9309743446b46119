use vstd::prelude::*;

use vstd::arithmetic::mul::lemma_mul_upper_bound;

use crate::account::AccountId;
use crate::error::F44Code;
use crate::events::TradeEvent;
use crate::pricing;
use crate::requests::{LedgerRequest, Party, SigningAuthority, TokenKind, TradeOutcome};
use crate::state::{BondingCurve, Global, PricingModel};

verus! {

/// Why a constant-product sell refuses, if it does, after the common
/// guards passed: the checks in the order the handler makes them.
pub open spec fn spec_sell_err_cp(g: Global, c: BondingCurve, a: u64, min_payment: u64) -> Option<
    F44Code,
> {
    let vsr = c.virtual_sol_reserves as int;
    let vtr = c.virtual_token_reserves as int;
    if a > c.virtual_token_reserves {
        Some(F44Code::InsufficientLiquidity)
    } else {
        let proceeds = pricing::spec_sell_proceeds(vsr, vtr, a as int);
        if proceeds < min_payment {
            Some(F44Code::TooLittleReceived)
        } else if c.real_sol_reserves < proceeds {
            Some(F44Code::InsufficientBalance)
        } else if vtr + a > u64::MAX || c.real_token_reserves + a > u64::MAX {
            Some(F44Code::MathOverflow)
        } else if pricing::spec_cp_price(vsr - proceeds, vtr + a) > u64::MAX
            || pricing::spec_cp_mcap(vsr - proceeds, c.token_total_supply as int, vtr + a)
            > u64::MAX {
            Some(F44Code::MathOverflow)
        } else {
            None
        }
    }
}

/// Why a linear sell refuses, if it does, after the common guards
/// passed.
pub open spec fn spec_sell_err_linear(
    g: Global,
    c: BondingCurve,
    initial_price: u64,
    curve_slope: u64,
    a: u64,
    min_payment: u64,
) -> Option<F44Code> {
    let slope = curve_slope as int;
    let init = initial_price as int;
    let r0 = c.token_reserves as int;
    if c.token_reserves < a {
        Some(F44Code::NotEnoughAmount)
    } else if !pricing::spec_linear_fits(slope, init, r0, a as int, false) {
        Some(F44Code::InvalidPrice)
    } else if pricing::spec_trapezoid_payment(slope, init, r0, r0 - a, a as int) > u64::MAX {
        Some(F44Code::InvalidCalculation)
    } else {
        let proceeds = pricing::spec_trapezoid_payment(slope, init, r0, r0 - a, a as int);
        if proceeds < min_payment {
            Some(F44Code::TooLittleReceived)
        } else if g.f44_supply < proceeds {
            Some(F44Code::InsufficientBalance)
        } else if pricing::spec_linear_mcap(
            pricing::spec_price(slope, init, r0 - a),
            c.token_total_supply as int,
        ) > u64::MAX {
            Some(F44Code::MathOverflow)
        } else {
            None
        }
    }
}

/// Why `sell` refuses, if it does: the whole decision, in the order the
/// handler takes it. `sell` succeeds exactly when this is `None`.
pub open spec fn spec_sell_err(
    g: Global,
    c: BondingCurve,
    a: u64,
    min_payment: u64,
) -> Option<F44Code> {
    if a == 0 {
        Some(F44Code::ZeroAmount)
    } else if c.complete {
        Some(F44Code::CurveComplete)
    } else {
        match c.model {
            PricingModel::ConstantProduct => spec_sell_err_cp(g, c, a, min_payment),
            PricingModel::LinearSecondary { initial_price, curve_slope } => spec_sell_err_linear(
                g,
                c,
                initial_price,
                curve_slope,
                a,
                min_payment,
            ),
        }
    }
}

/// What a successful sell of `a` token base units grosses before the
/// fee.
pub open spec fn spec_sell_payment(c: BondingCurve, a: u64) -> int {
    match c.model {
        PricingModel::ConstantProduct => pricing::spec_sell_proceeds(
            c.virtual_sol_reserves as int,
            c.virtual_token_reserves as int,
            a as int,
        ),
        PricingModel::LinearSecondary { initial_price, curve_slope } => pricing::spec_trapezoid_payment(
            curve_slope as int,
            initial_price as int,
            c.token_reserves as int,
            c.token_reserves - a,
            a as int,
        ),
    }
}

/// What of the proceeds reaches the seller after the fee.
pub open spec fn spec_sell_net(g: Global, c: BondingCurve, a: u64) -> int {
    spec_sell_payment(c, a) - pricing::spec_fee(spec_sell_payment(c, a), g.fee_basis_points as int)
}

/// The price a successful sell leaves on the curve.
pub open spec fn spec_sell_price(c: BondingCurve, a: u64) -> int {
    match c.model {
        PricingModel::ConstantProduct => pricing::spec_cp_price(
            c.virtual_sol_reserves - spec_sell_payment(c, a),
            c.virtual_token_reserves + a,
        ),
        PricingModel::LinearSecondary { initial_price, curve_slope } => pricing::spec_price(
            curve_slope as int,
            initial_price as int,
            c.token_reserves - a,
        ),
    }
}

/// The market cap a successful sell leaves on the curve.
pub open spec fn spec_sell_mcap(c: BondingCurve, a: u64) -> int {
    match c.model {
        PricingModel::ConstantProduct => pricing::spec_cp_mcap(
            c.virtual_sol_reserves - spec_sell_payment(c, a),
            c.token_total_supply as int,
            c.virtual_token_reserves + a,
        ),
        PricingModel::LinearSecondary { .. } => pricing::spec_linear_mcap(
            spec_sell_price(c, a),
            c.token_total_supply as int,
        ),
    }
}

/// The curve a successful sell leaves behind: the exact inverse of a
/// buy's reserve move, with the gross proceeds leaving the settlement
/// side in lockstep between its virtual and real reserves. A sell never
/// re-evaluates completion.
pub open spec fn spec_sell_curve(c: BondingCurve, a: u64) -> BondingCurve {
    let proceeds = spec_sell_payment(c, a);
    let price = spec_sell_price(c, a);
    let mcap = spec_sell_mcap(c, a);
    match c.model {
        PricingModel::ConstantProduct => BondingCurve {
            virtual_token_reserves: (c.virtual_token_reserves + a) as u64,
            virtual_sol_reserves: (c.virtual_sol_reserves - proceeds) as u64,
            real_token_reserves: (c.real_token_reserves + a) as u64,
            real_sol_reserves: (c.real_sol_reserves - proceeds) as u64,
            current_price: price as u64,
            current_mcap: mcap as u64,
            ..c
        },
        PricingModel::LinearSecondary { .. } => BondingCurve {
            token_reserves: (c.token_reserves - a) as u64,
            current_price: price as u64,
            current_mcap: mcap as u64,
            ..c
        },
    }
}

/// The configuration a successful sell leaves behind: only a linear
/// sell touches it, paying the gross proceeds out of the secondary
/// supply counter.
pub open spec fn spec_sell_global(g: Global, c: BondingCurve, a: u64) -> Global {
    match c.model {
        PricingModel::ConstantProduct => g,
        PricingModel::LinearSecondary { .. } => Global {
            f44_supply: (g.f44_supply - spec_sell_payment(c, a)) as u64,
            ..g
        },
    }
}

/// Sell `token_amount` token base units back to the curve for at least
/// `min_payment` settlement base units. On success the fee goes to the
/// fee recipient and the net proceeds to the seller, both out of the
/// settlement vault; a constant-product curve takes the tokens back into
/// its vault, a linear curve has them destroyed. Any refusal leaves
/// curve and configuration untouched. Completion is never re-evaluated
/// on a sell: only buys can complete a curve.
pub fn sell(
    global: &mut Global,
    curve: &mut BondingCurve,
    caller: AccountId,
    token_amount: u64,
    min_payment: u64,
    timestamp: i64,
) -> (r: Result<TradeOutcome, F44Code>)
    requires
        old(global).wf(),
        old(curve).wf(),
    ensures
        (match r {
            Err(e) => {
                &&& spec_sell_err(*old(global), *old(curve), token_amount, min_payment) == Some(e)
                &&& *final(global) == *old(global)
                &&& *final(curve) == *old(curve)
            },
            Ok(out) => {
                &&& spec_sell_err(*old(global), *old(curve), token_amount, min_payment) is None
                &&& out.payment == spec_sell_payment(*old(curve), token_amount)
                &&& out.fee == pricing::spec_fee(out.payment as int, old(global).fee_basis_points as int)
                &&& out.fee + out.net == out.payment
                &&& out.net == spec_sell_net(*old(global), *old(curve), token_amount)
                &&& *final(curve) == spec_sell_curve(*old(curve), token_amount)
                &&& *final(global) == spec_sell_global(*old(global), *old(curve), token_amount)
                &&& out.requests@ == (match old(curve).model {
                    PricingModel::ConstantProduct => seq![
                        (LedgerRequest::Transfer {
                            token: TokenKind::CurveToken,
                            from: Party::User,
                            to: Party::CurveVault,
                            amount: token_amount,
                            authority: SigningAuthority::UserSigner,
                        }),
                        (LedgerRequest::Transfer {
                            token: TokenKind::NativeUnit,
                            from: Party::CurveVault,
                            to: Party::FeeRecipient,
                            amount: out.fee,
                            authority: SigningAuthority::CurveDerived,
                        }),
                        (LedgerRequest::Transfer {
                            token: TokenKind::NativeUnit,
                            from: Party::CurveVault,
                            to: Party::User,
                            amount: out.net,
                            authority: SigningAuthority::CurveDerived,
                        }),
                    ],
                    PricingModel::LinearSecondary { .. } => seq![
                        (LedgerRequest::Burn {
                            token: TokenKind::CurveToken,
                            from: Party::User,
                            amount: token_amount,
                            authority: SigningAuthority::UserSigner,
                        }),
                        (LedgerRequest::Transfer {
                            token: TokenKind::SecondaryToken,
                            from: Party::SecondaryVault,
                            to: Party::FeeRecipient,
                            amount: out.fee,
                            authority: SigningAuthority::GlobalDerived,
                        }),
                        (LedgerRequest::Transfer {
                            token: TokenKind::SecondaryToken,
                            from: Party::SecondaryVault,
                            to: Party::User,
                            amount: out.net,
                            authority: SigningAuthority::GlobalDerived,
                        }),
                    ],
                })
                &&& out.trade == (TradeEvent {
                    mint: old(curve).token_mint,
                    amount: out.payment,
                    token_amount,
                    is_buy: false,
                    user: caller,
                    timestamp,
                    token_reserves: (match old(curve).model {
                        PricingModel::ConstantProduct => final(curve).virtual_token_reserves,
                        PricingModel::LinearSecondary { .. } => final(curve).token_reserves,
                    }),
                    last_price: final(curve).current_price,
                    current_mcap: final(curve).current_mcap,
                })
                &&& out.completion is None
            },
        }),
        final(curve).complete == old(curve).complete,
        (r is Ok && old(curve).model is ConstantProduct) ==> (
        old(curve).virtual_sol_reserves - final(curve).virtual_sol_reserves
            == old(curve).real_sol_reserves - final(curve).real_sol_reserves
            && final(curve).virtual_token_reserves - old(curve).virtual_token_reserves
            == final(curve).real_token_reserves - old(curve).real_token_reserves),
        final(global).wf(),
        final(curve).wf(),
{
    if token_amount == 0 {
        return Err(F44Code::ZeroAmount);
    }
    if curve.complete {
        return Err(F44Code::CurveComplete);
    }
    let model = curve.model;
    match model {
        PricingModel::ConstantProduct => {
            if token_amount > curve.virtual_token_reserves {
                return Err(F44Code::InsufficientLiquidity);
            }
            let proceeds: u64 = pricing::sell_proceeds(
                curve.virtual_sol_reserves,
                curve.virtual_token_reserves,
                token_amount,
            );
            if proceeds < min_payment {
                return Err(F44Code::TooLittleReceived);
            }
            if curve.real_sol_reserves < proceeds {
                return Err(F44Code::InsufficientBalance);
            }
            let new_vtr: u64 = match curve.virtual_token_reserves.checked_add(token_amount) {
                Some(v) => v,
                None => { return Err(F44Code::MathOverflow) },
            };
            let new_rtr: u64 = match curve.real_token_reserves.checked_add(token_amount) {
                Some(v) => v,
                None => { return Err(F44Code::MathOverflow) },
            };
            let new_vsr: u64 = curve.virtual_sol_reserves - proceeds;
            let new_rsr: u64 = curve.real_sol_reserves - proceeds;
            let price: u64 = match pricing::mul_div(new_vsr, pricing::PRICE_SCALE, new_vtr) {
                Ok(v) => v,
                Err(e) => { return Err(e) },
            };
            let mcap: u64 = match pricing::mul_div(new_vsr, curve.token_total_supply, new_vtr) {
                Ok(v) => v,
                Err(e) => { return Err(e) },
            };
            let (fee, net) = pricing::fee_split(proceeds, global.fee_basis_points);
            curve.virtual_token_reserves = new_vtr;
            curve.virtual_sol_reserves = new_vsr;
            curve.real_token_reserves = new_rtr;
            curve.real_sol_reserves = new_rsr;
            curve.current_price = price;
            curve.current_mcap = mcap;
            let mut requests: Vec<LedgerRequest> = Vec::new();
            requests.push(
                LedgerRequest::Transfer {
                    token: TokenKind::CurveToken,
                    from: Party::User,
                    to: Party::CurveVault,
                    amount: token_amount,
                    authority: SigningAuthority::UserSigner,
                },
            );
            requests.push(
                LedgerRequest::Transfer {
                    token: TokenKind::NativeUnit,
                    from: Party::CurveVault,
                    to: Party::FeeRecipient,
                    amount: fee,
                    authority: SigningAuthority::CurveDerived,
                },
            );
            requests.push(
                LedgerRequest::Transfer {
                    token: TokenKind::NativeUnit,
                    from: Party::CurveVault,
                    to: Party::User,
                    amount: net,
                    authority: SigningAuthority::CurveDerived,
                },
            );
            let trade = TradeEvent {
                mint: curve.token_mint,
                amount: proceeds,
                token_amount,
                is_buy: false,
                user: caller,
                timestamp,
                token_reserves: curve.virtual_token_reserves,
                last_price: curve.current_price,
                current_mcap: curve.current_mcap,
            };
            proof {
                assert(requests@ =~= seq![
                    (LedgerRequest::Transfer {
                        token: TokenKind::CurveToken,
                        from: Party::User,
                        to: Party::CurveVault,
                        amount: token_amount,
                        authority: SigningAuthority::UserSigner,
                    }),
                    (LedgerRequest::Transfer {
                        token: TokenKind::NativeUnit,
                        from: Party::CurveVault,
                        to: Party::FeeRecipient,
                        amount: fee,
                        authority: SigningAuthority::CurveDerived,
                    }),
                    (LedgerRequest::Transfer {
                        token: TokenKind::NativeUnit,
                        from: Party::CurveVault,
                        to: Party::User,
                        amount: net,
                        authority: SigningAuthority::CurveDerived,
                    }),
                ]);
            }
            Ok(TradeOutcome { payment: proceeds, fee, net, requests, trade, completion: None })
        },
        PricingModel::LinearSecondary { initial_price, curve_slope } => {
            if curve.token_reserves < token_amount {
                return Err(F44Code::NotEnoughAmount);
            }
            let proceeds: u64 = match pricing::calculate_f44_cost(
                curve_slope,
                initial_price,
                curve.token_reserves,
                token_amount,
                false,
            ) {
                Ok(p) => p,
                Err(e) => { return Err(e) },
            };
            if proceeds < min_payment {
                return Err(F44Code::TooLittleReceived);
            }
            if global.f44_supply < proceeds {
                return Err(F44Code::InsufficientBalance);
            }
            let new_r: u64 = curve.token_reserves - token_amount;
            proof {
                lemma_mul_upper_bound(
                    curve_slope as int,
                    u64::MAX as int,
                    new_r as int,
                    u64::MAX as int,
                );
            }
            let price128: u128 = (curve_slope as u128) * (new_r as u128) + (initial_price as u128);
            let price: u64 = price128 as u64;
            let mcap: u64 = match pricing::mul_div(
                price,
                curve.token_total_supply,
                pricing::PRICE_SCALE,
            ) {
                Ok(v) => v,
                Err(e) => { return Err(e) },
            };
            let (fee, net) = pricing::fee_split(proceeds, global.fee_basis_points);
            global.f44_supply = global.f44_supply - proceeds;
            curve.token_reserves = new_r;
            curve.current_price = price;
            curve.current_mcap = mcap;
            let mut requests: Vec<LedgerRequest> = Vec::new();
            requests.push(
                LedgerRequest::Burn {
                    token: TokenKind::CurveToken,
                    from: Party::User,
                    amount: token_amount,
                    authority: SigningAuthority::UserSigner,
                },
            );
            requests.push(
                LedgerRequest::Transfer {
                    token: TokenKind::SecondaryToken,
                    from: Party::SecondaryVault,
                    to: Party::FeeRecipient,
                    amount: fee,
                    authority: SigningAuthority::GlobalDerived,
                },
            );
            requests.push(
                LedgerRequest::Transfer {
                    token: TokenKind::SecondaryToken,
                    from: Party::SecondaryVault,
                    to: Party::User,
                    amount: net,
                    authority: SigningAuthority::GlobalDerived,
                },
            );
            let trade = TradeEvent {
                mint: curve.token_mint,
                amount: proceeds,
                token_amount,
                is_buy: false,
                user: caller,
                timestamp,
                token_reserves: curve.token_reserves,
                last_price: curve.current_price,
                current_mcap: curve.current_mcap,
            };
            proof {
                assert(requests@ =~= seq![
                    (LedgerRequest::Burn {
                        token: TokenKind::CurveToken,
                        from: Party::User,
                        amount: token_amount,
                        authority: SigningAuthority::UserSigner,
                    }),
                    (LedgerRequest::Transfer {
                        token: TokenKind::SecondaryToken,
                        from: Party::SecondaryVault,
                        to: Party::FeeRecipient,
                        amount: fee,
                        authority: SigningAuthority::GlobalDerived,
                    }),
                    (LedgerRequest::Transfer {
                        token: TokenKind::SecondaryToken,
                        from: Party::SecondaryVault,
                        to: Party::User,
                        amount: net,
                        authority: SigningAuthority::GlobalDerived,
                    }),
                ]);
            }
            Ok(TradeOutcome { payment: proceeds, fee, net, requests, trade, completion: None })
        },
    }
}

} // verus!
