use vstd::prelude::*;

use vstd::arithmetic::mul::lemma_mul_upper_bound;

use crate::account::AccountId;
use crate::error::F44Code;
use crate::events::{CompleteEvent, TradeEvent};
use crate::pricing;
use crate::requests::{LedgerRequest, Party, SigningAuthority, TokenKind, TradeOutcome};
use crate::state::{BondingCurve, Global, PricingModel};

verus! {

/// Why a constant-product buy refuses, if it does, after the common
/// guards passed: the checks in the order the handler makes them.
pub open spec fn spec_buy_err_cp(g: Global, c: BondingCurve, a: u64, max_payment: u64) -> Option<
    F44Code,
> {
    let vsr = c.virtual_sol_reserves as int;
    let vtr = c.virtual_token_reserves as int;
    if a >= c.virtual_token_reserves || pricing::spec_new_sol_reserve(vsr, vtr, a as int)
        > u64::MAX {
        Some(F44Code::MathOverflow)
    } else {
        let payment = pricing::spec_buy_cost(vsr, vtr, a as int);
        if payment == 0 {
            Some(F44Code::InvalidAmount)
        } else if payment > max_payment {
            Some(F44Code::TooMuchRequired)
        } else if c.real_token_reserves < a {
            Some(F44Code::InsufficientLiquidity)
        } else {
            let net = payment - pricing::spec_fee(payment, g.fee_basis_points as int);
            if vsr + net > u64::MAX || c.real_sol_reserves + net > u64::MAX {
                Some(F44Code::MathOverflow)
            } else if pricing::spec_cp_price(vsr + net, vtr - a) > u64::MAX
                || pricing::spec_cp_mcap(vsr + net, c.token_total_supply as int, vtr - a)
                > u64::MAX {
                Some(F44Code::MathOverflow)
            } else {
                None
            }
        }
    }
}

/// Why a linear buy refuses, if it does, after the common guards
/// passed.
pub open spec fn spec_buy_err_linear(
    g: Global,
    c: BondingCurve,
    initial_price: u64,
    curve_slope: u64,
    a: u64,
    max_payment: u64,
) -> Option<F44Code> {
    let slope = curve_slope as int;
    let init = initial_price as int;
    let r0 = c.token_reserves as int;
    if !pricing::spec_linear_fits(slope, init, r0, a as int, true) {
        Some(F44Code::InvalidPrice)
    } else if pricing::spec_trapezoid_payment(slope, init, r0, r0 + a, a as int) > u64::MAX {
        Some(F44Code::InvalidCalculation)
    } else {
        let payment = pricing::spec_trapezoid_payment(slope, init, r0, r0 + a, a as int);
        if payment == 0 {
            Some(F44Code::InvalidAmount)
        } else if payment > max_payment {
            Some(F44Code::TooMuchRequired)
        } else if c.real_token_reserves < a {
            Some(F44Code::InsufficientLiquidity)
        } else {
            let net = payment - pricing::spec_fee(payment, g.fee_basis_points as int);
            if g.f44_supply + net > u64::MAX {
                Some(F44Code::MathOverflow)
            } else if pricing::spec_linear_mcap(
                pricing::spec_price(slope, init, r0 + a),
                c.token_total_supply as int,
            ) > u64::MAX {
                Some(F44Code::MathOverflow)
            } else {
                None
            }
        }
    }
}

/// Why `buy` refuses, if it does: the whole decision, in the order the
/// handler takes it. `buy` succeeds exactly when this is `None`.
pub open spec fn spec_buy_err(
    g: Global,
    c: BondingCurve,
    fee_recipient: AccountId,
    a: u64,
    max_payment: u64,
) -> Option<F44Code> {
    if a == 0 || max_payment == 0 {
        Some(F44Code::ZeroAmount)
    } else if c.complete {
        Some(F44Code::CurveComplete)
    } else if fee_recipient != g.fee_recipient {
        Some(F44Code::InvalidFeeRecipient)
    } else {
        match c.model {
            PricingModel::ConstantProduct => spec_buy_err_cp(g, c, a, max_payment),
            PricingModel::LinearSecondary { initial_price, curve_slope } => spec_buy_err_linear(
                g,
                c,
                initial_price,
                curve_slope,
                a,
                max_payment,
            ),
        }
    }
}

/// What a successful buy of `a` token base units costs.
pub open spec fn spec_buy_payment(c: BondingCurve, a: u64) -> int {
    match c.model {
        PricingModel::ConstantProduct => pricing::spec_buy_cost(
            c.virtual_sol_reserves as int,
            c.virtual_token_reserves as int,
            a as int,
        ),
        PricingModel::LinearSecondary { initial_price, curve_slope } => pricing::spec_trapezoid_payment(
            curve_slope as int,
            initial_price as int,
            c.token_reserves as int,
            c.token_reserves + a,
            a as int,
        ),
    }
}

/// What of the payment reaches the curve after the fee.
pub open spec fn spec_buy_net(g: Global, c: BondingCurve, a: u64) -> int {
    spec_buy_payment(c, a) - pricing::spec_fee(spec_buy_payment(c, a), g.fee_basis_points as int)
}

/// The price a successful buy leaves on the curve.
pub open spec fn spec_buy_price(g: Global, c: BondingCurve, a: u64) -> int {
    match c.model {
        PricingModel::ConstantProduct => pricing::spec_cp_price(
            c.virtual_sol_reserves + spec_buy_net(g, c, a),
            c.virtual_token_reserves - a,
        ),
        PricingModel::LinearSecondary { initial_price, curve_slope } => pricing::spec_price(
            curve_slope as int,
            initial_price as int,
            c.token_reserves + a,
        ),
    }
}

/// The market cap a successful buy leaves on the curve.
pub open spec fn spec_buy_mcap(g: Global, c: BondingCurve, a: u64) -> int {
    match c.model {
        PricingModel::ConstantProduct => pricing::spec_cp_mcap(
            c.virtual_sol_reserves + spec_buy_net(g, c, a),
            c.token_total_supply as int,
            c.virtual_token_reserves - a,
        ),
        PricingModel::LinearSecondary { .. } => pricing::spec_linear_mcap(
            spec_buy_price(g, c, a),
            c.token_total_supply as int,
        ),
    }
}

/// The curve a successful buy leaves behind: the token side shrinks by
/// the trade, the settlement side grows by the net payment in lockstep
/// between its virtual and real reserves, and the curve completes
/// exactly when the new market cap tops its limit.
pub open spec fn spec_buy_curve(g: Global, c: BondingCurve, a: u64) -> BondingCurve {
    let net = spec_buy_net(g, c, a);
    let price = spec_buy_price(g, c, a);
    let mcap = spec_buy_mcap(g, c, a);
    match c.model {
        PricingModel::ConstantProduct => BondingCurve {
            virtual_token_reserves: (c.virtual_token_reserves - a) as u64,
            virtual_sol_reserves: (c.virtual_sol_reserves + net) as u64,
            real_token_reserves: (c.real_token_reserves - a) as u64,
            real_sol_reserves: (c.real_sol_reserves + net) as u64,
            current_price: price as u64,
            current_mcap: mcap as u64,
            complete: c.complete || mcap > c.mcap_limit,
            ..c
        },
        PricingModel::LinearSecondary { .. } => BondingCurve {
            token_reserves: (c.token_reserves + a) as u64,
            real_token_reserves: (c.real_token_reserves - a) as u64,
            current_price: price as u64,
            current_mcap: mcap as u64,
            complete: c.complete || mcap > c.mcap_limit,
            ..c
        },
    }
}

/// The configuration a successful buy leaves behind: only a linear buy
/// touches it, moving the net payment into the secondary supply counter.
pub open spec fn spec_buy_global(g: Global, c: BondingCurve, a: u64) -> Global {
    match c.model {
        PricingModel::ConstantProduct => g,
        PricingModel::LinearSecondary { .. } => Global {
            f44_supply: (g.f44_supply + spec_buy_net(g, c, a)) as u64,
            ..g
        },
    }
}

/// Buy `token_amount` token base units from the curve, paying at most
/// `max_payment` settlement base units. On success the caller owes the
/// fee to the fee recipient and the net payment to the settlement vault,
/// the curve's vault owes the tokens, the reserves move accordingly, and
/// the curve completes if its new market cap tops the limit. Any refusal
/// leaves curve and configuration untouched.
pub fn buy(
    global: &mut Global,
    curve: &mut BondingCurve,
    caller: AccountId,
    curve_id: AccountId,
    fee_recipient: AccountId,
    token_amount: u64,
    max_payment: u64,
    timestamp: i64,
) -> (r: Result<TradeOutcome, F44Code>)
    requires
        old(global).wf(),
        old(curve).wf(),
    ensures
        (match r {
            Err(e) => {
                &&& spec_buy_err(*old(global), *old(curve), fee_recipient, token_amount, max_payment)
                    == Some(e)
                &&& *final(global) == *old(global)
                &&& *final(curve) == *old(curve)
            },
            Ok(out) => {
                &&& spec_buy_err(*old(global), *old(curve), fee_recipient, token_amount, max_payment)
                    is None
                &&& out.payment == spec_buy_payment(*old(curve), token_amount)
                &&& out.fee == pricing::spec_fee(out.payment as int, old(global).fee_basis_points as int)
                &&& out.fee + out.net == out.payment
                &&& out.net == spec_buy_net(*old(global), *old(curve), token_amount)
                &&& *final(curve) == spec_buy_curve(*old(global), *old(curve), token_amount)
                &&& *final(global) == spec_buy_global(*old(global), *old(curve), token_amount)
                &&& out.requests@ == (match old(curve).model {
                    PricingModel::ConstantProduct => seq![
                        (LedgerRequest::Transfer {
                            token: TokenKind::NativeUnit,
                            from: Party::User,
                            to: Party::FeeRecipient,
                            amount: out.fee,
                            authority: SigningAuthority::UserSigner,
                        }),
                        (LedgerRequest::Transfer {
                            token: TokenKind::NativeUnit,
                            from: Party::User,
                            to: Party::CurveVault,
                            amount: out.net,
                            authority: SigningAuthority::UserSigner,
                        }),
                        (LedgerRequest::Transfer {
                            token: TokenKind::CurveToken,
                            from: Party::CurveVault,
                            to: Party::User,
                            amount: token_amount,
                            authority: SigningAuthority::CurveDerived,
                        }),
                    ],
                    PricingModel::LinearSecondary { .. } => seq![
                        (LedgerRequest::Transfer {
                            token: TokenKind::SecondaryToken,
                            from: Party::User,
                            to: Party::FeeRecipient,
                            amount: out.fee,
                            authority: SigningAuthority::UserSigner,
                        }),
                        (LedgerRequest::Transfer {
                            token: TokenKind::SecondaryToken,
                            from: Party::User,
                            to: Party::SecondaryVault,
                            amount: out.net,
                            authority: SigningAuthority::UserSigner,
                        }),
                        (LedgerRequest::Transfer {
                            token: TokenKind::CurveToken,
                            from: Party::CurveVault,
                            to: Party::User,
                            amount: token_amount,
                            authority: SigningAuthority::CurveDerived,
                        }),
                    ],
                })
                &&& out.trade == (TradeEvent {
                    mint: old(curve).token_mint,
                    amount: out.payment,
                    token_amount,
                    is_buy: true,
                    user: caller,
                    timestamp,
                    token_reserves: (match old(curve).model {
                        PricingModel::ConstantProduct => final(curve).virtual_token_reserves,
                        PricingModel::LinearSecondary { .. } => final(curve).token_reserves,
                    }),
                    last_price: final(curve).current_price,
                    current_mcap: final(curve).current_mcap,
                })
                &&& out.completion == (if final(curve).complete {
                    Some(
                        CompleteEvent {
                            user: caller,
                            mint: old(curve).token_mint,
                            bonding_curve: curve_id,
                            timestamp,
                        },
                    )
                } else {
                    None::<CompleteEvent>
                })
            },
        }),
        (r is Ok && old(curve).model is ConstantProduct) ==> (
        final(curve).virtual_token_reserves < old(curve).virtual_token_reserves
            && final(curve).virtual_token_reserves > 0),
        (r is Ok && old(curve).model is ConstantProduct) ==> (
        final(curve).virtual_sol_reserves - old(curve).virtual_sol_reserves
            == final(curve).real_sol_reserves - old(curve).real_sol_reserves
            && old(curve).virtual_token_reserves - final(curve).virtual_token_reserves
            == old(curve).real_token_reserves - final(curve).real_token_reserves),
        old(curve).complete ==> final(curve).complete,
        final(global).wf(),
        final(curve).wf(),
{
    if token_amount == 0 || max_payment == 0 {
        return Err(F44Code::ZeroAmount);
    }
    if curve.complete {
        return Err(F44Code::CurveComplete);
    }
    if fee_recipient != global.fee_recipient {
        return Err(F44Code::InvalidFeeRecipient);
    }
    let model = curve.model;
    let payment: u64 = match model {
        PricingModel::ConstantProduct => {
            match pricing::buy_cost(
                curve.virtual_sol_reserves,
                curve.virtual_token_reserves,
                token_amount,
            ) {
                Ok(p) => p,
                Err(e) => { return Err(e) },
            }
        },
        PricingModel::LinearSecondary { initial_price, curve_slope } => {
            match pricing::calculate_f44_cost(
                curve_slope,
                initial_price,
                curve.token_reserves,
                token_amount,
                true,
            ) {
                Ok(p) => p,
                Err(e) => { return Err(e) },
            }
        },
    };
    if payment == 0 {
        return Err(F44Code::InvalidAmount);
    }
    if payment > max_payment {
        return Err(F44Code::TooMuchRequired);
    }
    if curve.real_token_reserves < token_amount {
        return Err(F44Code::InsufficientLiquidity);
    }
    let (fee, net) = pricing::fee_split(payment, global.fee_basis_points);
    match model {
        PricingModel::ConstantProduct => {
            let new_vsr: u64 = match curve.virtual_sol_reserves.checked_add(net) {
                Some(v) => v,
                None => { return Err(F44Code::MathOverflow) },
            };
            let new_rsr: u64 = match curve.real_sol_reserves.checked_add(net) {
                Some(v) => v,
                None => { return Err(F44Code::MathOverflow) },
            };
            let new_vtr: u64 = curve.virtual_token_reserves - token_amount;
            let new_rtr: u64 = curve.real_token_reserves - token_amount;
            let price: u64 = match pricing::mul_div(new_vsr, pricing::PRICE_SCALE, new_vtr) {
                Ok(v) => v,
                Err(e) => { return Err(e) },
            };
            let mcap: u64 = match pricing::mul_div(new_vsr, curve.token_total_supply, new_vtr) {
                Ok(v) => v,
                Err(e) => { return Err(e) },
            };
            curve.virtual_token_reserves = new_vtr;
            curve.virtual_sol_reserves = new_vsr;
            curve.real_token_reserves = new_rtr;
            curve.real_sol_reserves = new_rsr;
            curve.current_price = price;
            curve.current_mcap = mcap;
        },
        PricingModel::LinearSecondary { initial_price, curve_slope } => {
            let new_supply: u64 = match global.f44_supply.checked_add(net) {
                Some(v) => v,
                None => { return Err(F44Code::MathOverflow) },
            };
            let new_r: u64 = curve.token_reserves + token_amount;
            let new_rtr: u64 = curve.real_token_reserves - token_amount;
            proof {
                lemma_mul_upper_bound(
                    curve_slope as int,
                    u64::MAX as int,
                    new_r as int,
                    u64::MAX as int,
                );
            }
            let price128: u128 = (curve_slope as u128) * (new_r as u128) + (initial_price as u128);
            let price: u64 = price128 as u64;
            let mcap: u64 = match pricing::mul_div(
                price,
                curve.token_total_supply,
                pricing::PRICE_SCALE,
            ) {
                Ok(v) => v,
                Err(e) => { return Err(e) },
            };
            global.f44_supply = new_supply;
            curve.token_reserves = new_r;
            curve.real_token_reserves = new_rtr;
            curve.current_price = price;
            curve.current_mcap = mcap;
        },
    }
    let completed: bool = curve.current_mcap > curve.mcap_limit;
    if completed {
        curve.complete = true;
    }
    let (settle_token, settle_vault) = match model {
        PricingModel::ConstantProduct => (TokenKind::NativeUnit, Party::CurveVault),
        PricingModel::LinearSecondary { .. } => (TokenKind::SecondaryToken, Party::SecondaryVault),
    };
    let mut requests: Vec<LedgerRequest> = Vec::new();
    requests.push(
        LedgerRequest::Transfer {
            token: settle_token,
            from: Party::User,
            to: Party::FeeRecipient,
            amount: fee,
            authority: SigningAuthority::UserSigner,
        },
    );
    requests.push(
        LedgerRequest::Transfer {
            token: settle_token,
            from: Party::User,
            to: settle_vault,
            amount: net,
            authority: SigningAuthority::UserSigner,
        },
    );
    requests.push(
        LedgerRequest::Transfer {
            token: TokenKind::CurveToken,
            from: Party::CurveVault,
            to: Party::User,
            amount: token_amount,
            authority: SigningAuthority::CurveDerived,
        },
    );
    let snapshot_reserves: u64 = match model {
        PricingModel::ConstantProduct => curve.virtual_token_reserves,
        PricingModel::LinearSecondary { .. } => curve.token_reserves,
    };
    let trade = TradeEvent {
        mint: curve.token_mint,
        amount: payment,
        token_amount,
        is_buy: true,
        user: caller,
        timestamp,
        token_reserves: snapshot_reserves,
        last_price: curve.current_price,
        current_mcap: curve.current_mcap,
    };
    let completion: Option<CompleteEvent> = if completed {
        Some(CompleteEvent { user: caller, mint: curve.token_mint, bonding_curve: curve_id, timestamp })
    } else {
        None
    };
    proof {
        assert(requests@ =~= seq![
            (LedgerRequest::Transfer {
                token: settle_token,
                from: Party::User,
                to: Party::FeeRecipient,
                amount: fee,
                authority: SigningAuthority::UserSigner,
            }),
            (LedgerRequest::Transfer {
                token: settle_token,
                from: Party::User,
                to: settle_vault,
                amount: net,
                authority: SigningAuthority::UserSigner,
            }),
            (LedgerRequest::Transfer {
                token: TokenKind::CurveToken,
                from: Party::CurveVault,
                to: Party::User,
                amount: token_amount,
                authority: SigningAuthority::CurveDerived,
            }),
        ]);
    }
    Ok(TradeOutcome { payment, fee, net, requests, trade, completion })
}

} // verus!
