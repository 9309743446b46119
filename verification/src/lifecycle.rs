use vstd::prelude::*;

use crate::account::AccountId;
use crate::error::F44Code;
use crate::instructions::buy::{
    spec_buy_curve, spec_buy_err, spec_buy_global, spec_buy_net, spec_buy_payment,
};
use crate::instructions::sell::spec_sell_err;
use crate::pricing;
use crate::state::{BondingCurve, Global, PricingModel};

verus! {

/// A completed curve is terminal. Every further buy or sell is refused
/// — with the curve-complete error whenever the amounts themselves pass
/// muster — and a refused trade leaves the curve untouched, so the
/// `complete` flag transitions false to true at most once and never
/// reverts.
pub proof fn lemma_complete_is_terminal(
    g: Global,
    c: BondingCurve,
    fee_recipient: AccountId,
    token_amount: u64,
    max_payment: u64,
    min_payment: u64,
)
    requires
        c.complete,
    ensures
        spec_buy_err(g, c, fee_recipient, token_amount, max_payment) is Some,
        spec_sell_err(g, c, token_amount, min_payment) is Some,
        (token_amount > 0 && max_payment > 0) ==> spec_buy_err(
            g,
            c,
            fee_recipient,
            token_amount,
            max_payment,
        ) == Some(F44Code::CurveComplete),
        token_amount > 0 ==> spec_sell_err(g, c, token_amount, min_payment) == Some(
            F44Code::CurveComplete,
        ),
{
}

/// Two buys against one curve never interleave: the second is priced on
/// exactly the reserves the first left behind, and the final reserves
/// carry both trades' moves, applied in submission order.
pub proof fn lemma_sequential_buys(
    g0: Global,
    c0: BondingCurve,
    fee_recipient: AccountId,
    first_amount: u64,
    first_max: u64,
    second_amount: u64,
    second_max: u64,
)
    requires
        g0.wf(),
        c0.wf(),
        spec_buy_err(g0, c0, fee_recipient, first_amount, first_max) is None,
        spec_buy_err(
            spec_buy_global(g0, c0, first_amount),
            spec_buy_curve(g0, c0, first_amount),
            fee_recipient,
            second_amount,
            second_max,
        ) is None,
    ensures
        ({
            let g1 = spec_buy_global(g0, c0, first_amount);
            let c1 = spec_buy_curve(g0, c0, first_amount);
            let c2 = spec_buy_curve(g1, c1, second_amount);
            let net1 = spec_buy_net(g0, c0, first_amount);
            let net2 = spec_buy_net(g1, c1, second_amount);
            &&& (c0.model is ConstantProduct ==> {
                &&& c2.virtual_token_reserves == c0.virtual_token_reserves - first_amount
                    - second_amount
                &&& c2.virtual_sol_reserves == c0.virtual_sol_reserves + net1 + net2
                &&& c2.real_token_reserves == c0.real_token_reserves - first_amount - second_amount
                &&& c2.real_sol_reserves == c0.real_sol_reserves + net1 + net2
                &&& spec_buy_payment(c1, second_amount) == pricing::spec_buy_cost(
                    c0.virtual_sol_reserves + net1,
                    c0.virtual_token_reserves - first_amount,
                    second_amount as int,
                )
            })
            &&& (c0.model matches PricingModel::LinearSecondary { initial_price, curve_slope }
                ==> {
                &&& c2.token_reserves == c0.token_reserves + first_amount + second_amount
                &&& c2.real_token_reserves == c0.real_token_reserves - first_amount - second_amount
                &&& spec_buy_global(g1, c1, second_amount).f44_supply == g0.f44_supply + net1 + net2
                &&& spec_buy_payment(c1, second_amount) == pricing::spec_trapezoid_payment(
                    curve_slope as int,
                    initial_price as int,
                    c0.token_reserves + first_amount,
                    c0.token_reserves + first_amount + second_amount,
                    second_amount as int,
                )
            })
        }),
{
    let g1 = spec_buy_global(g0, c0, first_amount);
    let c1 = spec_buy_curve(g0, c0, first_amount);
    match c0.model {
        PricingModel::ConstantProduct => {
            let vsr = c0.virtual_sol_reserves as int;
            let vtr = c0.virtual_token_reserves as int;
            pricing::lemma_div_at_least_factor(vsr, vtr - first_amount, vtr);
            let payment1 = spec_buy_payment(c0, first_amount);
            vstd::arithmetic::mul::lemma_mul_nonnegative(payment1, g0.fee_basis_points as int);
            pricing::lemma_div_at_most_factor(
                payment1,
                pricing::FEE_BASIS_MAX as int,
                g0.fee_basis_points as int,
            );
            let net1 = spec_buy_net(g0, c0, first_amount);
            assert(c1.virtual_token_reserves == vtr - first_amount);
            assert(c1.virtual_sol_reserves == vsr + net1);
            pricing::lemma_div_at_least_factor(
                c1.virtual_sol_reserves as int,
                c1.virtual_token_reserves - second_amount,
                c1.virtual_token_reserves as int,
            );
            let payment2 = spec_buy_payment(c1, second_amount);
            vstd::arithmetic::mul::lemma_mul_nonnegative(payment2, g1.fee_basis_points as int);
            pricing::lemma_div_at_most_factor(
                payment2,
                pricing::FEE_BASIS_MAX as int,
                g1.fee_basis_points as int,
            );
        },
        PricingModel::LinearSecondary { initial_price, curve_slope } => {
            let slope = curve_slope as int;
            let init = initial_price as int;
            let r0 = c0.token_reserves as int;
            lemma_trapezoid_payment_nonneg(slope, init, r0, r0 + first_amount, first_amount as int);
            let payment1 = spec_buy_payment(c0, first_amount);
            vstd::arithmetic::mul::lemma_mul_nonnegative(payment1, g0.fee_basis_points as int);
            pricing::lemma_div_at_most_factor(
                payment1,
                pricing::FEE_BASIS_MAX as int,
                g0.fee_basis_points as int,
            );
            let net1 = spec_buy_net(g0, c0, first_amount);
            assert(c1.token_reserves == r0 + first_amount);
            lemma_trapezoid_payment_nonneg(
                slope,
                init,
                c1.token_reserves as int,
                c1.token_reserves + second_amount,
                second_amount as int,
            );
            let payment2 = spec_buy_payment(c1, second_amount);
            vstd::arithmetic::mul::lemma_mul_nonnegative(payment2, g1.fee_basis_points as int);
            pricing::lemma_div_at_most_factor(
                payment2,
                pricing::FEE_BASIS_MAX as int,
                g1.fee_basis_points as int,
            );
        },
    }
}

/// The linear payment is never negative: prices, their average and the
/// product with the amount are all nonnegative.
proof fn lemma_trapezoid_payment_nonneg(slope: int, init: int, from: int, to: int, a: int)
    requires
        slope >= 0,
        init >= 0,
        from >= 0,
        to >= 0,
        a >= 0,
    ensures
        pricing::spec_trapezoid_payment(slope, init, from, to, a) >= 0,
{
    vstd::arithmetic::mul::lemma_mul_nonnegative(slope, from);
    vstd::arithmetic::mul::lemma_mul_nonnegative(slope, to);
    let avg = (pricing::spec_price(slope, init, from) + pricing::spec_price(slope, init, to)) / 2;
    vstd::arithmetic::mul::lemma_mul_nonnegative(a, avg);
}

} // verus!
