use vstd::prelude::*;

use vstd::arithmetic::div_mod::{lemma_div_by_multiple, lemma_div_is_ordered};
use vstd::arithmetic::mul::{lemma_mul_inequality, lemma_mul_is_commutative, lemma_mul_upper_bound};

use crate::error::F44Code;

verus! {

/// Fee denominator: a fee of `FEE_BASIS_MAX` basis points is the whole
/// payment.
pub const FEE_BASIS_MAX: u64 = 10000;

/// Fixed-point scale of prices: a price of `PRICE_SCALE` is one
/// settlement base unit per token base unit.
pub const PRICE_SCALE: u64 = 1000000;

/// A withdraw pays out this fraction's worth of the secondary-token
/// supply counter: one part in `WITHDRAW_SLICE_DIVISOR`.
pub const WITHDRAW_SLICE_DIVISOR: u64 = 100;

/// The protocol fee on a payment, floored.
pub open spec fn spec_fee(payment: int, fee_basis_points: int) -> int {
    payment * fee_basis_points / (FEE_BASIS_MAX as int)
}

/// The settlement reserve a constant-product curve shows after buying
/// `token_amount`: the invariant `liquidity` divided by the shrunken
/// token reserve, floored.
pub open spec fn spec_new_sol_reserve(vsr: int, vtr: int, token_amount: int) -> int {
    vsr * vtr / (vtr - token_amount)
}

/// Cost of a constant-product buy: the growth of the settlement reserve.
pub open spec fn spec_buy_cost(vsr: int, vtr: int, token_amount: int) -> int {
    spec_new_sol_reserve(vsr, vtr, token_amount) - vsr
}

/// Proceeds of a constant-product sell, floored.
pub open spec fn spec_sell_proceeds(vsr: int, vtr: int, token_amount: int) -> int {
    token_amount * vsr / vtr
}

/// The linear model's price after `x` token base units have been sold.
pub open spec fn spec_price(curve_slope: int, initial_price: int, x: int) -> int {
    curve_slope * x + initial_price
}

/// Where the linear model's sold counter moves on a trade of
/// `token_amount`.
pub open spec fn spec_linear_to(token_reserves: int, token_amount: int, is_buy: bool) -> int {
    if is_buy {
        token_reserves + token_amount
    } else {
        token_reserves - token_amount
    }
}

/// The linear model's payment: the trade amount times the average of the
/// prices at both ends of the move, floored out of fixed point.
pub open spec fn spec_trapezoid_payment(
    curve_slope: int,
    initial_price: int,
    from: int,
    to: int,
    token_amount: int,
) -> int {
    token_amount * ((spec_price(curve_slope, initial_price, from) + spec_price(
        curve_slope,
        initial_price,
        to,
    )) / 2) / (PRICE_SCALE as int)
}

/// Whether every intermediate of the linear payment fits the fixed-point
/// range; outside it the trade is refused, nothing is clamped.
pub open spec fn spec_linear_fits(
    curve_slope: int,
    initial_price: int,
    token_reserves: int,
    token_amount: int,
    is_buy: bool,
) -> bool {
    let to = spec_linear_to(token_reserves, token_amount, is_buy);
    &&& to <= u64::MAX
    &&& spec_price(curve_slope, initial_price, token_reserves) <= u64::MAX
    &&& spec_price(curve_slope, initial_price, to) <= u64::MAX
}

/// The implied unit price of a constant-product curve, in fixed point.
pub open spec fn spec_cp_price(vsr: int, vtr: int) -> int {
    vsr * (PRICE_SCALE as int) / vtr
}

/// Market cap of a constant-product curve: settlement reserve times
/// supply over token reserve.
pub open spec fn spec_cp_mcap(vsr: int, total: int, vtr: int) -> int {
    vsr * total / vtr
}

/// Market cap of a linear curve: price times supply, out of fixed point.
pub open spec fn spec_linear_mcap(price: int, total: int) -> int {
    price * total / (PRICE_SCALE as int)
}

/// Scaling a nonnegative value by a factor of at most the divisor never
/// grows it: `x * f / d <= x`.
pub(crate) proof fn lemma_div_at_most_factor(x: int, d: int, f: int)
    requires
        0 <= x,
        0 < d,
        0 <= f <= d,
    ensures
        x * f / d <= x,
{
    lemma_mul_inequality(f, d, x);
    lemma_mul_is_commutative(f, x);
    lemma_mul_is_commutative(d, x);
    lemma_div_is_ordered(x * f, x * d, d);
    lemma_div_by_multiple(x, d);
}

/// Scaling a nonnegative value by a factor of at least the divisor never
/// shrinks it: `x <= x * m / d`.
pub(crate) proof fn lemma_div_at_least_factor(x: int, d: int, m: int)
    requires
        0 <= x,
        0 < d <= m,
    ensures
        x <= x * m / d,
{
    lemma_mul_inequality(d, m, x);
    lemma_mul_is_commutative(d, x);
    lemma_mul_is_commutative(m, x);
    lemma_div_is_ordered(x * d, x * m, d);
    lemma_div_by_multiple(x, d);
}

/// `x * y / d`, refused rather than truncated when the quotient does not
/// fit.
pub fn mul_div(x: u64, y: u64, d: u64) -> (r: Result<u64, F44Code>)
    requires
        d > 0,
    ensures
        (r is Ok) <==> x * y / (d as int) <= u64::MAX,
        (r matches Ok(v) ==> v == x * y / d as int),
        (r matches Err(e) ==> e == F44Code::MathOverflow),
{
    proof {
        lemma_mul_upper_bound(x as int, u64::MAX as int, y as int, u64::MAX as int);
    }
    let p: u128 = (x as u128) * (y as u128);
    let q: u128 = p / (d as u128);
    if q > u64::MAX as u128 {
        Err(F44Code::MathOverflow)
    } else {
        Ok(q as u64)
    }
}

/// Split a payment into the protocol fee and the net remainder. The two
/// parts always recompose the payment exactly.
pub fn fee_split(payment: u64, fee_basis_points: u64) -> (r: (u64, u64))
    requires
        fee_basis_points <= FEE_BASIS_MAX,
    ensures
        r.0 == spec_fee(payment as int, fee_basis_points as int),
        r.0 + r.1 == payment,
{
    proof {
        lemma_mul_upper_bound(
            payment as int,
            u64::MAX as int,
            fee_basis_points as int,
            FEE_BASIS_MAX as int,
        );
        lemma_div_at_most_factor(payment as int, FEE_BASIS_MAX as int, fee_basis_points as int);
    }
    let prod: u128 = (payment as u128) * (fee_basis_points as u128);
    let fee: u64 = (prod / (FEE_BASIS_MAX as u128)) as u64;
    (fee, payment - fee)
}

/// Cost of buying `token_amount` token base units from a constant-product
/// curve. Fails closed with `MathOverflow` when the amount would drain
/// the virtual token reserve or the new settlement reserve does not fit.
pub fn buy_cost(
    virtual_sol_reserves: u64,
    virtual_token_reserves: u64,
    token_amount: u64,
) -> (r: Result<u64, F44Code>)
    requires
        token_amount > 0,
    ensures
        (r is Ok) <==> (token_amount < virtual_token_reserves && spec_new_sol_reserve(
            virtual_sol_reserves as int,
            virtual_token_reserves as int,
            token_amount as int,
        ) <= u64::MAX),
        (r matches Ok(cost) ==> cost == spec_buy_cost(
            virtual_sol_reserves as int,
            virtual_token_reserves as int,
            token_amount as int,
        )),
        (r matches Err(e) ==> e == F44Code::MathOverflow),
{
    if token_amount >= virtual_token_reserves {
        return Err(F44Code::MathOverflow);
    }
    let denom: u128 = (virtual_token_reserves - token_amount) as u128;
    proof {
        lemma_mul_upper_bound(
            virtual_sol_reserves as int,
            u64::MAX as int,
            virtual_token_reserves as int,
            u64::MAX as int,
        );
    }
    let liquidity: u128 = (virtual_sol_reserves as u128) * (virtual_token_reserves as u128);
    let q: u128 = liquidity / denom;
    if q > u64::MAX as u128 {
        return Err(F44Code::MathOverflow);
    }
    proof {
        lemma_div_at_least_factor(
            virtual_sol_reserves as int,
            denom as int,
            virtual_token_reserves as int,
        );
    }
    Ok((q as u64) - virtual_sol_reserves)
}

/// Proceeds of selling `token_amount` token base units back to a
/// constant-product curve; never exceeds the settlement reserve.
pub fn sell_proceeds(
    virtual_sol_reserves: u64,
    virtual_token_reserves: u64,
    token_amount: u64,
) -> (r: u64)
    requires
        0 < virtual_token_reserves,
        token_amount <= virtual_token_reserves,
    ensures
        r == spec_sell_proceeds(
            virtual_sol_reserves as int,
            virtual_token_reserves as int,
            token_amount as int,
        ),
        r <= virtual_sol_reserves,
{
    proof {
        lemma_mul_upper_bound(
            token_amount as int,
            u64::MAX as int,
            virtual_sol_reserves as int,
            u64::MAX as int,
        );
        lemma_div_at_most_factor(
            virtual_sol_reserves as int,
            virtual_token_reserves as int,
            token_amount as int,
        );
        lemma_mul_is_commutative(virtual_sol_reserves as int, token_amount as int);
    }
    let num: u128 = (token_amount as u128) * (virtual_sol_reserves as u128);
    (num / (virtual_token_reserves as u128)) as u64
}

/// Payment for a linear-model trade of `token_amount` token base units:
/// the trapezoidal average of the prices at both ends of the move, in
/// fixed point. Fails closed with `InvalidPrice` when an endpoint's
/// price leaves the fixed-point range and with `InvalidCalculation` when
/// the payment itself does.
pub fn calculate_f44_cost(
    curve_slope: u64,
    initial_price: u64,
    token_reserves: u64,
    token_amount: u64,
    is_buy: bool,
) -> (r: Result<u64, F44Code>)
    requires
        is_buy || token_amount <= token_reserves,
    ensures
        (r is Ok) <==> (spec_linear_fits(
            curve_slope as int,
            initial_price as int,
            token_reserves as int,
            token_amount as int,
            is_buy,
        ) && spec_trapezoid_payment(
            curve_slope as int,
            initial_price as int,
            token_reserves as int,
            spec_linear_to(token_reserves as int, token_amount as int, is_buy),
            token_amount as int,
        ) <= u64::MAX),
        (r matches Ok(payment) ==> payment == spec_trapezoid_payment(
            curve_slope as int,
            initial_price as int,
            token_reserves as int,
            spec_linear_to(token_reserves as int, token_amount as int, is_buy),
            token_amount as int,
        )),
        (r matches Err(e) ==> if !spec_linear_fits(
            curve_slope as int,
            initial_price as int,
            token_reserves as int,
            token_amount as int,
            is_buy,
        ) {
            e == F44Code::InvalidPrice
        } else {
            e == F44Code::InvalidCalculation
        }),
{
    let to: u128 = if is_buy {
        (token_reserves as u128) + (token_amount as u128)
    } else {
        (token_reserves - token_amount) as u128
    };
    if to > u64::MAX as u128 {
        return Err(F44Code::InvalidPrice);
    }
    proof {
        lemma_mul_upper_bound(curve_slope as int, u64::MAX as int, token_reserves as int, u64::MAX as int);
        lemma_mul_upper_bound(curve_slope as int, u64::MAX as int, to as int, u64::MAX as int);
    }
    let price_from: u128 = (curve_slope as u128) * (token_reserves as u128) + (initial_price as u128);
    let price_to: u128 = (curve_slope as u128) * to + (initial_price as u128);
    if price_from > u64::MAX as u128 || price_to > u64::MAX as u128 {
        return Err(F44Code::InvalidPrice);
    }
    let average: u128 = (price_from + price_to) / 2;
    proof {
        lemma_mul_upper_bound(token_amount as int, u64::MAX as int, average as int, u64::MAX as int);
    }
    let payment: u128 = (token_amount as u128) * average / (PRICE_SCALE as u128);
    if payment > u64::MAX as u128 {
        return Err(F44Code::InvalidCalculation);
    }
    Ok(payment as u64)
}

} // verus!
