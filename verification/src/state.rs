use vstd::prelude::*;

use crate::account::AccountId;
use crate::pricing;

verus! {

/// Process-wide configuration: trade fees, recipients, and the defaults a
/// new curve is created from. Mutated only through `initialize`,
/// `set_params` and `set_authority`; the trade handlers read it and move
/// the secondary-token supply counter.
#[derive(Clone, Copy, Debug, PartialEq, Eq, Structural)]
pub struct Global {
    /// Set exactly once, by `initialize`.
    pub initialized: bool,
    /// The only identity allowed to change the configuration.
    pub authority: AccountId,
    /// Where every trade fee is sent.
    pub fee_recipient: AccountId,
    /// The only identity allowed to withdraw a completed curve.
    pub owner_wallet: AccountId,
    /// A curve is created with exactly this many whole tokens of liquidity.
    pub agent_amount: u64,
    /// Trade fee in basis points; at most `pricing::FEE_BASIS_MAX`.
    pub fee_basis_points: u64,
    /// Market-cap threshold copied into each new curve.
    pub mcap_limit: u64,
    /// Creation fee, in secondary-token base units.
    pub create_fee: u64,
    /// Virtual token reserve a new constant-product curve starts from.
    pub initial_virtual_token_reserves: u64,
    /// Virtual settlement reserve a new constant-product curve starts from.
    pub initial_virtual_sol_reserves: u64,
    /// Token total supply a new constant-product curve is priced against.
    pub token_total_supply: u64,
    /// Running counter of the secondary-token vault's balance.
    pub f44_supply: u64,
}

impl Global {
    /// The configuration's invariant: the trade fee can never exceed the
    /// whole of a payment.
    pub open spec fn wf(self) -> bool {
        self.fee_basis_points <= pricing::FEE_BASIS_MAX
    }
}

/// Which cost function prices a curve, chosen at creation.
#[derive(Clone, Copy, Debug, PartialEq, Eq, Structural)]
pub enum PricingModel {
    /// Virtual-reserve constant-product pricing, settled in the native
    /// value unit.
    ConstantProduct,
    /// Linear pricing `price(x) = curve_slope * x + initial_price`,
    /// settled in the secondary token. Both parameters are fixed-point
    /// with scale `pricing::PRICE_SCALE`, per token base unit.
    LinearSecondary { initial_price: u64, curve_slope: u64 },
}

/// One bonding curve, one per token mint.
///
/// For a `ConstantProduct` curve the four reserve fields carry the state
/// and `token_reserves` stays zero; for a `LinearSecondary` curve
/// `token_reserves` counts the token base units sold so far,
/// `real_token_reserves` tracks the curve vault's balance, and the
/// virtual and native-reserve fields stay zero.
#[derive(Clone, Copy, Debug, PartialEq, Eq, Structural)]
pub struct BondingCurve {
    /// The mint this curve prices. Immutable.
    pub token_mint: AccountId,
    /// The cost function and its parameters. Immutable.
    pub model: PricingModel,
    /// Notional token reserve used by constant-product pricing.
    pub virtual_token_reserves: u64,
    /// Notional settlement reserve used by constant-product pricing.
    pub virtual_sol_reserves: u64,
    /// Token base units actually held by the curve's vault.
    pub real_token_reserves: u64,
    /// Native value units actually held by the curve's vault.
    pub real_sol_reserves: u64,
    /// Token base units sold so far (linear model only).
    pub token_reserves: u64,
    /// Supply the market cap is computed against. Immutable.
    pub token_total_supply: u64,
    /// Market-cap threshold beyond which the curve completes. Immutable.
    pub mcap_limit: u64,
    /// Price after the latest trade, fixed-point `pricing::PRICE_SCALE`.
    pub current_price: u64,
    /// Market cap after the latest trade.
    pub current_mcap: u64,
    /// One-way terminal flag: set by a buy that crosses `mcap_limit`,
    /// never reset.
    pub complete: bool,
}

impl BondingCurve {
    /// The curve's invariant, established by `create` and preserved by
    /// every trade.
    ///
    /// Constant product: while the curve still trades, the virtual token
    /// reserve is positive (it divides every cost), and the linear-only
    /// counter is unused. Linear: tokens sold plus tokens still vaulted
    /// never exceed the supply, the price at full supply fits the
    /// fixed-point range (so every reachable price fits), and the
    /// constant-product fields are unused.
    pub open spec fn wf(self) -> bool {
        match self.model {
            PricingModel::ConstantProduct => {
                &&& (!self.complete ==> self.virtual_token_reserves > 0)
                &&& self.token_reserves == 0
            },
            PricingModel::LinearSecondary { initial_price, curve_slope } => {
                &&& self.token_reserves + self.real_token_reserves <= self.token_total_supply
                &&& curve_slope * self.token_total_supply + initial_price <= u64::MAX
                &&& self.virtual_token_reserves == 0
                &&& self.virtual_sol_reserves == 0
                &&& self.real_sol_reserves == 0
            },
        }
    }
}

} // verus!
