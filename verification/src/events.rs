use vstd::prelude::*;

use crate::account::AccountId;

verus! {

/// Emitted when a curve is created.
#[derive(Clone, Copy, Debug, PartialEq, Eq, Structural)]
pub struct CreateEvent {
    pub mint: AccountId,
    pub bonding_curve: AccountId,
    pub user: AccountId,
    /// The curve's starting price, fixed-point `pricing::PRICE_SCALE`.
    pub initial_price: u64,
}

/// Emitted after every successful buy or sell, carrying the post-trade
/// snapshot.
#[derive(Clone, Copy, Debug, PartialEq, Eq, Structural)]
pub struct TradeEvent {
    pub mint: AccountId,
    /// The settlement amount paid (buy) or received (sell).
    pub amount: u64,
    /// The token amount bought or sold.
    pub token_amount: u64,
    pub is_buy: bool,
    pub user: AccountId,
    pub timestamp: i64,
    /// The token-side reserve after the trade: the virtual token reserve
    /// of a constant-product curve, the sold counter of a linear one.
    pub token_reserves: u64,
    /// The price after the trade, fixed-point `pricing::PRICE_SCALE`.
    pub last_price: u64,
    /// The market cap after the trade.
    pub current_mcap: u64,
}

/// Emitted by the buy that pushes a curve past its market-cap limit.
#[derive(Clone, Copy, Debug, PartialEq, Eq, Structural)]
pub struct CompleteEvent {
    pub user: AccountId,
    pub mint: AccountId,
    pub bonding_curve: AccountId,
    pub timestamp: i64,
}

/// Emitted by a successful `set_params`: the configuration as it now
/// stands.
#[derive(Clone, Copy, Debug, PartialEq, Eq, Structural)]
pub struct SetParamsEvent {
    pub fee_recipient: AccountId,
    pub owner_wallet: AccountId,
    pub agent_amount: u64,
    pub fee_basis_points: u64,
    pub mcap_limit: u64,
    pub create_fee: u64,
    pub initial_virtual_token_reserves: u64,
    pub initial_virtual_sol_reserves: u64,
    pub token_total_supply: u64,
}

} // verus!
