use f44::account::AccountId;
use f44::error::F44Code;
use f44::instructions::buy::buy;
use f44::instructions::create::create;
use f44::instructions::initialize::initialize;
use f44::instructions::sell::sell;
use f44::instructions::set_params::{set_params, ConfigParams};
use f44::requests::{LedgerRequest, Party, SigningAuthority, TokenKind};
use f44::state::{BondingCurve, Global, PricingModel};

const AUTHORITY: AccountId = AccountId(1);
const FEE_RECIPIENT: AccountId = AccountId(2);
const OWNER: AccountId = AccountId(3);
const TRADER: AccountId = AccountId(9);
const MINT: AccountId = AccountId(7);
const CURVE_ID: AccountId = AccountId(8);

fn cp_config() -> Global {
    let mut g = Global {
        initialized: false,
        authority: AccountId(0),
        fee_recipient: AccountId(0),
        owner_wallet: AccountId(0),
        agent_amount: 0,
        fee_basis_points: 0,
        mcap_limit: 0,
        create_fee: 0,
        initial_virtual_token_reserves: 0,
        initial_virtual_sol_reserves: 0,
        token_total_supply: 0,
        f44_supply: 0,
    };
    initialize(&mut g, AUTHORITY).unwrap();
    set_params(
        &mut g,
        AUTHORITY,
        ConfigParams {
            fee_recipient: FEE_RECIPIENT,
            owner_wallet: OWNER,
            agent_amount: 1,
            fee_basis_points: 100,
            mcap_limit: 1_000_000,
            create_fee: 5,
            initial_virtual_token_reserves: 1_000_000,
            initial_virtual_sol_reserves: 30,
            token_total_supply: 1_000_000,
        },
    )
    .unwrap();
    g
}

fn cp_curve(g: &mut Global) -> BondingCurve {
    create(g, TRADER, MINT, CURVE_ID, PricingModel::ConstantProduct, 1_000_000, 1_000_000)
        .unwrap()
        .curve
}

fn linear_config(fee_basis_points: u64, mcap_limit: u64) -> Global {
    let mut g = cp_config();
    set_params(
        &mut g,
        AUTHORITY,
        ConfigParams {
            fee_recipient: FEE_RECIPIENT,
            owner_wallet: OWNER,
            agent_amount: 1,
            fee_basis_points,
            mcap_limit,
            create_fee: 5,
            initial_virtual_token_reserves: 1_000_000,
            initial_virtual_sol_reserves: 30,
            token_total_supply: 1_000_000,
        },
    )
    .unwrap();
    g
}

fn linear_model() -> PricingModel {
    PricingModel::LinearSecondary { initial_price: 1_000_000, curve_slope: 2 }
}

#[test]
fn create_constant_product_curve() {
    let mut g = cp_config();
    let out = create(
        &mut g,
        TRADER,
        MINT,
        CURVE_ID,
        PricingModel::ConstantProduct,
        1_000_000,
        1_000_000,
    )
    .unwrap();
    let c = out.curve;
    assert_eq!(c.virtual_token_reserves, 1_000_000);
    assert_eq!(c.virtual_sol_reserves, 30);
    assert_eq!(c.real_token_reserves, 1_000_000);
    assert_eq!(c.real_sol_reserves, 0);
    assert_eq!(c.token_total_supply, 1_000_000);
    assert_eq!(c.mcap_limit, 1_000_000);
    assert_eq!(c.current_price, 30);
    assert!(!c.complete);
    assert_eq!(
        out.requests,
        vec![LedgerRequest::Transfer {
            token: TokenKind::CurveToken,
            from: Party::User,
            to: Party::CurveVault,
            amount: 1_000_000,
            authority: SigningAuthority::UserSigner,
        }]
    );
    assert_eq!(out.event.mint, MINT);
    assert_eq!(out.event.bonding_curve, CURVE_ID);
    assert_eq!(out.event.user, TRADER);
    assert_eq!(out.event.initial_price, 30);
    // No creation fee in the native variant.
    assert_eq!(g.f44_supply, 0);
}

#[test]
fn create_linear_curve_charges_creation_fee() {
    let mut g = linear_config(1_000, 2_000_000);
    let out = create(&mut g, TRADER, MINT, CURVE_ID, linear_model(), 1_000_000, 1_000_000).unwrap();
    let c = out.curve;
    assert_eq!(c.token_reserves, 0);
    assert_eq!(c.real_token_reserves, 1_000_000);
    assert_eq!(c.token_total_supply, 1_000_000);
    assert_eq!(c.current_price, 1_000_000);
    assert!(!c.complete);
    assert_eq!(out.requests.len(), 2);
    assert_eq!(
        out.requests[1],
        LedgerRequest::Transfer {
            token: TokenKind::SecondaryToken,
            from: Party::User,
            to: Party::SecondaryVault,
            amount: 5,
            authority: SigningAuthority::UserSigner,
        }
    );
    assert_eq!(g.f44_supply, 5);
}

#[test]
fn create_refusals() {
    let mut uninit = Global {
        initialized: false,
        authority: AccountId(0),
        fee_recipient: AccountId(0),
        owner_wallet: AccountId(0),
        agent_amount: 0,
        fee_basis_points: 0,
        mcap_limit: 0,
        create_fee: 0,
        initial_virtual_token_reserves: 0,
        initial_virtual_sol_reserves: 0,
        token_total_supply: 0,
        f44_supply: 0,
    };
    assert_eq!(
        create(&mut uninit, TRADER, MINT, CURVE_ID, PricingModel::ConstantProduct, 1, 1)
            .map(|_| ()),
        Err(F44Code::NotInitialized)
    );
    let mut g = cp_config();
    // The liquidity must be exactly agent_amount whole tokens.
    assert_eq!(
        create(&mut g, TRADER, MINT, CURVE_ID, PricingModel::ConstantProduct, 999_999, 1_000_000)
            .map(|_| ()),
        Err(F44Code::NotEnoughAmount)
    );
    // A configured virtual token reserve of zero cannot back a curve.
    let mut zero_reserves = cp_config();
    set_params(
        &mut zero_reserves,
        AUTHORITY,
        ConfigParams {
            fee_recipient: FEE_RECIPIENT,
            owner_wallet: OWNER,
            agent_amount: 1,
            fee_basis_points: 100,
            mcap_limit: 1_000_000,
            create_fee: 5,
            initial_virtual_token_reserves: 0,
            initial_virtual_sol_reserves: 30,
            token_total_supply: 1_000_000,
        },
    )
    .unwrap();
    assert_eq!(
        create(
            &mut zero_reserves,
            TRADER,
            MINT,
            CURVE_ID,
            PricingModel::ConstantProduct,
            1_000_000,
            1_000_000,
        )
        .map(|_| ()),
        Err(F44Code::InvalidReserves)
    );
    // A slope whose prices cannot be represented is refused.
    let mut g2 = cp_config();
    assert_eq!(
        create(
            &mut g2,
            TRADER,
            MINT,
            CURVE_ID,
            PricingModel::LinearSecondary { initial_price: 0, curve_slope: u64::MAX },
            1_000_000,
            1_000_000,
        )
        .map(|_| ()),
        Err(F44Code::InvalidSlope)
    );
    // The slope fits but the starting price pushes past the range.
    let mut g3 = cp_config();
    assert_eq!(
        create(
            &mut g3,
            TRADER,
            MINT,
            CURVE_ID,
            PricingModel::LinearSecondary {
                initial_price: u64::MAX,
                curve_slope: u64::MAX / 1_000_000,
            },
            1_000_000,
            1_000_000,
        )
        .map(|_| ()),
        Err(F44Code::InvalidPrice)
    );
}

#[test]
fn buy_constant_product_example_trade() {
    let mut g = cp_config();
    let mut c = cp_curve(&mut g);
    let out = buy(&mut g, &mut c, TRADER, CURVE_ID, FEE_RECIPIENT, 100_000, 1_000, 42).unwrap();
    assert_eq!(out.payment, 3);
    assert_eq!(out.fee, 0);
    assert_eq!(out.net, 3);
    assert_eq!(c.virtual_token_reserves, 900_000);
    assert_eq!(c.virtual_sol_reserves, 33);
    assert_eq!(c.real_token_reserves, 900_000);
    assert_eq!(c.real_sol_reserves, 3);
    assert_eq!(c.current_price, 36);
    assert_eq!(c.current_mcap, 36);
    assert!(!c.complete);
    assert!(out.completion.is_none());
    assert_eq!(
        out.requests,
        vec![
            LedgerRequest::Transfer {
                token: TokenKind::NativeUnit,
                from: Party::User,
                to: Party::FeeRecipient,
                amount: 0,
                authority: SigningAuthority::UserSigner,
            },
            LedgerRequest::Transfer {
                token: TokenKind::NativeUnit,
                from: Party::User,
                to: Party::CurveVault,
                amount: 3,
                authority: SigningAuthority::UserSigner,
            },
            LedgerRequest::Transfer {
                token: TokenKind::CurveToken,
                from: Party::CurveVault,
                to: Party::User,
                amount: 100_000,
                authority: SigningAuthority::CurveDerived,
            },
        ]
    );
    assert_eq!(out.trade.mint, MINT);
    assert_eq!(out.trade.amount, 3);
    assert_eq!(out.trade.token_amount, 100_000);
    assert!(out.trade.is_buy);
    assert_eq!(out.trade.user, TRADER);
    assert_eq!(out.trade.timestamp, 42);
    assert_eq!(out.trade.token_reserves, 900_000);
    assert_eq!(out.trade.last_price, 36);
    assert_eq!(out.trade.current_mcap, 36);
}

#[test]
fn buy_fee_and_net_recompose_payment() {
    let mut g = cp_config();
    set_params(
        &mut g,
        AUTHORITY,
        ConfigParams {
            fee_recipient: FEE_RECIPIENT,
            owner_wallet: OWNER,
            agent_amount: 1,
            fee_basis_points: 100,
            mcap_limit: u64::MAX,
            create_fee: 5,
            initial_virtual_token_reserves: 1_000_000,
            initial_virtual_sol_reserves: 30_000,
            token_total_supply: 1_000_000,
        },
    )
    .unwrap();
    let mut c = cp_curve(&mut g);
    let out = buy(&mut g, &mut c, TRADER, CURVE_ID, FEE_RECIPIENT, 500_000, 100_000, 0).unwrap();
    // payment = floor(30_000 * 1_000_000 / 500_000) - 30_000 = 30_000.
    assert_eq!(out.payment, 30_000);
    assert_eq!(out.fee, 300);
    assert_eq!(out.net, 29_700);
    assert_eq!(out.fee + out.net, out.payment);
    // Virtual and real settlement reserves moved in lockstep by the net.
    assert_eq!(c.virtual_sol_reserves, 59_700);
    assert_eq!(c.real_sol_reserves, 29_700);
}

#[test]
fn buy_refusals_leave_curve_unchanged() {
    let mut g = cp_config();
    let mut c = cp_curve(&mut g);
    let before = c;
    let before_global = g;
    assert_eq!(
        buy(&mut g, &mut c, TRADER, CURVE_ID, FEE_RECIPIENT, 0, 1_000, 0).map(|_| ()),
        Err(F44Code::ZeroAmount)
    );
    assert_eq!(
        buy(&mut g, &mut c, TRADER, CURVE_ID, FEE_RECIPIENT, 100_000, 0, 0).map(|_| ()),
        Err(F44Code::ZeroAmount)
    );
    assert_eq!(
        buy(&mut g, &mut c, TRADER, CURVE_ID, AccountId(66), 100_000, 1_000, 0).map(|_| ()),
        Err(F44Code::InvalidFeeRecipient)
    );
    // Buying the whole virtual reserve hits the division guard.
    assert_eq!(
        buy(&mut g, &mut c, TRADER, CURVE_ID, FEE_RECIPIENT, 1_000_000, 1_000, 0).map(|_| ()),
        Err(F44Code::MathOverflow)
    );
    // A buy whose floored cost is zero cannot be settled.
    assert_eq!(
        buy(&mut g, &mut c, TRADER, CURVE_ID, FEE_RECIPIENT, 1, 1_000, 0).map(|_| ()),
        Err(F44Code::InvalidAmount)
    );
    assert_eq!(c, before);
    assert_eq!(g, before_global);
}

#[test]
fn buy_over_slippage_ceiling_changes_nothing() {
    let mut g = cp_config();
    let mut c = cp_curve(&mut g);
    let before = c;
    let before_global = g;
    // The computed cost is 3, the ceiling is 2.
    assert_eq!(
        buy(&mut g, &mut c, TRADER, CURVE_ID, FEE_RECIPIENT, 100_000, 2, 0).map(|_| ()),
        Err(F44Code::TooMuchRequired)
    );
    assert_eq!(c, before);
    assert_eq!(g, before_global);
}

#[test]
fn buy_beyond_vault_liquidity_is_refused() {
    let mut g = cp_config();
    let mut c = cp_curve(&mut g);
    c.real_token_reserves = 1_000;
    let before = c;
    assert_eq!(
        buy(&mut g, &mut c, TRADER, CURVE_ID, FEE_RECIPIENT, 100_000, 1_000, 0).map(|_| ()),
        Err(F44Code::InsufficientLiquidity)
    );
    assert_eq!(c, before);
}

#[test]
fn buy_linear_curve_exact_trade() {
    let mut g = linear_config(1_000, 2_000_000);
    let mut c = create(&mut g, TRADER, MINT, CURVE_ID, linear_model(), 1_000_000, 1_000_000)
        .unwrap()
        .curve;
    let out = buy(&mut g, &mut c, TRADER, CURVE_ID, FEE_RECIPIENT, 100, 1_000, 7).unwrap();
    // avg price = (1_000_000 + 1_000_200) / 2, payment = 100 * avg / scale.
    assert_eq!(out.payment, 100);
    assert_eq!(out.fee, 10);
    assert_eq!(out.net, 90);
    assert_eq!(c.token_reserves, 100);
    assert_eq!(c.real_token_reserves, 999_900);
    assert_eq!(c.current_price, 1_000_200);
    assert_eq!(c.current_mcap, 1_000_200);
    assert!(!c.complete);
    // The net payment reached the secondary vault on top of the creation fee.
    assert_eq!(g.f44_supply, 95);
    assert_eq!(
        out.requests,
        vec![
            LedgerRequest::Transfer {
                token: TokenKind::SecondaryToken,
                from: Party::User,
                to: Party::FeeRecipient,
                amount: 10,
                authority: SigningAuthority::UserSigner,
            },
            LedgerRequest::Transfer {
                token: TokenKind::SecondaryToken,
                from: Party::User,
                to: Party::SecondaryVault,
                amount: 90,
                authority: SigningAuthority::UserSigner,
            },
            LedgerRequest::Transfer {
                token: TokenKind::CurveToken,
                from: Party::CurveVault,
                to: Party::User,
                amount: 100,
                authority: SigningAuthority::CurveDerived,
            },
        ]
    );
}

#[test]
fn buy_linear_unpayable_amount_is_refused() {
    let mut g = linear_config(0, u64::MAX);
    set_params(
        &mut g,
        AUTHORITY,
        ConfigParams {
            fee_recipient: FEE_RECIPIENT,
            owner_wallet: OWNER,
            agent_amount: 10,
            fee_basis_points: 0,
            mcap_limit: u64::MAX,
            create_fee: 0,
            initial_virtual_token_reserves: 1_000_000,
            initial_virtual_sol_reserves: 30,
            token_total_supply: 1_000_000,
        },
    )
    .unwrap();
    let flat_model = PricingModel::LinearSecondary { initial_price: u64::MAX, curve_slope: 0 };
    let mut c = create(&mut g, TRADER, MINT, CURVE_ID, flat_model, 10_000_000, 1_000_000)
        .unwrap()
        .curve;
    let before = c;
    assert_eq!(
        buy(&mut g, &mut c, TRADER, CURVE_ID, FEE_RECIPIENT, 2_000_000, u64::MAX, 0).map(|_| ()),
        Err(F44Code::InvalidCalculation)
    );
    assert_eq!(c, before);
}

#[test]
fn two_sequential_buys_apply_in_order() {
    let mut g = cp_config();
    let mut c = cp_curve(&mut g);
    let first = buy(&mut g, &mut c, TRADER, CURVE_ID, FEE_RECIPIENT, 100_000, 1_000, 0).unwrap();
    let second = buy(&mut g, &mut c, TRADER, CURVE_ID, FEE_RECIPIENT, 100_000, 1_000, 0).unwrap();
    // The second buy is priced on the reserves the first left behind:
    // floor(33 * 900_000 / 800_000) - 33 = 37 - 33 = 4, not 3 again.
    assert_eq!(first.payment, 3);
    assert_eq!(second.payment, 4);
    // Final reserves carry both moves in submission order.
    assert_eq!(c.virtual_token_reserves, 800_000);
    assert_eq!(c.real_token_reserves, 800_000);
    assert_eq!(c.virtual_sol_reserves, 30 + first.net + second.net);
    assert_eq!(c.real_sol_reserves, first.net + second.net);
}

#[test]
fn sell_constant_product_exact_trade() {
    let mut g = cp_config();
    let mut c = cp_curve(&mut g);
    buy(&mut g, &mut c, TRADER, CURVE_ID, FEE_RECIPIENT, 100_000, 1_000, 0).unwrap();
    let out = sell(&mut g, &mut c, TRADER, 100_000, 1, 43).unwrap();
    // proceeds = floor(100_000 * 33 / 900_000) = 3.
    assert_eq!(out.payment, 3);
    assert_eq!(out.fee, 0);
    assert_eq!(out.net, 3);
    assert_eq!(out.fee + out.net, out.payment);
    assert_eq!(c.virtual_token_reserves, 1_000_000);
    assert_eq!(c.virtual_sol_reserves, 30);
    assert_eq!(c.real_token_reserves, 1_000_000);
    assert_eq!(c.real_sol_reserves, 0);
    assert!(out.completion.is_none());
    assert!(!out.trade.is_buy);
    assert_eq!(
        out.requests,
        vec![
            LedgerRequest::Transfer {
                token: TokenKind::CurveToken,
                from: Party::User,
                to: Party::CurveVault,
                amount: 100_000,
                authority: SigningAuthority::UserSigner,
            },
            LedgerRequest::Transfer {
                token: TokenKind::NativeUnit,
                from: Party::CurveVault,
                to: Party::FeeRecipient,
                amount: 0,
                authority: SigningAuthority::CurveDerived,
            },
            LedgerRequest::Transfer {
                token: TokenKind::NativeUnit,
                from: Party::CurveVault,
                to: Party::User,
                amount: 3,
                authority: SigningAuthority::CurveDerived,
            },
        ]
    );
}

#[test]
fn sell_refusals() {
    let mut g = cp_config();
    let mut c = cp_curve(&mut g);
    buy(&mut g, &mut c, TRADER, CURVE_ID, FEE_RECIPIENT, 100_000, 1_000, 0).unwrap();
    let before = c;
    let before_global = g;
    assert_eq!(sell(&mut g, &mut c, TRADER, 0, 0, 0).map(|_| ()), Err(F44Code::ZeroAmount));
    // The floor is above the computed proceeds of 3.
    assert_eq!(
        sell(&mut g, &mut c, TRADER, 100_000, 10, 0).map(|_| ()),
        Err(F44Code::TooLittleReceived)
    );
    // More than the whole virtual token reserve cannot be sold back.
    assert_eq!(
        sell(&mut g, &mut c, TRADER, 1_000_000, 0, 0).map(|_| ()),
        Err(F44Code::InsufficientLiquidity)
    );
    assert_eq!(c, before);
    assert_eq!(g, before_global);
}

#[test]
fn sell_beyond_vault_balance_is_refused() {
    let mut g = cp_config();
    let mut c = cp_curve(&mut g);
    // The curve never accumulated settlement reserve, so proceeds of 3
    // cannot be paid out.
    let before = c;
    assert_eq!(
        sell(&mut g, &mut c, TRADER, 100_000, 0, 0).map(|_| ()),
        Err(F44Code::InsufficientBalance)
    );
    assert_eq!(c, before);
}

#[test]
fn sell_linear_exact_trade() {
    let mut g = linear_config(1_000, 2_000_000);
    let mut c = create(&mut g, TRADER, MINT, CURVE_ID, linear_model(), 1_000_000, 1_000_000)
        .unwrap()
        .curve;
    buy(&mut g, &mut c, TRADER, CURVE_ID, FEE_RECIPIENT, 100, 1_000, 0).unwrap();
    let out = sell(&mut g, &mut c, TRADER, 50, 1, 44).unwrap();
    // avg = (1_000_200 + 1_000_100) / 2 = 1_000_150, proceeds = 50.
    assert_eq!(out.payment, 50);
    assert_eq!(out.fee, 5);
    assert_eq!(out.net, 45);
    assert_eq!(c.token_reserves, 50);
    assert_eq!(c.real_token_reserves, 999_900);
    assert_eq!(c.current_price, 1_000_100);
    assert_eq!(c.current_mcap, 1_000_100);
    // The gross proceeds left the secondary vault: 95 - 50 = 45.
    assert_eq!(g.f44_supply, 45);
    assert_eq!(
        out.requests,
        vec![
            LedgerRequest::Burn {
                token: TokenKind::CurveToken,
                from: Party::User,
                amount: 50,
                authority: SigningAuthority::UserSigner,
            },
            LedgerRequest::Transfer {
                token: TokenKind::SecondaryToken,
                from: Party::SecondaryVault,
                to: Party::FeeRecipient,
                amount: 5,
                authority: SigningAuthority::GlobalDerived,
            },
            LedgerRequest::Transfer {
                token: TokenKind::SecondaryToken,
                from: Party::SecondaryVault,
                to: Party::User,
                amount: 45,
                authority: SigningAuthority::GlobalDerived,
            },
        ]
    );
}

#[test]
fn sell_linear_beyond_supply_counter_is_refused() {
    // The secondary vault counter holds 5 (creation fee) + 90 (net of the
    // buy) = 95, but selling the full 100 back grosses 100.
    let mut g = linear_config(1_000, 2_000_000);
    let mut c = create(&mut g, TRADER, MINT, CURVE_ID, linear_model(), 1_000_000, 1_000_000)
        .unwrap()
        .curve;
    buy(&mut g, &mut c, TRADER, CURVE_ID, FEE_RECIPIENT, 100, 1_000, 0).unwrap();
    assert_eq!(g.f44_supply, 95);
    let before = c;
    let before_global = g;
    assert_eq!(
        sell(&mut g, &mut c, TRADER, 100, 0, 0).map(|_| ()),
        Err(F44Code::InsufficientBalance)
    );
    assert_eq!(c, before);
    assert_eq!(g, before_global);
}

#[test]
fn sell_linear_more_than_sold_is_refused() {
    let mut g = linear_config(1_000, 2_000_000);
    let mut c = create(&mut g, TRADER, MINT, CURVE_ID, linear_model(), 1_000_000, 1_000_000)
        .unwrap()
        .curve;
    buy(&mut g, &mut c, TRADER, CURVE_ID, FEE_RECIPIENT, 100, 1_000, 0).unwrap();
    let before = c;
    assert_eq!(
        sell(&mut g, &mut c, TRADER, 101, 0, 0).map(|_| ()),
        Err(F44Code::NotEnoughAmount)
    );
    assert_eq!(c, before);
}
