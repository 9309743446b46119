use f44::account::AccountId;
use f44::error::F44Code;
use f44::instructions::buy::buy;
use f44::instructions::create::create;
use f44::instructions::initialize::initialize;
use f44::instructions::sell::sell;
use f44::instructions::set_params::{set_params, ConfigParams};
use f44::instructions::withdraw::withdraw;
use f44::requests::{LedgerRequest, Party, SigningAuthority, TokenKind};
use f44::state::{BondingCurve, Global, PricingModel};

const AUTHORITY: AccountId = AccountId(1);
const FEE_RECIPIENT: AccountId = AccountId(2);
const OWNER: AccountId = AccountId(3);
const TRADER: AccountId = AccountId(9);
const MINT: AccountId = AccountId(7);
const CURVE_ID: AccountId = AccountId(8);

fn config_with_mcap_limit(mcap_limit: u64) -> Global {
    let mut g = Global {
        initialized: false,
        authority: AccountId(0),
        fee_recipient: AccountId(0),
        owner_wallet: AccountId(0),
        agent_amount: 0,
        fee_basis_points: 0,
        mcap_limit: 0,
        create_fee: 0,
        initial_virtual_token_reserves: 0,
        initial_virtual_sol_reserves: 0,
        token_total_supply: 0,
        f44_supply: 0,
    };
    initialize(&mut g, AUTHORITY).unwrap();
    set_params(
        &mut g,
        AUTHORITY,
        ConfigParams {
            fee_recipient: FEE_RECIPIENT,
            owner_wallet: OWNER,
            agent_amount: 1,
            fee_basis_points: 100,
            mcap_limit,
            create_fee: 5,
            initial_virtual_token_reserves: 1_000_000,
            initial_virtual_sol_reserves: 30,
            token_total_supply: 1_000_000,
        },
    )
    .unwrap();
    g
}

fn completed_cp_curve() -> (Global, BondingCurve) {
    // With a limit of 10, the example buy's market cap of 36 completes
    // the curve.
    let mut g = config_with_mcap_limit(10);
    let mut c = create(&mut g, TRADER, MINT, CURVE_ID, PricingModel::ConstantProduct, 1_000_000, 1_000_000)
        .unwrap()
        .curve;
    let out = buy(&mut g, &mut c, TRADER, CURVE_ID, FEE_RECIPIENT, 100_000, 1_000, 55).unwrap();
    assert!(c.complete);
    let ev = out.completion.expect("the buy crossed the threshold");
    assert_eq!(ev.user, TRADER);
    assert_eq!(ev.mint, MINT);
    assert_eq!(ev.bonding_curve, CURVE_ID);
    assert_eq!(ev.timestamp, 55);
    (g, c)
}

#[test]
fn buy_below_the_threshold_does_not_complete() {
    let mut g = config_with_mcap_limit(1_000_000);
    let mut c = create(&mut g, TRADER, MINT, CURVE_ID, PricingModel::ConstantProduct, 1_000_000, 1_000_000)
        .unwrap()
        .curve;
    let out = buy(&mut g, &mut c, TRADER, CURVE_ID, FEE_RECIPIENT, 100_000, 1_000, 0).unwrap();
    assert!(!c.complete);
    assert!(out.completion.is_none());
}

#[test]
fn completion_is_terminal_for_trades() {
    let (mut g, mut c) = completed_cp_curve();
    let before = c;
    let before_global = g;
    assert_eq!(
        buy(&mut g, &mut c, TRADER, CURVE_ID, FEE_RECIPIENT, 1_000, 1_000, 0).map(|_| ()),
        Err(F44Code::CurveComplete)
    );
    assert_eq!(
        sell(&mut g, &mut c, TRADER, 1_000, 0, 0).map(|_| ()),
        Err(F44Code::CurveComplete)
    );
    assert_eq!(c, before);
    assert_eq!(g, before_global);
    assert!(c.complete);
}

#[test]
fn sell_never_completes_a_curve() {
    // Even a sell that leaves the market cap above the limit does not
    // flip the flag: only buys evaluate completion.
    let mut g = config_with_mcap_limit(10);
    let mut c = create(&mut g, TRADER, MINT, CURVE_ID, PricingModel::ConstantProduct, 1_000_000, 1_000_000)
        .unwrap()
        .curve;
    c.real_sol_reserves = 30;
    let out = sell(&mut g, &mut c, TRADER, 10, 0, 0).unwrap();
    // The post-trade market cap still tops the limit of 10...
    assert!(c.current_mcap > c.mcap_limit);
    // ...and yet the curve stays open.
    assert!(!c.complete);
    assert!(out.completion.is_none());
}

#[test]
fn withdraw_before_completion_is_refused() {
    let mut g = config_with_mcap_limit(1_000_000);
    let c = create(&mut g, TRADER, MINT, CURVE_ID, PricingModel::ConstantProduct, 1_000_000, 1_000_000)
        .unwrap()
        .curve;
    let before_global = g;
    assert_eq!(withdraw(&mut g, &c, OWNER).map(|_| ()), Err(F44Code::CurveNotComplete));
    // The completion gate is checked before the caller's identity.
    assert_eq!(withdraw(&mut g, &c, AccountId(66)).map(|_| ()), Err(F44Code::CurveNotComplete));
    assert_eq!(g, before_global);
}

#[test]
fn withdraw_before_completion_refused_even_with_all_zero_reserves() {
    let mut g = config_with_mcap_limit(1_000_000);
    let zero_curve = BondingCurve {
        token_mint: MINT,
        model: PricingModel::LinearSecondary { initial_price: 1, curve_slope: 0 },
        virtual_token_reserves: 0,
        virtual_sol_reserves: 0,
        real_token_reserves: 0,
        real_sol_reserves: 0,
        token_reserves: 0,
        token_total_supply: 0,
        mcap_limit: 0,
        current_price: 1,
        current_mcap: 0,
        complete: false,
    };
    assert_eq!(
        withdraw(&mut g, &zero_curve, OWNER).map(|_| ()),
        Err(F44Code::CurveNotComplete)
    );
}

#[test]
fn withdraw_by_non_owner_is_refused() {
    let (mut g, c) = completed_cp_curve();
    let before_global = g;
    assert_eq!(withdraw(&mut g, &c, AUTHORITY).map(|_| ()), Err(F44Code::NotAuthorized));
    assert_eq!(withdraw(&mut g, &c, TRADER).map(|_| ()), Err(F44Code::NotAuthorized));
    assert_eq!(g, before_global);
}

#[test]
fn withdraw_constant_product_pays_out_real_reserves() {
    let (mut g, c) = completed_cp_curve();
    let before_global = g;
    let requests = withdraw(&mut g, &c, OWNER).unwrap();
    assert_eq!(
        requests,
        vec![
            LedgerRequest::Transfer {
                token: TokenKind::CurveToken,
                from: Party::CurveVault,
                to: Party::OwnerWallet,
                amount: 900_000,
                authority: SigningAuthority::CurveDerived,
            },
            LedgerRequest::Transfer {
                token: TokenKind::NativeUnit,
                from: Party::CurveVault,
                to: Party::OwnerWallet,
                amount: 3,
                authority: SigningAuthority::CurveDerived,
            },
        ]
    );
    // The native variant does not touch the configuration, and the curve
    // itself is read-only to withdraw: it stays complete.
    assert_eq!(g, before_global);
    assert!(c.complete);
}

#[test]
fn withdraw_linear_pays_out_supply_slice() {
    let mut g = config_with_mcap_limit(1_000_100);
    f44::instructions::create::deposit(&mut g, 10_000).unwrap();
    let model = PricingModel::LinearSecondary { initial_price: 1_000_000, curve_slope: 2 };
    let mut c = create(&mut g, TRADER, MINT, CURVE_ID, model, 1_000_000, 1_000_000)
        .unwrap()
        .curve;
    // supply: 10_000 deposit + 5 creation fee.
    assert_eq!(g.f44_supply, 10_005);
    let out = buy(&mut g, &mut c, TRADER, CURVE_ID, FEE_RECIPIENT, 100, 1_000, 0).unwrap();
    // mcap 1_000_200 > 1_000_100: the buy completed the curve.
    assert!(c.complete);
    assert!(out.completion.is_some());
    assert_eq!(g.f44_supply, 10_104);
    let requests = withdraw(&mut g, &c, OWNER).unwrap();
    assert_eq!(
        requests,
        vec![
            LedgerRequest::Transfer {
                token: TokenKind::CurveToken,
                from: Party::CurveVault,
                to: Party::OwnerWallet,
                amount: 999_900,
                authority: SigningAuthority::CurveDerived,
            },
            LedgerRequest::Transfer {
                token: TokenKind::SecondaryToken,
                from: Party::SecondaryVault,
                to: Party::OwnerWallet,
                amount: 101,
                authority: SigningAuthority::GlobalDerived,
            },
        ]
    );
    assert_eq!(g.f44_supply, 10_003);
    // Withdraw is terminal but repeatable while balances last: a second
    // call still succeeds and slices the remaining counter.
    let again = withdraw(&mut g, &c, OWNER).unwrap();
    assert_eq!(again.len(), 2);
    assert_eq!(g.f44_supply, 10_003 - 100);
}
