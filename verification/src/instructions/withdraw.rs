use vstd::prelude::*;

use crate::account::AccountId;
use crate::error::F44Code;
use crate::pricing;
use crate::requests::{LedgerRequest, Party, SigningAuthority, TokenKind};
use crate::state::{BondingCurve, Global, PricingModel};

verus! {

/// Why `withdraw` refuses, if it does: completion is checked before the
/// caller's identity, for every reserve state.
pub open spec fn spec_withdraw_err(g: Global, c: BondingCurve, caller: AccountId) -> Option<
    F44Code,
> {
    if !c.complete {
        Some(F44Code::CurveNotComplete)
    } else if caller != g.owner_wallet {
        Some(F44Code::NotAuthorized)
    } else {
        None
    }
}

/// The secondary-token slice one withdraw pays out: one part in
/// `pricing::WITHDRAW_SLICE_DIVISOR` of the supply counter, floored.
pub open spec fn spec_withdraw_slice(g: Global) -> int {
    g.f44_supply as int / (pricing::WITHDRAW_SLICE_DIVISOR as int)
}

/// Liquidate a completed curve to the configured owner wallet. The
/// curve's vault owes the owner its remaining tokens, together with the
/// accumulated native reserve (constant product) or a slice of the
/// secondary supply counter (linear). The curve itself is read-only
/// here: withdrawing never changes it, and in particular never resets
/// `complete`.
pub fn withdraw(global: &mut Global, curve: &BondingCurve, caller: AccountId) -> (r: Result<
    Vec<LedgerRequest>,
    F44Code,
>)
    requires
        old(global).wf(),
        curve.wf(),
    ensures
        (match r {
            Err(e) => {
                &&& spec_withdraw_err(*old(global), *curve, caller) == Some(e)
                &&& *final(global) == *old(global)
            },
            Ok(requests) => {
                &&& spec_withdraw_err(*old(global), *curve, caller) is None
                &&& requests@ == (match curve.model {
                    PricingModel::ConstantProduct => seq![
                        (LedgerRequest::Transfer {
                            token: TokenKind::CurveToken,
                            from: Party::CurveVault,
                            to: Party::OwnerWallet,
                            amount: curve.real_token_reserves,
                            authority: SigningAuthority::CurveDerived,
                        }),
                        (LedgerRequest::Transfer {
                            token: TokenKind::NativeUnit,
                            from: Party::CurveVault,
                            to: Party::OwnerWallet,
                            amount: curve.real_sol_reserves,
                            authority: SigningAuthority::CurveDerived,
                        }),
                    ],
                    PricingModel::LinearSecondary { .. } => seq![
                        (LedgerRequest::Transfer {
                            token: TokenKind::CurveToken,
                            from: Party::CurveVault,
                            to: Party::OwnerWallet,
                            amount: ((curve.token_total_supply - curve.token_reserves) as u64),
                            authority: SigningAuthority::CurveDerived,
                        }),
                        (LedgerRequest::Transfer {
                            token: TokenKind::SecondaryToken,
                            from: Party::SecondaryVault,
                            to: Party::OwnerWallet,
                            amount: (spec_withdraw_slice(*old(global)) as u64),
                            authority: SigningAuthority::GlobalDerived,
                        }),
                    ],
                })
                &&& *final(global) == (match curve.model {
                    PricingModel::ConstantProduct => *old(global),
                    PricingModel::LinearSecondary { .. } => Global {
                        f44_supply: (old(global).f44_supply - spec_withdraw_slice(*old(global))) as u64,
                        ..*old(global)
                    },
                })
            },
        }),
        final(global).wf(),
{
    if !curve.complete {
        return Err(F44Code::CurveNotComplete);
    }
    if caller != global.owner_wallet {
        return Err(F44Code::NotAuthorized);
    }
    let mut requests: Vec<LedgerRequest> = Vec::new();
    match curve.model {
        PricingModel::ConstantProduct => {
            requests.push(
                LedgerRequest::Transfer {
                    token: TokenKind::CurveToken,
                    from: Party::CurveVault,
                    to: Party::OwnerWallet,
                    amount: curve.real_token_reserves,
                    authority: SigningAuthority::CurveDerived,
                },
            );
            requests.push(
                LedgerRequest::Transfer {
                    token: TokenKind::NativeUnit,
                    from: Party::CurveVault,
                    to: Party::OwnerWallet,
                    amount: curve.real_sol_reserves,
                    authority: SigningAuthority::CurveDerived,
                },
            );
            proof {
                assert(requests@ =~= seq![
                    (LedgerRequest::Transfer {
                        token: TokenKind::CurveToken,
                        from: Party::CurveVault,
                        to: Party::OwnerWallet,
                        amount: curve.real_token_reserves,
                        authority: SigningAuthority::CurveDerived,
                    }),
                    (LedgerRequest::Transfer {
                        token: TokenKind::NativeUnit,
                        from: Party::CurveVault,
                        to: Party::OwnerWallet,
                        amount: curve.real_sol_reserves,
                        authority: SigningAuthority::CurveDerived,
                    }),
                ]);
            }
        },
        PricingModel::LinearSecondary { .. } => {
            let remaining: u64 = curve.token_total_supply - curve.token_reserves;
            let slice: u64 = global.f44_supply / pricing::WITHDRAW_SLICE_DIVISOR;
            requests.push(
                LedgerRequest::Transfer {
                    token: TokenKind::CurveToken,
                    from: Party::CurveVault,
                    to: Party::OwnerWallet,
                    amount: remaining,
                    authority: SigningAuthority::CurveDerived,
                },
            );
            requests.push(
                LedgerRequest::Transfer {
                    token: TokenKind::SecondaryToken,
                    from: Party::SecondaryVault,
                    to: Party::OwnerWallet,
                    amount: slice,
                    authority: SigningAuthority::GlobalDerived,
                },
            );
            global.f44_supply = global.f44_supply - slice;
            proof {
                assert(requests@ =~= seq![
                    (LedgerRequest::Transfer {
                        token: TokenKind::CurveToken,
                        from: Party::CurveVault,
                        to: Party::OwnerWallet,
                        amount: remaining,
                        authority: SigningAuthority::CurveDerived,
                    }),
                    (LedgerRequest::Transfer {
                        token: TokenKind::SecondaryToken,
                        from: Party::SecondaryVault,
                        to: Party::OwnerWallet,
                        amount: slice,
                        authority: SigningAuthority::GlobalDerived,
                    }),
                ]);
            }
        },
    }
    Ok(requests)
}

} // verus!
