use vstd::prelude::*;

use crate::events::{CompleteEvent, TradeEvent};

verus! {

/// The accounts a handler can move value between. The external ledger
/// resolves each party to a concrete account: the caller, the configured
/// recipients, the curve's own vault, or the shared secondary-token
/// vault.
#[derive(Clone, Copy, Debug, PartialEq, Eq, Structural)]
pub enum Party {
    /// The authenticated caller of the operation.
    User,
    /// The configured fee recipient.
    FeeRecipient,
    /// The configured owner wallet.
    OwnerWallet,
    /// The vault holding the curve's own tokens and native reserve.
    CurveVault,
    /// The shared vault holding the secondary settlement token.
    SecondaryVault,
}

/// Which asset a request moves.
#[derive(Clone, Copy, Debug, PartialEq, Eq, Structural)]
pub enum TokenKind {
    /// The curve's own token mint.
    CurveToken,
    /// The secondary settlement token.
    SecondaryToken,
    /// The native value unit.
    NativeUnit,
}

/// Which signing capability authorizes a request. Vault-originated
/// moves are signed by a derived, keyless per-instance capability, never
/// by a held key.
#[derive(Clone, Copy, Debug, PartialEq, Eq, Structural)]
pub enum SigningAuthority {
    /// The caller's own signature.
    UserSigner,
    /// The curve instance's derived authority.
    CurveDerived,
    /// The global configuration's derived authority.
    GlobalDerived,
}

/// One action the external ledger must perform for the operation. All
/// requests of one handler call commit atomically with its state
/// changes, or not at all.
#[derive(Clone, Copy, Debug, PartialEq, Eq, Structural)]
pub enum LedgerRequest {
    /// Move `amount` of `token` between two parties.
    Transfer { token: TokenKind, from: Party, to: Party, amount: u64, authority: SigningAuthority },
    /// Destroy `amount` of `token` held by `from`.
    Burn { token: TokenKind, from: Party, amount: u64, authority: SigningAuthority },
}

/// What a successful buy or sell hands back: the settlement split, the
/// ledger actions, and the records to emit. The reserve mutation and the
/// requests commit together or not at all; the ledger enforces that.
pub struct TradeOutcome {
    /// The full settlement amount: what the buyer pays or the seller
    /// grosses before the fee.
    pub payment: u64,
    /// The protocol fee carved out of `payment`.
    pub fee: u64,
    /// `payment` less `fee`.
    pub net: u64,
    /// The ledger actions, in order.
    pub requests: Vec<LedgerRequest>,
    /// The trade record to emit.
    pub trade: TradeEvent,
    /// The completion record, present exactly when this buy completed
    /// the curve.
    pub completion: Option<CompleteEvent>,
}

} // verus!
