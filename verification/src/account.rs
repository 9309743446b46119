use vstd::prelude::*;

verus! {

/// Identity of a ledger account, as proved to the core by the external
/// execution environment. The core only ever compares identities, so an
/// opaque numeric id models them.
#[derive(Clone, Copy, Debug, PartialEq, Eq, Structural)]
pub struct AccountId(pub u64);

} // verus!
