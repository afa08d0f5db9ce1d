use vstd::prelude::*;

verus! {

/// The error kinds surfaced by the accounting core.
///
/// Every instruction is atomic: a call that returns one of these errors
/// leaves every record and balance it touches unchanged.
#[derive(Clone, Copy, Debug, PartialEq, Eq, Structural)]
pub enum Errors {
    /// A price times an amount, or a credited balance, does not fit in 64 bits.
    Overflow,
    /// Minting the requested amount would push the chip supply beyond 64 bits.
    SupplyExhausted,
    /// The caller is not the recognized administrator for a gated mutation.
    Unauthorized,
    /// The singleton configuration was created before.
    AlreadyInitialized,
    /// The asset already has a price entry.
    AlreadyRegistered,
    /// The mutation targets a registry entry that does not exist.
    NotFound,
    /// The treasury does not custody enough value to cover a redemption.
    InsufficientCustody,
    /// The paying or burning party holds less than the requested amount.
    InsufficientFunds,
}

} // verus!
