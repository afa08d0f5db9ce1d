use vstd::prelude::*;

verus! {

/// The custody identity.
///
/// The treasury receives every payment, holds chip units reserved on
/// behalf of users, and is the minting and burning authority for the chip
/// unit.  Its address and signing capability are reconstructed by the
/// runtime from a fixed seed together with the stored discriminator byte;
/// only that byte is persisted here.
#[derive(Clone, Copy, Debug, PartialEq, Eq, Structural)]
pub struct Treasury {
    /// Discriminator byte of the derived custody address.
    pub bump: u8,
}

} // verus!
