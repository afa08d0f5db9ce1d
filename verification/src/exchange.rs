use crate::errors::Errors;
use crate::registry::GlobalConfig;
use crate::treasury::Treasury;
use vstd::prelude::*;

verus! {

/// The payment owed for `amount` chip units at `unit_price` per unit.
pub open spec fn spec_total(unit_price: u64, amount: u64) -> int {
    unit_price * amount
}

/// Checked conversion of a chip amount into payment units.
///
/// The product is rejected with `Overflow` — never wrapped or saturated —
/// when it exceeds the 64-bit range.
pub fn total_payment(unit_price: u64, amount: u64) -> (r: Result<u64, Errors>)
    ensures
        spec_total(unit_price, amount) <= u64::MAX ==> r == Ok::<u64, Errors>(
            spec_total(unit_price, amount) as u64,
        ),
        spec_total(unit_price, amount) > u64::MAX ==> r == Err::<u64, Errors>(Errors::Overflow),
{
    match unit_price.checked_mul(amount) {
        Some(total) => Ok(total),
        None => Err(Errors::Overflow),
    }
}

/// Account view of a purchase: the buyer pays lamports into treasury
/// custody and is minted freshly created chip units.
pub struct BuyChipWithSol {
    /// The native price configuration the purchase reads.
    pub global_config: GlobalConfig,
    /// The custody record receiving the payment.
    pub treasury: Treasury,
    /// Lamports held by the buyer.
    pub buyer_lamports: u64,
    /// Lamports held in treasury custody.
    pub treasury_lamports: u64,
    /// Chip units in existence (the mint's supply).
    pub chip_supply: u64,
    /// Chip units held by the buyer.
    pub buyer_chip_amount: u64,
}

impl BuyChipWithSol {
    /// Well-formed: no holder owns more chips than exist, and two lamport
    /// balances of one currency sum to at most the currency's 64-bit
    /// total supply.
    pub open spec fn wf(&self) -> bool {
        &&& self.buyer_chip_amount <= self.chip_supply
        &&& self.buyer_lamports + self.treasury_lamports <= u64::MAX
    }

    /// The one-step transition a purchase performs: either every balance
    /// moves, or an error names why nothing does.
    pub open spec fn buy_outcome(&self, amount: u64) -> Result<BuyChipWithSol, Errors> {
        let total = spec_total(self.global_config.lamports_chip_price, amount);
        if total > u64::MAX {
            Err(Errors::Overflow)
        } else if self.buyer_lamports < total {
            Err(Errors::InsufficientFunds)
        } else if self.chip_supply + amount > u64::MAX {
            Err(Errors::SupplyExhausted)
        } else {
            Ok(BuyChipWithSol {
                global_config: self.global_config,
                treasury: self.treasury,
                buyer_lamports: (self.buyer_lamports - total) as u64,
                treasury_lamports: (self.treasury_lamports + total) as u64,
                chip_supply: (self.chip_supply + amount) as u64,
                buyer_chip_amount: (self.buyer_chip_amount + amount) as u64,
            })
        }
    }
}

/// Purchase of `amount` chip units at the current native price.
///
/// On success the buyer pays exactly price times `amount` lamports into
/// treasury custody and gains exactly `amount` freshly minted chips;
/// lamports are conserved between the two parties.  A priced total
/// beyond the 64-bit range is rejected with `Overflow` — and with
/// nothing else, so `Overflow` means exactly that — a buyer balance
/// below the total with `InsufficientFunds`, and a chip supply that
/// `amount` would push beyond the 64-bit range with `SupplyExhausted`;
/// every rejection leaves all balances unchanged.
pub fn buy_chip_with_sol(ctx: &mut BuyChipWithSol, amount: u64) -> (r: Result<(), Errors>)
    requires
        old(ctx).wf(),
    ensures
        final(ctx).wf(),
        old(ctx).buy_outcome(amount) matches Ok(next) ==> r == Ok::<(), Errors>(()) && *final(ctx)
            == next,
        old(ctx).buy_outcome(amount) matches Err(e) ==> r == Err::<(), Errors>(e) && *final(ctx)
            == *old(ctx),
        r matches Ok(()) ==> final(ctx).buyer_chip_amount == old(ctx).buyer_chip_amount + amount
            && final(ctx).chip_supply == old(ctx).chip_supply + amount
            && final(ctx).treasury_lamports == old(ctx).treasury_lamports + spec_total(
            old(ctx).global_config.lamports_chip_price,
            amount,
        ) && final(ctx).buyer_lamports + final(ctx).treasury_lamports == old(ctx).buyer_lamports
            + old(ctx).treasury_lamports,
        r == Err::<(), Errors>(Errors::Overflow) <==> spec_total(
            old(ctx).global_config.lamports_chip_price,
            amount,
        ) > u64::MAX,
{
    let total = match total_payment(ctx.global_config.lamports_chip_price, amount) {
        Ok(t) => t,
        Err(e) => {
            return Err(e);
        },
    };
    if ctx.buyer_lamports < total {
        return Err(Errors::InsufficientFunds);
    }
    let new_supply = match ctx.chip_supply.checked_add(amount) {
        Some(s) => s,
        None => {
            return Err(Errors::SupplyExhausted);
        },
    };
    ctx.buyer_lamports = ctx.buyer_lamports - total;
    ctx.treasury_lamports = ctx.treasury_lamports + total;
    ctx.chip_supply = new_supply;
    ctx.buyer_chip_amount = ctx.buyer_chip_amount + amount;
    Ok(())
}

/// Account view of a redemption: the seller's chip units are burned and
/// treasury custody pays the seller their priced value in lamports.
pub struct SellChip {
    /// The native price configuration the redemption reads.
    pub global_config: GlobalConfig,
    /// The custody record paying out.
    pub treasury: Treasury,
    /// Lamports held by the seller.
    pub seller_lamports: u64,
    /// Lamports held in treasury custody.
    pub treasury_lamports: u64,
    /// Chip units in existence (the mint's supply).
    pub chip_supply: u64,
    /// Chip units held by the seller.
    pub seller_chip_amount: u64,
}

impl SellChip {
    /// Well-formed: no holder owns more chips than exist, and two lamport
    /// balances of one currency sum to at most the currency's 64-bit
    /// total supply.
    pub open spec fn wf(&self) -> bool {
        &&& self.seller_chip_amount <= self.chip_supply
        &&& self.seller_lamports + self.treasury_lamports <= u64::MAX
    }

    /// The one-step transition a redemption performs.
    pub open spec fn sell_outcome(&self, amount: u64) -> Result<SellChip, Errors> {
        let total = spec_total(self.global_config.lamports_chip_price, amount);
        if total > u64::MAX {
            Err(Errors::Overflow)
        } else if self.seller_chip_amount < amount {
            Err(Errors::InsufficientFunds)
        } else if self.treasury_lamports < total {
            Err(Errors::InsufficientCustody)
        } else {
            Ok(SellChip {
                global_config: self.global_config,
                treasury: self.treasury,
                seller_lamports: (self.seller_lamports + total) as u64,
                treasury_lamports: (self.treasury_lamports - total) as u64,
                chip_supply: (self.chip_supply - amount) as u64,
                seller_chip_amount: (self.seller_chip_amount - amount) as u64,
            })
        }
    }
}

/// Redemption of `amount` chip units at the current native price.
///
/// On success exactly `amount` of the seller's chips are burned and
/// treasury custody pays the seller exactly price times `amount`
/// lamports; lamports are conserved between the two parties.  A priced
/// total beyond the 64-bit range is rejected with `Overflow`, a seller
/// holding fewer than `amount` chips with `InsufficientFunds`, and — the
/// solvency guard — a custody balance below the total with
/// `InsufficientCustody`; every rejection leaves all balances unchanged.
pub fn sell_chip(ctx: &mut SellChip, amount: u64) -> (r: Result<(), Errors>)
    requires
        old(ctx).wf(),
    ensures
        final(ctx).wf(),
        old(ctx).sell_outcome(amount) matches Ok(next) ==> r == Ok::<(), Errors>(()) && *final(ctx)
            == next,
        old(ctx).sell_outcome(amount) matches Err(e) ==> r == Err::<(), Errors>(e) && *final(ctx)
            == *old(ctx),
        r matches Ok(()) ==> final(ctx).seller_chip_amount == old(ctx).seller_chip_amount - amount
            && final(ctx).chip_supply == old(ctx).chip_supply - amount
            && final(ctx).treasury_lamports == old(ctx).treasury_lamports - spec_total(
            old(ctx).global_config.lamports_chip_price,
            amount,
        ) && final(ctx).seller_lamports + final(ctx).treasury_lamports == old(ctx).seller_lamports
            + old(ctx).treasury_lamports,
        r == Err::<(), Errors>(Errors::Overflow) <==> spec_total(
            old(ctx).global_config.lamports_chip_price,
            amount,
        ) > u64::MAX,
{
    let total = match total_payment(ctx.global_config.lamports_chip_price, amount) {
        Ok(t) => t,
        Err(e) => {
            return Err(e);
        },
    };
    if ctx.seller_chip_amount < amount {
        return Err(Errors::InsufficientFunds);
    }
    if ctx.treasury_lamports < total {
        return Err(Errors::InsufficientCustody);
    }
    ctx.seller_chip_amount = ctx.seller_chip_amount - amount;
    ctx.chip_supply = ctx.chip_supply - amount;
    ctx.treasury_lamports = ctx.treasury_lamports - total;
    ctx.seller_lamports = ctx.seller_lamports + total;
    Ok(())
}

/// Account view of a reservation: chip units move from the user's
/// holdings into treasury custody.
pub struct ReserveChips {
    /// The custody record receiving the chips.
    pub treasury: Treasury,
    /// Chip units held by the reserving user.
    pub user_chip_amount: u64,
    /// Chip units held in treasury custody.
    pub treasury_chip_amount: u64,
}

impl ReserveChips {
    /// Well-formed: two balances of one chip mint sum to at most the
    /// mint's 64-bit supply.
    pub open spec fn wf(&self) -> bool {
        self.user_chip_amount + self.treasury_chip_amount <= u64::MAX
    }

    /// The one-step transition a reservation performs.
    pub open spec fn reserve_outcome(&self, amount: u64) -> Result<ReserveChips, Errors> {
        if self.user_chip_amount < amount {
            Err(Errors::InsufficientFunds)
        } else {
            Ok(ReserveChips {
                treasury: self.treasury,
                user_chip_amount: (self.user_chip_amount - amount) as u64,
                treasury_chip_amount: (self.treasury_chip_amount + amount) as u64,
            })
        }
    }
}

/// Custodial transfer of `amount` chip units from the user to the
/// treasury.
///
/// The core keeps no record of why; an external session ledger observes
/// the transfer.  On success exactly `amount` chips move and the chips
/// held by the two parties are conserved; a user holding fewer than
/// `amount` is rejected with `InsufficientFunds` and nothing moves.
pub fn reserve_chips(ctx: &mut ReserveChips, amount: u64) -> (r: Result<(), Errors>)
    requires
        old(ctx).wf(),
    ensures
        final(ctx).wf(),
        old(ctx).reserve_outcome(amount) matches Ok(next) ==> r == Ok::<(), Errors>(())
            && *final(ctx) == next,
        old(ctx).reserve_outcome(amount) matches Err(e) ==> r == Err::<(), Errors>(e) && *final(ctx)
            == *old(ctx),
        r matches Ok(()) ==> final(ctx).user_chip_amount == old(ctx).user_chip_amount - amount
            && final(ctx).treasury_chip_amount == old(ctx).treasury_chip_amount + amount
            && final(ctx).user_chip_amount + final(ctx).treasury_chip_amount == old(
            ctx,
        ).user_chip_amount + old(ctx).treasury_chip_amount,
{
    if ctx.user_chip_amount < amount {
        return Err(Errors::InsufficientFunds);
    }
    ctx.user_chip_amount = ctx.user_chip_amount - amount;
    ctx.treasury_chip_amount = ctx.treasury_chip_amount + amount;
    Ok(())
}

} // verus!
