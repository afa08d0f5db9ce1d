use crate::authority::AuthorityPolicy;
use crate::errors::Errors;
use crate::treasury::Treasury;
use vstd::prelude::*;

verus! {

/// Bonus credited to the first-place recipient per distribution round:
/// 2.5 units of a 9-decimal token, in minor units.
pub const FIRST_PLACE_BONUS: u64 = 2_500_000_000;

/// Bonus credited to the second-place recipient per distribution round:
/// 1 unit of a 9-decimal token, in minor units.
pub const SECOND_PLACE_BONUS: u64 = 1_000_000_000;

/// Bonus credited to the third-place recipient per distribution round:
/// 0.3 units of a 9-decimal token, in minor units.
pub const THIRD_PLACE_BONUS: u64 = 300_000_000;

/// Per-recipient claimable balance.
///
/// The runtime creates the record with a zero balance the first time a
/// recipient is credited; a recipient without a record legitimately has
/// balance zero.  The balance accumulates across distribution rounds and
/// is reset to zero atomically by a successful claim.
#[derive(Clone, Copy, Debug, PartialEq, Eq, Structural)]
pub struct ClaimableRewards {
    /// Chip units pending withdrawal by the recipient.
    pub amount: u64,
}

/// Account view of a distribution round over the three fixed recipient
/// slots.
pub struct DistributeChips {
    /// The authority policy the deployment recognizes.
    pub authority: AuthorityPolicy,
    /// Identity requesting the distribution.
    pub signer: u64,
    /// Claimable balance of the first-place recipient.
    pub first_place_claimable_rewards_account: ClaimableRewards,
    /// Claimable balance of the second-place recipient.
    pub second_place_claimable_rewards_account: ClaimableRewards,
    /// Claimable balance of the third-place recipient.
    pub third_place_claimable_rewards_account: ClaimableRewards,
}

impl DistributeChips {
    /// The one-step transition a distribution round performs.
    pub open spec fn distribute_outcome(&self) -> Result<DistributeChips, Errors> {
        if !self.authority.spec_is_authorized(self.signer) {
            Err(Errors::Unauthorized)
        } else if self.first_place_claimable_rewards_account.amount + FIRST_PLACE_BONUS > u64::MAX
            || self.second_place_claimable_rewards_account.amount + SECOND_PLACE_BONUS > u64::MAX
            || self.third_place_claimable_rewards_account.amount + THIRD_PLACE_BONUS > u64::MAX {
            Err(Errors::Overflow)
        } else {
            Ok(DistributeChips {
                authority: self.authority,
                signer: self.signer,
                first_place_claimable_rewards_account: ClaimableRewards {
                    amount: (self.first_place_claimable_rewards_account.amount
                        + FIRST_PLACE_BONUS) as u64,
                },
                second_place_claimable_rewards_account: ClaimableRewards {
                    amount: (self.second_place_claimable_rewards_account.amount
                        + SECOND_PLACE_BONUS) as u64,
                },
                third_place_claimable_rewards_account: ClaimableRewards {
                    amount: (self.third_place_claimable_rewards_account.amount
                        + THIRD_PLACE_BONUS) as u64,
                },
            })
        }
    }
}

/// Administrator-only batch credit of the three recipient slots.
///
/// On success each slot's claimable balance grows by exactly its fixed
/// bonus.  Any other caller is rejected with `Unauthorized`, and a
/// balance the bonus would push beyond the 64-bit range with `Overflow`;
/// either rejection leaves every balance unchanged — the round is
/// atomic.  A repeated round credits the same bonuses again: at-most-once
/// invocation per round is the caller's responsibility.
pub fn distribute_chips(ctx: &mut DistributeChips) -> (r: Result<(), Errors>)
    ensures
        old(ctx).distribute_outcome() matches Ok(next) ==> r == Ok::<(), Errors>(()) && *final(ctx)
            == next,
        old(ctx).distribute_outcome() matches Err(e) ==> r == Err::<(), Errors>(e) && *final(ctx)
            == *old(ctx),
        !old(ctx).authority.spec_is_authorized(old(ctx).signer) ==> r == Err::<(), Errors>(
            Errors::Unauthorized,
        ),
        r matches Ok(()) ==> final(ctx).first_place_claimable_rewards_account.amount == old(
            ctx,
        ).first_place_claimable_rewards_account.amount + FIRST_PLACE_BONUS
            && final(ctx).second_place_claimable_rewards_account.amount == old(
            ctx,
        ).second_place_claimable_rewards_account.amount + SECOND_PLACE_BONUS
            && final(ctx).third_place_claimable_rewards_account.amount == old(
            ctx,
        ).third_place_claimable_rewards_account.amount + THIRD_PLACE_BONUS,
{
    if !ctx.authority.is_authorized(ctx.signer) {
        return Err(Errors::Unauthorized);
    }
    let first = match ctx.first_place_claimable_rewards_account.amount.checked_add(
        FIRST_PLACE_BONUS,
    ) {
        Some(a) => a,
        None => {
            return Err(Errors::Overflow);
        },
    };
    let second = match ctx.second_place_claimable_rewards_account.amount.checked_add(
        SECOND_PLACE_BONUS,
    ) {
        Some(a) => a,
        None => {
            return Err(Errors::Overflow);
        },
    };
    let third = match ctx.third_place_claimable_rewards_account.amount.checked_add(
        THIRD_PLACE_BONUS,
    ) {
        Some(a) => a,
        None => {
            return Err(Errors::Overflow);
        },
    };
    ctx.first_place_claimable_rewards_account.amount = first;
    ctx.second_place_claimable_rewards_account.amount = second;
    ctx.third_place_claimable_rewards_account.amount = third;
    Ok(())
}

/// Account view of a claim: the caller withdraws their entire claimable
/// balance from treasury chip custody.
pub struct ClaimChips {
    /// The custody record paying out.
    pub treasury: Treasury,
    /// Claimable balance of the claiming recipient.
    pub claimable_rewards_account: ClaimableRewards,
    /// Chip units held in treasury custody.
    pub treasury_chip_amount: u64,
    /// Chip units held by the claiming recipient.
    pub claimer_chip_amount: u64,
}

impl ClaimChips {
    /// Well-formed: two balances of one chip mint sum to at most the
    /// mint's 64-bit supply.
    pub open spec fn wf(&self) -> bool {
        self.treasury_chip_amount + self.claimer_chip_amount <= u64::MAX
    }

    /// The one-step transition a claim performs: the transfer of the
    /// credited amount and the reset to zero are one atomic unit.
    pub open spec fn claim_outcome(&self) -> Result<ClaimChips, Errors> {
        let amt = self.claimable_rewards_account.amount;
        if self.treasury_chip_amount < amt {
            Err(Errors::InsufficientCustody)
        } else {
            Ok(ClaimChips {
                treasury: self.treasury,
                claimable_rewards_account: ClaimableRewards { amount: 0 },
                treasury_chip_amount: (self.treasury_chip_amount - amt) as u64,
                claimer_chip_amount: (self.claimer_chip_amount + amt) as u64,
            })
        }
    }
}

/// Withdrawal of the caller's entire claimable balance.
///
/// On success the claimer gains exactly the credited amount from
/// treasury custody and the record is reset to zero in the same atomic
/// step, so each credited unit is claimable exactly once; a zero balance
/// makes the call a harmless no-op.  A custody balance below the
/// credited amount — the solvency guard — is rejected with
/// `InsufficientCustody` and neither half happens.
pub fn claim_chips(ctx: &mut ClaimChips) -> (r: Result<(), Errors>)
    requires
        old(ctx).wf(),
    ensures
        final(ctx).wf(),
        old(ctx).claim_outcome() matches Ok(next) ==> r == Ok::<(), Errors>(()) && *final(ctx)
            == next,
        old(ctx).claim_outcome() matches Err(e) ==> r == Err::<(), Errors>(e) && *final(ctx)
            == *old(ctx),
        r matches Ok(()) ==> final(ctx).claimable_rewards_account.amount == 0
            && final(ctx).claimer_chip_amount == old(ctx).claimer_chip_amount + old(
            ctx,
        ).claimable_rewards_account.amount && final(ctx).treasury_chip_amount == old(
            ctx,
        ).treasury_chip_amount - old(ctx).claimable_rewards_account.amount
            && final(ctx).treasury_chip_amount + final(ctx).claimer_chip_amount == old(
            ctx,
        ).treasury_chip_amount + old(ctx).claimer_chip_amount,
{
    let amt = ctx.claimable_rewards_account.amount;
    if ctx.treasury_chip_amount < amt {
        return Err(Errors::InsufficientCustody);
    }
    ctx.treasury_chip_amount = ctx.treasury_chip_amount - amt;
    ctx.claimer_chip_amount = ctx.claimer_chip_amount + amt;
    ctx.claimable_rewards_account.amount = 0;
    Ok(())
}

} // verus!
