use crate::errors::Errors;
use crate::exchange::{spec_total, BuyChipWithSol, SellChip};
use crate::rewards::ClaimChips;
use vstd::prelude::*;

verus! {

/// Custody backs the supply: a treasury holding at least the priced
/// value of every chip in existence still does so after a purchase, so
/// every freshly minted chip is backed by its deposit.
pub proof fn lemma_buy_preserves_backing(ctx: BuyChipWithSol, amount: u64)
    requires
        ctx.wf(),
        ctx.buy_outcome(amount) is Ok,
        ctx.treasury_lamports >= spec_total(
            ctx.global_config.lamports_chip_price,
            ctx.chip_supply,
        ),
    ensures
        ({
            let bought = ctx.buy_outcome(amount)->Ok_0;
            bought.treasury_lamports >= spec_total(
                bought.global_config.lamports_chip_price,
                bought.chip_supply,
            )
        }),
{
    let p = ctx.global_config.lamports_chip_price as int;
    let s = ctx.chip_supply as int;
    let a = amount as int;
    assert(p * (s + a) == p * s + p * a) by (nonlinear_arith);
}

/// Custody backs the supply: a treasury holding at least the priced
/// value of every chip in existence still does so after a redemption,
/// since a burned chip leaves with exactly its priced value.
pub proof fn lemma_sell_preserves_backing(ctx: SellChip, amount: u64)
    requires
        ctx.wf(),
        ctx.sell_outcome(amount) is Ok,
        ctx.treasury_lamports >= spec_total(
            ctx.global_config.lamports_chip_price,
            ctx.chip_supply,
        ),
    ensures
        ({
            let sold = ctx.sell_outcome(amount)->Ok_0;
            sold.treasury_lamports >= spec_total(
                sold.global_config.lamports_chip_price,
                sold.chip_supply,
            )
        }),
{
    let p = ctx.global_config.lamports_chip_price as int;
    let s = ctx.chip_supply as int;
    let a = amount as int;
    assert(p * (s - a) == p * s - p * a) by (nonlinear_arith);
}

/// Round trip: buying `amount` and then selling `amount` back at an
/// unchanged price always succeeds and returns the buyer's lamport
/// balance, chip balance, the treasury's custody, and the chip supply to
/// their pre-purchase values.
///
/// The redemption is guaranteed to succeed because the purchase itself
/// deposited its priced total into custody, left the buyer holding at
/// least `amount` chips, and freed room for the payout.
pub proof fn lemma_buy_sell_round_trip(ctx: BuyChipWithSol, amount: u64)
    requires
        ctx.wf(),
        ctx.buy_outcome(amount) is Ok,
    ensures
        ({
            let bought = ctx.buy_outcome(amount)->Ok_0;
            let resale = (SellChip {
                global_config: bought.global_config,
                treasury: bought.treasury,
                seller_lamports: bought.buyer_lamports,
                treasury_lamports: bought.treasury_lamports,
                chip_supply: bought.chip_supply,
                seller_chip_amount: bought.buyer_chip_amount,
            });
            &&& resale.wf()
            &&& resale.sell_outcome(amount) is Ok
            &&& resale.sell_outcome(amount)->Ok_0.seller_lamports == ctx.buyer_lamports
            &&& resale.sell_outcome(amount)->Ok_0.treasury_lamports == ctx.treasury_lamports
            &&& resale.sell_outcome(amount)->Ok_0.seller_chip_amount == ctx.buyer_chip_amount
            &&& resale.sell_outcome(amount)->Ok_0.chip_supply == ctx.chip_supply
        }),
{
}

/// Exactly-once claim: after a successful claim of a credited balance,
/// the record is zero and the claimer has gained exactly that balance;
/// a second claim succeeds as a transfer of zero and changes nothing,
/// so the claimer ends up with the credit once, not twice.
pub proof fn lemma_claim_exactly_once(ctx: ClaimChips)
    requires
        ctx.wf(),
        ctx.claim_outcome() is Ok,
    ensures
        ({
            let once = ctx.claim_outcome()->Ok_0;
            &&& once.claimable_rewards_account.amount == 0
            &&& once.claimer_chip_amount == ctx.claimer_chip_amount
                + ctx.claimable_rewards_account.amount
            &&& once.claim_outcome() == Ok::<ClaimChips, Errors>(once)
        }),
{
}

} // verus!
