use sol_strike::authority::AuthorityPolicy;
use sol_strike::errors::Errors;
use sol_strike::rewards::{
    claim_chips, distribute_chips, ClaimChips, ClaimableRewards, DistributeChips,
    FIRST_PLACE_BONUS, SECOND_PLACE_BONUS, THIRD_PLACE_BONUS,
};
use sol_strike::treasury::Treasury;

const ADMIN: u64 = 7;

fn round(signer: u64, first: u64, second: u64, third: u64) -> DistributeChips {
    DistributeChips {
        authority: AuthorityPolicy { admin: ADMIN },
        signer,
        first_place_claimable_rewards_account: ClaimableRewards { amount: first },
        second_place_claimable_rewards_account: ClaimableRewards { amount: second },
        third_place_claimable_rewards_account: ClaimableRewards { amount: third },
    }
}

#[test]
fn distribute_credits_fixed_bonuses() {
    let mut ctx = round(ADMIN, 0, 0, 0);
    assert_eq!(distribute_chips(&mut ctx), Ok(()));
    assert_eq!(ctx.first_place_claimable_rewards_account.amount, 2_500_000_000);
    assert_eq!(ctx.second_place_claimable_rewards_account.amount, 1_000_000_000);
    assert_eq!(ctx.third_place_claimable_rewards_account.amount, 300_000_000);
}

#[test]
fn distribute_accumulates_across_rounds() {
    let mut ctx = round(ADMIN, 0, 0, 0);
    assert_eq!(distribute_chips(&mut ctx), Ok(()));
    assert_eq!(distribute_chips(&mut ctx), Ok(()));
    assert_eq!(ctx.first_place_claimable_rewards_account.amount, 2 * FIRST_PLACE_BONUS);
    assert_eq!(ctx.second_place_claimable_rewards_account.amount, 2 * SECOND_PLACE_BONUS);
    assert_eq!(ctx.third_place_claimable_rewards_account.amount, 2 * THIRD_PLACE_BONUS);
}

#[test]
fn distribute_unauthorized_rejected() {
    let mut ctx = round(ADMIN + 1, 5, 5, 5);
    assert_eq!(distribute_chips(&mut ctx), Err(Errors::Unauthorized));
    assert_eq!(ctx.first_place_claimable_rewards_account.amount, 5);
    assert_eq!(ctx.second_place_claimable_rewards_account.amount, 5);
    assert_eq!(ctx.third_place_claimable_rewards_account.amount, 5);
}

#[test]
fn distribute_overflow_is_atomic() {
    // the second slot cannot take its bonus, so no slot may change
    let mut ctx = round(ADMIN, 0, u64::MAX - SECOND_PLACE_BONUS + 1, 0);
    assert_eq!(distribute_chips(&mut ctx), Err(Errors::Overflow));
    assert_eq!(ctx.first_place_claimable_rewards_account.amount, 0);
    assert_eq!(
        ctx.second_place_claimable_rewards_account.amount,
        u64::MAX - SECOND_PLACE_BONUS + 1
    );
    assert_eq!(ctx.third_place_claimable_rewards_account.amount, 0);
}

#[test]
fn claim_transfers_and_resets() {
    let mut ctx = ClaimChips {
        treasury: Treasury { bump: 2 },
        claimable_rewards_account: ClaimableRewards { amount: 2_500_000_000 },
        treasury_chip_amount: 4_000_000_000,
        claimer_chip_amount: 10,
    };
    assert_eq!(claim_chips(&mut ctx), Ok(()));
    assert_eq!(ctx.claimable_rewards_account.amount, 0);
    assert_eq!(ctx.claimer_chip_amount, 2_500_000_010);
    assert_eq!(ctx.treasury_chip_amount, 1_500_000_000);
}

#[test]
fn claim_twice_pays_once() {
    let mut ctx = ClaimChips {
        treasury: Treasury { bump: 2 },
        claimable_rewards_account: ClaimableRewards { amount: 2_500_000_000 },
        treasury_chip_amount: 4_000_000_000,
        claimer_chip_amount: 0,
    };
    assert_eq!(claim_chips(&mut ctx), Ok(()));
    assert_eq!(ctx.claimer_chip_amount, 2_500_000_000);
    // the second claim transfers the zero balance: a no-op, not a double pay
    assert_eq!(claim_chips(&mut ctx), Ok(()));
    assert_eq!(ctx.claimer_chip_amount, 2_500_000_000);
    assert_eq!(ctx.claimable_rewards_account.amount, 0);
    assert_eq!(ctx.treasury_chip_amount, 1_500_000_000);
}

#[test]
fn claim_with_zero_balance_is_noop() {
    // a recipient never credited legitimately claims zero
    let mut ctx = ClaimChips {
        treasury: Treasury { bump: 2 },
        claimable_rewards_account: ClaimableRewards { amount: 0 },
        treasury_chip_amount: 50,
        claimer_chip_amount: 3,
    };
    assert_eq!(claim_chips(&mut ctx), Ok(()));
    assert_eq!(ctx.claimer_chip_amount, 3);
    assert_eq!(ctx.treasury_chip_amount, 50);
}

#[test]
fn claim_beyond_custody_rejected() {
    // the solvency guard on the claim path
    let mut ctx = ClaimChips {
        treasury: Treasury { bump: 2 },
        claimable_rewards_account: ClaimableRewards { amount: 100 },
        treasury_chip_amount: 99,
        claimer_chip_amount: 0,
    };
    assert_eq!(claim_chips(&mut ctx), Err(Errors::InsufficientCustody));
    assert_eq!(ctx.claimable_rewards_account.amount, 100);
    assert_eq!(ctx.claimer_chip_amount, 0);
    assert_eq!(ctx.treasury_chip_amount, 99);
}

#[test]
fn distribute_then_claim_first_place() {
    // one round credits the three slots; the first-place recipient claims
    let mut dist = round(ADMIN, 0, 0, 0);
    assert_eq!(distribute_chips(&mut dist), Ok(()));
    let mut claim = ClaimChips {
        treasury: Treasury { bump: 2 },
        claimable_rewards_account: dist.first_place_claimable_rewards_account,
        treasury_chip_amount: 10_000_000_000,
        claimer_chip_amount: 0,
    };
    assert_eq!(claim_chips(&mut claim), Ok(()));
    assert_eq!(claim.claimable_rewards_account.amount, 0);
    assert_eq!(claim.claimer_chip_amount, 2_500_000_000);
    // the other slots are distinct records and stay credited
    assert_eq!(dist.second_place_claimable_rewards_account.amount, 1_000_000_000);
    assert_eq!(dist.third_place_claimable_rewards_account.amount, 300_000_000);
}
