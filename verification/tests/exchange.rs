use sol_strike::errors::Errors;
use sol_strike::exchange::{
    buy_chip_with_sol, reserve_chips, sell_chip, total_payment, BuyChipWithSol, ReserveChips,
    SellChip,
};
use sol_strike::registry::GlobalConfig;
use sol_strike::treasury::Treasury;

fn buy_ctx(price: u64, buyer: u64, treasury: u64, supply: u64, chips: u64) -> BuyChipWithSol {
    BuyChipWithSol {
        global_config: GlobalConfig { lamports_chip_price: price, bump: 1 },
        treasury: Treasury { bump: 2 },
        buyer_lamports: buyer,
        treasury_lamports: treasury,
        chip_supply: supply,
        buyer_chip_amount: chips,
    }
}

fn sell_ctx(price: u64, seller: u64, treasury: u64, supply: u64, chips: u64) -> SellChip {
    SellChip {
        global_config: GlobalConfig { lamports_chip_price: price, bump: 1 },
        treasury: Treasury { bump: 2 },
        seller_lamports: seller,
        treasury_lamports: treasury,
        chip_supply: supply,
        seller_chip_amount: chips,
    }
}

#[test]
fn total_payment_exact() {
    assert_eq!(total_payment(10_000_000, 5), Ok(50_000_000));
    assert_eq!(total_payment(0, u64::MAX), Ok(0));
    assert_eq!(total_payment(u64::MAX, 1), Ok(u64::MAX));
    assert_eq!(total_payment(u64::MAX, 2), Err(Errors::Overflow));
}

#[test]
fn buy_at_initialized_price() {
    // price 10_000_000 lamports per chip (0.01 of the base unit at 9
    // decimals); a funded buyer takes 5 chips
    let mut ctx = buy_ctx(10_000_000, 100_000_000, 7, 20, 0);
    let r = buy_chip_with_sol(&mut ctx, 5);
    assert_eq!(r, Ok(()));
    assert_eq!(ctx.treasury_lamports, 7 + 50_000_000);
    assert_eq!(ctx.buyer_lamports, 100_000_000 - 50_000_000);
    assert_eq!(ctx.buyer_chip_amount, 5);
    assert_eq!(ctx.chip_supply, 25);
}

#[test]
fn buy_conserves_lamports() {
    let mut ctx = buy_ctx(3, 1_000, 500, 0, 0);
    let before = ctx.buyer_lamports + ctx.treasury_lamports;
    assert_eq!(buy_chip_with_sol(&mut ctx, 100), Ok(()));
    assert_eq!(ctx.buyer_lamports + ctx.treasury_lamports, before);
    assert_eq!(ctx.buyer_lamports, 700);
    assert_eq!(ctx.treasury_lamports, 800);
}

#[test]
fn buy_price_overflow_rejected() {
    let mut ctx = buy_ctx(u64::MAX, 100, 100, 0, 0);
    let r = buy_chip_with_sol(&mut ctx, 2);
    assert_eq!(r, Err(Errors::Overflow));
    assert_eq!(ctx.buyer_lamports, 100);
    assert_eq!(ctx.treasury_lamports, 100);
    assert_eq!(ctx.buyer_chip_amount, 0);
    assert_eq!(ctx.chip_supply, 0);
}

#[test]
fn buy_insufficient_funds_rejected() {
    let mut ctx = buy_ctx(10_000_000, 49_999_999, 0, 0, 0);
    let r = buy_chip_with_sol(&mut ctx, 5);
    assert_eq!(r, Err(Errors::InsufficientFunds));
    assert_eq!(ctx.buyer_lamports, 49_999_999);
    assert_eq!(ctx.treasury_lamports, 0);
}

#[test]
fn buy_supply_exhausted_rejected() {
    // the priced total (one lamport) is representable, so the rejection
    // is the supply's, not the product's
    let mut ctx = buy_ctx(1, 1, 0, u64::MAX, 0);
    let r = buy_chip_with_sol(&mut ctx, 1);
    assert_eq!(r, Err(Errors::SupplyExhausted));
    assert_eq!(ctx.chip_supply, u64::MAX);
    assert_eq!(ctx.buyer_lamports, 1);
    assert_eq!(ctx.treasury_lamports, 0);
    assert_eq!(ctx.buyer_chip_amount, 0);
}

#[test]
fn buy_zero_amount_is_noop_credit() {
    let mut ctx = buy_ctx(10_000_000, 5, 5, 5, 5);
    assert_eq!(buy_chip_with_sol(&mut ctx, 0), Ok(()));
    assert_eq!(ctx.buyer_lamports, 5);
    assert_eq!(ctx.treasury_lamports, 5);
    assert_eq!(ctx.buyer_chip_amount, 5);
}

#[test]
fn sell_pays_priced_value() {
    let mut ctx = sell_ctx(10_000_000, 0, 60_000_000, 6, 6);
    let r = sell_chip(&mut ctx, 5);
    assert_eq!(r, Ok(()));
    assert_eq!(ctx.seller_lamports, 50_000_000);
    assert_eq!(ctx.treasury_lamports, 10_000_000);
    assert_eq!(ctx.seller_chip_amount, 1);
    assert_eq!(ctx.chip_supply, 1);
}

#[test]
fn sell_price_overflow_rejected() {
    let mut ctx = sell_ctx(u64::MAX, 0, 100, 10, 10);
    let r = sell_chip(&mut ctx, 2);
    assert_eq!(r, Err(Errors::Overflow));
    assert_eq!(ctx.seller_lamports, 0);
    assert_eq!(ctx.treasury_lamports, 100);
    assert_eq!(ctx.seller_chip_amount, 10);
}

#[test]
fn sell_more_chips_than_held_rejected() {
    let mut ctx = sell_ctx(1, 0, 100, 10, 3);
    let r = sell_chip(&mut ctx, 4);
    assert_eq!(r, Err(Errors::InsufficientFunds));
    assert_eq!(ctx.seller_chip_amount, 3);
}

#[test]
fn sell_beyond_custody_rejected() {
    // the solvency guard: custody may never go negative
    let mut ctx = sell_ctx(10_000_000, 0, 49_999_999, 5, 5);
    let r = sell_chip(&mut ctx, 5);
    assert_eq!(r, Err(Errors::InsufficientCustody));
    assert_eq!(ctx.treasury_lamports, 49_999_999);
    assert_eq!(ctx.seller_lamports, 0);
    assert_eq!(ctx.seller_chip_amount, 5);
}

#[test]
fn buy_then_sell_round_trip() {
    let mut buy = buy_ctx(10_000_000, 123_456_789, 42, 9, 2);
    assert_eq!(buy_chip_with_sol(&mut buy, 5), Ok(()));
    let mut sell = SellChip {
        global_config: buy.global_config,
        treasury: buy.treasury,
        seller_lamports: buy.buyer_lamports,
        treasury_lamports: buy.treasury_lamports,
        chip_supply: buy.chip_supply,
        seller_chip_amount: buy.buyer_chip_amount,
    };
    assert_eq!(sell_chip(&mut sell, 5), Ok(()));
    assert_eq!(sell.seller_lamports, 123_456_789);
    assert_eq!(sell.treasury_lamports, 42);
    assert_eq!(sell.seller_chip_amount, 2);
    assert_eq!(sell.chip_supply, 9);
}

#[test]
fn reserve_moves_chips_to_custody() {
    let mut ctx = ReserveChips {
        treasury: Treasury { bump: 2 },
        user_chip_amount: 10,
        treasury_chip_amount: 3,
    };
    assert_eq!(reserve_chips(&mut ctx, 4), Ok(()));
    assert_eq!(ctx.user_chip_amount, 6);
    assert_eq!(ctx.treasury_chip_amount, 7);
}

#[test]
fn reserve_more_than_held_rejected() {
    let mut ctx = ReserveChips {
        treasury: Treasury { bump: 2 },
        user_chip_amount: 3,
        treasury_chip_amount: 0,
    };
    assert_eq!(reserve_chips(&mut ctx, 4), Err(Errors::InsufficientFunds));
    assert_eq!(ctx.user_chip_amount, 3);
    assert_eq!(ctx.treasury_chip_amount, 0);
}

#[test]
fn reserve_entire_holding() {
    let mut ctx = ReserveChips {
        treasury: Treasury { bump: 2 },
        user_chip_amount: u64::MAX,
        treasury_chip_amount: 0,
    };
    assert_eq!(reserve_chips(&mut ctx, u64::MAX), Ok(()));
    assert_eq!(ctx.user_chip_amount, 0);
    assert_eq!(ctx.treasury_chip_amount, u64::MAX);
}
