use archie_cpi::account::{AccountId, BuyPumpToken, PumpConfig, SellPumpToken, SwapTokens};
use archie_cpi::compose::{
    buy_pump_tokens, encode_trade_payload, sell_pump_tokens, swap_exact_in, swap_exact_out,
    SwapKind, BUY_DISCRIMINATOR, SELL_DISCRIMINATOR,
};
use archie_cpi::curve::BondingCurveState;
use archie_cpi::error::ErrorCode;
use archie_cpi::slippage::{buy_max_cost, sell_min_receipt};

fn key(n: u64) -> AccountId {
    AccountId { w0: n, w1: n + 1, w2: n + 2, w3: n + 3 }
}

fn config() -> PumpConfig {
    PumpConfig {
        program_id: key(100),
        global: key(200),
        fee: key(300),
        event_authority: key(400),
    }
}

fn buy_accounts() -> BuyPumpToken {
    BuyPumpToken {
        pump_global: key(200),
        pump_fee: key(300),
        mint: key(10),
        bonding_curve: key(20),
        associated_bonding_curve: key(30),
        token_account: key(40),
        payer: key(50),
        system_program: key(60),
        token_program: key(70),
        associated_token_program: key(80),
        rent: key(90),
        pump_event_authority: key(400),
        jito_tip_account: key(500),
    }
}

fn sell_accounts() -> SellPumpToken {
    SellPumpToken {
        pump_global: key(200),
        pump_fee: key(300),
        mint: key(10),
        bonding_curve: key(20),
        associated_bonding_curve: key(30),
        token_account: key(40),
        payer: key(50),
        system_program: key(60),
        associated_token_program: key(80),
        token_program: key(70),
        pump_event_authority: key(400),
        jito_tip_account: key(500),
    }
}

fn swap_accounts() -> SwapTokens {
    SwapTokens {
        amm: key(1),
        amm_authority: key(2),
        amm_open_orders: key(3),
        amm_coin_vault: key(4),
        amm_pc_vault: key(5),
        market_program: key(6),
        market: key(7),
        market_bids: key(8),
        market_asks: key(9),
        market_event_queue: key(10),
        market_coin_vault: key(11),
        market_pc_vault: key(12),
        market_vault_signer: key(13),
        user_source_token: key(14),
        user_destination_token: key(15),
        user_owner: key(16),
        amm_program: key(17),
        token_program: key(18),
        system_program: key(19),
        jito_tip_account: key(20),
    }
}

fn curve_bytes() -> Vec<u8> {
    BondingCurveState {
        virtual_token_reserves: 1_000_000_000_000,
        virtual_sol_reserves: 30_000_000_000,
        real_token_reserves: 800_000_000_000,
        real_sol_reserves: 24_000_000_000,
        token_total_supply: 1_000_000_000_000,
        complete: false,
    }
    .encode()
}

fn payload(tag: u64, amount: u64, bound: u64) -> Vec<u8> {
    let mut v = Vec::new();
    v.extend_from_slice(&tag.to_le_bytes());
    v.extend_from_slice(&amount.to_le_bytes());
    v.extend_from_slice(&bound.to_le_bytes());
    v
}

#[test]
fn trade_payload_layout() {
    let p = encode_trade_payload(BUY_DISCRIMINATOR, 2, 3);
    assert_eq!(p, payload(BUY_DISCRIMINATOR, 2, 3));
    assert_eq!(p.len(), 24);
}

#[test]
fn buy_bound_covers_cost() {
    // One percent of tolerance on a one-home-unit cost.
    assert_eq!(buy_max_cost(1_000_000_000, 100), Ok(1_010_000_000));
    // Zero tolerance collapses the bound to the exact cost.
    assert_eq!(buy_max_cost(1_000_000_000, 0), Ok(1_000_000_000));
    assert_eq!(buy_max_cost(u64::MAX, 0), Ok(u64::MAX));
}

#[test]
fn buy_bound_detects_overflow() {
    assert_eq!(buy_max_cost(u64::MAX, 1), Err(ErrorCode::ArithmeticOverflow));
}

#[test]
fn sell_bound_within_receipt() {
    assert_eq!(sell_min_receipt(30_000, 500), 28_500);
    // Zero tolerance collapses the bound to the exact receipt.
    assert_eq!(sell_min_receipt(30_000, 0), 30_000);
    // Full or more-than-full tolerance floors the bound at zero: the
    // degenerate opt-in to unconditional execution.
    assert_eq!(sell_min_receipt(30_000, 10_000), 0);
    assert_eq!(sell_min_receipt(30_000, 20_000), 0);
}

#[test]
fn buy_plan_matches_scenario() {
    let plan = buy_pump_tokens(
        &buy_accounts(),
        &config(),
        &curve_bytes(),
        1_000_000_000,
        100,
        5_000,
        0,
    )
    .unwrap();
    assert_eq!(
        plan.call.data,
        payload(BUY_DISCRIMINATOR, 33_333_333_333, 1_010_000_000)
    );
    assert_eq!(plan.call.program_id, key(100));
    assert_eq!(plan.call.accounts.len(), 12);
    assert_eq!(plan.call.accounts[0].key, key(200));
    assert!(!plan.call.accounts[0].writable && !plan.call.accounts[0].signer);
    assert_eq!(plan.call.accounts[1].key, key(300));
    assert!(plan.call.accounts[1].writable);
    assert_eq!(plan.call.accounts[6].key, key(50));
    assert!(plan.call.accounts[6].writable && plan.call.accounts[6].signer);
    assert_eq!(plan.call.accounts[9].key, key(90));
    assert_eq!(plan.call.accounts[11].key, key(100));
    let tip = plan.tip.unwrap();
    assert_eq!(tip.from, key(50));
    assert_eq!(tip.to, key(500));
    assert_eq!(tip.lamports, 5_000);
    assert!(plan.create_holding_account);
}

#[test]
fn buy_plan_skips_creation_when_account_exists() {
    let plan = buy_pump_tokens(
        &buy_accounts(),
        &config(),
        &curve_bytes(),
        1_000_000_000,
        100,
        0,
        165,
    )
    .unwrap();
    assert!(!plan.create_holding_account);
    assert!(plan.tip.is_none());
}

#[test]
fn buy_plan_rejects_wrong_global_key() {
    let mut accounts = buy_accounts();
    accounts.pump_global = key(999);
    let r = buy_pump_tokens(&accounts, &config(), &curve_bytes(), 1, 0, 0, 0);
    assert_eq!(r.err(), Some(ErrorCode::AccountMismatch));
}

#[test]
fn buy_plan_rejects_wrong_fee_key() {
    let mut accounts = buy_accounts();
    accounts.pump_fee = key(999);
    let r = buy_pump_tokens(&accounts, &config(), &curve_bytes(), 1, 0, 0, 0);
    assert_eq!(r.err(), Some(ErrorCode::AccountMismatch));
}

#[test]
fn buy_plan_rejects_malformed_curve() {
    let r = buy_pump_tokens(&buy_accounts(), &config(), &[1, 2, 3], 1, 0, 0, 0);
    assert_eq!(r.err(), Some(ErrorCode::MalformedAccount));
}

#[test]
fn buy_plan_rejects_zero_reserves() {
    let bytes = BondingCurveState {
        virtual_token_reserves: 0,
        virtual_sol_reserves: 30_000_000_000,
        real_token_reserves: 0,
        real_sol_reserves: 0,
        token_total_supply: 0,
        complete: false,
    }
    .encode();
    let r = buy_pump_tokens(&buy_accounts(), &config(), &bytes, 1, 0, 0, 0);
    assert_eq!(r.err(), Some(ErrorCode::InvalidPrice));
}

#[test]
fn sell_plan_matches_scenario() {
    let plan = sell_pump_tokens(
        &sell_accounts(),
        &config(),
        &curve_bytes(),
        1_000_000,
        500,
        0,
    )
    .unwrap();
    // 1.0 token is worth 30_000 lamports; five percent of tolerance
    // floors the receipt at 28_500.
    assert_eq!(
        plan.call.data,
        payload(SELL_DISCRIMINATOR, 1_000_000, 28_500)
    );
    assert_eq!(plan.call.accounts.len(), 12);
    // The sell shape has the associated-account program where the buy
    // shape has rent.
    assert_eq!(plan.call.accounts[8].key, key(80));
    assert_eq!(plan.call.accounts[9].key, key(70));
    assert!(plan.tip.is_none());
    assert!(!plan.create_holding_account);
}

#[test]
fn sell_plan_keeps_degenerate_full_slippage() {
    let plan = sell_pump_tokens(
        &sell_accounts(),
        &config(),
        &curve_bytes(),
        1_000_000,
        20_000,
        0,
    )
    .unwrap();
    assert_eq!(plan.call.data, payload(SELL_DISCRIMINATOR, 1_000_000, 0));
}

#[test]
fn sell_plan_rejects_wrong_event_authority() {
    let mut accounts = sell_accounts();
    accounts.pump_event_authority = key(999);
    let r = sell_pump_tokens(&accounts, &config(), &curve_bytes(), 1, 0, 0);
    assert_eq!(r.err(), Some(ErrorCode::AccountMismatch));
}

#[test]
fn swap_exact_in_carries_parameters() {
    let plan = swap_exact_in(&swap_accounts(), 7_000, 6_500, 123);
    assert_eq!(plan.params.kind, SwapKind::ExactIn);
    assert_eq!(plan.params.amount, 7_000);
    assert_eq!(plan.params.bound, 6_500);
    let tip = plan.tip.unwrap();
    assert_eq!(tip.from, key(16));
    assert_eq!(tip.to, key(20));
    assert_eq!(tip.lamports, 123);
}

#[test]
fn swap_exact_out_carries_parameters() {
    let plan = swap_exact_out(&swap_accounts(), 9_000, 8_000, 0);
    assert_eq!(plan.params.kind, SwapKind::ExactOut);
    assert_eq!(plan.params.amount, 8_000);
    assert_eq!(plan.params.bound, 9_000);
    assert!(plan.tip.is_none());
}
