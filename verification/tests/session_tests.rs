use archie_cpi::account::{AccountId, BuyPumpToken, PumpConfig, SwapTokens};
use archie_cpi::compose::{buy_pump_tokens, swap_exact_in};
use archie_cpi::session::{TradeSession, TradeStep};

fn key(n: u64) -> AccountId {
    AccountId { w0: n, w1: n, w2: n, w3: n }
}

fn config() -> PumpConfig {
    PumpConfig {
        program_id: key(100),
        global: key(200),
        fee: key(300),
        event_authority: key(400),
    }
}

fn buy_accounts() -> BuyPumpToken {
    BuyPumpToken {
        pump_global: key(200),
        pump_fee: key(300),
        mint: key(10),
        bonding_curve: key(20),
        associated_bonding_curve: key(30),
        token_account: key(40),
        payer: key(50),
        system_program: key(60),
        token_program: key(70),
        associated_token_program: key(80),
        rent: key(90),
        pump_event_authority: key(400),
        jito_tip_account: key(500),
    }
}

fn curve_bytes() -> Vec<u8> {
    archie_cpi::curve::BondingCurveState {
        virtual_token_reserves: 1_000_000_000_000,
        virtual_sol_reserves: 30_000_000_000,
        real_token_reserves: 1,
        real_sol_reserves: 1,
        token_total_supply: 1,
        complete: false,
    }
    .encode()
}

fn swap_accounts() -> SwapTokens {
    SwapTokens {
        amm: key(1),
        amm_authority: key(2),
        amm_open_orders: key(3),
        amm_coin_vault: key(4),
        amm_pc_vault: key(5),
        market_program: key(6),
        market: key(7),
        market_bids: key(8),
        market_asks: key(9),
        market_event_queue: key(10),
        market_coin_vault: key(11),
        market_pc_vault: key(12),
        market_vault_signer: key(13),
        user_source_token: key(14),
        user_destination_token: key(15),
        user_owner: key(16),
        amm_program: key(17),
        token_program: key(18),
        system_program: key(19),
        jito_tip_account: key(20),
    }
}

#[test]
fn failed_tip_blocks_the_trade() {
    // A buy with a tip and a missing holding account: three steps.
    let plan = buy_pump_tokens(
        &buy_accounts(),
        &config(),
        &curve_bytes(),
        1_000_000_000,
        100,
        5_000,
        0,
    )
    .unwrap();
    let mut session = TradeSession::from_trade_plan(plan);
    let mut reached_invoke = false;

    // The first issued step is the tip transfer.
    match session.current_step() {
        Some(TradeStep::PayTip(tip)) => assert_eq!(tip.lamports, 5_000),
        _ => panic!("expected the tip transfer first"),
    }
    // The runner reports that the transfer failed.
    session.advance(false);

    // No further step — in particular no exchange invocation — is
    // issued.
    while let Some(step) = session.current_step() {
        if matches!(step, TradeStep::InvokeCurve(_)) {
            reached_invoke = true;
        }
        session.advance(true);
    }
    assert!(!reached_invoke);
}

#[test]
fn successful_run_issues_steps_in_order() {
    let plan = buy_pump_tokens(
        &buy_accounts(),
        &config(),
        &curve_bytes(),
        1_000_000_000,
        100,
        5_000,
        0,
    )
    .unwrap();
    let mut session = TradeSession::from_trade_plan(plan);
    let mut kinds = Vec::new();
    while let Some(step) = session.current_step() {
        kinds.push(match step {
            TradeStep::PayTip(_) => "tip",
            TradeStep::CreateHoldingAccount => "create",
            TradeStep::InvokeCurve(_) => "invoke",
            TradeStep::InvokeSwap(_) => "swap",
        });
        session.advance(true);
    }
    assert_eq!(kinds, vec!["tip", "create", "invoke"]);
    assert!(session.current_step().is_none());
}

#[test]
fn zero_tip_plan_has_no_transfer_step() {
    let plan = buy_pump_tokens(
        &buy_accounts(),
        &config(),
        &curve_bytes(),
        1_000_000_000,
        100,
        0,
        165,
    )
    .unwrap();
    assert!(plan.tip.is_none());
    let mut session = TradeSession::from_trade_plan(plan);
    let mut saw_tip = false;
    while let Some(step) = session.current_step() {
        if matches!(step, TradeStep::PayTip(_)) {
            saw_tip = true;
        }
        session.advance(true);
    }
    assert!(!saw_tip);
}

#[test]
fn swap_session_orders_tip_before_swap() {
    let plan = swap_exact_in(&swap_accounts(), 1_000, 900, 77);
    let mut session = TradeSession::from_swap_plan(plan);
    match session.current_step() {
        Some(TradeStep::PayTip(tip)) => assert_eq!(tip.lamports, 77),
        _ => panic!("expected the tip transfer first"),
    }
    session.advance(true);
    match session.current_step() {
        Some(TradeStep::InvokeSwap(params)) => {
            assert_eq!(params.amount, 1_000);
            assert_eq!(params.bound, 900);
        }
        _ => panic!("expected the delegated swap second"),
    }
    session.advance(true);
    assert!(session.current_step().is_none());
}

#[test]
fn failed_swap_tip_blocks_the_swap() {
    let plan = swap_exact_in(&swap_accounts(), 1_000, 900, 77);
    let mut session = TradeSession::from_swap_plan(plan);
    session.advance(false);
    assert!(session.current_step().is_none());
}
