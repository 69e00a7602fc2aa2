use vstd::prelude::*;
use vstd::bytes::{lemma_auto_spec_u64_to_from_le_bytes, spec_u64_to_le_bytes, u64_to_le_bytes};

use crate::account::{AccountId, AccountRef, BuyPumpToken, PumpConfig, SellPumpToken, SwapTokens};
use crate::curve::{
    spec_calculate_price, spec_home_to_native, spec_native_to_home, spec_try_deserialize,
    home_to_native, native_to_home, BondingCurveState,
};
use crate::error::ErrorCode;
use crate::slippage::{
    buy_max_cost, lemma_sell_bound_within_receipt, sell_min_receipt, spec_buy_bound,
    spec_sell_bound, SLIPPAGE_SCALE,
};

verus! {

/// Leading 8-byte tag of the exchange's buy instruction payload.
pub const BUY_DISCRIMINATOR: u64 = 0xeaeb_da01_123d_0666;

/// Leading 8-byte tag of the exchange's sell instruction payload.
pub const SELL_DISCRIMINATOR: u64 = 0xad83_7f01_a485_e633;

/// A pending value transfer from the initiator's funding account to a
/// priority account, denominated in lamports.
#[derive(Clone, Copy, Debug, PartialEq, Eq, Structural)]
pub struct TipTransfer {
    pub from: AccountId,
    pub to: AccountId,
    pub lamports: u64,
}

/// One composed cross-program call: the callee, its ordered account
/// list, and its binary payload.
#[derive(Clone, Debug)]
pub struct ComposedCall {
    pub program_id: AccountId,
    pub accounts: Vec<AccountRef>,
    pub data: Vec<u8>,
}

/// Everything one bonding-curve trade needs, in execution order: the
/// optional tip transfer, the optional holding-account creation, and the
/// delegated exchange call.
#[derive(Clone, Debug)]
pub struct TradePlan {
    pub tip: Option<TipTransfer>,
    pub create_holding_account: bool,
    pub call: ComposedCall,
}

/// The tip stage for a given tip amount: a transfer when the amount is
/// positive, nothing (and no error) otherwise.
pub open spec fn spec_tip(from: AccountId, to: AccountId, lamports: u64) -> Option<TipTransfer> {
    if lamports > 0 {
        Some(TipTransfer { from, to, lamports })
    } else {
        None
    }
}

/// The 24-byte payload of a curve trade: tag, native amount, guard
/// value, each little-endian.
pub open spec fn spec_trade_payload(tag: u64, amount: u64, bound: u64) -> Seq<u8> {
    spec_u64_to_le_bytes(tag) + spec_u64_to_le_bytes(amount) + spec_u64_to_le_bytes(bound)
}

/// Encodes a curve trade payload.
pub fn encode_trade_payload(tag: u64, amount: u64, bound: u64) -> (r: Vec<u8>)
    ensures
        r@ == spec_trade_payload(tag, amount, bound),
        r@.len() == 24,
{
    proof {
        lemma_auto_spec_u64_to_from_le_bytes();
    }
    let mut r = u64_to_le_bytes(tag);
    let mut part = u64_to_le_bytes(amount);
    r.append(&mut part);
    let mut part = u64_to_le_bytes(bound);
    r.append(&mut part);
    proof {
        assert(r@ =~= spec_trade_payload(tag, amount, bound));
    }
    r
}

/// The three constant-address equalities the buy composer checks:
/// tamper detection against the configured deployment, not business
/// logic.
pub open spec fn spec_buy_keys_match(a: BuyPumpToken, c: PumpConfig) -> bool {
    &&& a.pump_global == c.global
    &&& a.pump_fee == c.fee
    &&& a.pump_event_authority == c.event_authority
}

/// Same checks for the sell composer.
pub open spec fn spec_sell_keys_match(a: SellPumpToken, c: PumpConfig) -> bool {
    &&& a.pump_global == c.global
    &&& a.pump_fee == c.fee
    &&& a.pump_event_authority == c.event_authority
}

/// The exact account order and access tags the exchange's buy
/// instruction expects.
pub open spec fn spec_buy_account_list(a: BuyPumpToken, c: PumpConfig) -> Seq<AccountRef> {
    seq![
        (AccountRef { key: a.pump_global, writable: false, signer: false }),
        (AccountRef { key: a.pump_fee, writable: true, signer: false }),
        (AccountRef { key: a.mint, writable: false, signer: false }),
        (AccountRef { key: a.bonding_curve, writable: true, signer: false }),
        (AccountRef { key: a.associated_bonding_curve, writable: true, signer: false }),
        (AccountRef { key: a.token_account, writable: true, signer: false }),
        (AccountRef { key: a.payer, writable: true, signer: true }),
        (AccountRef { key: a.system_program, writable: false, signer: false }),
        (AccountRef { key: a.token_program, writable: false, signer: false }),
        (AccountRef { key: a.rent, writable: false, signer: false }),
        (AccountRef { key: a.pump_event_authority, writable: false, signer: false }),
        (AccountRef { key: c.program_id, writable: false, signer: false }),
    ]
}

/// The exact account order and access tags the exchange's sell
/// instruction expects: the buy shape minus rent, plus the
/// associated-account program.
pub open spec fn spec_sell_account_list(a: SellPumpToken, c: PumpConfig) -> Seq<AccountRef> {
    seq![
        (AccountRef { key: a.pump_global, writable: false, signer: false }),
        (AccountRef { key: a.pump_fee, writable: true, signer: false }),
        (AccountRef { key: a.mint, writable: false, signer: false }),
        (AccountRef { key: a.bonding_curve, writable: true, signer: false }),
        (AccountRef { key: a.associated_bonding_curve, writable: true, signer: false }),
        (AccountRef { key: a.token_account, writable: true, signer: false }),
        (AccountRef { key: a.payer, writable: true, signer: true }),
        (AccountRef { key: a.system_program, writable: false, signer: false }),
        (AccountRef { key: a.associated_token_program, writable: false, signer: false }),
        (AccountRef { key: a.token_program, writable: false, signer: false }),
        (AccountRef { key: a.pump_event_authority, writable: false, signer: false }),
        (AccountRef { key: c.program_id, writable: false, signer: false }),
    ]
}

/// The derivation a buy runs: key checks, curve decoding, spot price,
/// amount conversion, buy-side guard.  Yields the native token amount
/// and the maximum cost, or the first error of that pipeline.
pub open spec fn spec_buy_amounts(
    a: BuyPumpToken,
    c: PumpConfig,
    data: Seq<u8>,
    amount_lamports: u64,
    slippage_points: u64,
) -> Result<(u64, u64), ErrorCode> {
    if !spec_buy_keys_match(a, c) {
        Err(ErrorCode::AccountMismatch)
    } else {
        match spec_try_deserialize(data) {
            Err(e) => Err(e),
            Ok(curve) => match spec_calculate_price(curve) {
                Err(e) => Err(e),
                Ok(price) => match spec_home_to_native(amount_lamports, price) {
                    Err(e) => Err(e),
                    Ok(native) => if spec_buy_bound(amount_lamports, slippage_points)
                        > u64::MAX {
                        Err(ErrorCode::ArithmeticOverflow)
                    } else {
                        Ok((native, spec_buy_bound(amount_lamports, slippage_points) as u64))
                    },
                },
            },
        }
    }
}

/// The derivation a sell runs: key checks, curve decoding, spot price,
/// receipt conversion, sell-side guard.  Yields the native token amount
/// and the minimum receipt, or the first error of that pipeline.
pub open spec fn spec_sell_amounts(
    a: SellPumpToken,
    c: PumpConfig,
    data: Seq<u8>,
    token_amount: u64,
    slippage_points: u64,
) -> Result<(u64, u64), ErrorCode> {
    if !spec_sell_keys_match(a, c) {
        Err(ErrorCode::AccountMismatch)
    } else {
        match spec_try_deserialize(data) {
            Err(e) => Err(e),
            Ok(curve) => match spec_calculate_price(curve) {
                Err(e) => Err(e),
                Ok(price) => match spec_native_to_home(token_amount, price) {
                    Err(e) => Err(e),
                    Ok(receipt) => Ok(
                        (token_amount, spec_sell_bound(receipt, slippage_points) as u64),
                    ),
                },
            },
        }
    }
}

/// Law: the amounts a buy derives never invert the directional guard —
/// the maximum cost handed to the exchange is at least the requested
/// cost, so a buy can never be bound into paying less than it asked to
/// tolerate, nor left unbounded.
pub proof fn lemma_buy_guard_direction(
    a: BuyPumpToken,
    c: PumpConfig,
    data: Seq<u8>,
    amount_lamports: u64,
    slippage_points: u64,
)
    requires
        spec_buy_amounts(a, c, data, amount_lamports, slippage_points) is Ok,
    ensures
        spec_buy_amounts(a, c, data, amount_lamports, slippage_points)->Ok_0.1
            >= amount_lamports,
{
    crate::slippage::lemma_buy_bound_covers_cost(amount_lamports, slippage_points);
}

/// Law: the amounts a sell derives never invert the directional guard —
/// the minimum receipt handed to the exchange is at most the expected
/// receipt at the decoded spot price.
pub proof fn lemma_sell_guard_direction(
    a: SellPumpToken,
    c: PumpConfig,
    data: Seq<u8>,
    token_amount: u64,
    slippage_points: u64,
)
    requires
        spec_sell_amounts(a, c, data, token_amount, slippage_points) is Ok,
    ensures
        ({
            let curve = spec_try_deserialize(data)->Ok_0;
            let price = spec_calculate_price(curve)->Ok_0;
            let receipt = spec_native_to_home(token_amount, price)->Ok_0;
            spec_sell_amounts(a, c, data, token_amount, slippage_points)->Ok_0.1 <= receipt
        }),
{
    let curve = spec_try_deserialize(data)->Ok_0;
    let price = spec_calculate_price(curve)->Ok_0;
    let receipt = spec_native_to_home(token_amount, price)->Ok_0;
    lemma_sell_bound_within_receipt(receipt, slippage_points);
}

/// Composes a bonding-curve buy: derives the native amount and the
/// maximum cost from the curve bytes, and assembles the tip stage, the
/// create-if-absent stage (the holding account exists exactly when its
/// stored data length is non-zero), and the delegated exchange call.
pub fn buy_pump_tokens(
    accounts: &BuyPumpToken,
    config: &PumpConfig,
    curve_data: &[u8],
    amount_lamports: u64,
    slippage_points: u64,
    tip_lamports: u64,
    token_account_data_len: u64,
) -> (r: Result<TradePlan, ErrorCode>)
    requires
        slippage_points <= SLIPPAGE_SCALE,
    ensures
        r is Err <==> spec_buy_amounts(
            *accounts,
            *config,
            curve_data@,
            amount_lamports,
            slippage_points,
        ) is Err,
        r is Err ==> r->Err_0 == spec_buy_amounts(
            *accounts,
            *config,
            curve_data@,
            amount_lamports,
            slippage_points,
        )->Err_0,
        r is Ok ==> ({
            let plan = r->Ok_0;
            let amounts = spec_buy_amounts(
                *accounts,
                *config,
                curve_data@,
                amount_lamports,
                slippage_points,
            )->Ok_0;
            &&& plan.call.program_id == config.program_id
            &&& plan.call.accounts@ == spec_buy_account_list(*accounts, *config)
            &&& plan.call.data@ == spec_trade_payload(BUY_DISCRIMINATOR, amounts.0, amounts.1)
            &&& plan.tip == spec_tip(accounts.payer, accounts.jito_tip_account, tip_lamports)
            &&& plan.create_holding_account == (token_account_data_len == 0)
        }),
{
    if !(accounts.pump_global == config.global && accounts.pump_fee == config.fee
        && accounts.pump_event_authority == config.event_authority) {
        return Err(ErrorCode::AccountMismatch);
    }
    let curve = match BondingCurveState::try_deserialize(curve_data) {
        Ok(c) => c,
        Err(e) => { return Err(e) },
    };
    let price = match curve.calculate_price() {
        Ok(p) => p,
        Err(e) => { return Err(e) },
    };
    let native = match home_to_native(amount_lamports, &price) {
        Ok(n) => n,
        Err(e) => { return Err(e) },
    };
    let bound = match buy_max_cost(amount_lamports, slippage_points) {
        Ok(b) => b,
        Err(e) => { return Err(e) },
    };
    let data = encode_trade_payload(BUY_DISCRIMINATOR, native, bound);
    let mut list: Vec<AccountRef> = Vec::new();
    list.push(AccountRef { key: accounts.pump_global, writable: false, signer: false });
    list.push(AccountRef { key: accounts.pump_fee, writable: true, signer: false });
    list.push(AccountRef { key: accounts.mint, writable: false, signer: false });
    list.push(AccountRef { key: accounts.bonding_curve, writable: true, signer: false });
    list.push(AccountRef { key: accounts.associated_bonding_curve, writable: true, signer: false });
    list.push(AccountRef { key: accounts.token_account, writable: true, signer: false });
    list.push(AccountRef { key: accounts.payer, writable: true, signer: true });
    list.push(AccountRef { key: accounts.system_program, writable: false, signer: false });
    list.push(AccountRef { key: accounts.token_program, writable: false, signer: false });
    list.push(AccountRef { key: accounts.rent, writable: false, signer: false });
    list.push(AccountRef { key: accounts.pump_event_authority, writable: false, signer: false });
    list.push(AccountRef { key: config.program_id, writable: false, signer: false });
    proof {
        assert(list@ =~= spec_buy_account_list(*accounts, *config));
    }
    let tip = if tip_lamports > 0 {
        Some(TipTransfer { from: accounts.payer, to: accounts.jito_tip_account, lamports: tip_lamports })
    } else {
        None
    };
    Ok(
        TradePlan {
            tip,
            create_holding_account: token_account_data_len == 0,
            call: ComposedCall { program_id: config.program_id, accounts: list, data },
        },
    )
}

/// Composes a bonding-curve sell: derives the expected receipt and the
/// minimum acceptable receipt from the curve bytes, and assembles the
/// tip stage and the delegated exchange call.  A sell never creates the
/// holding account: the initiator must already hold the asset.
pub fn sell_pump_tokens(
    accounts: &SellPumpToken,
    config: &PumpConfig,
    curve_data: &[u8],
    token_amount: u64,
    slippage_points: u64,
    tip_lamports: u64,
) -> (r: Result<TradePlan, ErrorCode>)
    ensures
        r is Err <==> spec_sell_amounts(
            *accounts,
            *config,
            curve_data@,
            token_amount,
            slippage_points,
        ) is Err,
        r is Err ==> r->Err_0 == spec_sell_amounts(
            *accounts,
            *config,
            curve_data@,
            token_amount,
            slippage_points,
        )->Err_0,
        r is Ok ==> ({
            let plan = r->Ok_0;
            let amounts = spec_sell_amounts(
                *accounts,
                *config,
                curve_data@,
                token_amount,
                slippage_points,
            )->Ok_0;
            &&& plan.call.program_id == config.program_id
            &&& plan.call.accounts@ == spec_sell_account_list(*accounts, *config)
            &&& plan.call.data@ == spec_trade_payload(SELL_DISCRIMINATOR, amounts.0, amounts.1)
            &&& plan.tip == spec_tip(accounts.payer, accounts.jito_tip_account, tip_lamports)
            &&& !plan.create_holding_account
        }),
{
    if !(accounts.pump_global == config.global && accounts.pump_fee == config.fee
        && accounts.pump_event_authority == config.event_authority) {
        return Err(ErrorCode::AccountMismatch);
    }
    let curve = match BondingCurveState::try_deserialize(curve_data) {
        Ok(c) => c,
        Err(e) => { return Err(e) },
    };
    let price = match curve.calculate_price() {
        Ok(p) => p,
        Err(e) => { return Err(e) },
    };
    let receipt = match native_to_home(token_amount, &price) {
        Ok(n) => n,
        Err(e) => { return Err(e) },
    };
    proof {
        lemma_sell_bound_within_receipt(receipt, slippage_points);
    }
    let bound = sell_min_receipt(receipt, slippage_points);
    let data = encode_trade_payload(SELL_DISCRIMINATOR, token_amount, bound);
    let mut list: Vec<AccountRef> = Vec::new();
    list.push(AccountRef { key: accounts.pump_global, writable: false, signer: false });
    list.push(AccountRef { key: accounts.pump_fee, writable: true, signer: false });
    list.push(AccountRef { key: accounts.mint, writable: false, signer: false });
    list.push(AccountRef { key: accounts.bonding_curve, writable: true, signer: false });
    list.push(AccountRef { key: accounts.associated_bonding_curve, writable: true, signer: false });
    list.push(AccountRef { key: accounts.token_account, writable: true, signer: false });
    list.push(AccountRef { key: accounts.payer, writable: true, signer: true });
    list.push(AccountRef { key: accounts.system_program, writable: false, signer: false });
    list.push(AccountRef { key: accounts.associated_token_program, writable: false, signer: false });
    list.push(AccountRef { key: accounts.token_program, writable: false, signer: false });
    list.push(AccountRef { key: accounts.pump_event_authority, writable: false, signer: false });
    list.push(AccountRef { key: config.program_id, writable: false, signer: false });
    proof {
        assert(list@ =~= spec_sell_account_list(*accounts, *config));
    }
    let tip = if tip_lamports > 0 {
        Some(TipTransfer { from: accounts.payer, to: accounts.jito_tip_account, lamports: tip_lamports })
    } else {
        None
    };
    Ok(
        TradePlan {
            tip,
            create_holding_account: false,
            call: ComposedCall { program_id: config.program_id, accounts: list, data },
        },
    )
}

/// Which leg of a pooled-liquidity swap is fixed.
#[derive(Clone, Copy, Debug, PartialEq, Eq, Structural)]
pub enum SwapKind {
    ExactIn,
    ExactOut,
}

/// The two numeric parameters this module supplies to the
/// automated-market-maker engine; the engine's own encoding does the
/// rest.  `amount` is the fixed leg; `bound` is the directional guard
/// (minimum received for `ExactIn`, maximum spent for `ExactOut`).
#[derive(Clone, Copy, Debug, PartialEq, Eq, Structural)]
pub struct SwapParams {
    pub kind: SwapKind,
    pub amount: u64,
    pub bound: u64,
}

/// A pooled-liquidity swap in execution order: the optional tip
/// transfer, then the delegated swap.
#[derive(Clone, Copy, Debug, PartialEq, Eq, Structural)]
pub struct SwapPlan {
    pub tip: Option<TipTransfer>,
    pub params: SwapParams,
}

/// Composes a swap that fixes the amount paid in and guards the amount
/// received below.
pub fn swap_exact_in(
    accounts: &SwapTokens,
    amount_in: u64,
    minimum_amount_out: u64,
    tip_amount: u64,
) -> (r: SwapPlan)
    ensures
        r.params == (SwapParams { kind: SwapKind::ExactIn, amount: amount_in, bound: minimum_amount_out }),
        r.tip == spec_tip(accounts.user_owner, accounts.jito_tip_account, tip_amount),
{
    let tip = if tip_amount > 0 {
        Some(TipTransfer { from: accounts.user_owner, to: accounts.jito_tip_account, lamports: tip_amount })
    } else {
        None
    };
    SwapPlan {
        tip,
        params: SwapParams { kind: SwapKind::ExactIn, amount: amount_in, bound: minimum_amount_out },
    }
}

/// Composes a swap that fixes the amount received and guards the amount
/// paid in above.
pub fn swap_exact_out(
    accounts: &SwapTokens,
    max_amount_in: u64,
    amount_out: u64,
    tip_amount: u64,
) -> (r: SwapPlan)
    ensures
        r.params == (SwapParams { kind: SwapKind::ExactOut, amount: amount_out, bound: max_amount_in }),
        r.tip == spec_tip(accounts.user_owner, accounts.jito_tip_account, tip_amount),
{
    let tip = if tip_amount > 0 {
        Some(TipTransfer { from: accounts.user_owner, to: accounts.jito_tip_account, lamports: tip_amount })
    } else {
        None
    };
    SwapPlan {
        tip,
        params: SwapParams { kind: SwapKind::ExactOut, amount: amount_out, bound: max_amount_in },
    }
}

} // verus!
