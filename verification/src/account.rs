use vstd::prelude::*;
use vstd::bytes::{spec_u64_from_le_bytes, u64_from_le_bytes};
use vstd::slice::slice_subrange;

verus! {

/// A ledger account address: 32 bytes, held as four little-endian 64-bit
/// words so that equality in contracts is plain field equality.
#[derive(Clone, Copy, Debug, PartialEq, Eq, Structural)]
pub struct AccountId {
    pub w0: u64,
    pub w1: u64,
    pub w2: u64,
    pub w3: u64,
}

/// The account id whose 32-byte form is `s`, reading each 8-byte word
/// little-endian.
pub open spec fn spec_account_id_from_bytes(s: Seq<u8>) -> AccountId
    recommends
        s.len() == 32,
{
    AccountId {
        w0: spec_u64_from_le_bytes(s.subrange(0, 8)),
        w1: spec_u64_from_le_bytes(s.subrange(8, 16)),
        w2: spec_u64_from_le_bytes(s.subrange(16, 24)),
        w3: spec_u64_from_le_bytes(s.subrange(24, 32)),
    }
}

impl AccountId {
    /// Reads an address from its 32-byte ledger representation.
    pub fn from_bytes(s: &[u8]) -> (r: AccountId)
        requires
            s@.len() == 32,
        ensures
            r == spec_account_id_from_bytes(s@),
    {
        AccountId {
            w0: u64_from_le_bytes(slice_subrange(s, 0, 8)),
            w1: u64_from_le_bytes(slice_subrange(s, 8, 16)),
            w2: u64_from_le_bytes(slice_subrange(s, 16, 24)),
            w3: u64_from_le_bytes(slice_subrange(s, 24, 32)),
        }
    }
}

/// One entry of a composed instruction's ordered account list.
#[derive(Clone, Copy, Debug, PartialEq, Eq, Structural)]
pub struct AccountRef {
    pub key: AccountId,
    pub writable: bool,
    pub signer: bool,
}

/// The constant addresses of one bonding-curve engine deployment.
///
/// These are configuration, not logic: the composer checks the
/// caller-supplied global, fee and event-authority keys against them and
/// stamps `program_id` on every composed call.
#[derive(Clone, Copy, Debug, PartialEq, Eq, Structural)]
pub struct PumpConfig {
    /// Address of the bonding-curve exchange program itself.
    pub program_id: AccountId,
    /// Global state account of the exchange.
    pub global: AccountId,
    /// Fee-collector account of the exchange.
    pub fee: AccountId,
    /// Event-authority account of the exchange.
    pub event_authority: AccountId,
}

/// Account keys a caller supplies for a bonding-curve buy.
#[derive(Clone, Copy, Debug, PartialEq, Eq, Structural)]
pub struct BuyPumpToken {
    pub pump_global: AccountId,
    pub pump_fee: AccountId,
    pub mint: AccountId,
    pub bonding_curve: AccountId,
    pub associated_bonding_curve: AccountId,
    pub token_account: AccountId,
    pub payer: AccountId,
    pub system_program: AccountId,
    pub token_program: AccountId,
    pub associated_token_program: AccountId,
    pub rent: AccountId,
    pub pump_event_authority: AccountId,
    pub jito_tip_account: AccountId,
}

/// Account keys a caller supplies for a bonding-curve sell.
#[derive(Clone, Copy, Debug, PartialEq, Eq, Structural)]
pub struct SellPumpToken {
    pub pump_global: AccountId,
    pub pump_fee: AccountId,
    pub mint: AccountId,
    pub bonding_curve: AccountId,
    pub associated_bonding_curve: AccountId,
    pub token_account: AccountId,
    pub payer: AccountId,
    pub system_program: AccountId,
    pub associated_token_program: AccountId,
    pub token_program: AccountId,
    pub pump_event_authority: AccountId,
    pub jito_tip_account: AccountId,
}

/// Account keys a caller supplies for a pooled-liquidity swap.
///
/// The automated-market-maker engine validates and orders these itself;
/// this module only carries them through to the delegated call.
#[derive(Clone, Copy, Debug, PartialEq, Eq, Structural)]
pub struct SwapTokens {
    pub amm: AccountId,
    pub amm_authority: AccountId,
    pub amm_open_orders: AccountId,
    pub amm_coin_vault: AccountId,
    pub amm_pc_vault: AccountId,
    pub market_program: AccountId,
    pub market: AccountId,
    pub market_bids: AccountId,
    pub market_asks: AccountId,
    pub market_event_queue: AccountId,
    pub market_coin_vault: AccountId,
    pub market_pc_vault: AccountId,
    pub market_vault_signer: AccountId,
    pub user_source_token: AccountId,
    pub user_destination_token: AccountId,
    pub user_owner: AccountId,
    pub amm_program: AccountId,
    pub token_program: AccountId,
    pub system_program: AccountId,
    pub jito_tip_account: AccountId,
}

} // verus!
