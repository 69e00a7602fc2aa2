use vstd::prelude::*;
use vstd::bytes::{
    lemma_auto_spec_u64_to_from_le_bytes, spec_u64_from_le_bytes, spec_u64_to_le_bytes,
    u64_from_le_bytes, u64_to_le_bytes,
};
use vstd::slice::{slice_index_get, slice_subrange};

use crate::error::ErrorCode;

verus! {

/// Leading 8-byte tag that identifies a bonding-curve account buffer.
pub const BONDING_CURVE_DISCRIMINATOR: u64 = 0x60ac_d860_37f8_b717;

/// Total length of the curve account layout this module reads:
/// the 8-byte tag, five 8-byte little-endian integers, one flag byte.
pub const CURVE_ACCOUNT_LEN: usize = 49;

/// Number of lamports in one unit of the ledger's home currency.
pub const LAMPORTS_PER_SOL: u64 = 1_000_000_000;

/// Reserve snapshot decoded from a bonding-curve account.
///
/// Constructed fresh from the account bytes on every trade call and
/// discarded afterwards; nothing here persists.
#[derive(Clone, Copy, Debug, PartialEq, Eq, Structural)]
pub struct BondingCurveState {
    pub virtual_token_reserves: u64,
    pub virtual_sol_reserves: u64,
    pub real_token_reserves: u64,
    pub real_sol_reserves: u64,
    pub token_total_supply: u64,
    pub complete: bool,
}

/// The snapshot whose fields stand at the fixed little-endian offsets of
/// `data`, past the 8-byte tag.
pub open spec fn spec_curve_fields(data: Seq<u8>) -> BondingCurveState
    recommends
        data.len() >= CURVE_ACCOUNT_LEN,
{
    BondingCurveState {
        virtual_token_reserves: spec_u64_from_le_bytes(data.subrange(8, 16)),
        virtual_sol_reserves: spec_u64_from_le_bytes(data.subrange(16, 24)),
        real_token_reserves: spec_u64_from_le_bytes(data.subrange(24, 32)),
        real_sol_reserves: spec_u64_from_le_bytes(data.subrange(32, 40)),
        token_total_supply: spec_u64_from_le_bytes(data.subrange(40, 48)),
        complete: data[48] != 0,
    }
}

/// What decoding a curve account buffer yields: the snapshot, or
/// `MalformedAccount` when the buffer is short or the tag is wrong.
pub open spec fn spec_try_deserialize(data: Seq<u8>) -> Result<BondingCurveState, ErrorCode> {
    if data.len() < CURVE_ACCOUNT_LEN {
        Err(ErrorCode::MalformedAccount)
    } else if spec_u64_from_le_bytes(data.subrange(0, 8)) != BONDING_CURVE_DISCRIMINATOR {
        Err(ErrorCode::MalformedAccount)
    } else {
        Ok(spec_curve_fields(data))
    }
}

/// The byte form of a snapshot: tag, then the five integers little-endian,
/// then the finalization flag as one byte.
pub open spec fn spec_encode_curve(s: BondingCurveState) -> Seq<u8> {
    spec_u64_to_le_bytes(BONDING_CURVE_DISCRIMINATOR) + spec_u64_to_le_bytes(
        s.virtual_token_reserves,
    ) + spec_u64_to_le_bytes(s.virtual_sol_reserves) + spec_u64_to_le_bytes(s.real_token_reserves)
        + spec_u64_to_le_bytes(s.real_sol_reserves) + spec_u64_to_le_bytes(s.token_total_supply)
        + seq![if s.complete { 1u8 } else { 0u8 }]
}

impl BondingCurveState {
    /// Decodes a curve account buffer, validating its length and tag.
    pub fn try_deserialize(data: &[u8]) -> (r: Result<BondingCurveState, ErrorCode>)
        ensures
            r == spec_try_deserialize(data@),
    {
        if data.len() < CURVE_ACCOUNT_LEN {
            return Err(ErrorCode::MalformedAccount);
        }
        let tag = u64_from_le_bytes(slice_subrange(data, 0, 8));
        if tag != BONDING_CURVE_DISCRIMINATOR {
            return Err(ErrorCode::MalformedAccount);
        }
        let flag = *slice_index_get(data, 48);
        Ok(
            BondingCurveState {
                virtual_token_reserves: u64_from_le_bytes(slice_subrange(data, 8, 16)),
                virtual_sol_reserves: u64_from_le_bytes(slice_subrange(data, 16, 24)),
                real_token_reserves: u64_from_le_bytes(slice_subrange(data, 24, 32)),
                real_sol_reserves: u64_from_le_bytes(slice_subrange(data, 32, 40)),
                token_total_supply: u64_from_le_bytes(slice_subrange(data, 40, 48)),
                complete: flag != 0,
            },
        )
    }

    /// Writes the snapshot back into the byte layout `try_deserialize`
    /// reads.
    pub fn encode(&self) -> (r: Vec<u8>)
        ensures
            r@ == spec_encode_curve(*self),
            r@.len() == CURVE_ACCOUNT_LEN,
    {
        proof {
            lemma_auto_spec_u64_to_from_le_bytes();
        }
        let mut r = u64_to_le_bytes(BONDING_CURVE_DISCRIMINATOR);
        let mut part = u64_to_le_bytes(self.virtual_token_reserves);
        r.append(&mut part);
        let mut part = u64_to_le_bytes(self.virtual_sol_reserves);
        r.append(&mut part);
        let mut part = u64_to_le_bytes(self.real_token_reserves);
        r.append(&mut part);
        let mut part = u64_to_le_bytes(self.real_sol_reserves);
        r.append(&mut part);
        let mut part = u64_to_le_bytes(self.token_total_supply);
        r.append(&mut part);
        r.push(if self.complete { 1 } else { 0 });
        proof {
            assert(r@ =~= spec_encode_curve(*self));
        }
        r
    }
}

/// Law: decoding a buffer encoded from any snapshot reproduces exactly
/// that snapshot's field values.
pub proof fn lemma_curve_roundtrip(s: BondingCurveState)
    ensures
        spec_try_deserialize(spec_encode_curve(s)) == Ok::<BondingCurveState, ErrorCode>(s),
{
    lemma_auto_spec_u64_to_from_le_bytes();
    let e = spec_encode_curve(s);
    assert(e.len() == CURVE_ACCOUNT_LEN);
    assert(e.subrange(0, 8) =~= spec_u64_to_le_bytes(BONDING_CURVE_DISCRIMINATOR));
    assert(e.subrange(8, 16) =~= spec_u64_to_le_bytes(s.virtual_token_reserves));
    assert(e.subrange(16, 24) =~= spec_u64_to_le_bytes(s.virtual_sol_reserves));
    assert(e.subrange(24, 32) =~= spec_u64_to_le_bytes(s.real_token_reserves));
    assert(e.subrange(32, 40) =~= spec_u64_to_le_bytes(s.real_sol_reserves));
    assert(e.subrange(40, 48) =~= spec_u64_to_le_bytes(s.token_total_supply));
    assert(e[48] == (if s.complete { 1u8 } else { 0u8 }));
    assert(spec_curve_fields(e) == s);
}

/// Law: a buffer whose leading 8 bytes differ from the curve
/// discriminator is always rejected as `MalformedAccount`, whatever the
/// remaining bytes hold.
pub proof fn lemma_wrong_discriminator_rejected(data: Seq<u8>)
    requires
        data.len() >= 8,
        spec_u64_from_le_bytes(data.subrange(0, 8)) != BONDING_CURVE_DISCRIMINATOR,
    ensures
        spec_try_deserialize(data) == Err::<BondingCurveState, ErrorCode>(
            ErrorCode::MalformedAccount,
        ),
{
}

/// Spot price of the curve as an exact ratio: `quote_lamports` lamports
/// buy `base_units` native token units.  The home-currency price of one
/// whole token is `(quote_lamports / base_units)` scaled by the two
/// decimal precisions; keeping the raw ratio avoids any rounding before
/// the conversions below.
#[derive(Clone, Copy, Debug, PartialEq, Eq, Structural)]
pub struct SpotPrice {
    pub quote_lamports: u64,
    pub base_units: u64,
}

impl SpotPrice {
    /// A price is positive exactly when both sides of the ratio are.
    pub open spec fn is_positive(self) -> bool {
        self.quote_lamports > 0 && self.base_units > 0
    }
}

/// What the spot price of a snapshot is: the ratio of the virtual
/// reserves, or `InvalidPrice` when either virtual reserve is zero.
pub open spec fn spec_calculate_price(s: BondingCurveState) -> Result<SpotPrice, ErrorCode> {
    if s.virtual_token_reserves == 0 || s.virtual_sol_reserves == 0 {
        Err(ErrorCode::InvalidPrice)
    } else {
        Ok(
            SpotPrice {
                quote_lamports: s.virtual_sol_reserves,
                base_units: s.virtual_token_reserves,
            },
        )
    }
}

impl BondingCurveState {
    /// Computes the spot price; fails on a zero virtual reserve, which
    /// signals an uninitialized or corrupted curve.
    pub fn calculate_price(&self) -> (r: Result<SpotPrice, ErrorCode>)
        ensures
            r == spec_calculate_price(*self),
    {
        if self.virtual_token_reserves == 0 || self.virtual_sol_reserves == 0 {
            Err(ErrorCode::InvalidPrice)
        } else {
            Ok(
                SpotPrice {
                    quote_lamports: self.virtual_sol_reserves,
                    base_units: self.virtual_token_reserves,
                },
            )
        }
    }
}

/// Law: every snapshot with non-zero virtual reserves has a price, and
/// that price is positive.
pub proof fn lemma_price_positive(s: BondingCurveState)
    requires
        s.virtual_token_reserves > 0,
        s.virtual_sol_reserves > 0,
    ensures
        spec_calculate_price(s) is Ok,
        spec_calculate_price(s)->Ok_0.is_positive(),
{
}

/// Law: a zero virtual reserve on either side makes the price fail with
/// `InvalidPrice`, whatever the other fields hold.
pub proof fn lemma_zero_reserve_price_fails(s: BondingCurveState)
    requires
        s.virtual_token_reserves == 0 || s.virtual_sol_reserves == 0,
    ensures
        spec_calculate_price(s) == Err::<SpotPrice, ErrorCode>(ErrorCode::InvalidPrice),
{
}

/// What converting a home-currency amount (in lamports) into native token
/// units yields: `lamports / price`, truncated toward zero.  The
/// truncation biases the amount downward, which the buy-side slippage
/// bound tolerates.
pub open spec fn spec_home_to_native(lamports: u64, p: SpotPrice) -> Result<u64, ErrorCode> {
    if !p.is_positive() {
        Err(ErrorCode::InvalidPrice)
    } else {
        let n = (lamports * p.base_units) / (p.quote_lamports as int);
        if n > u64::MAX {
            Err(ErrorCode::ArithmeticOverflow)
        } else {
            Ok(n as u64)
        }
    }
}

/// Converts a home-currency amount in lamports into native token units at
/// the given spot price, truncating toward zero.
pub fn home_to_native(amount_lamports: u64, price: &SpotPrice) -> (r: Result<u64, ErrorCode>)
    ensures
        r == spec_home_to_native(amount_lamports, *price),
{
    if price.quote_lamports == 0 || price.base_units == 0 {
        return Err(ErrorCode::InvalidPrice);
    }
    proof {
        vstd::arithmetic::mul::lemma_mul_upper_bound(
            amount_lamports as int,
            u64::MAX as int,
            price.base_units as int,
            u64::MAX as int,
        );
    }
    let wide: u128 = (amount_lamports as u128) * (price.base_units as u128)
        / (price.quote_lamports as u128);
    if wide > u64::MAX as u128 {
        Err(ErrorCode::ArithmeticOverflow)
    } else {
        Ok(wide as u64)
    }
}

/// What converting a native token amount into home-currency lamports
/// yields: `native * price`, truncated toward zero.
pub open spec fn spec_native_to_home(native: u64, p: SpotPrice) -> Result<u64, ErrorCode> {
    if !p.is_positive() {
        Err(ErrorCode::InvalidPrice)
    } else {
        let n = (native * p.quote_lamports) / (p.base_units as int);
        if n > u64::MAX {
            Err(ErrorCode::ArithmeticOverflow)
        } else {
            Ok(n as u64)
        }
    }
}

/// Converts a native token amount into home-currency lamports at the
/// given spot price, truncating toward zero.
pub fn native_to_home(native_amount: u64, price: &SpotPrice) -> (r: Result<u64, ErrorCode>)
    ensures
        r == spec_native_to_home(native_amount, *price),
{
    if price.quote_lamports == 0 || price.base_units == 0 {
        return Err(ErrorCode::InvalidPrice);
    }
    proof {
        vstd::arithmetic::mul::lemma_mul_upper_bound(
            native_amount as int,
            u64::MAX as int,
            price.quote_lamports as int,
            u64::MAX as int,
        );
    }
    let wide: u128 = (native_amount as u128) * (price.quote_lamports as u128)
        / (price.base_units as u128);
    if wide > u64::MAX as u128 {
        Err(ErrorCode::ArithmeticOverflow)
    } else {
        Ok(wide as u64)
    }
}

} // verus!
