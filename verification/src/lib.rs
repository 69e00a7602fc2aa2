//! Trade composer for an on-chain token exchange.
//!
//! Given a trade intent (a buy or sell amount, a slippage tolerance, an
//! optional priority-fee tip), this library parses the exchange's bonding
//! curve account, derives a spot price, converts the requested amount into
//! the exchange's native integer units, computes the directional slippage
//! bound, and composes the ordered instruction that the external exchange
//! engine expects.  The surrounding program performs the actual
//! cross-program calls; everything here is pure computation on plain values.

pub mod account;
pub mod compose;
pub mod curve;
pub mod error;
pub mod session;
pub mod slippage;

pub use error::ErrorCode;
