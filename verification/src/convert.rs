//! Currency conversion between fiat minor units (cents) and native-token
//! base units (lamports), with the platform's fixed slippage buffer.
//!
//! The exchange rate is an integer number of cents per whole token. A
//! rate of zero is the degraded mode used when the rate source is
//! unavailable: conversion then yields zero rather than failing, so a
//! checkout degrades to a zero-value transaction instead of an error.

use vstd::prelude::*;

verus! {

/// Base units per whole native token.
pub const LAMPORTS_PER_SOL: u64 = 1_000_000_000;

/// Numerator of the cents-to-lamports conversion: one cent is one
/// hundredth of a token at a rate of one cent per token, and the buyer
/// pays 2% over the nominal rate as a slippage buffer, so each cent
/// converts at 1_000_000_000 * 1.02 lamports per `rate_cents`.
pub const SLIPPAGE_LAMPORTS_PER_CENT: u64 = 1_020_000_000;

/// Fixed shipping surcharge added to every merchandise purchase, in cents.
pub const SHIPPING_SURCHARGE_CENTS: u32 = 1500;

/// Largest fiat amount, in cents, the converter accepts.
pub const MAX_CONVERTIBLE_CENTS: u64 = 10_000_000_000;

/// Largest exchange rate, in cents per token, the display helpers accept.
pub const MAX_RATE_CENTS: u64 = 100_000_000;

/// Value in lamports of a fiat amount of `cents` at `rate_cents` cents
/// per token, with the 2% slippage buffer; zero in degraded mode.
pub open spec fn lamports_for_cents(cents: int, rate_cents: int) -> int {
    if rate_cents <= 0 {
        0
    } else {
        (cents * SLIPPAGE_LAMPORTS_PER_CENT) / rate_cents
    }
}

/// Converts a fiat amount in cents to lamports at `rate_cents` cents per
/// token, charging the 2% slippage buffer and truncating fractions of a
/// lamport. A zero rate (rate source unavailable) converts to zero.
pub fn lamports_from_usd_cents(cents: u64, rate_cents: u64) -> (r: u64)
    requires
        cents <= MAX_CONVERTIBLE_CENTS,
    ensures
        r == lamports_for_cents(cents as int, rate_cents as int),
        rate_cents == 0 ==> r == 0,
{
    if rate_cents == 0 {
        0
    } else {
        let c: u128 = cents as u128;
        let s: u128 = SLIPPAGE_LAMPORTS_PER_CENT as u128;
        proof {
            assert(c * s <= 10_000_000_000u128 * 1_020_000_000u128) by (nonlinear_arith)
                requires
                    c <= 10_000_000_000u128,
                    s == 1_020_000_000u128,
            ;
        }
        let prod: u128 = c * s;
        let d: u128 = rate_cents as u128;
        let q: u128 = prod / d;
        proof {
            assert(q <= prod) by (nonlinear_arith)
                requires
                    prod >= 0,
                    d >= 1,
                    q == prod / d,
            ;
            assert(q <= u64::MAX as u128);
        }
        q as u64
    }
}

/// The token amount shown for `lamports`, in hundredths of a token,
/// rounded half up.
pub open spec fn sol_hundredths(lamports: int) -> int {
    (lamports + 5_000_000) / 10_000_000
}

/// Rounds a lamport amount to hundredths of a token for display.
pub fn sol_display_hundredths(lamports: u64) -> (r: u64)
    requires
        lamports <= u64::MAX - 5_000_000,
    ensures
        r == sol_hundredths(lamports as int),
{
    (lamports + 5_000_000) / 10_000_000
}

/// Nominal fiat value of `lamports` at `rate_cents` cents per token, in
/// cents, truncating; used for display only, so no slippage is applied.
pub open spec fn cents_for_lamports(lamports: int, rate_cents: int) -> int {
    (lamports * rate_cents) / (LAMPORTS_PER_SOL as int)
}

/// Converts a lamport amount to its displayed fiat value in cents.
pub fn usd_cents_from_lamports(lamports: u64, rate_cents: u64) -> (r: u64)
    requires
        lamports <= 1_000_000_000_000_000_000,
        rate_cents <= MAX_RATE_CENTS,
    ensures
        r == cents_for_lamports(lamports as int, rate_cents as int),
{
    let a: u128 = lamports as u128;
    let b: u128 = rate_cents as u128;
    proof {
        assert(a * b <= 1_000_000_000_000_000_000u128 * 100_000_000u128) by (nonlinear_arith)
            requires
                a <= 1_000_000_000_000_000_000u128,
                b <= 100_000_000u128,
        ;
    }
    let prod: u128 = a * b;
    let q: u128 = prod / (LAMPORTS_PER_SOL as u128);
    proof {
        assert(q <= 100_000_000_000_000_000u128) by (nonlinear_arith)
            requires
                prod <= 100_000_000_000_000_000_000_000_000u128,
                q == prod / 1_000_000_000u128,
        ;
    }
    q as u64
}

} // verus!
