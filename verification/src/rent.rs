use vstd::prelude::*;

use vstd::bytes::spec_u64_from_le_bytes;
use vstd::bytes::u64_from_le_bytes;
use vstd::slice::slice_subrange;

verus! {

/// The most data bytes an account may hold under the engine's rent rules;
/// a larger account has no attainable exemption minimum.
pub open spec fn max_rented_data_len() -> int {
    (10 * 1024 * 1024) as int
}

/// The fixed per-account storage overhead, in bytes, that the rent rules
/// charge on top of the account's own data.
pub open spec fn account_storage_overhead() -> int {
    128
}

/// The oracle threshold bytes under which the exemption minimum is twice
/// the per-byte cost (the engine's long-standing default).
pub open spec fn threshold_double() -> Seq<u8> {
    seq![0u8, 0u8, 0u8, 0u8, 0u8, 0u8, 0u8, 64u8]
}

/// The oracle threshold bytes under which the exemption minimum is the
/// per-byte cost itself (the engine's present default).
pub open spec fn threshold_single() -> Seq<u8> {
    seq![0u8, 0u8, 0u8, 0u8, 0u8, 0u8, 240u8, 63u8]
}

/// Whether the engine prices an oracle's threshold bytes with plain
/// integer arithmetic.  These two patterns are the only thresholds the
/// dispatcher hands to the engine: for any other pattern the engine falls
/// back to floating-point arithmetic whose product is unguarded, and on
/// the engine's own deployment target that fallback never computes at
/// all, so such an oracle is refused before any call is made.
pub open spec fn priced_threshold(threshold: Seq<u8>) -> bool {
    threshold == threshold_single() || threshold == threshold_double()
}

/// The largest per-byte rate the rent rules accept beside
/// `threshold_double`; past it the minimum would not fit in 64 bits.
pub open spec fn max_rate_double() -> int {
    879_598_564_933
}

/// The largest per-byte rate the rent rules accept beside
/// `threshold_single`.
pub open spec fn max_rate_single() -> int {
    1_759_197_129_867
}

/// The minimum balance, in lamports, below which an account with
/// `data_len` data bytes is eventually collected under the published rent
/// parameters; `None` where the rules admit no such minimum (the account
/// is too large, or the rate is past the bound that keeps the arithmetic
/// in range).
pub open spec fn spec_min_balance(
    lamports_per_byte: u64,
    threshold: Seq<u8>,
    data_len: usize,
) -> Option<u64>
    recommends
        priced_threshold(threshold),
{
    if data_len > max_rented_data_len() {
        None
    } else if lamports_per_byte > max_rate_double() && threshold == threshold_double() {
        None
    } else if lamports_per_byte > max_rate_single() && threshold == threshold_single() {
        None
    } else if threshold == threshold_single() {
        Some(((account_storage_overhead() + data_len) * lamports_per_byte) as u64)
    } else {
        Some((2 * (account_storage_overhead() + data_len) * lamports_per_byte) as u64)
    }
}

/// The dispatcher's reading of the rent oracle for the initializer.
#[derive(Clone, Copy, Debug, PartialEq, Eq, Structural)]
pub enum RentVerdict {
    /// The oracle's data is too short to hold rent parameters, or its
    /// threshold is none the engine prices.
    Unusable,
    /// The initializer's balance meets the exemption minimum.
    Exempt,
    /// The balance falls short, or no attainable minimum exists.
    NotExempt,
}

/// The verdict for a balance of `lamports` on an account with `data_len`
/// data bytes, judged by an oracle account holding `oracle` bytes: the
/// first eight bytes are the per-byte rate, little-endian; the next eight
/// are the threshold; one byte of burn rate follows, which the minimum
/// does not depend on; trailing bytes are ignored, as the engine's own
/// deserializer ignores them.
pub open spec fn spec_rent_verdict(oracle: Seq<u8>, lamports: u64, data_len: usize) -> RentVerdict {
    if oracle.len() < 17 {
        RentVerdict::Unusable
    } else if !priced_threshold(oracle.subrange(8, 16)) {
        RentVerdict::Unusable
    } else {
        match spec_min_balance(
            spec_u64_from_le_bytes(oracle.subrange(0, 8)),
            oracle.subrange(8, 16),
            data_len,
        ) {
            Option::None => RentVerdict::NotExempt,
            Option::Some(min) => if lamports >= min {
                RentVerdict::Exempt
            } else {
                RentVerdict::NotExempt
            },
        }
    }
}

/// Relies on `solana_program::rent::Rent::try_minimum_balance`, on the
/// two priced thresholds only: there the minimum is `None` exactly on the
/// out-of-range inputs above and otherwise the stated integer product,
/// which the rate bound keeps inside 64 bits.  Any other threshold is
/// kept out by `requires`: the engine would price it with an unguarded
/// floating-point fallback that can overflow here and that panics
/// outright on the engine's own deployment target.  The burn byte is
/// carried into the oracle's `Rent` value but the minimum never reads it.
#[verifier::external_body]
fn engine_min_balance(
    lamports_per_byte: u64,
    threshold: &[u8],
    burn_percent: u8,
    data_len: usize,
) -> (r: Option<u64>)
    requires
        threshold@.len() == 8,
        priced_threshold(threshold@),
    ensures
        r == spec_min_balance(lamports_per_byte, threshold@, data_len),
{
    #[allow(deprecated)]
    let rent = solana_program::rent::Rent {
        lamports_per_byte,
        exemption_threshold: threshold.try_into().unwrap(),
        burn_percent,
    };
    rent.try_minimum_balance(data_len)
}

/// Whether eight threshold bytes are the `threshold_single` pattern.
fn is_threshold_single(t: &[u8]) -> (r: bool)
    requires
        t@.len() == 8,
    ensures
        r == (t@ == threshold_single()),
{
    let r = t[0] == 0 && t[1] == 0 && t[2] == 0 && t[3] == 0 && t[4] == 0 && t[5] == 0 && t[6]
        == 240 && t[7] == 63;
    proof {
        if r {
            assert(t@ =~= threshold_single());
        }
    }
    r
}

/// Whether eight threshold bytes are the `threshold_double` pattern.
fn is_threshold_double(t: &[u8]) -> (r: bool)
    requires
        t@.len() == 8,
    ensures
        r == (t@ == threshold_double()),
{
    let r = t[0] == 0 && t[1] == 0 && t[2] == 0 && t[3] == 0 && t[4] == 0 && t[5] == 0 && t[6] == 0
        && t[7] == 64;
    proof {
        if r {
            assert(t@ =~= threshold_double());
        }
    }
    r
}

/// Reads the rent oracle's published parameters and judges whether the
/// given balance keeps an account with `data_len` data bytes exempt from
/// rent collection.  An oracle the engine cannot price — data too short,
/// or a threshold outside the two fixed patterns — is refused here,
/// before the engine is consulted.
pub fn rent_verdict(oracle: &Vec<u8>, lamports: u64, data_len: usize) -> (v: RentVerdict)
    ensures
        v == spec_rent_verdict(oracle@, lamports, data_len),
{
    if oracle.len() < 17 {
        return RentVerdict::Unusable;
    }
    let threshold = slice_subrange(oracle.as_slice(), 8, 16);
    if !is_threshold_single(threshold) && !is_threshold_double(threshold) {
        return RentVerdict::Unusable;
    }
    let rate_bytes = slice_subrange(oracle.as_slice(), 0, 8);
    let rate = u64_from_le_bytes(rate_bytes);
    let burn = oracle[16];
    match engine_min_balance(rate, threshold, burn, data_len) {
        None => RentVerdict::NotExempt,
        Some(min) => if lamports >= min {
            RentVerdict::Exempt
        } else {
            RentVerdict::NotExempt
        },
    }
}

} // verus!
