//! Verified parts of the quick liquidity metrics: the token-balance
//! field read and the quote-side selection. The floating-point price,
//! TVL and quote-liquidity arithmetic is derived from these by the
//! caller.

use vstd::prelude::*;
use crate::types::Pubkey;
use crate::util::{le_u64, spec_le_u64};

verus! {

/// Input information about a pool and its vaults.
#[derive(Clone, Debug)]
pub struct PoolInput {
    pub program: Pubkey,
    pub pool: Pubkey,
    pub mint_a: Pubkey,
    pub mint_b: Pubkey,
    pub decimals_a: u8,
    pub decimals_b: u8,
    pub vault_a: Option<Pubkey>,
    pub vault_b: Option<Pubkey>,
    pub sqrt_price_x64: Option<u128>,
    pub is_clmm: bool,
    pub quote_mints: Vec<Pubkey>,
}

/// The token balance held in a token-account's data: the little-endian
/// `u64` at bytes 64..72; an account too short to carry it holds zero.
pub open spec fn spec_token_balance(data: Seq<u8>) -> u64 {
    if data.len() >= 72 {
        spec_le_u64(data, 64) as u64
    } else {
        0u64
    }
}

/// Read the balance field of a fetched token account; absent accounts
/// are passed as `None` and count zero.
pub fn read_token_balance(maybe_data: Option<&Vec<u8>>) -> (r: u64)
    ensures
        r == (match maybe_data {
            Some(data) => spec_token_balance(data@),
            None => 0u64,
        }),
{
    if let Some(data) = maybe_data {
        if data.len() >= 72 {
            return le_u64(data.as_slice(), 64);
        }
    }
    0
}

/// Which side of the pair is the quote side: `Some(true)` when mint A is
/// a known quote mint, else `Some(false)` when mint B is, else `None`.
/// When both sides are quotes the first match, side A, wins.
pub open spec fn spec_is_quote(a: Pubkey, b: Pubkey, quotes: Seq<Pubkey>) -> Option<bool> {
    if quotes.contains(a) {
        Some(true)
    } else if quotes.contains(b) {
        Some(false)
    } else {
        None
    }
}

fn quotes_contain(quotes: &Vec<Pubkey>, x: &Pubkey) -> (r: bool)
    ensures
        r == quotes@.contains(*x),
{
    let n = quotes.len();
    let mut i: usize = 0;
    while i < n
        invariant
            n == quotes@.len(),
            i <= n,
            forall|k: int| 0 <= k < i ==> quotes@[k] != *x,
        decreases n - i,
    {
        if quotes[i] == *x {
            proof {
                assert(quotes@[i as int] == *x);
            }
            return true;
        }
        i = i + 1;
    }
    false
}

/// Pick the quote side of a pair against the configured quote mints.
pub fn is_quote(a: &Pubkey, b: &Pubkey, quotes: &Vec<Pubkey>) -> (r: Option<bool>)
    ensures
        r == spec_is_quote(*a, *b, quotes@),
{
    if quotes_contain(quotes, a) {
        Some(true)
    } else if quotes_contain(quotes, b) {
        Some(false)
    } else {
        None
    }
}

} // verus!
