//! Sell simulation through a pool. No pool program is supported yet:
//! every request reports the unsupported-program error.

use vstd::prelude::*;
use vstd::string::*;
use crate::types::Pubkey;

verus! {

/// Result of a simulated sell.
#[derive(Clone, Debug)]
pub struct SimResult {
    pub ok: bool,
    pub amount_out: Option<u64>,
    pub units_consumed: Option<u64>,
    pub logs_sample: Vec<String>,
    pub error: Option<String>,
}

/// Simulate a sell through the given pool. Currently unsupported: the
/// result always carries `ok == false` and the error
/// `unsupported_pool_program`, whatever the route.
pub fn simulate_sell(
    _pool_program: Pubkey,
    _pool_account: Pubkey,
    _mint_in: Pubkey,
    _mint_out: Pubkey,
    _amount_in: u64,
    _slippage_bps: u16,
) -> (r: SimResult)
    ensures
        !r.ok,
        r.amount_out is None,
        r.units_consumed is None,
        r.logs_sample@.len() == 0,
        r.error matches Some(e) && e@ == "unsupported_pool_program"@,
{
    SimResult {
        ok: false,
        amount_out: None,
        units_consumed: None,
        logs_sample: Vec::new(),
        error: Some(String::from_str("unsupported_pool_program")),
    }
}

} // verus!
