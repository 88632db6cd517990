//! The adapter that submits execution jobs to a Stellar RPC endpoint.
use vstd::prelude::*;

verus! {

pub struct StellarTxSubmitterAdapter {
    pub rpc_url: String,
}

impl StellarTxSubmitterAdapter {
    pub fn new(rpc_url: String) -> (a: Self)
        ensures
            a.rpc_url == rpc_url,
    {
        StellarTxSubmitterAdapter { rpc_url }
    }
}

} // verus!
