//! The ledger client: the injected capability every builder call
//! receives.
//!
//! The client holds the chain view the builders read — the chain
//! identifier, the address of the deployed DID registry contract, the
//! sender's next account nonce and the gas limit writes may spend.  It is read-only here: the caller
//! refreshes these values from the network and passes the client in,
//! so concurrent builder calls share nothing mutable.

use vstd::prelude::*;

use crate::identifiers::Address;

verus! {

/// Configuration and current chain view for reaching the ledger.
#[derive(Debug)]
pub struct LedgerClient {
    chain_id: u64,
    contract_address: Address,
    nonce: u64,
    gas_limit: u64,
}

/// Mathematical model of a ledger client.
#[verifier::ext_equal]
pub ghost struct LedgerClientView {
    pub chain_id: u64,
    pub contract_address: Seq<u8>,
    pub nonce: u64,
    pub gas_limit: u64,
}

impl View for LedgerClient {
    type V = LedgerClientView;

    closed spec fn view(&self) -> LedgerClientView {
        LedgerClientView {
            chain_id: self.chain_id,
            contract_address: self.contract_address@,
            nonce: self.nonce,
            gas_limit: self.gas_limit,
        }
    }
}

impl LedgerClient {
    /// A client for the chain `chain_id`, with the registry deployed at
    /// `contract_address`, `nonce` as the sender's next nonce and
    /// `gas_limit` as the limit write transactions carry.
    pub fn new(chain_id: u64, contract_address: Address, nonce: u64, gas_limit: u64) -> (r: LedgerClient)
        ensures
            r@.chain_id == chain_id,
            r@.contract_address == contract_address@,
            r@.nonce == nonce,
            r@.gas_limit == gas_limit,
    {
        LedgerClient { chain_id, contract_address, nonce, gas_limit }
    }

    /// The chain identifier transactions must carry.
    pub fn chain_id(&self) -> (r: u64)
        ensures
            r == self@.chain_id,
    {
        self.chain_id
    }

    /// The address of the deployed registry contract.
    pub fn contract_address(&self) -> (r: &Address)
        ensures
            r@ == self@.contract_address,
    {
        &self.contract_address
    }

    /// The sender's next account nonce, as last fetched.
    pub fn nonce(&self) -> (r: u64)
        ensures
            r == self@.nonce,
    {
        self.nonce
    }

    /// The gas limit write transactions carry.
    pub fn gas_limit(&self) -> (r: u64)
        ensures
            r == self@.gas_limit,
    {
        self.gas_limit
    }
}

} // verus!
