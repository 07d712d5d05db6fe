//! Unsigned registry transactions.
//!
//! A transaction is a call descriptor targeting the registry contract:
//! the kind of call (state-changing write or read-only), the sender for
//! writes, the target contract, the account nonce for writes, the chain
//! identifier and the encoded call data.  The builder returns it
//! unsigned; signing and submission are the caller's concern, and the
//! builder keeps no state about it.

use vstd::prelude::*;

verus! {

/// Whether a transaction changes ledger state or only reads it.
#[derive(Clone, Copy, Debug, PartialEq, Eq, Structural)]
pub enum TransactionType {
    /// A state-changing call: create, update or deactivate.
    Write,
    /// A read-only call: resolve.
    Read,
}

/// An unsigned ledger call descriptor.
#[derive(Debug, PartialEq, Eq)]
pub struct Transaction {
    /// Whether the call writes ledger state.
    pub txn_type: TransactionType,
    /// The sender account; present exactly on write calls.
    pub from: Option<Vec<u8>>,
    /// The registry contract the call targets.
    pub to: Vec<u8>,
    /// The sender's account nonce; present exactly on write calls.
    pub nonce: Option<u64>,
    /// The gas limit of the call; present exactly on write calls.
    pub gas_limit: Option<u64>,
    /// The chain the transaction is valid on.
    pub chain_id: u64,
    /// The encoded call data.
    pub data: Vec<u8>,
}

/// Mathematical model of an unsigned transaction.
#[verifier::ext_equal]
pub ghost struct TransactionView {
    pub txn_type: TransactionType,
    pub from: Option<Seq<u8>>,
    pub to: Seq<u8>,
    pub nonce: Option<u64>,
    pub gas_limit: Option<u64>,
    pub chain_id: u64,
    pub data: Seq<u8>,
}

impl View for Transaction {
    type V = TransactionView;

    open spec fn view(&self) -> TransactionView {
        TransactionView {
            txn_type: self.txn_type,
            from: match self.from {
                Some(f) => Some(f@),
                None => None,
            },
            to: self.to@,
            nonce: self.nonce,
            gas_limit: self.gas_limit,
            chain_id: self.chain_id,
            data: self.data@,
        }
    }
}

} // verus!
