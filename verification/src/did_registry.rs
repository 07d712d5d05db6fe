//! The DID registry operations: building unsigned transactions for the
//! four registry calls and parsing resolve results.
//!
//! Each builder validates its inputs, encodes the call data in the wire
//! format of [`crate::codec`], and fills the chain metadata (target
//! contract, chain identifier, nonce) from the supplied ledger client.
//! Builders perform no ledger interaction themselves: the caller signs
//! and submits the returned transaction, and existence checks for a
//! DID are the ledger's concern at execution time, not build time.
//!
//! Every entry point's behaviour is mirrored by a spec function
//! (`build_create_spec` and friends) that pins the full result,
//! including the exact call-data bytes and the error returned on each
//! rejected input.

use vstd::bytes::spec_u32_to_le_bytes;
use vstd::prelude::*;
use vstd::string::StrSliceExecFns;
use vstd::string::StringSliceAdditionalSpecFns;

use crate::client::LedgerClient;
use crate::client::LedgerClientView;
use crate::codec::dec_doc;
use crate::codec::decode_document;
use crate::codec::enc_bytes;
use crate::codec::enc_doc;
use crate::codec::encode_document;
use crate::codec::lemma_dec_doc_enc;
use crate::codec::lemma_enc_dec_doc;
use crate::document::DidDocument;
use crate::document::DidDocumentView;
use crate::document::MAX_FIELD_LEN;
use crate::document::check_document;
use crate::document::check_encodable;
use crate::document::doc_encodable;
use crate::document::doc_wf;
use crate::errors::VdrError;
use crate::identifiers::check_address_bytes;
use crate::identifiers::check_did_bytes;
use crate::identifiers::valid_address_bytes;
use crate::identifiers::valid_did_bytes;
use crate::transaction::Transaction;
use crate::transaction::TransactionType;
use crate::transaction::TransactionView;

verus! {

/// Call-data tag of a create call.
pub const OP_CREATE: u8 = 1;

/// Call-data tag of an update call.
pub const OP_UPDATE: u8 = 2;

/// Call-data tag of a deactivate call.
pub const OP_DEACTIVATE: u8 = 3;

/// Call-data tag of a resolve call.
pub const OP_RESOLVE: u8 = 4;

/// Wire version carried by every resolve result.
pub const WIRE_VERSION: u8 = 1;

/// Resolve-result flag: the identifier is absent or deactivated.
pub const STATUS_ABSENT: u8 = 0;

/// Resolve-result flag: a document follows.
pub const STATUS_FOUND: u8 = 1;

/// Call data of a create call: the tag, then the encoded document.
pub open spec fn create_call_data(d: DidDocumentView) -> Seq<u8> {
    seq![OP_CREATE] + enc_doc(d)
}

/// Call data of an update call: the tag, then the encoded document.
pub open spec fn update_call_data(d: DidDocumentView) -> Seq<u8> {
    seq![OP_UPDATE] + enc_doc(d)
}

/// Call data of a deactivate call: the tag, then the DID alone — a
/// deactivate call carries no document payload.
pub open spec fn deactivate_call_data(did: Seq<u8>) -> Seq<u8> {
    seq![OP_DEACTIVATE] + enc_bytes(did)
}

/// Call data of a resolve call: the tag, then the DID alone.
pub open spec fn resolve_call_data(did: Seq<u8>) -> Seq<u8> {
    seq![OP_RESOLVE] + enc_bytes(did)
}

/// Whether a DID fits the wire format's length prefix.
pub open spec fn did_fits(did: Seq<u8>) -> bool {
    did.len() <= MAX_FIELD_LEN
}

/// The write transaction carrying `data`, addressed to the registry
/// contract of `c` and sent by `from` with the client's current nonce
/// and gas limit.
pub open spec fn write_transaction(c: LedgerClientView, from: Seq<u8>, data: Seq<u8>) -> TransactionView {
    TransactionView {
        txn_type: TransactionType::Write,
        from: Some(from),
        to: c.contract_address,
        nonce: Some(c.nonce),
        gas_limit: Some(c.gas_limit),
        chain_id: c.chain_id,
        data: data,
    }
}

/// The read-only transaction carrying `data`, addressed to the registry
/// contract of `c`; it needs no sender and no nonce.
pub open spec fn read_transaction(c: LedgerClientView, data: Seq<u8>) -> TransactionView {
    TransactionView {
        txn_type: TransactionType::Read,
        from: None,
        to: c.contract_address,
        nonce: None,
        gas_limit: None,
        chain_id: c.chain_id,
        data: data,
    }
}

/// Outcome of building a create transaction: a malformed sender address
/// or an ill-formed document is a validation failure, an unsupported
/// verification-key type an encoding failure; otherwise the write
/// transaction whose call data encodes the document.
pub open spec fn build_create_spec(c: LedgerClientView, from: Seq<u8>, d: DidDocumentView) -> Result<
    TransactionView,
    VdrError,
> {
    if !valid_address_bytes(from) {
        Err(VdrError::Validation)
    } else if !doc_wf(d) {
        Err(VdrError::Validation)
    } else if !doc_encodable(d) {
        Err(VdrError::Encoding)
    } else {
        Ok(write_transaction(c, from, create_call_data(d)))
    }
}

/// Outcome of building an update transaction; the same contract as
/// create, with the update tag.  Whether the DID already exists on the
/// ledger is not checked here.
pub open spec fn build_update_spec(c: LedgerClientView, from: Seq<u8>, d: DidDocumentView) -> Result<
    TransactionView,
    VdrError,
> {
    if !valid_address_bytes(from) {
        Err(VdrError::Validation)
    } else if !doc_wf(d) {
        Err(VdrError::Validation)
    } else if !doc_encodable(d) {
        Err(VdrError::Encoding)
    } else {
        Ok(write_transaction(c, from, update_call_data(d)))
    }
}

/// Outcome of building a deactivate transaction: both identifiers must
/// be well formed; the call data references the DID alone.
pub open spec fn build_deactivate_spec(c: LedgerClientView, from: Seq<u8>, did: Seq<u8>) -> Result<
    TransactionView,
    VdrError,
> {
    if !valid_address_bytes(from) {
        Err(VdrError::Validation)
    } else if !valid_did_bytes(did) || !did_fits(did) {
        Err(VdrError::Validation)
    } else {
        Ok(write_transaction(c, from, deactivate_call_data(did)))
    }
}

/// Outcome of building a resolve transaction: a read-only call that
/// needs no sender.  Whether the DID exists is the ledger's answer at
/// execution time.
pub open spec fn build_resolve_spec(c: LedgerClientView, did: Seq<u8>) -> Result<
    TransactionView,
    VdrError,
> {
    if !valid_did_bytes(did) || !did_fits(did) {
        Err(VdrError::Validation)
    } else {
        Ok(read_transaction(c, resolve_call_data(did)))
    }
}

/// Outcome of parsing a resolve result: the two-byte header must carry
/// the known wire version and a presence flag; an absent flag is the
/// ledger reporting the DID missing or deactivated; otherwise exactly
/// one encoded document must fill the rest of the buffer, and the
/// decoded document must satisfy the document invariant — the parser
/// never hands out an ill-formed document.
pub open spec fn parse_resolve_spec(s: Seq<u8>) -> Result<DidDocumentView, VdrError> {
    if s.len() < 2 {
        Err(VdrError::Decoding)
    } else if s[0] != WIRE_VERSION {
        Err(VdrError::Decoding)
    } else if s[1] == STATUS_ABSENT {
        Err(VdrError::NotFound)
    } else if s[1] != STATUS_FOUND {
        Err(VdrError::Decoding)
    } else {
        match dec_doc(s, 2) {
            None => Err(VdrError::Decoding),
            Some((d, end)) => if end == s.len() && doc_wf(d) {
                Ok(d)
            } else {
                Err(VdrError::Decoding)
            },
        }
    }
}

/// The resolve-result bytes the ledger returns for a DID whose stored
/// document is `d`: the wire header with the found flag, then the
/// document encoded exactly as create and update call data carry it.
pub open spec fn found_resolve_result(d: DidDocumentView) -> Seq<u8> {
    seq![WIRE_VERSION, STATUS_FOUND] + enc_doc(d)
}

/// Round trip: when a create transaction was built for a document, a
/// resolve result carrying that document's encoding parses back to an
/// equal document — the builder's encoding and the parser's decoding
/// are mutual inverses.
pub proof fn lemma_create_resolve_round_trip(
    c: LedgerClientView,
    from: Seq<u8>,
    d: DidDocumentView,
)
    requires
        build_create_spec(c, from, d) is Ok,
    ensures
        build_create_spec(c, from, d)->Ok_0.data == seq![OP_CREATE] + enc_doc(d),
        parse_resolve_spec(found_resolve_result(d)) == Ok::<DidDocumentView, VdrError>(d),
{
    let s = found_resolve_result(d);
    assert(s.subrange(2, s.len() as int) =~= enc_doc(d) + Seq::<u8>::empty());
    lemma_dec_doc_enc(s, 2, d, Seq::empty());
}

/// The converse round trip: the wire format is canonical, so a buffer
/// that parses successfully is exactly the found-result encoding of
/// the document it returned.  Together with
/// `lemma_create_resolve_round_trip` this makes encoding and parsing
/// mutual inverses.
pub proof fn lemma_parse_canonical(s: Seq<u8>)
    requires
        parse_resolve_spec(s) is Ok,
    ensures
        s == found_resolve_result(parse_resolve_spec(s)->Ok_0),
{
    let d = parse_resolve_spec(s)->Ok_0;
    lemma_enc_dec_doc(s, 2);
    assert(enc_doc(d) == s.subrange(2, s.len() as int));
    assert(found_resolve_result(d) =~= s);
}

/// Validation: with a sender address failing the fixed-length hex
/// check, building a create transaction fails with a validation error,
/// whatever the document holds.
pub proof fn lemma_invalid_address_rejected(
    c: LedgerClientView,
    from: Seq<u8>,
    d: DidDocumentView,
)
    requires
        !valid_address_bytes(from),
    ensures
        build_create_spec(c, from, d) == Err::<TransactionView, VdrError>(VdrError::Validation),
        build_update_spec(c, from, d) == Err::<TransactionView, VdrError>(VdrError::Validation),
{
}

/// Idempotence of resolve: two resolve transactions built from the
/// same DID against the same chain view are identical, byte-identical
/// call data included.
pub proof fn lemma_resolve_idempotent(
    c1: LedgerClientView,
    did1: Seq<u8>,
    c2: LedgerClientView,
    did2: Seq<u8>,
)
    requires
        c1 == c2,
        did1 == did2,
    ensures
        build_resolve_spec(c1, did1) == build_resolve_spec(c2, did2),
{
}

/// A deactivate transaction carries no document payload: its call data
/// is a function of the DID alone — the tag, the DID's length and the
/// DID bytes — so no verification-method data can be embedded in it.
pub proof fn lemma_deactivate_no_document_payload(
    c: LedgerClientView,
    from: Seq<u8>,
    did: Seq<u8>,
)
    requires
        build_deactivate_spec(c, from, did) is Ok,
    ensures
        build_deactivate_spec(c, from, did)->Ok_0.data == seq![OP_DEACTIVATE]
            + spec_u32_to_le_bytes(did.len() as u32) + did,
        build_deactivate_spec(c, from, did)->Ok_0.data.len() == 5 + did.len(),
{
    vstd::bytes::lemma_auto_spec_u32_to_from_le_bytes();
    assert(seq![OP_DEACTIVATE] + enc_bytes(did) =~= seq![OP_DEACTIVATE] + spec_u32_to_le_bytes(
        did.len() as u32,
    ) + did);
}

/// Malformed bytes: a buffer shorter than the fixed two-byte header
/// always parses to a decoding error — never a partially populated
/// document.
pub proof fn lemma_truncated_result_rejected(bytes: Seq<u8>)
    requires
        bytes.len() < 2,
    ensures
        parse_resolve_spec(bytes) == Err::<DidDocumentView, VdrError>(VdrError::Decoding),
{
}

/// The DID registry's operations.
pub struct IndyDidRegistry;

impl IndyDidRegistry {
    /// Builds the unsigned transaction that registers `did_doc` on the
    /// ledger, sent by `from`.
    pub fn build_create_did_transaction(
        client: &LedgerClient,
        from: &str,
        did_doc: &DidDocument,
    ) -> (r: Result<Transaction, VdrError>)
        ensures
            match r {
                Ok(t) => build_create_spec(client@, from.spec_bytes(), did_doc@)
                    == Ok::<TransactionView, VdrError>(t@),
                Err(e) => build_create_spec(client@, from.spec_bytes(), did_doc@)
                    == Err::<TransactionView, VdrError>(e),
            },
    {
        let from_bytes = from.as_bytes_vec();
        if !check_address_bytes(&from_bytes) {
            return Err(VdrError::Validation);
        }
        if !check_document(did_doc) {
            return Err(VdrError::Validation);
        }
        if !check_encodable(did_doc) {
            return Err(VdrError::Encoding);
        }
        let mut data: Vec<u8> = Vec::new();
        data.push(OP_CREATE);
        let mut body = encode_document(did_doc);
        data.append(&mut body);
        assert(data@ =~= create_call_data(did_doc@));
        let t = Transaction {
            txn_type: TransactionType::Write,
            from: Some(from_bytes),
            to: client.contract_address().to_bytes_vec(),
            nonce: Some(client.nonce()),
            gas_limit: Some(client.gas_limit()),
            chain_id: client.chain_id(),
            data,
        };
        assert(t@ =~= write_transaction(client@, from.spec_bytes(), create_call_data(did_doc@)));
        Ok(t)
    }

    /// Builds the unsigned transaction that replaces the document
    /// stored for its DID, sent by `from`.
    pub fn build_update_did_transaction(
        client: &LedgerClient,
        from: &str,
        did_doc: &DidDocument,
    ) -> (r: Result<Transaction, VdrError>)
        ensures
            match r {
                Ok(t) => build_update_spec(client@, from.spec_bytes(), did_doc@)
                    == Ok::<TransactionView, VdrError>(t@),
                Err(e) => build_update_spec(client@, from.spec_bytes(), did_doc@)
                    == Err::<TransactionView, VdrError>(e),
            },
    {
        let from_bytes = from.as_bytes_vec();
        if !check_address_bytes(&from_bytes) {
            return Err(VdrError::Validation);
        }
        if !check_document(did_doc) {
            return Err(VdrError::Validation);
        }
        if !check_encodable(did_doc) {
            return Err(VdrError::Encoding);
        }
        let mut data: Vec<u8> = Vec::new();
        data.push(OP_UPDATE);
        let mut body = encode_document(did_doc);
        data.append(&mut body);
        assert(data@ =~= update_call_data(did_doc@));
        let t = Transaction {
            txn_type: TransactionType::Write,
            from: Some(from_bytes),
            to: client.contract_address().to_bytes_vec(),
            nonce: Some(client.nonce()),
            gas_limit: Some(client.gas_limit()),
            chain_id: client.chain_id(),
            data,
        };
        assert(t@ =~= write_transaction(client@, from.spec_bytes(), update_call_data(did_doc@)));
        Ok(t)
    }

    /// Builds the unsigned transaction that deactivates `did`, sent by
    /// `from`.  The call data references the identifier alone.
    pub fn build_deactivate_did_transaction(
        client: &LedgerClient,
        from: &str,
        did: &str,
    ) -> (r: Result<Transaction, VdrError>)
        ensures
            match r {
                Ok(t) => build_deactivate_spec(client@, from.spec_bytes(), did.spec_bytes())
                    == Ok::<TransactionView, VdrError>(t@),
                Err(e) => build_deactivate_spec(client@, from.spec_bytes(), did.spec_bytes())
                    == Err::<TransactionView, VdrError>(e),
            },
    {
        let from_bytes = from.as_bytes_vec();
        if !check_address_bytes(&from_bytes) {
            return Err(VdrError::Validation);
        }
        let did_bytes = did.as_bytes_vec();
        if !check_did_bytes(&did_bytes) || did_bytes.len() > MAX_FIELD_LEN {
            return Err(VdrError::Validation);
        }
        let mut data: Vec<u8> = Vec::new();
        data.push(OP_DEACTIVATE);
        let mut len_bytes = vstd::bytes::u32_to_le_bytes(did_bytes.len() as u32);
        data.append(&mut len_bytes);
        let mut did_copy = did_bytes;
        data.append(&mut did_copy);
        assert(data@ =~= deactivate_call_data(did.spec_bytes()));
        let t = Transaction {
            txn_type: TransactionType::Write,
            from: Some(from_bytes),
            to: client.contract_address().to_bytes_vec(),
            nonce: Some(client.nonce()),
            gas_limit: Some(client.gas_limit()),
            chain_id: client.chain_id(),
            data,
        };
        assert(t@ =~= write_transaction(
            client@,
            from.spec_bytes(),
            deactivate_call_data(did.spec_bytes()),
        ));
        Ok(t)
    }

    /// Builds the read-only transaction that, executed against the
    /// ledger, returns the current document bytes for `did`.
    pub fn build_resolve_did_transaction(client: &LedgerClient, did: &str) -> (r: Result<
        Transaction,
        VdrError,
    >)
        ensures
            match r {
                Ok(t) => build_resolve_spec(client@, did.spec_bytes())
                    == Ok::<TransactionView, VdrError>(t@),
                Err(e) => build_resolve_spec(client@, did.spec_bytes())
                    == Err::<TransactionView, VdrError>(e),
            },
    {
        let did_bytes = did.as_bytes_vec();
        if !check_did_bytes(&did_bytes) || did_bytes.len() > MAX_FIELD_LEN {
            return Err(VdrError::Validation);
        }
        let mut data: Vec<u8> = Vec::new();
        data.push(OP_RESOLVE);
        let mut len_bytes = vstd::bytes::u32_to_le_bytes(did_bytes.len() as u32);
        data.append(&mut len_bytes);
        let mut did_copy = did_bytes;
        data.append(&mut did_copy);
        assert(data@ =~= resolve_call_data(did.spec_bytes()));
        let t = Transaction {
            txn_type: TransactionType::Read,
            from: None,
            to: client.contract_address().to_bytes_vec(),
            nonce: None,
            gas_limit: None,
            chain_id: client.chain_id(),
            data,
        };
        assert(t@ =~= read_transaction(client@, resolve_call_data(did.spec_bytes())));
        Ok(t)
    }

    /// Decodes the raw bytes a resolve call returned into the stored
    /// document.  Parsing is deterministic and read-only: the client is
    /// not consulted, and the same bytes always produce an equal
    /// document.
    pub fn parse_resolve_did_result(_client: &LedgerClient, bytes: Vec<u8>) -> (r: Result<
        DidDocument,
        VdrError,
    >)
        ensures
            match r {
                Ok(d) => parse_resolve_spec(bytes@) == Ok::<DidDocumentView, VdrError>(d@)
                    && doc_wf(d@),
                Err(e) => parse_resolve_spec(bytes@) == Err::<DidDocumentView, VdrError>(e),
            },
    {
        if bytes.len() < 2 {
            return Err(VdrError::Decoding);
        }
        if bytes[0] != WIRE_VERSION {
            return Err(VdrError::Decoding);
        }
        if bytes[1] == STATUS_ABSENT {
            return Err(VdrError::NotFound);
        }
        if bytes[1] != STATUS_FOUND {
            return Err(VdrError::Decoding);
        }
        match decode_document(&bytes, 2) {
            Err(e) => Err(e),
            Ok((d, end)) => if end == bytes.len() && check_document(&d) {
                Ok(d)
            } else {
                Err(VdrError::Decoding)
            },
        }
    }
}

} // verus!
