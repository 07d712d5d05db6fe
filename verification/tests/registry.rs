use did_vdr::client::LedgerClient;
use did_vdr::did_registry::IndyDidRegistry;
use did_vdr::document::DidDocument;
use did_vdr::document::Service;
use did_vdr::document::VerificationMethod;
use did_vdr::errors::VdrError;
use did_vdr::identifiers::Address;
use did_vdr::transaction::TransactionType;

const CONTRACT: &str = "0x0000000000000000000000000000000000003333";
const SENDER: &str = "0xababababababababababababababababababab01";
const CHAIN_ID: u64 = 1337;
const NONCE: u64 = 7;
const GAS_LIMIT: u64 = 3_000_000;

fn sample_client() -> LedgerClient {
    let contract = Address::new(CONTRACT).unwrap();
    LedgerClient::new(CHAIN_ID, contract, NONCE, GAS_LIMIT)
}

fn sample_document() -> DidDocument {
    DidDocument {
        did: b"did:indy:test:123".to_vec(),
        verification_methods: vec![VerificationMethod {
            id: b"did:indy:test:123#key-1".to_vec(),
            method_type: b"Ed25519VerificationKey2018".to_vec(),
            controller: b"did:indy:test:123".to_vec(),
            public_key_hex: b"a1b2c3d4".to_vec(),
        }],
        services: vec![Service {
            id: b"did:indy:test:123#service-1".to_vec(),
            service_type: b"DIDCommMessaging".to_vec(),
            service_endpoint: b"https://agent.example.com".to_vec(),
        }],
        created: 1_700_000_000,
        updated: 1_700_000_000,
    }
}

#[test]
fn create_targets_registry_and_round_trips() {
    let client = sample_client();
    let doc = sample_document();
    let tx = IndyDidRegistry::build_create_did_transaction(&client, SENDER, &doc).unwrap();

    assert_eq!(tx.txn_type, TransactionType::Write);
    assert_eq!(tx.to, CONTRACT.as_bytes().to_vec());
    assert_eq!(tx.from, Some(SENDER.as_bytes().to_vec()));
    assert_eq!(tx.nonce, Some(NONCE));
    assert_eq!(tx.gas_limit, Some(GAS_LIMIT));
    assert_eq!(tx.chain_id, CHAIN_ID);
    assert_eq!(tx.data[0], 1);

    // The ledger would store the call payload and hand it back on a
    // resolve: version byte, found flag, then the document bytes.
    let mut result = vec![1u8, 1u8];
    result.extend_from_slice(&tx.data[1..]);
    let parsed = IndyDidRegistry::parse_resolve_did_result(&client, result).unwrap();
    assert_eq!(parsed, doc);
}

#[test]
fn update_round_trips_and_uses_update_tag() {
    let client = sample_client();
    let doc = sample_document();
    let tx = IndyDidRegistry::build_update_did_transaction(&client, SENDER, &doc).unwrap();
    assert_eq!(tx.txn_type, TransactionType::Write);
    assert_eq!(tx.data[0], 2);

    let mut result = vec![1u8, 1u8];
    result.extend_from_slice(&tx.data[1..]);
    let parsed = IndyDidRegistry::parse_resolve_did_result(&client, result).unwrap();
    assert_eq!(parsed, doc);
}

#[test]
fn richer_document_round_trips() {
    let client = sample_client();
    let mut doc = sample_document();
    doc.verification_methods.push(VerificationMethod {
        id: b"did:indy:test:123#key-2".to_vec(),
        method_type: b"EcdsaSecp256k1VerificationKey2019".to_vec(),
        controller: b"did:indy:other:456".to_vec(),
        public_key_hex: b"04deadbeef".to_vec(),
    });
    doc.services.push(Service {
        id: b"did:indy:test:123#service-2".to_vec(),
        service_type: b"LinkedDomains".to_vec(),
        service_endpoint: b"".to_vec(),
    });
    doc.updated = 1_800_000_000;

    let tx = IndyDidRegistry::build_create_did_transaction(&client, SENDER, &doc).unwrap();
    let mut result = vec![1u8, 1u8];
    result.extend_from_slice(&tx.data[1..]);
    let parsed = IndyDidRegistry::parse_resolve_did_result(&client, result).unwrap();
    assert_eq!(parsed, doc);
}

#[test]
fn invalid_address_fails_validation_regardless_of_document() {
    let client = sample_client();
    let bad_addresses = [
        "0xabababababababababababababababababab",   // too short
        "ababababababababababababababababababab01", // no 0x prefix
        "0xzzabababababababababababababababababab01", // not hex
        "",
    ];
    let mut other_doc = sample_document();
    other_doc.verification_methods.clear();
    for addr in bad_addresses {
        let r = IndyDidRegistry::build_create_did_transaction(&client, addr, &sample_document());
        assert_eq!(r.unwrap_err(), VdrError::Validation);
        let r = IndyDidRegistry::build_create_did_transaction(&client, addr, &other_doc);
        assert_eq!(r.unwrap_err(), VdrError::Validation);
        let r = IndyDidRegistry::build_update_did_transaction(&client, addr, &sample_document());
        assert_eq!(r.unwrap_err(), VdrError::Validation);
    }
}

#[test]
fn unsupported_key_type_fails_encoding() {
    let client = sample_client();
    let mut doc = sample_document();
    doc.verification_methods[0].method_type = b"SomeFutureKey2099".to_vec();
    let r = IndyDidRegistry::build_create_did_transaction(&client, SENDER, &doc);
    assert_eq!(r.unwrap_err(), VdrError::Encoding);
    let r = IndyDidRegistry::build_update_did_transaction(&client, SENDER, &doc);
    assert_eq!(r.unwrap_err(), VdrError::Encoding);
}

#[test]
fn duplicate_verification_method_ids_fail_validation() {
    let client = sample_client();
    let mut doc = sample_document();
    let duplicate = VerificationMethod {
        id: doc.verification_methods[0].id.clone(),
        method_type: b"EcdsaSecp256k1VerificationKey2019".to_vec(),
        controller: b"did:indy:test:123".to_vec(),
        public_key_hex: b"0405".to_vec(),
    };
    doc.verification_methods.push(duplicate);
    let r = IndyDidRegistry::build_create_did_transaction(&client, SENDER, &doc);
    assert_eq!(r.unwrap_err(), VdrError::Validation);
}

#[test]
fn malformed_document_did_fails_validation() {
    let client = sample_client();
    let mut doc = sample_document();
    doc.did = b"not-a-did".to_vec();
    let r = IndyDidRegistry::build_create_did_transaction(&client, SENDER, &doc);
    assert_eq!(r.unwrap_err(), VdrError::Validation);
}

#[test]
fn deactivate_data_is_tag_length_and_did_only() {
    let client = sample_client();
    let did = "did:indy:test:123";
    let tx = IndyDidRegistry::build_deactivate_did_transaction(&client, SENDER, did).unwrap();

    let did_bytes = did.as_bytes();
    let mut expected = vec![3u8];
    expected.extend_from_slice(&(did_bytes.len() as u32).to_le_bytes());
    expected.extend_from_slice(did_bytes);
    assert_eq!(tx.data, expected);
    assert_eq!(tx.data.len(), 5 + did_bytes.len());
    assert_eq!(tx.txn_type, TransactionType::Write);
    assert_eq!(tx.from, Some(SENDER.as_bytes().to_vec()));
}

#[test]
fn deactivate_rejects_malformed_did() {
    let client = sample_client();
    let r = IndyDidRegistry::build_deactivate_did_transaction(&client, SENDER, "did:indy");
    assert_eq!(r.unwrap_err(), VdrError::Validation);
    let r = IndyDidRegistry::build_deactivate_did_transaction(&client, "0xnope", "did:indy:test:123");
    assert_eq!(r.unwrap_err(), VdrError::Validation);
}

#[test]
fn resolve_is_read_only_and_idempotent() {
    let client = sample_client();
    let did = "did:indy:test:123";
    let tx1 = IndyDidRegistry::build_resolve_did_transaction(&client, did).unwrap();
    let tx2 = IndyDidRegistry::build_resolve_did_transaction(&client, did).unwrap();
    assert_eq!(tx1, tx2);
    assert_eq!(tx1.data, tx2.data);

    assert_eq!(tx1.txn_type, TransactionType::Read);
    assert_eq!(tx1.from, None);
    assert_eq!(tx1.nonce, None);
    assert_eq!(tx1.gas_limit, None);
    assert_eq!(tx1.to, CONTRACT.as_bytes().to_vec());

    let did_bytes = did.as_bytes();
    let mut expected = vec![4u8];
    expected.extend_from_slice(&(did_bytes.len() as u32).to_le_bytes());
    expected.extend_from_slice(did_bytes);
    assert_eq!(tx1.data, expected);
}

#[test]
fn resolve_rejects_malformed_did() {
    let client = sample_client();
    let r = IndyDidRegistry::build_resolve_did_transaction(&client, "did::x");
    assert_eq!(r.unwrap_err(), VdrError::Validation);
}
