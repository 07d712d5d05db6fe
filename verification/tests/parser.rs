use did_vdr::client::LedgerClient;
use did_vdr::did_registry::IndyDidRegistry;
use did_vdr::document::DidDocument;
use did_vdr::errors::VdrError;
use did_vdr::identifiers::Address;

fn client() -> LedgerClient {
    let contract = Address::new("0x00000000000000000000000000000000000000aa").unwrap();
    LedgerClient::new(1, contract, 0, 100_000)
}

fn push_field(out: &mut Vec<u8>, bytes: &[u8]) {
    out.extend_from_slice(&(bytes.len() as u32).to_le_bytes());
    out.extend_from_slice(bytes);
}

/// A found resolve result for a minimal document with no verification
/// methods and no services, written out byte by byte.
fn minimal_result() -> Vec<u8> {
    let mut r = vec![1u8, 1u8];
    push_field(&mut r, b"did:indy:test:123");
    r.extend_from_slice(&0u32.to_le_bytes()); // verification methods
    r.extend_from_slice(&0u32.to_le_bytes()); // services
    r.extend_from_slice(&10u64.to_le_bytes()); // created
    r.extend_from_slice(&20u64.to_le_bytes()); // updated
    r
}

#[test]
fn minimal_document_parses_field_for_field() {
    let parsed = IndyDidRegistry::parse_resolve_did_result(&client(), minimal_result()).unwrap();
    let expected = DidDocument {
        did: b"did:indy:test:123".to_vec(),
        verification_methods: vec![],
        services: vec![],
        created: 10,
        updated: 20,
    };
    assert_eq!(parsed, expected);
}

#[test]
fn truncated_header_is_a_decoding_error() {
    let r = IndyDidRegistry::parse_resolve_did_result(&client(), vec![]);
    assert_eq!(r.unwrap_err(), VdrError::Decoding);
    let r = IndyDidRegistry::parse_resolve_did_result(&client(), vec![1u8]);
    assert_eq!(r.unwrap_err(), VdrError::Decoding);
}

#[test]
fn truncated_body_is_a_decoding_error() {
    let full = minimal_result();
    for cut in 2..full.len() {
        let r = IndyDidRegistry::parse_resolve_did_result(&client(), full[..cut].to_vec());
        assert_eq!(r.unwrap_err(), VdrError::Decoding);
    }
}

#[test]
fn absent_flag_is_not_found() {
    let r = IndyDidRegistry::parse_resolve_did_result(&client(), vec![1u8, 0u8]);
    assert_eq!(r.unwrap_err(), VdrError::NotFound);
}

#[test]
fn unknown_wire_version_is_a_decoding_error() {
    let mut bytes = minimal_result();
    bytes[0] = 9;
    let r = IndyDidRegistry::parse_resolve_did_result(&client(), bytes);
    assert_eq!(r.unwrap_err(), VdrError::Decoding);
}

#[test]
fn unknown_presence_flag_is_a_decoding_error() {
    let mut bytes = minimal_result();
    bytes[1] = 7;
    let r = IndyDidRegistry::parse_resolve_did_result(&client(), bytes);
    assert_eq!(r.unwrap_err(), VdrError::Decoding);
}

#[test]
fn trailing_bytes_are_a_decoding_error() {
    let mut bytes = minimal_result();
    bytes.push(0);
    let r = IndyDidRegistry::parse_resolve_did_result(&client(), bytes);
    assert_eq!(r.unwrap_err(), VdrError::Decoding);
}

#[test]
fn oversized_length_prefix_is_a_decoding_error() {
    // A field claiming more bytes than the buffer holds.
    let mut bytes = vec![1u8, 1u8];
    bytes.extend_from_slice(&1000u32.to_le_bytes());
    bytes.extend_from_slice(b"short");
    let r = IndyDidRegistry::parse_resolve_did_result(&client(), bytes);
    assert_eq!(r.unwrap_err(), VdrError::Decoding);
}

#[test]
fn decoded_document_violating_invariants_is_a_decoding_error() {
    // Structurally decodable, but the stored DID is not grammatical.
    let mut bytes = vec![1u8, 1u8];
    push_field(&mut bytes, b"not-a-did");
    bytes.extend_from_slice(&0u32.to_le_bytes());
    bytes.extend_from_slice(&0u32.to_le_bytes());
    bytes.extend_from_slice(&10u64.to_le_bytes());
    bytes.extend_from_slice(&20u64.to_le_bytes());
    let r = IndyDidRegistry::parse_resolve_did_result(&client(), bytes);
    assert_eq!(r.unwrap_err(), VdrError::Decoding);

    // Structurally decodable, but two verification methods share an id.
    let mut vm = Vec::new();
    push_field(&mut vm, b"did:indy:test:123#key-1");
    push_field(&mut vm, b"Ed25519VerificationKey2018");
    push_field(&mut vm, b"did:indy:test:123");
    push_field(&mut vm, b"aabb");
    let mut bytes = vec![1u8, 1u8];
    push_field(&mut bytes, b"did:indy:test:123");
    bytes.extend_from_slice(&2u32.to_le_bytes());
    bytes.extend_from_slice(&vm);
    bytes.extend_from_slice(&vm);
    bytes.extend_from_slice(&0u32.to_le_bytes());
    bytes.extend_from_slice(&10u64.to_le_bytes());
    bytes.extend_from_slice(&20u64.to_le_bytes());
    let r = IndyDidRegistry::parse_resolve_did_result(&client(), bytes);
    assert_eq!(r.unwrap_err(), VdrError::Decoding);
}

#[test]
fn create_call_data_has_the_documented_layout() {
    let c = client();
    let doc = DidDocument {
        did: b"did:indy:test:123".to_vec(),
        verification_methods: vec![],
        services: vec![],
        created: 10,
        updated: 20,
    };
    let tx = IndyDidRegistry::build_create_did_transaction(
        &c,
        "0xababababababababababababababababababab01",
        &doc,
    )
    .unwrap();
    let mut expected = vec![1u8];
    let body = minimal_result();
    expected.extend_from_slice(&body[2..]);
    assert_eq!(tx.data, expected);
}
