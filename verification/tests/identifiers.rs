use did_vdr::errors::VdrError;
use did_vdr::identifiers::Address;
use did_vdr::identifiers::DID;

#[test]
fn well_formed_addresses_are_accepted() {
    let good = [
        "0x0000000000000000000000000000000000000000",
        "0xababababababababababababababababababab01",
        "0xABCDEF0123456789abcdef0123456789ABCDEF01",
    ];
    for a in good {
        let addr = Address::new(a).unwrap();
        assert_eq!(addr.as_bytes().as_slice(), a.as_bytes());
    }
}

#[test]
fn malformed_addresses_are_rejected() {
    let bad = [
        "",
        "0x",
        "0xabab",                                      // too short
        "0x0000000000000000000000000000000000000000ff", // too long
        "1x0000000000000000000000000000000000000000",  // wrong prefix
        "0X0000000000000000000000000000000000000000",  // upper-case x
        "0x00000000000000000000000000000000000000g0",  // not hex
        "0x00000000000000000000000000000000000000 0",  // space
    ];
    for a in bad {
        assert_eq!(Address::new(a).unwrap_err(), VdrError::Validation);
    }
}

#[test]
fn well_formed_dids_are_accepted() {
    let good = [
        "did:indy:test:123",
        "did:example:abc",
        "did:web5:a",
        "did:indy:sovrin:builder:Av63wJYM7xYR4AiygYq4c3",
        "did:key:z6Mk.some-Thing_else",
    ];
    for d in good {
        let did = DID::new(d).unwrap();
        assert_eq!(did.as_bytes().as_slice(), d.as_bytes());
    }
}

#[test]
fn malformed_dids_are_rejected() {
    let bad = [
        "",
        "did",
        "did:",
        "did:indy",         // no identifier part
        "did:indy:",        // empty identifier part
        "did::x",           // empty method
        "DID:indy:x",       // upper-case scheme
        "did:Indy:x",       // upper-case method
        "did:in dy:x",      // space in method
        "xid:indy:x",       // wrong scheme
        "did:indy:te st",   // space in identifier
    ];
    for d in bad {
        assert_eq!(DID::new(d).unwrap_err(), VdrError::Validation);
    }
}
