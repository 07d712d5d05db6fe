//! Validated identifier types: ledger account addresses and DIDs.
//!
//! An `Address` is the hex form of a 20-byte account identifier:
//! `0x` followed by exactly 40 hexadecimal digits.  A `DID` follows the
//! scheme `did:<method>:<id>` where the method is a non-empty run of
//! lower-case letters and digits and the identifier part is a non-empty
//! run of identifier characters (which may themselves contain `:` for
//! namespaced methods).  Both types hold the identifier as its UTF-8
//! bytes and are immutable once constructed.

use vstd::prelude::*;
use vstd::string::StrSliceExecFns;
use vstd::string::StringSliceAdditionalSpecFns;

use crate::errors::VdrError;

verus! {

/// ASCII code of the digit `0`.
pub const BYTE_ZERO: u8 = 48;

/// ASCII code of the letter `x`.
pub const BYTE_LOWER_X: u8 = 120;

/// ASCII code of the separator `:`.
pub const BYTE_COLON: u8 = 58;

/// Length of a hex-encoded address: `0x` plus two digits per byte of a
/// 20-byte account identifier.
pub const ADDRESS_LEN: usize = 42;

/// Whether `b` is the ASCII code of a hexadecimal digit.
pub open spec fn is_hex_digit(b: u8) -> bool {
    ||| ('0' as u8) <= b <= ('9' as u8)
    ||| ('a' as u8) <= b <= ('f' as u8)
    ||| ('A' as u8) <= b <= ('F' as u8)
}

/// Whether `s` is a well-formed hex account address:
/// `0x` followed by exactly 40 hexadecimal digits.
pub open spec fn valid_address_bytes(s: Seq<u8>) -> bool {
    &&& s.len() == ADDRESS_LEN
    &&& s[0] == BYTE_ZERO
    &&& s[1] == BYTE_LOWER_X
    &&& forall|k: int| 2 <= k < s.len() ==> is_hex_digit(#[trigger] s[k])
}

/// Whether `b` may appear in the method part of a DID:
/// a lower-case letter or a digit.
pub open spec fn is_method_char(b: u8) -> bool {
    ||| ('a' as u8) <= b <= ('z' as u8)
    ||| ('0' as u8) <= b <= ('9' as u8)
}

/// Whether `b` may appear in the method-specific identifier part of a
/// DID: a letter, a digit, `.`, `-`, `_` or a namespace-separating `:`.
pub open spec fn is_id_char(b: u8) -> bool {
    ||| ('a' as u8) <= b <= ('z' as u8)
    ||| ('A' as u8) <= b <= ('Z' as u8)
    ||| ('0' as u8) <= b <= ('9' as u8)
    ||| b == ('.' as u8)
    ||| b == ('-' as u8)
    ||| b == ('_' as u8)
    ||| b == BYTE_COLON
}

/// Index of the first `:` in `s` at or after position `i`, or `s.len()`
/// when no such byte exists.
pub open spec fn first_colon_from(s: Seq<u8>, i: int) -> int
    decreases s.len() - i,
{
    if i < 0 || i >= s.len() {
        s.len() as int
    } else if s[i] == BYTE_COLON {
        i
    } else {
        first_colon_from(s, i + 1)
    }
}

/// Whether `s` is a well-formed DID: the literal prefix `did:`, a
/// non-empty method of lower-case letters and digits, a `:` separator,
/// and a non-empty method-specific identifier.  The method part ends at
/// the first `:` after the prefix.
pub open spec fn valid_did_bytes(s: Seq<u8>) -> bool {
    let m_end = first_colon_from(s, 4);
    &&& s.len() >= 4
    &&& s[0] == ('d' as u8)
    &&& s[1] == ('i' as u8)
    &&& s[2] == ('d' as u8)
    &&& s[3] == BYTE_COLON
    &&& m_end > 4
    &&& m_end + 1 < s.len()
    &&& forall|k: int| 4 <= k < m_end ==> is_method_char(#[trigger] s[k])
    &&& forall|k: int| m_end < k < s.len() ==> is_id_char(#[trigger] s[k])
}

/// Whether `b` is the ASCII code of a hexadecimal digit.
pub fn check_hex_digit(b: u8) -> (r: bool)
    ensures
        r == is_hex_digit(b),
{
    (48 <= b && b <= 57) || (97 <= b && b <= 102) || (65 <= b && b <= 70)
}

/// Whether the bytes `s` form a well-formed hex account address.
pub fn check_address_bytes(s: &Vec<u8>) -> (r: bool)
    ensures
        r == valid_address_bytes(s@),
{
    if s.len() != ADDRESS_LEN {
        return false;
    }
    if s[0] != BYTE_ZERO || s[1] != BYTE_LOWER_X {
        return false;
    }
    let mut i: usize = 2;
    while i < ADDRESS_LEN
        invariant
            2 <= i <= ADDRESS_LEN,
            s@.len() == ADDRESS_LEN,
            forall|k: int| 2 <= k < i ==> is_hex_digit(#[trigger] s@[k]),
        decreases ADDRESS_LEN - i,
    {
        if !check_hex_digit(s[i]) {
            return false;
        }
        i = i + 1;
    }
    true
}

/// `first_colon_from(s, i)` is the first position `j >= i` holding a
/// colon: no position strictly between `i` and the result holds one.
pub proof fn lemma_first_colon_from(s: Seq<u8>, i: int)
    requires
        0 <= i,
    ensures
        first_colon_from(s, i) <= s.len(),
        i <= s.len() ==> i <= first_colon_from(s, i),
        first_colon_from(s, i) < s.len() ==> s[first_colon_from(s, i)] == BYTE_COLON,
        forall|k: int| i <= k < first_colon_from(s, i) ==> s[k] != BYTE_COLON,
    decreases s.len() - i,
{
    if i < s.len() && s[i] != BYTE_COLON {
        lemma_first_colon_from(s, i + 1);
    }
}

/// Whether `b` may appear in the method part of a DID.
pub fn check_method_char(b: u8) -> (r: bool)
    ensures
        r == is_method_char(b),
{
    (97 <= b && b <= 122) || (48 <= b && b <= 57)
}

/// Whether `b` may appear in the method-specific identifier part.
pub fn check_id_char(b: u8) -> (r: bool)
    ensures
        r == is_id_char(b),
{
    (97 <= b && b <= 122) || (65 <= b && b <= 90) || (48 <= b && b <= 57) || b == 46 || b == 45
        || b == 95 || b == BYTE_COLON
}

/// Whether the bytes `s` form a well-formed DID.
pub fn check_did_bytes(s: &Vec<u8>) -> (r: bool)
    ensures
        r == valid_did_bytes(s@),
{
    proof {
        lemma_first_colon_from(s@, 4);
    }
    if s.len() < 4 {
        return false;
    }
    if s[0] != ('d' as u8) || s[1] != ('i' as u8) || s[2] != ('d' as u8) || s[3] != BYTE_COLON {
        return false;
    }
    // Scan the method part up to the first colon after the prefix.
    let ghost m_end = first_colon_from(s@, 4);
    let mut i: usize = 4;
    while i < s.len() && s[i] != BYTE_COLON
        invariant
            4 <= i <= s@.len(),
            m_end == first_colon_from(s@, 4),
            i <= m_end,
            forall|k: int| 4 <= k < i ==> s@[k] != BYTE_COLON,
            forall|k: int| 4 <= k < m_end ==> #[trigger] s@[k] != BYTE_COLON,
            m_end <= s@.len(),
            m_end < s@.len() ==> s@[m_end] == BYTE_COLON,
        decreases s@.len() - i,
    {
        i = i + 1;
    }
    assert(i == m_end);
    if i == 4 {
        // Empty method part.
        return false;
    }
    if i >= s.len() || i + 1 >= s.len() {
        // No separator, or an empty identifier part.
        return false;
    }
    let ghost sep = i as int;
    let mut k: usize = 4;
    while k < i
        invariant
            4 <= k <= i < s@.len(),
            i == first_colon_from(s@, 4),
            forall|j: int| 4 <= j < k ==> is_method_char(#[trigger] s@[j]),
        decreases i - k,
    {
        if !check_method_char(s[k]) {
            return false;
        }
        k = k + 1;
    }
    let mut k: usize = i + 1;
    while k < s.len()
        invariant
            4 < sep < k <= s@.len(),
            sep == first_colon_from(s@, 4),
            forall|j: int| sep < j < k ==> is_id_char(#[trigger] s@[j]),
        decreases s@.len() - k,
    {
        if !check_id_char(s[k]) {
            return false;
        }
        k = k + 1;
    }
    true
}

/// A validated ledger account address, held as the bytes of its hex
/// form (`0x` plus 40 hex digits).
#[derive(Debug, PartialEq, Eq)]
pub struct Address {
    bytes: Vec<u8>,
}

impl View for Address {
    type V = Seq<u8>;

    closed spec fn view(&self) -> Seq<u8> {
        self.bytes@
    }
}

impl Address {
    /// Validates `value` and wraps it as an `Address`.  Succeeds exactly
    /// on well-formed hex addresses.
    pub fn new(value: &str) -> (r: Result<Address, VdrError>)
        ensures
            match r {
                Ok(a) => a@ == value.spec_bytes() && valid_address_bytes(value.spec_bytes()),
                Err(e) => e == VdrError::Validation && !valid_address_bytes(value.spec_bytes()),
            },
    {
        let bytes = value.as_bytes_vec();
        if check_address_bytes(&bytes) {
            Ok(Address { bytes })
        } else {
            Err(VdrError::Validation)
        }
    }

    /// The address bytes.
    pub fn as_bytes(&self) -> (r: &Vec<u8>)
        ensures
            r@ == self@,
    {
        &self.bytes
    }

    /// An owned copy of the address bytes.
    pub fn to_bytes_vec(&self) -> (r: Vec<u8>)
        ensures
            r@ == self@,
    {
        let mut bytes: Vec<u8> = Vec::new();
        let mut i: usize = 0;
        while i < self.bytes.len()
            invariant
                i <= self.bytes@.len(),
                bytes@ == self.bytes@.subrange(0, i as int),
            decreases self.bytes@.len() - i,
        {
            bytes.push(self.bytes[i]);
            i = i + 1;
        }
        assert(bytes@ =~= self.bytes@);
        bytes
    }

    /// The address is well formed; established at construction.
    pub open spec fn wf(&self) -> bool {
        valid_address_bytes(self@)
    }
}

/// A validated DID, held as its UTF-8 bytes.
#[derive(Debug, PartialEq, Eq)]
pub struct DID {
    bytes: Vec<u8>,
}

impl View for DID {
    type V = Seq<u8>;

    closed spec fn view(&self) -> Seq<u8> {
        self.bytes@
    }
}

impl DID {
    /// Validates `value` against the DID grammar and wraps it.
    pub fn new(value: &str) -> (r: Result<DID, VdrError>)
        ensures
            match r {
                Ok(d) => d@ == value.spec_bytes() && valid_did_bytes(value.spec_bytes()),
                Err(e) => e == VdrError::Validation && !valid_did_bytes(value.spec_bytes()),
            },
    {
        let bytes = value.as_bytes_vec();
        if check_did_bytes(&bytes) {
            Ok(DID { bytes })
        } else {
            Err(VdrError::Validation)
        }
    }

    /// The DID bytes.
    pub fn as_bytes(&self) -> (r: &Vec<u8>)
        ensures
            r@ == self@,
    {
        &self.bytes
    }

    /// The DID is well formed; established at construction.
    pub open spec fn wf(&self) -> bool {
        valid_did_bytes(self@)
    }
}

} // verus!
