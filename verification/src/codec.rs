//! The on-chain wire format for DID documents and call payloads.
//!
//! The registry's encoding is a fixed little-endian layout:
//!
//! * a byte string is a 32-bit length followed by the bytes;
//! * a verification method is its four fields, each a byte string;
//! * a service is its three fields, each a byte string;
//! * a document is the DID, the verification-method count and the
//!   methods, the service count and the services, then the creation and
//!   update markers as 64-bit values;
//! * a resolve result is a one-byte wire version, a one-byte presence
//!   flag, and, when present, exactly one encoded document.
//!
//! Encoding and decoding are mutual inverses: decoding an encoded
//! document yields the document back (`lemma_decode_document_encode`),
//! and the format is canonical — a region that decodes successfully is
//! exactly the encoding of what was read from it (`lemma_enc_dec_doc`).

use vstd::bytes::lemma_auto_spec_u32_to_from_le_bytes;
use vstd::bytes::lemma_auto_spec_u64_to_from_le_bytes;
use vstd::bytes::spec_u32_from_le_bytes;
use vstd::bytes::spec_u32_to_le_bytes;
use vstd::bytes::spec_u64_from_le_bytes;
use vstd::bytes::spec_u64_to_le_bytes;
use vstd::bytes::u32_from_le_bytes;
use vstd::bytes::u32_to_le_bytes;
use vstd::bytes::u64_from_le_bytes;
use vstd::bytes::u64_to_le_bytes;
use vstd::prelude::*;
use vstd::slice::slice_subrange;
use vstd::slice::slice_to_vec;

use crate::document::DidDocument;
use crate::document::DidDocumentView;
use crate::document::Service;
use crate::document::ServiceView;
use crate::document::VerificationMethod;
use crate::document::VerificationMethodView;
use crate::document::doc_wf;
use crate::document::services_view;
use crate::document::vm_fits;
use crate::document::vms_view;
use crate::document::service_fits;
use crate::document::MAX_FIELD_LEN;
use crate::errors::VdrError;

verus! {

/// Encoding of one length-prefixed byte string.
pub open spec fn enc_bytes(b: Seq<u8>) -> Seq<u8> {
    spec_u32_to_le_bytes(b.len() as u32) + b
}

/// Encoding of one verification method.
pub open spec fn enc_vm(v: VerificationMethodView) -> Seq<u8> {
    enc_bytes(v.id) + enc_bytes(v.method_type) + enc_bytes(v.controller) + enc_bytes(
        v.public_key_hex,
    )
}

/// Encoding of a list of verification methods, in order.
pub open spec fn enc_vm_list(l: Seq<VerificationMethodView>) -> Seq<u8>
    decreases l.len(),
{
    if l.len() == 0 {
        Seq::empty()
    } else {
        enc_vm(l[0]) + enc_vm_list(l.drop_first())
    }
}

/// Encoding of one service descriptor.
pub open spec fn enc_service(s: ServiceView) -> Seq<u8> {
    enc_bytes(s.id) + enc_bytes(s.service_type) + enc_bytes(s.service_endpoint)
}

/// Encoding of a list of services, in order.
pub open spec fn enc_service_list(l: Seq<ServiceView>) -> Seq<u8>
    decreases l.len(),
{
    if l.len() == 0 {
        Seq::empty()
    } else {
        enc_service(l[0]) + enc_service_list(l.drop_first())
    }
}

/// Encoding of a whole document.
pub open spec fn enc_doc(d: DidDocumentView) -> Seq<u8> {
    enc_bytes(d.did) + spec_u32_to_le_bytes(d.verification_methods.len() as u32) + enc_vm_list(
        d.verification_methods,
    ) + spec_u32_to_le_bytes(d.services.len() as u32) + enc_service_list(d.services)
        + spec_u64_to_le_bytes(d.created) + spec_u64_to_le_bytes(d.updated)
}

/// Reads a 32-bit value at `i`; yields the value and the next offset.
pub open spec fn dec_u32(s: Seq<u8>, i: int) -> Option<(u32, int)> {
    if 0 <= i && i + 4 <= s.len() {
        Some((spec_u32_from_le_bytes(s.subrange(i, i + 4)), i + 4))
    } else {
        None
    }
}

/// Reads a 64-bit value at `i`; yields the value and the next offset.
pub open spec fn dec_u64(s: Seq<u8>, i: int) -> Option<(u64, int)> {
    if 0 <= i && i + 8 <= s.len() {
        Some((spec_u64_from_le_bytes(s.subrange(i, i + 8)), i + 8))
    } else {
        None
    }
}

/// Reads a length-prefixed byte string at `i`.
pub open spec fn dec_bytes(s: Seq<u8>, i: int) -> Option<(Seq<u8>, int)> {
    match dec_u32(s, i) {
        None => None,
        Some((n, j)) => if j + n <= s.len() {
            Some((s.subrange(j, j + n), j + n))
        } else {
            None
        },
    }
}

/// Reads one verification method at `i`.
pub open spec fn dec_vm(s: Seq<u8>, i: int) -> Option<(VerificationMethodView, int)> {
    match dec_bytes(s, i) {
        None => None,
        Some((id, i1)) => match dec_bytes(s, i1) {
            None => None,
            Some((method_type, i2)) => match dec_bytes(s, i2) {
                None => None,
                Some((controller, i3)) => match dec_bytes(s, i3) {
                    None => None,
                    Some((public_key_hex, i4)) => Some(
                        (VerificationMethodView { id, method_type, controller, public_key_hex }, i4),
                    ),
                },
            },
        },
    }
}

/// Reads `n` verification methods at `i`.
pub open spec fn dec_vm_list(s: Seq<u8>, i: int, n: nat) -> Option<(
    Seq<VerificationMethodView>,
    int,
)>
    decreases n,
{
    if n == 0 {
        Some((Seq::empty(), i))
    } else {
        match dec_vm(s, i) {
            None => None,
            Some((vm, i1)) => match dec_vm_list(s, i1, (n - 1) as nat) {
                None => None,
                Some((rest, i2)) => Some((seq![vm] + rest, i2)),
            },
        }
    }
}

/// Reads one service descriptor at `i`.
pub open spec fn dec_service(s: Seq<u8>, i: int) -> Option<(ServiceView, int)> {
    match dec_bytes(s, i) {
        None => None,
        Some((id, i1)) => match dec_bytes(s, i1) {
            None => None,
            Some((service_type, i2)) => match dec_bytes(s, i2) {
                None => None,
                Some((service_endpoint, i3)) => Some(
                    (ServiceView { id, service_type, service_endpoint }, i3),
                ),
            },
        },
    }
}

/// Reads `n` service descriptors at `i`.
pub open spec fn dec_service_list(s: Seq<u8>, i: int, n: nat) -> Option<(Seq<ServiceView>, int)>
    decreases n,
{
    if n == 0 {
        Some((Seq::empty(), i))
    } else {
        match dec_service(s, i) {
            None => None,
            Some((svc, i1)) => match dec_service_list(s, i1, (n - 1) as nat) {
                None => None,
                Some((rest, i2)) => Some((seq![svc] + rest, i2)),
            },
        }
    }
}

/// Reads one whole document at `i`.
pub open spec fn dec_doc(s: Seq<u8>, i: int) -> Option<(DidDocumentView, int)> {
    match dec_bytes(s, i) {
        None => None,
        Some((did, i1)) => match dec_u32(s, i1) {
            None => None,
            Some((n_vm, i2)) => match dec_vm_list(s, i2, n_vm as nat) {
                None => None,
                Some((verification_methods, i3)) => match dec_u32(s, i3) {
                    None => None,
                    Some((n_svc, i4)) => match dec_service_list(s, i4, n_svc as nat) {
                        None => None,
                        Some((services, i5)) => match dec_u64(s, i5) {
                            None => None,
                            Some((created, i6)) => match dec_u64(s, i6) {
                                None => None,
                                Some((updated, i7)) => Some(
                                    (
                                        DidDocumentView {
                                            did,
                                            verification_methods,
                                            services,
                                            created,
                                            updated,
                                        },
                                        i7,
                                    ),
                                ),
                            },
                        },
                    },
                },
            },
        },
    }
}

/// Splitting the tail of `s` at `i`: when the tail is `a + rest`, the
/// next `a.len()` bytes are `a` and the tail after them is `rest`.
pub proof fn lemma_tail_split(s: Seq<u8>, i: int, a: Seq<u8>, rest: Seq<u8>)
    requires
        0 <= i <= s.len(),
        s.subrange(i, s.len() as int) == a + rest,
    ensures
        i + a.len() + rest.len() == s.len(),
        s.subrange(i, i + a.len() as int) == a,
        s.subrange(i + a.len() as int, s.len() as int) == rest,
{
    assert(s.subrange(i, s.len() as int).len() == a.len() + rest.len());
    assert(s.subrange(i, i + a.len() as int) =~= a) by {
        assert forall|k: int| 0 <= k < a.len() implies s.subrange(i, i + a.len() as int)[k] == a[k]
        by {
            assert(s.subrange(i, s.len() as int)[k] == (a + rest)[k]);
        }
    }
    assert(s.subrange(i + a.len() as int, s.len() as int) =~= rest) by {
        assert forall|k: int| 0 <= k < rest.len() implies s.subrange(
            i + a.len() as int,
            s.len() as int,
        )[k] == rest[k] by {
            assert(s.subrange(i + a.len() as int, s.len() as int)[k] == s[i + a.len() + k]);
            assert(s.subrange(i, s.len() as int)[a.len() + k] == s[i + a.len() + k]);
            assert(s.subrange(i, s.len() as int)[a.len() + k] == (a + rest)[a.len() + k]);
        }
    }
}

/// Decoding after encoding, 32-bit values: reading at the start of an
/// encoded value yields the value back.
pub proof fn lemma_dec_u32_enc(s: Seq<u8>, i: int, x: u32, rest: Seq<u8>)
    requires
        0 <= i <= s.len(),
        s.subrange(i, s.len() as int) == spec_u32_to_le_bytes(x) + rest,
    ensures
        dec_u32(s, i) == Some((x, i + 4)),
        i + 4 <= s.len(),
        s.subrange(i + 4, s.len() as int) == rest,
{
    lemma_auto_spec_u32_to_from_le_bytes();
    lemma_tail_split(s, i, spec_u32_to_le_bytes(x), rest);
}

/// Decoding after encoding, 64-bit values.
pub proof fn lemma_dec_u64_enc(s: Seq<u8>, i: int, x: u64, rest: Seq<u8>)
    requires
        0 <= i <= s.len(),
        s.subrange(i, s.len() as int) == spec_u64_to_le_bytes(x) + rest,
    ensures
        dec_u64(s, i) == Some((x, i + 8)),
        i + 8 <= s.len(),
        s.subrange(i + 8, s.len() as int) == rest,
{
    lemma_auto_spec_u64_to_from_le_bytes();
    lemma_tail_split(s, i, spec_u64_to_le_bytes(x), rest);
}

/// Decoding after encoding, byte strings.
pub proof fn lemma_dec_bytes_enc(s: Seq<u8>, i: int, b: Seq<u8>, rest: Seq<u8>)
    requires
        0 <= i <= s.len(),
        b.len() <= MAX_FIELD_LEN,
        s.subrange(i, s.len() as int) == enc_bytes(b) + rest,
    ensures
        dec_bytes(s, i) == Some((b, i + 4 + b.len() as int)),
        i + 4 + b.len() <= s.len(),
        s.subrange(i + 4 + b.len() as int, s.len() as int) == rest,
{
    lemma_auto_spec_u32_to_from_le_bytes();
    assert(enc_bytes(b) + rest =~= spec_u32_to_le_bytes(b.len() as u32) + (b + rest));
    lemma_dec_u32_enc(s, i, b.len() as u32, b + rest);
    lemma_tail_split(s, i + 4, b, rest);
}

/// Decoding after encoding, verification methods.
pub proof fn lemma_dec_vm_enc(s: Seq<u8>, i: int, v: VerificationMethodView, rest: Seq<u8>)
    requires
        0 <= i <= s.len(),
        vm_fits(v),
        s.subrange(i, s.len() as int) == enc_vm(v) + rest,
    ensures
        dec_vm(s, i) == Some((v, i + enc_vm(v).len() as int)),
        i + enc_vm(v).len() <= s.len(),
        s.subrange(i + enc_vm(v).len() as int, s.len() as int) == rest,
{
    assert(enc_vm(v) + rest =~= enc_bytes(v.id) + (enc_bytes(v.method_type) + (enc_bytes(
        v.controller,
    ) + (enc_bytes(v.public_key_hex) + rest))));
    lemma_dec_bytes_enc(
        s,
        i,
        v.id,
        enc_bytes(v.method_type) + (enc_bytes(v.controller) + (enc_bytes(v.public_key_hex)
            + rest)),
    );
    let i1 = i + 4 + v.id.len() as int;
    lemma_dec_bytes_enc(
        s,
        i1,
        v.method_type,
        enc_bytes(v.controller) + (enc_bytes(v.public_key_hex) + rest),
    );
    let i2 = i1 + 4 + v.method_type.len() as int;
    lemma_dec_bytes_enc(s, i2, v.controller, enc_bytes(v.public_key_hex) + rest);
    let i3 = i2 + 4 + v.controller.len() as int;
    lemma_dec_bytes_enc(s, i3, v.public_key_hex, rest);
    let i4 = i3 + 4 + v.public_key_hex.len() as int;
    assert(dec_vm(s, i) == Some((v, i4))) by {
        let decoded = dec_vm(s, i)->Some_0.0;
        assert(decoded =~= v);
    }
    assert(i4 == i + enc_vm(v).len() as int);
}

/// Decoding after encoding, verification-method lists.
pub proof fn lemma_dec_vm_list_enc(s: Seq<u8>, i: int, l: Seq<VerificationMethodView>, rest: Seq<u8>)
    requires
        0 <= i <= s.len(),
        forall|k: int| 0 <= k < l.len() ==> vm_fits(#[trigger] l[k]),
        s.subrange(i, s.len() as int) == enc_vm_list(l) + rest,
    ensures
        dec_vm_list(s, i, l.len()) == Some((l, i + enc_vm_list(l).len() as int)),
        i + enc_vm_list(l).len() <= s.len(),
        s.subrange(i + enc_vm_list(l).len() as int, s.len() as int) == rest,
    decreases l.len(),
{
    if l.len() == 0 {
        assert(enc_vm_list(l) + rest =~= rest);
        assert(dec_vm_list(s, i, 0) == Some((Seq::<VerificationMethodView>::empty(), i)));
        assert(Seq::<VerificationMethodView>::empty() =~= l);
    } else {
        assert(enc_vm_list(l) + rest =~= enc_vm(l[0]) + (enc_vm_list(l.drop_first()) + rest));
        lemma_dec_vm_enc(s, i, l[0], enc_vm_list(l.drop_first()) + rest);
        let i1 = i + enc_vm(l[0]).len() as int;
        lemma_dec_vm_list_enc(s, i1, l.drop_first(), rest);
        assert(seq![l[0]] + l.drop_first() =~= l);
        assert(dec_vm_list(s, i, l.len()) == Some((l, i1 + enc_vm_list(l.drop_first()).len() as int)));
    }
}

/// Decoding after encoding, services.
pub proof fn lemma_dec_service_enc(s: Seq<u8>, i: int, v: ServiceView, rest: Seq<u8>)
    requires
        0 <= i <= s.len(),
        service_fits(v),
        s.subrange(i, s.len() as int) == enc_service(v) + rest,
    ensures
        dec_service(s, i) == Some((v, i + enc_service(v).len() as int)),
        i + enc_service(v).len() <= s.len(),
        s.subrange(i + enc_service(v).len() as int, s.len() as int) == rest,
{
    assert(enc_service(v) + rest =~= enc_bytes(v.id) + (enc_bytes(v.service_type) + (enc_bytes(
        v.service_endpoint,
    ) + rest)));
    lemma_dec_bytes_enc(
        s,
        i,
        v.id,
        enc_bytes(v.service_type) + (enc_bytes(v.service_endpoint) + rest),
    );
    let i1 = i + 4 + v.id.len() as int;
    lemma_dec_bytes_enc(s, i1, v.service_type, enc_bytes(v.service_endpoint) + rest);
    let i2 = i1 + 4 + v.service_type.len() as int;
    lemma_dec_bytes_enc(s, i2, v.service_endpoint, rest);
    let i3 = i2 + 4 + v.service_endpoint.len() as int;
    assert(dec_service(s, i) == Some((v, i3))) by {
        let decoded = dec_service(s, i)->Some_0.0;
        assert(decoded =~= v);
    }
    assert(i3 == i + enc_service(v).len() as int);
}

/// Decoding after encoding, service lists.
pub proof fn lemma_dec_service_list_enc(s: Seq<u8>, i: int, l: Seq<ServiceView>, rest: Seq<u8>)
    requires
        0 <= i <= s.len(),
        forall|k: int| 0 <= k < l.len() ==> service_fits(#[trigger] l[k]),
        s.subrange(i, s.len() as int) == enc_service_list(l) + rest,
    ensures
        dec_service_list(s, i, l.len()) == Some((l, i + enc_service_list(l).len() as int)),
        i + enc_service_list(l).len() <= s.len(),
        s.subrange(i + enc_service_list(l).len() as int, s.len() as int) == rest,
    decreases l.len(),
{
    if l.len() == 0 {
        assert(enc_service_list(l) + rest =~= rest);
        assert(dec_service_list(s, i, 0) == Some((Seq::<ServiceView>::empty(), i)));
        assert(Seq::<ServiceView>::empty() =~= l);
    } else {
        assert(enc_service_list(l) + rest =~= enc_service(l[0]) + (enc_service_list(l.drop_first())
            + rest));
        lemma_dec_service_enc(s, i, l[0], enc_service_list(l.drop_first()) + rest);
        let i1 = i + enc_service(l[0]).len() as int;
        lemma_dec_service_list_enc(s, i1, l.drop_first(), rest);
        assert(seq![l[0]] + l.drop_first() =~= l);
        assert(dec_service_list(s, i, l.len()) == Some(
            (l, i1 + enc_service_list(l.drop_first()).len() as int),
        ));
    }
}

/// Decoding after encoding, whole documents: reading at the start of an
/// encoded well-formed document yields the document back.
#[verifier::rlimit(60)]
pub proof fn lemma_dec_doc_enc(s: Seq<u8>, i: int, d: DidDocumentView, rest: Seq<u8>)
    requires
        0 <= i <= s.len(),
        doc_wf(d),
        s.subrange(i, s.len() as int) == enc_doc(d) + rest,
    ensures
        dec_doc(s, i) == Some((d, i + enc_doc(d).len() as int)),
        i + enc_doc(d).len() <= s.len(),
        s.subrange(i + enc_doc(d).len() as int, s.len() as int) == rest,
{
    let n_vm = d.verification_methods.len() as u32;
    let n_svc = d.services.len() as u32;
    let r6 = spec_u64_to_le_bytes(d.updated) + rest;
    let r5 = spec_u64_to_le_bytes(d.created) + r6;
    let r4 = enc_service_list(d.services) + r5;
    let r3 = spec_u32_to_le_bytes(n_svc) + r4;
    let r2 = enc_vm_list(d.verification_methods) + r3;
    let r1 = spec_u32_to_le_bytes(n_vm) + r2;
    assert(enc_doc(d) + rest =~= enc_bytes(d.did) + r1);
    lemma_dec_bytes_enc(s, i, d.did, r1);
    let i1 = i + 4 + d.did.len() as int;
    lemma_dec_u32_enc(s, i1, n_vm, r2);
    let i2 = i1 + 4;
    lemma_dec_vm_list_enc(s, i2, d.verification_methods, r3);
    let i3 = i2 + enc_vm_list(d.verification_methods).len() as int;
    lemma_dec_u32_enc(s, i3, n_svc, r4);
    let i4 = i3 + 4;
    lemma_dec_service_list_enc(s, i4, d.services, r5);
    let i5 = i4 + enc_service_list(d.services).len() as int;
    lemma_dec_u64_enc(s, i5, d.created, r6);
    let i6 = i5 + 8;
    lemma_dec_u64_enc(s, i6, d.updated, rest);
    let i7 = i6 + 8;
    assert(dec_doc(s, i) == Some((d, i7))) by {
        let decoded = dec_doc(s, i)->Some_0.0;
        assert(decoded =~= d);
    }
    assert(i7 == i + enc_doc(d).len() as int);
}

/// The document round trip: decoding an encoded well-formed document,
/// alone in the buffer, yields exactly the document and consumes every
/// byte.
pub proof fn lemma_decode_document_encode(d: DidDocumentView)
    requires
        doc_wf(d),
    ensures
        dec_doc(enc_doc(d), 0) == Some((d, enc_doc(d).len() as int)),
{
    let s = enc_doc(d);
    assert(s.subrange(0, s.len() as int) =~= s + Seq::<u8>::empty());
    lemma_dec_doc_enc(s, 0, d, Seq::empty());
}

/// List encoding distributes over concatenation, verification methods.
pub proof fn lemma_enc_vm_list_concat(a: Seq<VerificationMethodView>, b: Seq<VerificationMethodView>)
    ensures
        enc_vm_list(a + b) == enc_vm_list(a) + enc_vm_list(b),
    decreases a.len(),
{
    if a.len() == 0 {
        assert(a + b =~= b);
        assert(enc_vm_list(a) + enc_vm_list(b) =~= enc_vm_list(b));
    } else {
        assert((a + b).drop_first() =~= a.drop_first() + b);
        lemma_enc_vm_list_concat(a.drop_first(), b);
        assert(enc_vm(a[0]) + (enc_vm_list(a.drop_first()) + enc_vm_list(b)) =~= (enc_vm(a[0])
            + enc_vm_list(a.drop_first())) + enc_vm_list(b));
    }
}

/// List encoding distributes over concatenation, services.
pub proof fn lemma_enc_service_list_concat(a: Seq<ServiceView>, b: Seq<ServiceView>)
    ensures
        enc_service_list(a + b) == enc_service_list(a) + enc_service_list(b),
    decreases a.len(),
{
    if a.len() == 0 {
        assert(a + b =~= b);
        assert(enc_service_list(a) + enc_service_list(b) =~= enc_service_list(b));
    } else {
        assert((a + b).drop_first() =~= a.drop_first() + b);
        lemma_enc_service_list_concat(a.drop_first(), b);
        assert(enc_service(a[0]) + (enc_service_list(a.drop_first()) + enc_service_list(b)) =~= (
        enc_service(a[0]) + enc_service_list(a.drop_first())) + enc_service_list(b));
    }
}

/// Appends the little-endian bytes of `x`.
fn write_u32(out: &mut Vec<u8>, x: u32)
    ensures
        final(out)@ == old(out)@ + spec_u32_to_le_bytes(x),
{
    let mut b = u32_to_le_bytes(x);
    out.append(&mut b);
}

/// Appends the little-endian bytes of `x`.
fn write_u64(out: &mut Vec<u8>, x: u64)
    ensures
        final(out)@ == old(out)@ + spec_u64_to_le_bytes(x),
{
    let mut b = u64_to_le_bytes(x);
    out.append(&mut b);
}

/// Appends one length-prefixed byte string.
fn write_bytes_field(out: &mut Vec<u8>, b: &Vec<u8>)
    requires
        b@.len() <= MAX_FIELD_LEN,
    ensures
        final(out)@ == old(out)@ + enc_bytes(b@),
{
    write_u32(out, b.len() as u32);
    let mut copy = slice_to_vec(b.as_slice());
    out.append(&mut copy);
    assert(final(out)@ =~= old(out)@ + enc_bytes(b@));
}

/// Appends one encoded verification method.
fn write_vm(out: &mut Vec<u8>, v: &VerificationMethod)
    requires
        vm_fits(v@),
    ensures
        final(out)@ == old(out)@ + enc_vm(v@),
{
    write_bytes_field(out, &v.id);
    write_bytes_field(out, &v.method_type);
    write_bytes_field(out, &v.controller);
    write_bytes_field(out, &v.public_key_hex);
    assert(final(out)@ =~= old(out)@ + enc_vm(v@));
}

/// Appends one encoded service descriptor.
fn write_service(out: &mut Vec<u8>, v: &Service)
    requires
        service_fits(v@),
    ensures
        final(out)@ == old(out)@ + enc_service(v@),
{
    write_bytes_field(out, &v.id);
    write_bytes_field(out, &v.service_type);
    write_bytes_field(out, &v.service_endpoint);
    assert(final(out)@ =~= old(out)@ + enc_service(v@));
}

/// Serialises a well-formed document to its on-chain bytes.
pub fn encode_document(d: &DidDocument) -> (r: Vec<u8>)
    requires
        doc_wf(d@),
    ensures
        r@ == enc_doc(d@),
{
    let mut out: Vec<u8> = Vec::new();
    write_bytes_field(&mut out, &d.did);
    let n_vm = d.verification_methods.len();
    write_u32(&mut out, n_vm as u32);
    let ghost prefix1 = enc_bytes(d@.did) + spec_u32_to_le_bytes(n_vm as u32);
    assert(out@ =~= prefix1);
    let mut i: usize = 0;
    while i < n_vm
        invariant
            i <= n_vm,
            n_vm == d.verification_methods@.len(),
            doc_wf(d@),
            out@ == prefix1 + enc_vm_list(d@.verification_methods.take(i as int)),
        decreases n_vm - i,
    {
        assert(d@.verification_methods[i as int] == d.verification_methods@[i as int]@);
        assert(vm_fits(d@.verification_methods[i as int]));
        write_vm(&mut out, &d.verification_methods[i]);
        proof {
            let l = d@.verification_methods;
            lemma_enc_vm_list_concat(l.take(i as int), seq![l[i as int]]);
            assert(l.take(i as int) + seq![l[i as int]] =~= l.take(i as int + 1));
            assert(seq![l[i as int]].drop_first() =~= Seq::<VerificationMethodView>::empty());
            assert(enc_vm_list(seq![l[i as int]]) == enc_vm(l[i as int]) + enc_vm_list(
                Seq::<VerificationMethodView>::empty(),
            ));
            assert(enc_vm_list(seq![l[i as int]]) =~= enc_vm(l[i as int]));
            assert(out@ =~= prefix1 + enc_vm_list(l.take(i as int + 1)));
        }
        i = i + 1;
    }
    assert(d@.verification_methods.take(n_vm as int) =~= d@.verification_methods);
    let n_svc = d.services.len();
    write_u32(&mut out, n_svc as u32);
    let ghost prefix2 = prefix1 + enc_vm_list(d@.verification_methods) + spec_u32_to_le_bytes(
        n_svc as u32,
    );
    assert(out@ =~= prefix2);
    let mut i: usize = 0;
    while i < n_svc
        invariant
            i <= n_svc,
            n_svc == d.services@.len(),
            doc_wf(d@),
            out@ == prefix2 + enc_service_list(d@.services.take(i as int)),
        decreases n_svc - i,
    {
        assert(d@.services[i as int] == d.services@[i as int]@);
        assert(service_fits(d@.services[i as int]));
        write_service(&mut out, &d.services[i]);
        proof {
            let l = d@.services;
            lemma_enc_service_list_concat(l.take(i as int), seq![l[i as int]]);
            assert(l.take(i as int) + seq![l[i as int]] =~= l.take(i as int + 1));
            assert(seq![l[i as int]].drop_first() =~= Seq::<ServiceView>::empty());
            assert(enc_service_list(seq![l[i as int]]) == enc_service(l[i as int])
                + enc_service_list(Seq::<ServiceView>::empty()));
            assert(enc_service_list(seq![l[i as int]]) =~= enc_service(l[i as int]));
            assert(out@ =~= prefix2 + enc_service_list(l.take(i as int + 1)));
        }
        i = i + 1;
    }
    assert(d@.services.take(n_svc as int) =~= d@.services);
    write_u64(&mut out, d.created);
    write_u64(&mut out, d.updated);
    assert(out@ =~= enc_doc(d@));
    out
}

/// Encoding after decoding, byte strings: a successful read consumed
/// exactly the encoding of the string it returned.
pub proof fn lemma_enc_dec_bytes(s: Seq<u8>, i: int)
    requires
        dec_bytes(s, i) is Some,
    ensures
        ({
            let (b, j) = dec_bytes(s, i)->Some_0;
            &&& i + 4 <= j <= s.len()
            &&& b.len() <= MAX_FIELD_LEN
            &&& enc_bytes(b) == s.subrange(i, j)
        }),
{
    lemma_auto_spec_u32_to_from_le_bytes();
    let (b, j) = dec_bytes(s, i)->Some_0;
    let n = spec_u32_from_le_bytes(s.subrange(i, i + 4));
    assert(b == s.subrange(i + 4, i + 4 + n as int));
    assert(spec_u32_to_le_bytes(b.len() as u32) == s.subrange(i, i + 4));
    assert(enc_bytes(b) =~= s.subrange(i, j));
}

/// Encoding after decoding, verification methods.
pub proof fn lemma_enc_dec_vm(s: Seq<u8>, i: int)
    requires
        dec_vm(s, i) is Some,
    ensures
        ({
            let (v, j) = dec_vm(s, i)->Some_0;
            &&& i <= j <= s.len()
            &&& vm_fits(v)
            &&& enc_vm(v) == s.subrange(i, j)
        }),
{
    let (v, j) = dec_vm(s, i)->Some_0;
    lemma_enc_dec_bytes(s, i);
    let i1 = dec_bytes(s, i)->Some_0.1;
    lemma_enc_dec_bytes(s, i1);
    let i2 = dec_bytes(s, i1)->Some_0.1;
    lemma_enc_dec_bytes(s, i2);
    let i3 = dec_bytes(s, i2)->Some_0.1;
    lemma_enc_dec_bytes(s, i3);
    assert(enc_vm(v) =~= s.subrange(i, j));
}

/// Encoding after decoding, verification-method lists.
pub proof fn lemma_enc_dec_vm_list(s: Seq<u8>, i: int, n: nat)
    requires
        dec_vm_list(s, i, n) is Some,
        0 <= i <= s.len(),
    ensures
        ({
            let (l, j) = dec_vm_list(s, i, n)->Some_0;
            &&& l.len() == n
            &&& i <= j <= s.len()
            &&& forall|k: int| 0 <= k < l.len() ==> vm_fits(#[trigger] l[k])
            &&& enc_vm_list(l) == s.subrange(i, j)
        }),
    decreases n,
{
    let (l, j) = dec_vm_list(s, i, n)->Some_0;
    if n == 0 {
        assert(enc_vm_list(l) =~= s.subrange(i, i));
    } else {
        lemma_enc_dec_vm(s, i);
        let (vm, i1) = dec_vm(s, i)->Some_0;
        lemma_enc_dec_vm_list(s, i1, (n - 1) as nat);
        let (rest, _) = dec_vm_list(s, i1, (n - 1) as nat)->Some_0;
        assert(l == seq![vm] + rest);
        assert(l[0] == vm);
        assert(l.drop_first() =~= rest);
        assert(enc_vm_list(l) == enc_vm(vm) + enc_vm_list(rest));
        assert(enc_vm_list(l) =~= s.subrange(i, j));
    }
}

/// Encoding after decoding, services.
pub proof fn lemma_enc_dec_service(s: Seq<u8>, i: int)
    requires
        dec_service(s, i) is Some,
    ensures
        ({
            let (v, j) = dec_service(s, i)->Some_0;
            &&& i <= j <= s.len()
            &&& service_fits(v)
            &&& enc_service(v) == s.subrange(i, j)
        }),
{
    let (v, j) = dec_service(s, i)->Some_0;
    lemma_enc_dec_bytes(s, i);
    let i1 = dec_bytes(s, i)->Some_0.1;
    lemma_enc_dec_bytes(s, i1);
    let i2 = dec_bytes(s, i1)->Some_0.1;
    lemma_enc_dec_bytes(s, i2);
    assert(enc_service(v) =~= s.subrange(i, j));
}

/// Encoding after decoding, service lists.
pub proof fn lemma_enc_dec_service_list(s: Seq<u8>, i: int, n: nat)
    requires
        dec_service_list(s, i, n) is Some,
        0 <= i <= s.len(),
    ensures
        ({
            let (l, j) = dec_service_list(s, i, n)->Some_0;
            &&& l.len() == n
            &&& i <= j <= s.len()
            &&& forall|k: int| 0 <= k < l.len() ==> service_fits(#[trigger] l[k])
            &&& enc_service_list(l) == s.subrange(i, j)
        }),
    decreases n,
{
    let (l, j) = dec_service_list(s, i, n)->Some_0;
    if n == 0 {
        assert(enc_service_list(l) =~= s.subrange(i, i));
    } else {
        lemma_enc_dec_service(s, i);
        let (svc, i1) = dec_service(s, i)->Some_0;
        lemma_enc_dec_service_list(s, i1, (n - 1) as nat);
        let (rest, _) = dec_service_list(s, i1, (n - 1) as nat)->Some_0;
        assert(l == seq![svc] + rest);
        assert(l[0] == svc);
        assert(l.drop_first() =~= rest);
        assert(enc_service_list(l) == enc_service(svc) + enc_service_list(rest));
        assert(enc_service_list(l) =~= s.subrange(i, j));
    }
}

/// Encoding after decoding, whole documents: the wire format is
/// canonical — a successfully decoded region is exactly the encoding
/// of the document read from it.
#[verifier::rlimit(60)]
pub proof fn lemma_enc_dec_doc(s: Seq<u8>, i: int)
    requires
        dec_doc(s, i) is Some,
    ensures
        ({
            let (d, j) = dec_doc(s, i)->Some_0;
            &&& i <= j <= s.len()
            &&& enc_doc(d) == s.subrange(i, j)
        }),
{
    let (d, j) = dec_doc(s, i)->Some_0;
    lemma_enc_dec_bytes(s, i);
    let i1 = dec_bytes(s, i)->Some_0.1;
    let (n_vm, i2) = dec_u32(s, i1)->Some_0;
    lemma_enc_dec_vm_list(s, i2, n_vm as nat);
    let i3 = dec_vm_list(s, i2, n_vm as nat)->Some_0.1;
    let (n_svc, i4) = dec_u32(s, i3)->Some_0;
    lemma_enc_dec_service_list(s, i4, n_svc as nat);
    let i5 = dec_service_list(s, i4, n_svc as nat)->Some_0.1;
    lemma_auto_spec_u32_to_from_le_bytes();
    lemma_auto_spec_u64_to_from_le_bytes();
    assert(spec_u32_to_le_bytes(d.verification_methods.len() as u32) == s.subrange(i1, i2));
    assert(spec_u32_to_le_bytes(d.services.len() as u32) == s.subrange(i3, i4));
    assert(spec_u64_to_le_bytes(d.created) == s.subrange(i5, i5 + 8));
    assert(spec_u64_to_le_bytes(d.updated) == s.subrange(i5 + 8, j));
    assert(enc_doc(d) =~= s.subrange(i, j));
}

/// Reads a 32-bit value at offset `i`.
fn read_u32(s: &Vec<u8>, i: usize) -> (r: Result<(u32, usize), VdrError>)
    ensures
        match r {
            Ok((x, j)) => dec_u32(s@, i as int) == Some((x, j as int)),
            Err(e) => dec_u32(s@, i as int) is None && e == VdrError::Decoding,
        },
{
    if i <= s.len() && s.len() - i >= 4 {
        let sub = slice_subrange(s.as_slice(), i, i + 4);
        Ok((u32_from_le_bytes(sub), i + 4))
    } else {
        Err(VdrError::Decoding)
    }
}

/// Reads a 64-bit value at offset `i`.
fn read_u64(s: &Vec<u8>, i: usize) -> (r: Result<(u64, usize), VdrError>)
    ensures
        match r {
            Ok((x, j)) => dec_u64(s@, i as int) == Some((x, j as int)),
            Err(e) => dec_u64(s@, i as int) is None && e == VdrError::Decoding,
        },
{
    if i <= s.len() && s.len() - i >= 8 {
        let sub = slice_subrange(s.as_slice(), i, i + 8);
        Ok((u64_from_le_bytes(sub), i + 8))
    } else {
        Err(VdrError::Decoding)
    }
}

/// Reads one length-prefixed byte string at offset `i`.
fn read_bytes_field(s: &Vec<u8>, i: usize) -> (r: Result<(Vec<u8>, usize), VdrError>)
    ensures
        match r {
            Ok((b, j)) => dec_bytes(s@, i as int) == Some((b@, j as int)),
            Err(e) => dec_bytes(s@, i as int) is None && e == VdrError::Decoding,
        },
{
    let (n, j) = match read_u32(s, i) {
        Ok(v) => v,
        Err(e) => {
            return Err(e);
        },
    };
    let n_usize = n as usize;
    if s.len() - j >= n_usize {
        let sub = slice_subrange(s.as_slice(), j, j + n_usize);
        let b = slice_to_vec(sub);
        Ok((b, j + n_usize))
    } else {
        Err(VdrError::Decoding)
    }
}

/// Reads one verification method at offset `i`.
fn read_vm(s: &Vec<u8>, i: usize) -> (r: Result<(VerificationMethod, usize), VdrError>)
    ensures
        match r {
            Ok((v, j)) => dec_vm(s@, i as int) == Some((v@, j as int)),
            Err(e) => dec_vm(s@, i as int) is None && e == VdrError::Decoding,
        },
{
    let (id, i1) = match read_bytes_field(s, i) {
        Ok(v) => v,
        Err(e) => {
            return Err(e);
        },
    };
    let (method_type, i2) = match read_bytes_field(s, i1) {
        Ok(v) => v,
        Err(e) => {
            return Err(e);
        },
    };
    let (controller, i3) = match read_bytes_field(s, i2) {
        Ok(v) => v,
        Err(e) => {
            return Err(e);
        },
    };
    let (public_key_hex, i4) = match read_bytes_field(s, i3) {
        Ok(v) => v,
        Err(e) => {
            return Err(e);
        },
    };
    Ok((VerificationMethod { id, method_type, controller, public_key_hex }, i4))
}

/// Reads `n` verification methods at offset `i`.
fn read_vm_list(s: &Vec<u8>, i: usize, n: u32) -> (r: Result<(Vec<VerificationMethod>, usize), VdrError>)
    ensures
        match r {
            Ok((l, j)) => dec_vm_list(s@, i as int, n as nat) == Some((vms_view(l@), j as int)),
            Err(e) => dec_vm_list(s@, i as int, n as nat) is None && e == VdrError::Decoding,
        },
    decreases n,
{
    if n == 0 {
        let empty: Vec<VerificationMethod> = Vec::new();
        assert(vms_view(empty@) =~= Seq::<VerificationMethodView>::empty());
        Ok((empty, i))
    } else {
        let (vm, i1) = match read_vm(s, i) {
            Ok(v) => v,
            Err(e) => {
                return Err(e);
            },
        };
        let (mut rest, i2) = match read_vm_list(s, i1, n - 1) {
            Ok(v) => v,
            Err(e) => {
                return Err(e);
            },
        };
        let ghost vm_model = vm@;
        let ghost rest_model = vms_view(rest@);
        let mut l: Vec<VerificationMethod> = Vec::new();
        l.push(vm);
        l.append(&mut rest);
        assert(vms_view(l@) =~= seq![vm_model] + rest_model);
        Ok((l, i2))
    }
}

/// Reads one service descriptor at offset `i`.
fn read_service(s: &Vec<u8>, i: usize) -> (r: Result<(Service, usize), VdrError>)
    ensures
        match r {
            Ok((v, j)) => dec_service(s@, i as int) == Some((v@, j as int)),
            Err(e) => dec_service(s@, i as int) is None && e == VdrError::Decoding,
        },
{
    let (id, i1) = match read_bytes_field(s, i) {
        Ok(v) => v,
        Err(e) => {
            return Err(e);
        },
    };
    let (service_type, i2) = match read_bytes_field(s, i1) {
        Ok(v) => v,
        Err(e) => {
            return Err(e);
        },
    };
    let (service_endpoint, i3) = match read_bytes_field(s, i2) {
        Ok(v) => v,
        Err(e) => {
            return Err(e);
        },
    };
    Ok((Service { id, service_type, service_endpoint }, i3))
}

/// Reads `n` service descriptors at offset `i`.
fn read_service_list(s: &Vec<u8>, i: usize, n: u32) -> (r: Result<(Vec<Service>, usize), VdrError>)
    ensures
        match r {
            Ok((l, j)) => dec_service_list(s@, i as int, n as nat) == Some(
                (services_view(l@), j as int),
            ),
            Err(e) => dec_service_list(s@, i as int, n as nat) is None && e == VdrError::Decoding,
        },
    decreases n,
{
    if n == 0 {
        let empty: Vec<Service> = Vec::new();
        assert(services_view(empty@) =~= Seq::<ServiceView>::empty());
        Ok((empty, i))
    } else {
        let (svc, i1) = match read_service(s, i) {
            Ok(v) => v,
            Err(e) => {
                return Err(e);
            },
        };
        let (mut rest, i2) = match read_service_list(s, i1, n - 1) {
            Ok(v) => v,
            Err(e) => {
                return Err(e);
            },
        };
        let ghost svc_model = svc@;
        let ghost rest_model = services_view(rest@);
        let mut l: Vec<Service> = Vec::new();
        l.push(svc);
        l.append(&mut rest);
        assert(services_view(l@) =~= seq![svc_model] + rest_model);
        Ok((l, i2))
    }
}

/// Deserialises one document at offset `i`.
pub fn decode_document(s: &Vec<u8>, i: usize) -> (r: Result<(DidDocument, usize), VdrError>)
    ensures
        match r {
            Ok((d, j)) => dec_doc(s@, i as int) == Some((d@, j as int)),
            Err(e) => dec_doc(s@, i as int) is None && e == VdrError::Decoding,
        },
{
    let (did, i1) = match read_bytes_field(s, i) {
        Ok(v) => v,
        Err(e) => {
            return Err(e);
        },
    };
    let (n_vm, i2) = match read_u32(s, i1) {
        Ok(v) => v,
        Err(e) => {
            return Err(e);
        },
    };
    let (verification_methods, i3) = match read_vm_list(s, i2, n_vm) {
        Ok(v) => v,
        Err(e) => {
            return Err(e);
        },
    };
    let (n_svc, i4) = match read_u32(s, i3) {
        Ok(v) => v,
        Err(e) => {
            return Err(e);
        },
    };
    let (services, i5) = match read_service_list(s, i4, n_svc) {
        Ok(v) => v,
        Err(e) => {
            return Err(e);
        },
    };
    let (created, i6) = match read_u64(s, i5) {
        Ok(v) => v,
        Err(e) => {
            return Err(e);
        },
    };
    let (updated, i7) = match read_u64(s, i6) {
        Ok(v) => v,
        Err(e) => {
            return Err(e);
        },
    };
    let doc = DidDocument { did, verification_methods, services, created, updated };
    assert(dec_doc(s@, i as int)->Some_0.0 =~= doc@);
    Ok((doc, i7))
}

} // verus!
