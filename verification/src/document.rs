//! The DID document model: verification methods, services, and the
//! document record written to and read from the ledger.
//!
//! All textual fields are held as their UTF-8 bytes.  A document is
//! well formed when its DID follows the DID grammar, every
//! verification-method identifier is non-empty and unique within the
//! document, and every field fits the wire format's 32-bit length
//! prefixes.  Documents are immutable once constructed: an update
//! submits a new document value in a new transaction.

use vstd::prelude::*;
use vstd::slice::slice_index_get;
use vstd::string::StringSliceAdditionalSpecFns;

use crate::identifiers::check_did_bytes;
use crate::identifiers::valid_did_bytes;

verus! {

/// Largest length the wire format can carry in one length prefix.
pub const MAX_FIELD_LEN: usize = 0xFFFF_FFFF;

/// Public-key material bound to a DID: an identifier, a key type, the
/// controlling DID and the key bytes in their hex form.
#[derive(Debug, PartialEq, Eq)]
pub struct VerificationMethod {
    pub id: Vec<u8>,
    pub method_type: Vec<u8>,
    pub controller: Vec<u8>,
    pub public_key_hex: Vec<u8>,
}

/// Mathematical model of a verification method.
#[verifier::ext_equal]
pub ghost struct VerificationMethodView {
    pub id: Seq<u8>,
    pub method_type: Seq<u8>,
    pub controller: Seq<u8>,
    pub public_key_hex: Seq<u8>,
}

impl View for VerificationMethod {
    type V = VerificationMethodView;

    open spec fn view(&self) -> VerificationMethodView {
        VerificationMethodView {
            id: self.id@,
            method_type: self.method_type@,
            controller: self.controller@,
            public_key_hex: self.public_key_hex@,
        }
    }
}

/// A service endpoint descriptor attached to a DID document.
#[derive(Debug, PartialEq, Eq)]
pub struct Service {
    pub id: Vec<u8>,
    pub service_type: Vec<u8>,
    pub service_endpoint: Vec<u8>,
}

/// Mathematical model of a service descriptor.
#[verifier::ext_equal]
pub ghost struct ServiceView {
    pub id: Seq<u8>,
    pub service_type: Seq<u8>,
    pub service_endpoint: Seq<u8>,
}

impl View for Service {
    type V = ServiceView;

    open spec fn view(&self) -> ServiceView {
        ServiceView {
            id: self.id@,
            service_type: self.service_type@,
            service_endpoint: self.service_endpoint@,
        }
    }
}

/// The structured record a registry holds for one DID: the subject
/// DID, its verification methods and services, and the creation and
/// last-update markers (seconds since the epoch).
#[derive(Debug, PartialEq, Eq)]
pub struct DidDocument {
    pub did: Vec<u8>,
    pub verification_methods: Vec<VerificationMethod>,
    pub services: Vec<Service>,
    pub created: u64,
    pub updated: u64,
}

/// Mathematical model of a DID document.
#[verifier::ext_equal]
pub ghost struct DidDocumentView {
    pub did: Seq<u8>,
    pub verification_methods: Seq<VerificationMethodView>,
    pub services: Seq<ServiceView>,
    pub created: u64,
    pub updated: u64,
}

/// The models of a sequence of verification methods, element-wise.
pub open spec fn vms_view(l: Seq<VerificationMethod>) -> Seq<VerificationMethodView> {
    Seq::new(l.len(), |i: int| l[i]@)
}

/// The models of a sequence of services, element-wise.
pub open spec fn services_view(l: Seq<Service>) -> Seq<ServiceView> {
    Seq::new(l.len(), |i: int| l[i]@)
}

impl View for DidDocument {
    type V = DidDocumentView;

    open spec fn view(&self) -> DidDocumentView {
        DidDocumentView {
            did: self.did@,
            verification_methods: vms_view(self.verification_methods@),
            services: services_view(self.services@),
            created: self.created,
            updated: self.updated,
        }
    }
}

/// Whether every field of the verification method fits a 32-bit length
/// prefix.
pub open spec fn vm_fits(v: VerificationMethodView) -> bool {
    &&& v.id.len() <= MAX_FIELD_LEN
    &&& v.method_type.len() <= MAX_FIELD_LEN
    &&& v.controller.len() <= MAX_FIELD_LEN
    &&& v.public_key_hex.len() <= MAX_FIELD_LEN
}

/// Whether every field of the service fits a 32-bit length prefix.
pub open spec fn service_fits(s: ServiceView) -> bool {
    &&& s.id.len() <= MAX_FIELD_LEN
    &&& s.service_type.len() <= MAX_FIELD_LEN
    &&& s.service_endpoint.len() <= MAX_FIELD_LEN
}

/// Document invariant: a grammatical DID, non-empty verification-method
/// identifiers that are unique within the document, and every field and
/// count small enough for the wire format.
pub open spec fn doc_wf(d: DidDocumentView) -> bool {
    &&& valid_did_bytes(d.did)
    &&& d.did.len() <= MAX_FIELD_LEN
    &&& d.verification_methods.len() <= MAX_FIELD_LEN
    &&& d.services.len() <= MAX_FIELD_LEN
    &&& forall|i: int| 0 <= i < d.verification_methods.len() ==> vm_fits(
        #[trigger] d.verification_methods[i],
    )
    &&& forall|i: int| 0 <= i < d.verification_methods.len()
        ==> (#[trigger] d.verification_methods[i]).id.len() > 0
    &&& forall|i: int, j: int|
        0 <= i < j < d.verification_methods.len() ==> (#[trigger] d.verification_methods[i]).id
            != (#[trigger] d.verification_methods[j]).id
    &&& forall|i: int| 0 <= i < d.services.len() ==> service_fits(#[trigger] d.services[i])
}

/// The verification-key types the on-chain encoding accepts.
pub open spec fn supported_key_type(t: Seq<u8>) -> bool {
    ||| t == "Ed25519VerificationKey2018".spec_bytes()
    ||| t == "EcdsaSecp256k1VerificationKey2019".spec_bytes()
}

/// Whether every verification method carries a key type the encoding
/// supports; a document failing this cannot be serialised.
pub open spec fn doc_encodable(d: DidDocumentView) -> bool {
    forall|i: int| 0 <= i < d.verification_methods.len() ==> supported_key_type(
        (#[trigger] d.verification_methods[i]).method_type,
    )
}

/// Whether two byte vectors hold the same bytes.
pub fn bytes_eq(a: &Vec<u8>, b: &Vec<u8>) -> (r: bool)
    ensures
        r == (a@ == b@),
{
    if a.len() != b.len() {
        assert(a@ !~= b@);
        return false;
    }
    let mut i: usize = 0;
    while i < a.len()
        invariant
            i <= a@.len(),
            a@.len() == b@.len(),
            forall|k: int| 0 <= k < i ==> a@[k] == b@[k],
        decreases a@.len() - i,
    {
        if a[i] != b[i] {
            assert(a@ !~= b@);
            return false;
        }
        i = i + 1;
    }
    assert(a@ =~= b@);
    true
}

/// Whether the vector `a` holds the same bytes as the slice `b`.
pub fn bytes_eq_slice(a: &Vec<u8>, b: &[u8]) -> (r: bool)
    ensures
        r == (a@ == b@),
{
    if a.len() != b.len() {
        assert(a@ !~= b@);
        return false;
    }
    let mut i: usize = 0;
    while i < a.len()
        invariant
            i <= a@.len(),
            a@.len() == b@.len(),
            forall|k: int| 0 <= k < i ==> a@[k] == b@[k],
        decreases a@.len() - i,
    {
        if a[i] != *slice_index_get(b, i) {
            assert(a@ !~= b@);
            return false;
        }
        i = i + 1;
    }
    assert(a@ =~= b@);
    true
}

/// Whether `t` is one of the verification-key types the on-chain
/// encoding accepts.
pub fn check_supported_key_type(t: &Vec<u8>) -> (r: bool)
    ensures
        r == supported_key_type(t@),
{
    let ed25519: &[u8] = "Ed25519VerificationKey2018".as_bytes();
    let secp256k1: &[u8] = "EcdsaSecp256k1VerificationKey2019".as_bytes();
    bytes_eq_slice(t, ed25519) || bytes_eq_slice(t, secp256k1)
}

/// Whether the document satisfies the document invariant.
pub fn check_document(d: &DidDocument) -> (r: bool)
    ensures
        r == doc_wf(d@),
{
    if !check_did_bytes(&d.did) {
        return false;
    }
    if d.did.len() > MAX_FIELD_LEN || d.verification_methods.len() > MAX_FIELD_LEN
        || d.services.len() > MAX_FIELD_LEN {
        return false;
    }
    let n_vm = d.verification_methods.len();
    let mut i: usize = 0;
    while i < n_vm
        invariant
            i <= n_vm,
            n_vm == d.verification_methods@.len(),
            forall|k: int| 0 <= k < i ==> vm_fits(#[trigger] d@.verification_methods[k]),
            forall|k: int| 0 <= k < i ==> (#[trigger] d@.verification_methods[k]).id.len() > 0,
        decreases n_vm - i,
    {
        let vm = &d.verification_methods[i];
        assert(d@.verification_methods[i as int] == d.verification_methods@[i as int]@);
        if vm.id.len() == 0 || vm.id.len() > MAX_FIELD_LEN || vm.method_type.len() > MAX_FIELD_LEN
            || vm.controller.len() > MAX_FIELD_LEN || vm.public_key_hex.len() > MAX_FIELD_LEN {
            return false;
        }
        i = i + 1;
    }
    let mut i: usize = 0;
    while i < n_vm
        invariant
            i <= n_vm,
            n_vm == d.verification_methods@.len(),
            forall|p: int, q: int|
                0 <= p < q < n_vm && p < i ==> (#[trigger] d@.verification_methods[p]).id
                    != (#[trigger] d@.verification_methods[q]).id,
        decreases n_vm - i,
    {
        let mut j: usize = i + 1;
        while j < n_vm
            invariant
                i < j <= n_vm,
                n_vm == d.verification_methods@.len(),
                forall|q: int| i < q < j ==> (#[trigger] d@.verification_methods[q]).id
                    != d@.verification_methods[i as int].id,
            decreases n_vm - j,
        {
            assert(d@.verification_methods[i as int] == d.verification_methods@[i as int]@);
            assert(d@.verification_methods[j as int] == d.verification_methods@[j as int]@);
            if bytes_eq(&d.verification_methods[i].id, &d.verification_methods[j].id) {
                return false;
            }
            j = j + 1;
        }
        i = i + 1;
    }
    let n_svc = d.services.len();
    let mut i: usize = 0;
    while i < n_svc
        invariant
            i <= n_svc,
            n_svc == d.services@.len(),
            forall|k: int| 0 <= k < i ==> service_fits(#[trigger] d@.services[k]),
        decreases n_svc - i,
    {
        let s = &d.services[i];
        assert(d@.services[i as int] == d.services@[i as int]@);
        if s.id.len() > MAX_FIELD_LEN || s.service_type.len() > MAX_FIELD_LEN
            || s.service_endpoint.len() > MAX_FIELD_LEN {
            return false;
        }
        i = i + 1;
    }
    true
}

/// Whether every verification method of the document carries a
/// supported key type.
pub fn check_encodable(d: &DidDocument) -> (r: bool)
    ensures
        r == doc_encodable(d@),
{
    let n_vm = d.verification_methods.len();
    let mut i: usize = 0;
    while i < n_vm
        invariant
            i <= n_vm,
            n_vm == d.verification_methods@.len(),
            forall|k: int| 0 <= k < i ==> supported_key_type(
                (#[trigger] d@.verification_methods[k]).method_type,
            ),
        decreases n_vm - i,
    {
        assert(d@.verification_methods[i as int] == d.verification_methods@[i as int]@);
        if !check_supported_key_type(&d.verification_methods[i].method_type) {
            return false;
        }
        i = i + 1;
    }
    true
}

} // verus!
