//! Access receipts: an unsigned draft, sealed in one step into an immutable,
//! signed receipt.
use vstd::prelude::*;
use crate::crypto::{base64_of, base64_standard, ed25519_accepts, ed25519_public_key, ed25519_signature, verify_signature, Signer};
use crate::encoding::{encodable, encode_fields, encode_receipt_fields, SignedFields};

verus! {

/// The contents of a receipt before it is signed.
pub struct UnsignedReceipt {
    pub id: u128,
    pub tenant: String,
    pub subject: String,
    pub shard: String,
    pub query_hash: String,
    pub result_hash: String,
    pub nonce: u128,
    pub expires_at: i64,
}

impl UnsignedReceipt {
    pub open spec fn fields(&self) -> SignedFields {
        SignedFields {
            id: self.id,
            tenant: self.tenant@,
            subject: self.subject@,
            shard: self.shard@,
            query_hash: self.query_hash@,
            result_hash: self.result_hash@,
            nonce: self.nonce,
            expires_at: self.expires_at,
        }
    }
}

/// A signed receipt. Its fields cannot be changed once it is sealed.
pub struct AccessReceipt {
    id: u128,
    tenant: String,
    subject: String,
    shard: String,
    query_hash: String,
    result_hash: String,
    nonce: u128,
    expires_at: i64,
    signature: Vec<u8>,
}

impl AccessReceipt {
    pub closed spec fn fields(&self) -> SignedFields {
        SignedFields {
            id: self.id,
            tenant: self.tenant@,
            subject: self.subject@,
            shard: self.shard@,
            query_hash: self.query_hash@,
            result_hash: self.result_hash@,
            nonce: self.nonce,
            expires_at: self.expires_at,
        }
    }

    pub closed spec fn signature_bytes(&self) -> Seq<u8> {
        self.signature@
    }

    /// Both receipts hold the same fields and the same signature.
    pub open spec fn same_content(&self, other: &AccessReceipt) -> bool {
        &&& self.fields() == other.fields()
        &&& self.signature_bytes() == other.signature_bytes()
    }

    /// The receipt's signature is the one `secret` gives its canonical encoding.
    pub open spec fn sealed_by(&self, secret: Seq<u8>) -> bool {
        &&& encodable(self.fields())
        &&& self.signature_bytes() == ed25519_signature(secret, encode_fields(self.fields()))
    }

    /// Signs the draft's canonical encoding and assembles the receipt.
    pub fn seal(draft: UnsignedReceipt, signer: &Signer) -> (r: AccessReceipt)
        requires
            signer.wf(),
        ensures
            r.fields() == draft.fields(),
            r.sealed_by(signer.secret_bytes()),
    {
        let bytes = encode_receipt_fields(
            draft.id,
            draft.tenant.as_str(),
            draft.subject.as_str(),
            draft.shard.as_str(),
            draft.query_hash.as_str(),
            draft.result_hash.as_str(),
            draft.nonce,
            draft.expires_at,
        );
        let signature = signer.sign(bytes.as_slice());
        AccessReceipt {
            id: draft.id,
            tenant: draft.tenant,
            subject: draft.subject,
            shard: draft.shard,
            query_hash: draft.query_hash,
            result_hash: draft.result_hash,
            nonce: draft.nonce,
            expires_at: draft.expires_at,
            signature,
        }
    }

    /// Reassembles a receipt from its parts, as received from elsewhere.
    pub fn from_parts(draft: UnsignedReceipt, signature: Vec<u8>) -> (r: AccessReceipt)
        ensures
            r.fields() == draft.fields(),
            r.signature_bytes() == signature@,
    {
        AccessReceipt {
            id: draft.id,
            tenant: draft.tenant,
            subject: draft.subject,
            shard: draft.shard,
            query_hash: draft.query_hash,
            result_hash: draft.result_hash,
            nonce: draft.nonce,
            expires_at: draft.expires_at,
            signature,
        }
    }

    /// The canonical encoding of the signed fields.
    pub fn signed_bytes(&self) -> (r: Vec<u8>)
        ensures
            r@ == encode_fields(self.fields()),
            encodable(self.fields()),
    {
        encode_receipt_fields(
            self.id,
            self.tenant.as_str(),
            self.subject.as_str(),
            self.shard.as_str(),
            self.query_hash.as_str(),
            self.result_hash.as_str(),
            self.nonce,
            self.expires_at,
        )
    }

    /// Checks the signature against the canonical encoding of the receipt's own
    /// fields. A receipt sealed with the secret key behind `public` always passes.
    pub fn check_signature(&self, public: &[u8]) -> (r: bool)
        ensures
            r == ed25519_accepts(public@, encode_fields(self.fields()), self.signature_bytes()),
            forall|secret: Seq<u8>|
                secret.len() == 32 && public@ == #[trigger] ed25519_public_key(secret)
                    && self.sealed_by(secret) ==> r,
    {
        let bytes = self.signed_bytes();
        verify_signature(public, bytes.as_slice(), self.signature.as_slice())
    }

    /// A copy with the same fields and signature.
    pub fn duplicate(&self) -> (r: AccessReceipt)
        ensures
            r.same_content(self),
    {
        AccessReceipt {
            id: self.id,
            tenant: self.tenant.clone(),
            subject: self.subject.clone(),
            shard: self.shard.clone(),
            query_hash: self.query_hash.clone(),
            result_hash: self.result_hash.clone(),
            nonce: self.nonce,
            expires_at: self.expires_at,
            signature: self.signature.clone(),
        }
    }

    pub fn id(&self) -> (r: u128)
        ensures
            r == self.fields().id,
    {
        self.id
    }

    pub fn nonce(&self) -> (r: u128)
        ensures
            r == self.fields().nonce,
    {
        self.nonce
    }

    pub fn expires_at(&self) -> (r: i64)
        ensures
            r == self.fields().expires_at,
    {
        self.expires_at
    }

    pub fn tenant(&self) -> (r: &String)
        ensures
            r@ == self.fields().tenant,
    {
        &self.tenant
    }

    pub fn subject(&self) -> (r: &String)
        ensures
            r@ == self.fields().subject,
    {
        &self.subject
    }

    pub fn shard(&self) -> (r: &String)
        ensures
            r@ == self.fields().shard,
    {
        &self.shard
    }

    pub fn query_hash(&self) -> (r: &String)
        ensures
            r@ == self.fields().query_hash,
    {
        &self.query_hash
    }

    pub fn result_hash(&self) -> (r: &String)
        ensures
            r@ == self.fields().result_hash,
    {
        &self.result_hash
    }

    pub fn signature(&self) -> (r: &Vec<u8>)
        ensures
            r@ == self.signature_bytes(),
    {
        &self.signature
    }

    /// The signature as padded base64 text, for transport.
    pub fn signature_base64(&self) -> (r: String)
        requires
            self.signature_bytes().len() <= usize::MAX / 4,
        ensures
            r@ == base64_of(self.signature_bytes()),
    {
        base64_standard(self.signature.as_slice())
    }
}

} // verus!
