//! The account key: an ECDSA P-256 private key in PKCS#8 form.

use std::sync::Arc;
use vstd::prelude::*;
use vstd::slice::slice_to_vec;

use crate::error::{Error, ErrorView};
use crate::jwt::{has_template, matches_template, template_point};
use crate::util::copy_range;

verus! {

/// biscuit's `jws::Secret`: the key pair that signs. It is carried
/// through and never looked into.
#[verifier::external_type_specification]
#[verifier::external_body]
pub struct ExSecret(biscuit::jws::Secret);

/// ring's `error::KeyRejected`: why a document is no key. It is mapped to
/// `Error::InvalidKey` and never looked into.
#[verifier::external_type_specification]
#[verifier::external_body]
pub struct ExKeyRejected(ring::error::KeyRejected);

/// ring's `error::Unspecified`: a failure without a reason. It is mapped
/// to `Error::InvalidKey` and never looked into.
#[verifier::external_type_specification]
#[verifier::external_body]
pub struct ExUnspecified(ring::error::Unspecified);

/// Parses `pkcs8` with `ring::signature::EcdsaKeyPair::from_pkcs8` for
/// P-256 with fixed-length signatures, and wraps the key pair in biscuit's
/// `Secret::EcdsaKeyPair`. Nothing is claimed of the outcome: ring decides
/// whether the document is acceptable, and it draws random bytes while it
/// builds the key pair.
#[verifier::external_body]
fn secret_from_pkcs8(pkcs8: &[u8]) -> (res: Result<biscuit::jws::Secret, ring::error::KeyRejected>) {
    ring::signature::EcdsaKeyPair::from_pkcs8(
        &ring::signature::ECDSA_P256_SHA256_FIXED_SIGNING,
        pkcs8,
    ).map(|pair| biscuit::jws::Secret::EcdsaKeyPair(Arc::new(pair)))
}

/// Draws a fresh P-256 key with `ring::signature::EcdsaKeyPair::generate_pkcs8`
/// and the system's random generator, and returns the PKCS#8 document.
/// The key is random, so nothing is claimed of it.
#[verifier::external_body]
fn generate_pkcs8() -> (res: Result<Vec<u8>, ring::error::Unspecified>) {
    ring::signature::EcdsaKeyPair::generate_pkcs8(
        &ring::signature::ECDSA_P256_SHA256_FIXED_SIGNING,
        &ring::rand::SystemRandom::new(),
    ).map(|doc| doc.as_ref().to_vec())
}

/// Signs `message` with `biscuit::jwa::SignatureAlgorithm::sign` for
/// ES256; `None` stands for biscuit's error. The signature depends on
/// random bytes, and biscuit refuses a secret that is no ECDSA key pair:
/// nothing is claimed of the outcome.
#[verifier::external_body]
fn es256_sign(secret: &biscuit::jws::Secret, message: &[u8]) -> (res: Option<Vec<u8>>) {
    biscuit::jwa::SignatureAlgorithm::ES256.sign(message, secret).ok()
}

/// Whether `signature` is a valid ES256 signature of `message` under the
/// key with the uncompressed point `public_point`, as
/// `biscuit::jwa::SignatureAlgorithm::verify` decides it.
pub uninterp spec fn es256_accepts(
    public_point: Seq<u8>,
    message: Seq<u8>,
    signature: Seq<u8>,
) -> bool;

/// Checks a signature with `biscuit::jwa::SignatureAlgorithm::verify` for
/// ES256, the key given as biscuit's `Secret::PublicKey`. The answer is a
/// function of the three byte strings alone.
#[verifier::external_body]
fn es256_verify(public_point: &[u8], message: &[u8], signature: &[u8]) -> (ok: bool)
    ensures
        ok == es256_accepts(public_point@, message@, signature@),
{
    let key = biscuit::jws::Secret::PublicKey(public_point.to_vec());
    biscuit::jwa::SignatureAlgorithm::ES256.verify(signature, message, &key).is_ok()
}

/// What is returned for a signature of `message` that the signer made,
/// `None` if it failed. A signature of ES256 is r, then s, 32 bytes each,
/// and it is let out only if the key with the point `public_point` accepts
/// it.
pub fn checked_signature(signed: Option<Vec<u8>>, public_point: &[u8], message: &[u8]) -> (res:
    Result<Vec<u8>, Error>)
    ensures
        res is Ok <==> (signed matches Some(s) && s@.len() == 64 && es256_accepts(
            public_point@,
            message@,
            s@,
        )),
        res matches Ok(signature) ==> signed == Some(signature),
        res matches Err(e) ==> e@ == ErrorView::Signing,
{
    match signed {
        Some(signature) => {
            if signature.len() == 64 && es256_verify(public_point, message, signature.as_slice()) {
                Ok(signature)
            } else {
                Err(Error::Signing)
            }
        },
        None => Err(Error::Signing),
    }
}

/// What is returned for a document that the key generator made, or for
/// its failure: a document of another layout than the one that the public
/// key is read from is refused.
pub fn checked_document(made: Result<Vec<u8>, ring::error::Unspecified>) -> (res: Result<
    Vec<u8>,
    Error,
>)
    ensures
        res is Ok <==> (made matches Ok(doc) && matches_template(doc@)),
        res matches Ok(doc) ==> made == Ok::<Vec<u8>, ring::error::Unspecified>(doc),
        res matches Err(e) ==> e@ == ErrorView::InvalidKey,
{
    match made {
        Ok(doc) => {
            if has_template(doc.as_slice()) {
                Ok(doc)
            } else {
                Err(Error::InvalidKey)
            }
        },
        Err(_) => Err(Error::InvalidKey),
    }
}

/// The account key, with the key id once the server has assigned one.
pub struct AcmeKey {
    jws_secret: biscuit::jws::Secret,
    pkcs8: Vec<u8>,
    /// set once the ACME API has told us the key id
    key_id: Option<String>,
}

impl AcmeKey {
    /// The PKCS#8 document of the key.
    pub closed spec fn pkcs8(&self) -> Seq<u8> {
        self.pkcs8@
    }

    /// The key id that the server assigned, if it did already.
    pub closed spec fn spec_key_id(&self) -> Option<Seq<char>> {
        match self.key_id {
            Some(k) => Some(k@),
            None => None,
        }
    }

    /// Builds the account key from what the signing library made of `pkcs8`.
    pub fn from_parsed(
        parsed: Result<biscuit::jws::Secret, ring::error::KeyRejected>,
        pkcs8: &[u8],
    ) -> (res: Result<AcmeKey, Error>)
        ensures
            res is Ok <==> parsed is Ok,
            res matches Ok(key) ==> key.pkcs8() == pkcs8@ && key.spec_key_id() is None,
            res matches Err(e) ==> e@ == ErrorView::InvalidKey,
    {
        match parsed {
            Ok(jws_secret) => Ok(AcmeKey { jws_secret, pkcs8: slice_to_vec(pkcs8), key_id: None }),
            Err(_) => Err(Error::InvalidKey),
        }
    }

    /// Loads an account key from its PKCS#8 document.
    ///
    /// The signing library decides whether the document is an acceptable
    /// P-256 key; a rejected document gives `Error::InvalidKey`.
    pub fn from_pkcs8(pkcs8: &[u8]) -> (res: Result<AcmeKey, Error>)
        ensures
            res matches Ok(key) ==> key.pkcs8() == pkcs8@ && key.spec_key_id() is None,
            res matches Err(e) ==> e@ == ErrorView::InvalidKey,
    {
        AcmeKey::from_parsed(secret_from_pkcs8(pkcs8), pkcs8)
    }

    /// Generates a fresh account key. Its document has the layout that
    /// the public key is read from.
    pub fn new() -> (res: Result<AcmeKey, Error>)
        ensures
            res matches Ok(key) ==> key.spec_key_id() is None && matches_template(key.pkcs8()),
            res matches Err(e) ==> e@ == ErrorView::InvalidKey,
    {
        let doc = checked_document(generate_pkcs8())?;
        AcmeKey::from_pkcs8(doc.as_slice())
    }

    /// The public point of the key, uncompressed: the byte 4, then x, then
    /// y. It is read at a fixed place, which is sound only for the one
    /// layout that the key generator writes; a key of another layout has
    /// none.
    pub fn public_point(&self) -> (res: Result<Vec<u8>, Error>)
        ensures
            res is Ok <==> matches_template(self.pkcs8()),
            res matches Ok(point) ==> point@ == template_point(self.pkcs8()),
            res matches Err(e) ==> e@ == ErrorView::InvalidKey,
    {
        if !has_template(self.pkcs8.as_slice()) {
            return Err(Error::InvalidKey);
        }
        Ok(copy_range(self.pkcs8.as_slice(), 0x49, 0x8a))
    }

    /// Signs `message` with the key: ECDSA on P-256 with SHA-256, the
    /// signature in the fixed-length form of 64 bytes, r then s. The
    /// signature is checked against the public key before it is let out.
    pub fn sign_es256(&self, message: &[u8]) -> (res: Result<Vec<u8>, Error>)
        ensures
            res matches Ok(signature) ==> {
                &&& matches_template(self.pkcs8())
                &&& signature@.len() == 64
                &&& es256_accepts(template_point(self.pkcs8()), message@, signature@)
            },
            res matches Err(e) ==> e@ == (if matches_template(self.pkcs8()) {
                ErrorView::Signing
            } else {
                ErrorView::InvalidKey
            }),
    {
        let point = match self.public_point() {
            Ok(point) => point,
            Err(e) => {
                return Err(e);
            },
        };
        checked_signature(es256_sign(&self.jws_secret, message), point.as_slice(), message)
    }

    /// The PKCS#8 document, for callers that persist the key.
    pub fn to_pkcs8(&self) -> (doc: &[u8])
        ensures
            doc@ == self.pkcs8(),
    {
        self.pkcs8.as_slice()
    }

    /// The key id, if the server assigned one already.
    pub fn key_id(&self) -> (kid: Option<&String>)
        ensures
            self.spec_key_id() is Some <==> kid is Some,
            kid matches Some(k) ==> Some(k@) == self.spec_key_id(),
    {
        self.key_id.as_ref()
    }

    /// Records the key id that the server assigned. A key id that is set
    /// already is never overwritten.
    pub fn set_key_id(&mut self, kid: String)
        ensures
            final(self).pkcs8() == old(self).pkcs8(),
            final(self).spec_key_id() == match old(self).spec_key_id() {
                Some(k) => Some(k),
                None => Some(kid@),
            },
    {
        if self.key_id.is_none() {
            self.key_id = Some(kid);
        }
    }
}

} // verus!
