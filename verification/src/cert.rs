//! Certificate keys, signing requests, and the issued certificate.

use vstd::prelude::*;
use vstd::utf8::encode_utf8;

use crate::error::{Error, ErrorView};
use crate::jwt::{has_template, matches_template};
use crate::util::{contains_bytes, occurs_in, ranges_equal};

verus! {

/// rcgen's `RcgenError`: why a key or a certificate could not be made. It
/// is mapped to an error of this crate and never looked into.
#[verifier::external_type_specification]
#[verifier::external_body]
pub struct ExRcgenError(rcgen::RcgenError);

/// The curves that a certificate key can be on.
#[derive(Clone, Copy, Debug, PartialEq, Eq, Structural)]
pub enum Curve {
    P256,
    P384,
}

/// The key pair of a certificate: its PKCS#8 document. It is another key
/// than the account key.
pub struct CertKey {
    der: Vec<u8>,
}

impl View for CertKey {
    type V = Seq<u8>;

    closed spec fn view(&self) -> Seq<u8> {
        self.der@
    }
}

/// The constant bytes of a PKCS#8 v1 document that holds a P-384 key with
/// its public key: the 0x23 bytes before the private scalar, then the 5
/// bytes between the scalar and the public point.
pub const PKCS8_P384_TEMPLATE: [u8; 40] = [
    0x30, 0x81, 0xb6, 0x02, 0x01, 0x00, 0x30, 0x10, 0x06, 0x07, 0x2a, 0x86, 0x48, 0xce, 0x3d, 0x02,
    0x01, 0x06, 0x05, 0x2b, 0x81, 0x04, 0x00, 0x22, 0x04, 0x81, 0x9e, 0x30, 0x81, 0x9b, 0x02, 0x01,
    0x01, 0x04, 0x30, 0xa1, 0x64, 0x03, 0x62, 0x00,
];

/// The length of such a document.
pub const PKCS8_P384_LEN: usize = 0xb9;

/// Whether `pkcs8` is laid out as the template for P-384 says: the
/// constant bytes are where they belong, and the public point is
/// uncompressed.
pub open spec fn matches_p384_template(pkcs8: Seq<u8>) -> bool {
    &&& pkcs8.len() == 0xb9
    &&& pkcs8.subrange(0, 0x23) == PKCS8_P384_TEMPLATE@.subrange(0, 0x23)
    &&& pkcs8.subrange(0x53, 0x58) == PKCS8_P384_TEMPLATE@.subrange(0x23, 0x28)
    &&& pkcs8[0x58] == 4
}

/// Whether `pkcs8` is the document of a key on the given curve, in the
/// layout that the key generator writes.
pub open spec fn key_on_curve(curve: Curve, pkcs8: Seq<u8>) -> bool {
    match curve {
        Curve::P256 => matches_template(pkcs8),
        Curve::P384 => matches_p384_template(pkcs8),
    }
}

/// Whether `pkcs8` is the document of a key on the given curve. Every
/// constant byte is compared.
pub fn is_on_curve(curve: Curve, pkcs8: &[u8]) -> (on: bool)
    ensures
        on == key_on_curve(curve, pkcs8@),
{
    match curve {
        Curve::P256 => has_template(pkcs8),
        Curve::P384 => {
            let template = PKCS8_P384_TEMPLATE.as_slice();
            pkcs8.len() == PKCS8_P384_LEN && ranges_equal(pkcs8, 0, template, 0, 0x23)
                && ranges_equal(pkcs8, 0x53, template, 0x23, 5) && pkcs8[0x58] == 4
        },
    }
}

/// The views of a list of names.
pub open spec fn names_view(names: Seq<&str>) -> Seq<Seq<char>> {
    names.map_values(|s: &str| s@)
}

/// The views of a list of owned names.
pub open spec fn owned_names_view(names: Seq<String>) -> Seq<Seq<char>> {
    names.map_values(|s: String| s@)
}

/// Draws a key pair with `rcgen::KeyPair::generate` for ECDSA on the
/// given curve and returns its PKCS#8 document
/// (`rcgen::KeyPair::serialize_der`). The key is random, so nothing is
/// claimed of it. rcgen counts on the system's random generator: it
/// panics where the generator fails after the key was drawn.
#[verifier::external_body]
fn generate_key_der(curve: Curve) -> (res: Result<Vec<u8>, rcgen::RcgenError>) {
    let alg = match curve {
        Curve::P256 => &rcgen::PKCS_ECDSA_P256_SHA256,
        Curve::P384 => &rcgen::PKCS_ECDSA_P384_SHA384,
    };
    rcgen::KeyPair::generate(alg).map(|pair| pair.serialize_der())
}

/// The PKCS#8 document that `rcgen::KeyPair::from_pem` reads out of a
/// PEM text: the bytes that the first block of the text holds in base64
/// between its markers, or `None` where the text holds no such block. This
/// reading depends on the text alone. Whether rcgen then takes the bytes
/// for a key is another matter, of which the name says nothing: the
/// signing library under rcgen draws random bytes while it builds the key
/// pair.
pub uninterp spec fn pem_key_spec(pem: Seq<char>) -> Option<Seq<u8>>;

/// Makes a PKCS#10 signing request with rcgen: the key is read with
/// `KeyPair::from_der`, the parameters are `CertificateParams::new` of the
/// alternative names, with the key's own algorithm and a distinguished name
/// that holds the common name only, and the request is
/// `Certificate::serialize_request_der`.
///
/// The request is signed with random bytes, and rcgen decides whether the
/// key is one it can use: nothing is claimed of the outcome.
#[verifier::external_body]
fn request_der(key_der: &[u8], common_name: &str, alt_names: Vec<String>) -> (res: Result<
    Vec<u8>,
    rcgen::RcgenError,
>) {
    let key = rcgen::KeyPair::from_der(key_der)?;
    let mut params = rcgen::CertificateParams::new(alt_names);
    params.alg = key.compatible_algs().next().unwrap();
    params.key_pair = Some(key);
    let mut dn = rcgen::DistinguishedName::new();
    dn.push(rcgen::DnType::CommonName, common_name);
    params.distinguished_name = dn;
    rcgen::Certificate::from_params(params)?.serialize_request_der()
}

/// Makes the certificate that answers a TLS-ALPN challenge, with rcgen:
/// the parameters are `CertificateParams::new` of the domain, with the
/// extension `CustomExtension::new_acme_identifier` of the digest; rcgen
/// draws a key pair for it and signs the certificate with that key. The
/// result is the certificate (`Certificate::serialize_der`) and its
/// private key (`Certificate::serialize_private_key_der`).
///
/// Key and signature are random: nothing is claimed of the outcome. rcgen
/// refuses a digest of another length than 32 with a panic. It counts on
/// the system's random generator as it does for any key that it draws: it
/// panics where the generator fails after the key was drawn.
#[verifier::external_body]
fn acme_certificate_der(domain: &str, digest: &[u8]) -> (res: Result<
    (Vec<u8>, Vec<u8>),
    rcgen::RcgenError,
>)
    requires
        digest@.len() == 32,
{
    let mut params = rcgen::CertificateParams::new(vec![domain.to_owned()]);
    params.custom_extensions = vec![rcgen::CustomExtension::new_acme_identifier(digest)];
    let cert = rcgen::Certificate::from_params(params)?;
    Ok((cert.serialize_der()?, cert.serialize_private_key_der()))
}

/// The certificate that answers a TLS-ALPN challenge, with its private
/// key: both in DER.
#[derive(Clone, PartialEq, Eq)]
pub struct AcmeCertificate {
    pub certificate_der: Vec<u8>,
    pub private_key_der: Vec<u8>,
}

/// What is returned for a challenge certificate that the certificate
/// library made for `domain` and `digest`, or for its error. A certificate
/// is let out only if the bytes of the domain and of the digest stand in
/// it.
pub fn checked_certificate(
    made: Result<(Vec<u8>, Vec<u8>), rcgen::RcgenError>,
    domain: &str,
    digest: &[u8],
) -> (res: Result<AcmeCertificate, Error>)
    ensures
        res is Ok <==> (made matches Ok(pair) && occurs_in(encode_utf8(domain@), pair.0@)
            && occurs_in(digest@, pair.0@)),
        res matches Ok(cert) ==> cert.certificate_der == made->Ok_0.0 && cert.private_key_der
            == made->Ok_0.1,
        res matches Err(e) ==> e@ == ErrorView::Csr,
{
    match made {
        Ok(pair) => {
            if contains_bytes(pair.0.as_slice(), domain.as_bytes()) && contains_bytes(
                pair.0.as_slice(),
                digest,
            ) {
                Ok(AcmeCertificate { certificate_der: pair.0, private_key_der: pair.1 })
            } else {
                Err(Error::Csr)
            }
        },
        Err(_) => Err(Error::Csr),
    }
}

/// Makes the self-signed certificate for `domain` that answers a TLS-ALPN
/// challenge: it carries `digest`, the digest of the key authorization, in
/// its critical `acmeIdentifier` extension. The bytes of the domain and of
/// the digest stand in the certificate.
pub fn create_acme_certificate(domain: &str, digest: &[u8]) -> (res: Result<AcmeCertificate, Error>)
    ensures
        digest@.len() != 32 ==> res is Err,
        res matches Ok(cert) ==> occurs_in(encode_utf8(domain@), cert.certificate_der@)
            && occurs_in(digest@, cert.certificate_der@),
        res matches Err(e) ==> e@ == ErrorView::Csr,
{
    if digest.len() != 32 {
        return Err(Error::Csr);
    }
    checked_certificate(acme_certificate_der(domain, digest), domain, digest)
}

/// Reads a chain of certificates in PEM with
/// `rustls::internal::pemfile::certs`: the DER of each certificate, in the
/// order of the text, or `None` where rustls refuses the text.
pub uninterp spec fn pem_certs_spec(pem: Seq<u8>) -> Option<Seq<Seq<u8>>>;

/// The views of a list of byte strings.
pub open spec fn chain_view(chain: Seq<Vec<u8>>) -> Seq<Seq<u8>> {
    chain.map_values(|c: Vec<u8>| c@)
}

/// Reads a chain of certificates in PEM with
/// `rustls::internal::pemfile::certs`. The result is a function of the
/// text alone.
#[verifier::external_body]
fn pem_certs(pem: &[u8]) -> (res: Option<Vec<Vec<u8>>>)
    ensures
        res is Some <==> pem_certs_spec(pem@) is Some,
        res matches Some(chain) ==> Some(chain_view(chain@)) == pem_certs_spec(pem@),
{
    let mut reader: &[u8] = pem;
    rustls::internal::pemfile::certs(&mut reader).ok().map(
        |certs| certs.into_iter().map(|cert| cert.0).collect(),
    )
}

/// Asks `rustls::sign::any_ecdsa_type` whether it takes the PKCS#8
/// document as an ECDSA key for TLS. The signing library under it draws
/// random bytes while it builds the key pair, so the answer is not named.
#[verifier::external_body]
fn is_tls_key(der: &[u8]) -> (usable: bool) {
    rustls::sign::any_ecdsa_type(&rustls::PrivateKey(der.to_vec())).is_ok()
}

impl CertKey {
    /// The key pair for what the key generator returned when it was asked
    /// for a key on `curve`. A document of another layout than the one of
    /// that curve is refused.
    pub fn from_generated(made: Result<Vec<u8>, rcgen::RcgenError>, curve: Curve) -> (res: Result<
        CertKey,
        Error,
    >)
        ensures
            res is Ok <==> (made matches Ok(der) && key_on_curve(curve, der@)),
            res matches Ok(key) ==> key@ == made->Ok_0@,
            res matches Err(e) ==> e@ == ErrorView::PrivateKey,
    {
        match made {
            Ok(der) => {
                if is_on_curve(curve, der.as_slice()) {
                    Ok(CertKey { der })
                } else {
                    Err(Error::PrivateKey)
                }
            },
            Err(_) => Err(Error::PrivateKey),
        }
    }

    /// The key pair for what the PEM reader returned.
    pub fn from_read(read: Result<Vec<u8>, rcgen::RcgenError>) -> (res: Result<CertKey, Error>)
        ensures
            res is Ok <==> read is Ok,
            res matches Ok(key) ==> key@ == read->Ok_0@,
            res matches Err(e) ==> e@ == ErrorView::PrivateKey,
    {
        match read {
            Ok(der) => Ok(CertKey { der }),
            Err(_) => Err(Error::PrivateKey),
        }
    }

    /// Draws a fresh key pair on the given curve.
    pub fn generate(curve: Curve) -> (res: Result<CertKey, Error>)
        ensures
            res matches Ok(key) ==> key_on_curve(curve, key@),
            res matches Err(e) ==> e@ == ErrorView::PrivateKey,
    {
        CertKey::from_generated(generate_key_der(curve), curve)
    }

    /// Reads a private key in PEM: the key is the document that the text
    /// holds. A text that holds none is refused.
    pub fn from_pem(pem: &str) -> (res: Result<CertKey, Error>)
        ensures
            pem_key_spec(pem@) is None ==> res is Err,
            res matches Ok(key) ==> pem_key_spec(pem@) == Some(key@),
            res matches Err(e) ==> e@ == ErrorView::PrivateKey,
    {
        CertKey::from_read(key_der_from_pem(pem))
    }

    /// The PKCS#8 document of the key pair.
    pub fn private_key_der(&self) -> (der: &Vec<u8>)
        ensures
            der@ == self@,
    {
        &self.der
    }
}

/// Reads a private key in PEM with `rcgen::KeyPair::from_pem` and returns
/// its PKCS#8 document (`rcgen::KeyPair::serialize_der`). rcgen decides
/// whether the key is one it can use, so success is not claimed. A key
/// that was read is the document that the text holds, and a text that
/// holds none gives no key.
#[verifier::external_body]
fn key_der_from_pem(pem: &str) -> (res: Result<Vec<u8>, rcgen::RcgenError>)
    ensures
        res matches Ok(der) ==> pem_key_spec(pem@) == Some(der@),
        pem_key_spec(pem@) is None ==> res is Err,
{
    rcgen::KeyPair::from_pem(pem).map(|pair| pair.serialize_der())
}

/// Makes a P-256 private key for a certificate.
pub fn create_p256_key() -> (res: Result<CertKey, Error>)
    ensures
        res matches Ok(key) ==> key_on_curve(Curve::P256, key@),
        res matches Err(e) ==> e@ == ErrorView::PrivateKey,
{
    CertKey::generate(Curve::P256)
}

/// Makes a P-384 private key for a certificate.
pub fn create_p384_key() -> (res: Result<CertKey, Error>)
    ensures
        res matches Ok(key) ==> key_on_curve(Curve::P384, key@),
        res matches Err(e) ==> e@ == ErrorView::PrivateKey,
{
    CertKey::generate(Curve::P384)
}

/// What a signing request is made for: the common name of its subject,
/// and its alternative names.
pub struct CsrSubject {
    pub common_name: String,
    pub alt_names: Vec<String>,
}

/// The subject of the signing request for `domains`: the first of them is
/// the common name, and all of them are alternative names. There is no
/// request for no domain.
pub fn csr_subject(domains: &[&str]) -> (res: Result<CsrSubject, Error>)
    ensures
        res is Ok <==> domains@.len() > 0,
        res matches Ok(subject) ==> subject.common_name@ == domains@[0]@ && owned_names_view(
            subject.alt_names@,
        ) == names_view(domains@),
        res matches Err(e) ==> e@ == ErrorView::EmptyDomains,
{
    if domains.len() == 0 {
        return Err(Error::EmptyDomains);
    }
    let mut alt_names: Vec<String> = Vec::new();
    let mut i: usize = 0;
    while i < domains.len()
        invariant
            i <= domains.len(),
            owned_names_view(alt_names@) == names_view(domains@).take(i as int),
        decreases domains.len() - i,
    {
        let ghost before = alt_names@;
        let name = domains[i].to_owned();
        alt_names.push(name);
        i += 1;
        proof {
            let all = names_view(domains@);
            assert(all.take(i as int) =~= all.take(i - 1).push(all[i - 1]));
            assert(owned_names_view(alt_names@) =~= owned_names_view(before).push(name@));
        }
    }
    assert(names_view(domains@).take(i as int) =~= names_view(domains@));
    Ok(CsrSubject { common_name: domains[0].to_owned(), alt_names })
}

/// Whether the bytes of every domain stand in `der`.
pub open spec fn holds_names(der: Seq<u8>, domains: Seq<&str>) -> bool {
    forall|i: int| 0 <= i < domains.len() ==> occurs_in(encode_utf8(#[trigger] domains[i]@), der)
}

/// Whether the bytes of every domain stand in `der`.
pub fn has_names(der: &[u8], domains: &[&str]) -> (all: bool)
    ensures
        all == holds_names(der@, domains@),
{
    let mut i: usize = 0;
    while i < domains.len()
        invariant
            i <= domains.len(),
            forall|k: int| 0 <= k < i ==> occurs_in(encode_utf8(#[trigger] domains@[k]@), der@),
        decreases domains.len() - i,
    {
        if !contains_bytes(der, domains[i].as_bytes()) {
            return false;
        }
        i += 1;
    }
    true
}

/// What is returned for a signing request that the certificate library
/// made for `domains`, or for its error. A request is let out only if the
/// bytes of every domain stand in it.
pub fn checked_request(made: Result<Vec<u8>, rcgen::RcgenError>, domains: &[&str]) -> (res: Result<
    Vec<u8>,
    Error,
>)
    ensures
        res is Ok <==> (made matches Ok(der) && holds_names(der@, domains@)),
        res matches Ok(der) ==> der == made->Ok_0,
        res matches Err(e) ==> e@ == ErrorView::Csr,
{
    match made {
        Ok(der) => {
            if has_names(der.as_slice(), domains) {
                Ok(der)
            } else {
                Err(Error::Csr)
            }
        },
        Err(_) => Err(Error::Csr),
    }
}

/// Makes the PKCS#10 signing request, in DER, for `domains` and the key
/// pair `key`. The first domain becomes the common name of the subject,
/// and every domain an alternative name.
///
/// An empty list of domains is refused. The bytes of every domain stand
/// in a request that was made.
pub fn create_csr_der(key: &CertKey, domains: &[&str]) -> (res: Result<Vec<u8>, Error>)
    ensures
        domains@.len() == 0 ==> res is Err,
        res matches Err(e) ==> e@ == (if domains@.len() == 0 {
            ErrorView::EmptyDomains
        } else {
            ErrorView::Csr
        }),
        res matches Ok(der) ==> holds_names(der@, domains@),
{
    let subject = csr_subject(domains)?;
    checked_request(
        request_der(key.der.as_slice(), subject.common_name.as_str(), subject.alt_names),
        domains,
    )
}

/// An issued certificate with its private key.
#[derive(Clone, PartialEq, Eq)]
pub struct Certificate {
    private_key_der: Vec<u8>,
    chain: Vec<Vec<u8>>,
}

/// The mathematical value of a [`Certificate`].
pub struct CertificateView {
    pub private_key_der: Seq<u8>,
    pub chain: Seq<Seq<u8>>,
}

impl View for Certificate {
    type V = CertificateView;

    closed spec fn view(&self) -> CertificateView {
        CertificateView { private_key_der: self.private_key_der@, chain: chain_view(self.chain@) }
    }
}

/// The chain that a downloaded text holds: what was read of it, if that
/// is one certificate at least. A text that is no PEM, or that holds no
/// certificate, has no chain.
pub open spec fn chain_read(read: Option<Seq<Seq<u8>>>) -> Option<Seq<Seq<u8>>> {
    match read {
        Some(chain) => if chain.len() >= 1 {
            Some(chain)
        } else {
            None
        },
        None => None,
    }
}

/// The view of what was read of a downloaded text.
pub open spec fn read_view(read: Option<Vec<Vec<u8>>>) -> Option<Seq<Seq<u8>>> {
    match read {
        Some(chain) => Some(chain_view(chain@)),
        None => None,
    }
}

impl Certificate {
    /// Pairs what was read of a downloaded chain with the key of the
    /// signing request. `chain` is `None` where the text was no PEM, and
    /// `usable` says whether the key can serve in TLS. A chain without a
    /// certificate is refused like a text that is no PEM.
    pub fn assemble(chain: Option<Vec<Vec<u8>>>, key: CertKey, usable: bool) -> (res: Result<
        Certificate,
        Error,
    >)
        ensures
            res is Ok <==> chain_read(read_view(chain)) is Some && usable,
            res matches Ok(cert) ==> cert@.chain.len() >= 1 && cert@ == (CertificateView {
                private_key_der: key@,
                chain: chain_view(chain->Some_0@),
            }),
            res matches Err(e) ==> e@ == (if chain_read(read_view(chain)) is None {
                ErrorView::CertificateChain
            } else {
                ErrorView::PrivateKey
            }),
    {
        match chain {
            None => Err(Error::CertificateChain),
            Some(chain) => {
                if chain.len() == 0 {
                    Err(Error::CertificateChain)
                } else if usable {
                    Ok(Certificate { private_key_der: key.der, chain })
                } else {
                    Err(Error::PrivateKey)
                }
            },
        }
    }

    /// Reads a downloaded chain of certificates, in PEM, and pairs it with
    /// the key of the signing request. The chain holds the certificates of
    /// the text in the order of the text, and one at least.
    pub fn from_pem_chain(pem: &str, key: CertKey) -> (res: Result<Certificate, Error>)
        ensures
            chain_read(pem_certs_spec(encode_utf8(pem@))) is None ==> res is Err,
            res matches Ok(cert) ==> {
                &&& cert@.private_key_der == key@
                &&& Some(cert@.chain) == pem_certs_spec(encode_utf8(pem@))
                &&& cert@.chain.len() >= 1
            },
            res matches Err(e) ==> e@ == (if chain_read(pem_certs_spec(encode_utf8(pem@))) is None {
                ErrorView::CertificateChain
            } else {
                ErrorView::PrivateKey
            }),
    {
        let chain = pem_certs(pem.as_bytes());
        let usable = match &chain {
            Some(certs) => certs.len() >= 1 && is_tls_key(key.der.as_slice()),
            None => false,
        };
        Certificate::assemble(chain, key, usable)
    }

    /// The private key, as a PKCS#8 document.
    pub fn private_key_der(&self) -> (der: &Vec<u8>)
        ensures
            der@ == self@.private_key_der,
    {
        &self.private_key_der
    }

    /// The certificates, each in DER, the end-entity certificate first.
    pub fn chain(&self) -> (chain: &Vec<Vec<u8>>)
        ensures
            chain_view(chain@) == self@.chain,
    {
        &self.chain
    }
}

} // verus!
