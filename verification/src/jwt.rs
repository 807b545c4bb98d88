//! JOSE: the public key as a JWK, its thumbprint, and the signed envelope.

use vstd::prelude::*;
use vstd::string::StringExecFns;
use vstd::utf8::encode_utf8;

use crate::acc::akey::es256_accepts;
use crate::acc::AcmeKey;
use crate::error::{Error, ErrorView};
use crate::json::{is_plain, lemma_escape_plain, push_quoted, quote_spec};
use crate::util::{
    base64url, base64url_decode_spec, base64url_spec, copy_range, is_symbol,
    lemma_decode_encode, lemma_encode_alphabet, ranges_equal, sha256, sha256_spec,
};

verus! {

/// The constant bytes of a PKCS#8 v1 document that holds a P-256 key with
/// its public key: the 0x24 bytes before the private scalar, then the 5
/// bytes between the scalar and the public point.
pub const PKCS8_P256_TEMPLATE: [u8; 41] = [
    0x30, 0x81, 0x87, 0x02, 0x01, 0x00, 0x30, 0x13, 0x06, 0x07, 0x2a, 0x86, 0x48, 0xce, 0x3d, 0x02,
    0x01, 0x06, 0x08, 0x2a, 0x86, 0x48, 0xce, 0x3d, 0x03, 0x01, 0x07, 0x04, 0x6d, 0x30, 0x6b, 0x02,
    0x01, 0x01, 0x04, 0x20, 0xa1, 0x44, 0x03, 0x42, 0x00,
];

/// The length of such a document.
pub const PKCS8_P256_LEN: usize = 0x8a;

/// Whether `pkcs8` is laid out as the template says: the constant bytes are
/// where they belong, and the public point is uncompressed.
pub open spec fn matches_template(pkcs8: Seq<u8>) -> bool {
    &&& pkcs8.len() == 0x8a
    &&& pkcs8.subrange(0, 0x24) == PKCS8_P256_TEMPLATE@.subrange(0, 0x24)
    &&& pkcs8.subrange(0x44, 0x49) == PKCS8_P256_TEMPLATE@.subrange(0x24, 0x29)
    &&& pkcs8[0x49] == 4
}

/// The x coordinate of the public point in a document of that layout.
pub open spec fn template_x(pkcs8: Seq<u8>) -> Seq<u8> {
    pkcs8.subrange(0x4a, 0x6a)
}

/// The y coordinate of the public point in a document of that layout.
pub open spec fn template_y(pkcs8: Seq<u8>) -> Seq<u8> {
    pkcs8.subrange(0x6a, 0x8a)
}

/// The public point of a document of that layout, uncompressed: the byte
/// 4, then x, then y.
pub open spec fn template_point(pkcs8: Seq<u8>) -> Seq<u8> {
    pkcs8.subrange(0x49, 0x8a)
}

/// The public half of the account key, as it is sent to the server: the
/// coordinates of a point on P-256, each as the base64url text of 32
/// big-endian bytes.
pub struct Jwk {
    pub(crate) alg: String,
    pub(crate) crv: String,
    pub(crate) kty: String,
    pub(crate) _use: String,
    pub(crate) x: String,
    pub(crate) y: String,
}

/// The mathematical value of a [`Jwk`].
pub struct JwkView {
    pub alg: Seq<char>,
    pub crv: Seq<char>,
    pub kty: Seq<char>,
    pub _use: Seq<char>,
    pub x: Seq<char>,
    pub y: Seq<char>,
}

impl View for Jwk {
    type V = JwkView;

    closed spec fn view(&self) -> JwkView {
        JwkView {
            alg: self.alg@,
            crv: self.crv@,
            kty: self.kty@,
            _use: self._use@,
            x: self.x@,
            y: self.y@,
        }
    }
}

/// The JWK of the P-256 point with coordinates `x` and `y`, for ES256
/// signatures.
pub open spec fn p256_jwk(x: Seq<u8>, y: Seq<u8>) -> JwkView {
    JwkView {
        alg: "ES256"@,
        crv: "P-256"@,
        kty: "EC"@,
        _use: "sig"@,
        x: base64url_spec(x),
        y: base64url_spec(y),
    }
}

/// The JSON text of a JWK.
pub open spec fn jwk_json_spec(jwk: JwkView) -> Seq<char> {
    "{\"alg\":"@ + quote_spec(jwk.alg) + ",\"crv\":"@ + quote_spec(jwk.crv) + ",\"kty\":"@
        + quote_spec(jwk.kty) + ",\"use\":"@ + quote_spec(jwk._use) + ",\"x\":"@ + quote_spec(
        jwk.x,
    ) + ",\"y\":"@ + quote_spec(jwk.y) + "}"@
}

/// The members of a JWK that identify the key. The thumbprint is taken
/// over these four, in this order.
pub struct JwkThumb {
    pub(crate) crv: String,
    pub(crate) kty: String,
    pub(crate) x: String,
    pub(crate) y: String,
}

/// The mathematical value of a [`JwkThumb`].
pub struct JwkThumbView {
    pub crv: Seq<char>,
    pub kty: Seq<char>,
    pub x: Seq<char>,
    pub y: Seq<char>,
}

impl View for JwkThumb {
    type V = JwkThumbView;

    closed spec fn view(&self) -> JwkThumbView {
        JwkThumbView { crv: self.crv@, kty: self.kty@, x: self.x@, y: self.y@ }
    }
}

/// What a JWK keeps for its thumbprint.
pub open spec fn thumb_of(jwk: JwkView) -> JwkThumbView {
    JwkThumbView { crv: jwk.crv, kty: jwk.kty, x: jwk.x, y: jwk.y }
}

/// The canonical JSON text that the thumbprint is the digest of (RFC
/// 7638): the members `crv`, `kty`, `x`, `y` in lexicographic order and
/// without any white space.
pub open spec fn thumb_json_spec(thumb: JwkThumbView) -> Seq<char> {
    "{\"crv\":"@ + quote_spec(thumb.crv) + ",\"kty\":"@ + quote_spec(thumb.kty) + ",\"x\":"@
        + quote_spec(thumb.x) + ",\"y\":"@ + quote_spec(thumb.y) + "}"@
}

/// The canonical JSON text of a P-256 key with the coordinates `x` and
/// `y`.
pub open spec fn p256_thumb_json(x: Seq<u8>, y: Seq<u8>) -> Seq<char> {
    "{\"crv\":\"P-256\",\"kty\":\"EC\",\"x\":\""@ + base64url_spec(x) + "\",\"y\":\""@
        + base64url_spec(y) + "\"}"@
}

/// The text that is hashed for the thumbprint of a P-256 key holds the
/// four members in the order `crv`, `kty`, `x`, `y`, and no white space.
pub proof fn lemma_thumb_json_p256(x: Seq<u8>, y: Seq<u8>)
    ensures
        thumb_json_spec(thumb_of(p256_jwk(x, y))) == p256_thumb_json(x, y),
        forall|i: int|
            0 <= i < p256_thumb_json(x, y).len() ==> {
                let c = #[trigger] p256_thumb_json(x, y)[i];
                c != ' ' && c != '\n' && c != '\r' && c != '\t'
            },
{
    reveal_strlit("P-256");
    reveal_strlit("EC");
    reveal_strlit("{\"crv\":");
    reveal_strlit(",\"kty\":");
    reveal_strlit(",\"x\":");
    reveal_strlit(",\"y\":");
    reveal_strlit("}");
    reveal_strlit("{\"crv\":\"P-256\",\"kty\":\"EC\",\"x\":\"");
    reveal_strlit("\",\"y\":\"");
    reveal_strlit("\"}");
    let bx = base64url_spec(x);
    let by = base64url_spec(y);
    lemma_encode_alphabet(x);
    lemma_encode_alphabet(y);
    assert forall|i: int| 0 <= i < bx.len() implies is_plain(#[trigger] bx[i]) by {
        assert(is_symbol(bx[i]));
    }
    assert forall|i: int| 0 <= i < by.len() implies is_plain(#[trigger] by[i]) by {
        assert(is_symbol(by[i]));
    }
    lemma_escape_plain(bx);
    lemma_escape_plain(by);
    lemma_escape_plain("P-256"@);
    lemma_escape_plain("EC"@);
    let text = p256_thumb_json(x, y);
    assert(thumb_json_spec(thumb_of(p256_jwk(x, y))) =~= text);
    let head = "{\"crv\":\"P-256\",\"kty\":\"EC\",\"x\":\""@;
    let mid = "\",\"y\":\""@;
    assert forall|i: int| 0 <= i < text.len() implies {
        let c = #[trigger] text[i];
        c != ' ' && c != '\n' && c != '\r' && c != '\t'
    } by {
        if i < head.len() {
            assert(text[i] == head[i]);
        } else if i < head.len() + bx.len() {
            assert(text[i] == bx[i - head.len()]);
            assert(is_symbol(bx[i - head.len()]));
        } else if i < head.len() + bx.len() + mid.len() {
            assert(text[i] == mid[i - head.len() - bx.len()]);
        } else if i < head.len() + bx.len() + mid.len() + by.len() {
            assert(text[i] == by[i - head.len() - bx.len() - mid.len()]);
            assert(is_symbol(by[i - head.len() - bx.len() - mid.len()]));
        } else {
            assert(text[i] == "\"}"@[i - head.len() - bx.len() - mid.len() - by.len()]);
        }
    }
}

/// The thumbprint looks at the four members `crv`, `kty`, `x` and `y`
/// alone. A key that was written out and read back keeps these, whatever
/// became of its other members and of their order, and so has the same
/// thumbprint.
pub proof fn lemma_thumbprint_round_trip(a: JwkView, b: JwkView)
    requires
        a.crv == b.crv,
        a.kty == b.kty,
        a.x == b.x,
        a.y == b.y,
    ensures
        thumb_json_spec(thumb_of(a)) == thumb_json_spec(thumb_of(b)),
        thumbprint_spec(thumb_of(a)) == thumbprint_spec(thumb_of(b)),
{
}

/// The thumbprint of a key: the SHA-256 digest of its canonical JSON text.
pub open spec fn thumbprint_spec(thumb: JwkThumbView) -> Seq<u8> {
    sha256_spec(encode_utf8(thumb_json_spec(thumb)))
}

/// Whether `pkcs8` is laid out as the template says. Every constant byte
/// is compared.
pub fn has_template(pkcs8: &[u8]) -> (same: bool)
    ensures
        same == matches_template(pkcs8@),
{
    let template = PKCS8_P256_TEMPLATE.as_slice();
    pkcs8.len() == PKCS8_P256_LEN && ranges_equal(pkcs8, 0, template, 0, 0x24) && ranges_equal(
        pkcs8,
        0x44,
        template,
        0x24,
        5,
    ) && pkcs8[0x49] == 4
}

/// Appends `prefix`, then the JSON string that holds `value`.
fn push_member(out: &mut String, prefix: &str, value: &str)
    ensures
        final(out)@ == old(out)@ + prefix@ + quote_spec(value@),
{
    out.append(prefix);
    push_quoted(out, value);
}

impl Jwk {
    /// The key with the given members, as they were read from its JSON
    /// text: `alg`, `crv`, `kty` and `use`, and the two coordinates in
    /// base64url.
    pub fn new(alg: String, crv: String, kty: String, _use: String, x: String, y: String) -> (jwk:
        Jwk)
        ensures
            jwk@ == (JwkView { alg: alg@, crv: crv@, kty: kty@, _use: _use@, x: x@, y: y@ }),
    {
        Jwk { alg, crv, kty, _use, x, y }
    }

    /// Reads the public point out of a PKCS#8 document.
    ///
    /// The coordinates are taken at fixed offsets, which is sound only for
    /// the one layout that the key generator writes. Every constant byte of
    /// that layout is compared first, and a document that differs anywhere
    /// is refused.
    pub fn from_pkcs8(pkcs8: &[u8]) -> (res: Result<Jwk, Error>)
        ensures
            res is Ok <==> matches_template(pkcs8@),
            res matches Ok(jwk) ==> jwk@ == p256_jwk(template_x(pkcs8@), template_y(pkcs8@)),
            res matches Err(e) ==> e@ == ErrorView::InvalidKey,
    {
        if !has_template(pkcs8) {
            return Err(Error::InvalidKey);
        }
        let x = copy_range(pkcs8, 0x4a, 0x6a);
        let y = copy_range(pkcs8, 0x6a, 0x8a);
        Ok(
            Jwk {
                alg: "ES256".to_owned(),
                crv: "P-256".to_owned(),
                kty: "EC".to_owned(),
                _use: "sig".to_owned(),
                x: base64url(x.as_slice()),
                y: base64url(y.as_slice()),
            },
        )
    }

    /// The public key of an account key.
    pub fn from_key(key: &AcmeKey) -> (res: Result<Jwk, Error>)
        ensures
            res is Ok <==> matches_template(key.pkcs8()),
            res matches Ok(jwk) ==> jwk@ == p256_jwk(
                template_x(key.pkcs8()),
                template_y(key.pkcs8()),
            ),
            res matches Err(e) ==> e@ == ErrorView::InvalidKey,
    {
        Jwk::from_pkcs8(key.to_pkcs8())
    }

    /// The x coordinate of the point, in base64url.
    pub fn x(&self) -> (x: &String)
        ensures
            x@ == self@.x,
    {
        &self.x
    }

    /// The y coordinate of the point, in base64url.
    pub fn y(&self) -> (y: &String)
        ensures
            y@ == self@.y,
    {
        &self.y
    }

    /// The JSON text of the key, as it stands in a protected header.
    pub fn to_json(&self) -> (text: String)
        ensures
            text@ == jwk_json_spec(self@),
    {
        let mut out = String::new();
        push_member(&mut out, "{\"alg\":", self.alg.as_str());
        push_member(&mut out, ",\"crv\":", self.crv.as_str());
        push_member(&mut out, ",\"kty\":", self.kty.as_str());
        push_member(&mut out, ",\"use\":", self._use.as_str());
        push_member(&mut out, ",\"x\":", self.x.as_str());
        push_member(&mut out, ",\"y\":", self.y.as_str());
        out.append("}");
        assert(out@ =~= jwk_json_spec(self@));
        out
    }
}

impl JwkThumb {
    /// Keeps the four members that identify the key.
    pub fn from(a: &Jwk) -> (thumb: JwkThumb)
        ensures
            thumb@ == thumb_of(a@),
    {
        JwkThumb { crv: a.crv.clone(), kty: a.kty.clone(), x: a.x.clone(), y: a.y.clone() }
    }

    /// The canonical JSON text of the key.
    pub fn to_json(&self) -> (text: String)
        ensures
            text@ == thumb_json_spec(self@),
    {
        let mut out = String::new();
        push_member(&mut out, "{\"crv\":", self.crv.as_str());
        push_member(&mut out, ",\"kty\":", self.kty.as_str());
        push_member(&mut out, ",\"x\":", self.x.as_str());
        push_member(&mut out, ",\"y\":", self.y.as_str());
        out.append("}");
        assert(out@ =~= thumb_json_spec(self@));
        out
    }

    /// The thumbprint of the key.
    pub fn digest(&self) -> (digest: Vec<u8>)
        ensures
            digest@ == thumbprint_spec(self@),
            digest@.len() == 32,
    {
        let text = self.to_json();
        sha256(text.as_str().as_bytes())
    }
}

/// How a protected header names the account key: by the key itself, or by
/// the key id that the server assigned.
pub enum KeyBinding {
    Jwk(Jwk),
    Kid(String),
}

/// The protected header of a signed request.
pub struct JwsProtected {
    alg: String,
    key: KeyBinding,
    nonce: String,
    url: String,
}

/// The mathematical value of a [`JwsProtected`].
pub struct JwsProtectedView {
    pub alg: Seq<char>,
    pub jwk: Option<JwkView>,
    pub kid: Option<Seq<char>>,
    pub nonce: Seq<char>,
    pub url: Seq<char>,
}

impl View for JwsProtected {
    type V = JwsProtectedView;

    closed spec fn view(&self) -> JwsProtectedView {
        JwsProtectedView {
            alg: self.alg@,
            jwk: match self.key {
                KeyBinding::Jwk(jwk) => Some(jwk@),
                KeyBinding::Kid(_) => None,
            },
            kid: match self.key {
                KeyBinding::Jwk(_) => None,
                KeyBinding::Kid(kid) => Some(kid@),
            },
            nonce: self.nonce@,
            url: self.url@,
        }
    }
}

/// The JSON text of a protected header: `alg`, then `jwk` or `kid`, then
/// `nonce` and `url`.
pub open spec fn protected_json_spec(header: JwsProtectedView) -> Seq<char> {
    "{\"alg\":"@ + quote_spec(header.alg) + (match header.jwk {
        Some(jwk) => ",\"jwk\":"@ + jwk_json_spec(jwk),
        None => ",\"kid\":"@ + quote_spec(header.kid.unwrap()),
    }) + ",\"nonce\":"@ + quote_spec(header.nonce) + ",\"url\":"@ + quote_spec(header.url)
        + "}"@
}

impl JwsProtected {
    /// The header of a request that is signed by a key which the server
    /// does not know yet: it carries the public key itself.
    pub fn new_jwk(jwk: Jwk, url: &str, nonce: String) -> (header: JwsProtected)
        ensures
            header@ == (JwsProtectedView {
                alg: "ES256"@,
                jwk: Some(jwk@),
                kid: None,
                nonce: nonce@,
                url: url@,
            }),
    {
        JwsProtected {
            alg: "ES256".to_owned(),
            key: KeyBinding::Jwk(jwk),
            nonce,
            url: url.to_owned(),
        }
    }

    /// The header of a request that is signed by an account which the
    /// server knows: it carries the key id.
    pub fn new_kid(kid: &str, url: &str, nonce: String) -> (header: JwsProtected)
        ensures
            header@ == (JwsProtectedView {
                alg: "ES256"@,
                jwk: None,
                kid: Some(kid@),
                nonce: nonce@,
                url: url@,
            }),
    {
        JwsProtected {
            alg: "ES256".to_owned(),
            key: KeyBinding::Kid(kid.to_owned()),
            nonce,
            url: url.to_owned(),
        }
    }

    /// A header names the key in exactly one way.
    pub proof fn lemma_one_key(self)
        ensures
            self@.jwk is Some <==> self@.kid is None,
    {
    }

    /// The JSON text of the header.
    pub fn to_json(&self) -> (text: String)
        ensures
            text@ == protected_json_spec(self@),
    {
        let mut out = String::new();
        push_member(&mut out, "{\"alg\":", self.alg.as_str());
        match &self.key {
            KeyBinding::Jwk(jwk) => {
                out.append(",\"jwk\":");
                let inner = jwk.to_json();
                out.append(inner.as_str());
            },
            KeyBinding::Kid(kid) => {
                push_member(&mut out, ",\"kid\":", kid.as_str());
            },
        }
        push_member(&mut out, ",\"nonce\":", self.nonce.as_str());
        push_member(&mut out, ",\"url\":", self.url.as_str());
        out.append("}");
        assert(out@ =~= protected_json_spec(self@));
        out
    }
}

/// A signed request in the flattened JSON serialization: each member is
/// base64url text.
pub struct Jws {
    pub(crate) protected: String,
    pub(crate) payload: String,
    pub(crate) signature: String,
}

/// The mathematical value of a [`Jws`].
pub struct JwsView {
    pub protected: Seq<char>,
    pub payload: Seq<char>,
    pub signature: Seq<char>,
}

impl View for Jws {
    type V = JwsView;

    closed spec fn view(&self) -> JwsView {
        JwsView { protected: self.protected@, payload: self.payload@, signature: self.signature@ }
    }
}

/// The bytes that are signed: the two encoded parts, joined by a dot.
pub open spec fn signing_input_spec(protected: Seq<char>, payload: Seq<char>) -> Seq<u8> {
    encode_utf8(protected + "."@ + payload)
}

/// Whether the signature of `jws` is 64 bytes (r, then s) that the key
/// with the point `public_point` accepts for the signing input.
pub open spec fn signature_holds(public_point: Seq<u8>, jws: JwsView) -> bool {
    match base64url_decode_spec(jws.signature) {
        Some(signature) => signature.len() == 64 && es256_accepts(
            public_point,
            signing_input_spec(jws.protected, jws.payload),
            signature,
        ),
        None => false,
    }
}

/// The JSON text of a signed request.
pub open spec fn jws_json_spec(jws: JwsView) -> Seq<char> {
    "{\"protected\":"@ + quote_spec(jws.protected) + ",\"payload\":"@ + quote_spec(jws.payload)
        + ",\"signature\":"@ + quote_spec(jws.signature) + "}"@
}

/// The bytes that are signed for the two encoded parts.
fn signing_input(protected: &String, payload: &String) -> (input: String)
    ensures
        encode_utf8(input@) == signing_input_spec(protected@, payload@),
{
    let mut input = protected.clone();
    input.append(".");
    input.append(payload.as_str());
    input
}

impl Jws {
    /// Puts a signed request together from its two encoded parts and from
    /// what the signer returned: the signature goes in in base64url, and a
    /// failure of the signer is handed on.
    pub fn sealed(protected: String, payload: String, signed: Result<Vec<u8>, Error>) -> (res:
        Result<Jws, Error>)
        ensures
            res is Ok <==> signed is Ok,
            res matches Ok(jws) ==> jws@ == (JwsView {
                protected: protected@,
                payload: payload@,
                signature: base64url_spec(signed->Ok_0@),
            }),
            res matches Err(e) ==> e@ == signed->Err_0@,
    {
        match signed {
            Ok(signature) => {
                let signature = base64url(signature.as_slice());
                Ok(Jws { protected, payload, signature })
            },
            Err(e) => Err(e),
        }
    }

    /// The protected header, in base64url.
    pub fn protected(&self) -> (text: &String)
        ensures
            text@ == self@.protected,
    {
        &self.protected
    }

    /// The payload, in base64url.
    pub fn payload(&self) -> (text: &String)
        ensures
            text@ == self@.payload,
    {
        &self.payload
    }

    /// The signature, in base64url.
    pub fn signature(&self) -> (text: &String)
        ensures
            text@ == self@.signature,
    {
        &self.signature
    }

    /// The JSON text of the request: the body of the POST.
    pub fn to_json(&self) -> (text: String)
        ensures
            text@ == jws_json_spec(self@),
    {
        let mut out = String::new();
        push_member(&mut out, "{\"protected\":", self.protected.as_str());
        push_member(&mut out, ",\"payload\":", self.payload.as_str());
        push_member(&mut out, ",\"signature\":", self.signature.as_str());
        out.append("}");
        assert(out@ =~= jws_json_spec(self@));
        out
    }
}

/// Signs a request: encodes the header and the payload, and signs the
/// two joined by a dot with the account key. The signature is one that the
/// public key of the account accepts.
///
/// The payload is the JSON text to send, or the empty string for a
/// POST-as-GET.
pub fn jws_sign(key: &AcmeKey, protected: &JwsProtected, payload: &str) -> (res: Result<Jws, Error>)
    ensures
        res matches Ok(jws) ==> {
            &&& matches_template(key.pkcs8())
            &&& jws@.protected == base64url_spec(encode_utf8(protected_json_spec(protected@)))
            &&& jws@.payload == base64url_spec(encode_utf8(payload@))
            &&& signature_holds(template_point(key.pkcs8()), jws@)
        },
        res matches Err(e) ==> e@ == (if matches_template(key.pkcs8()) {
            ErrorView::Signing
        } else {
            ErrorView::InvalidKey
        }),
{
    let header = protected.to_json();
    let protected = base64url(header.as_str().as_bytes());
    let payload = base64url(payload.as_bytes());
    let input = signing_input(&protected, &payload);
    let signed = key.sign_es256(input.as_str().as_bytes());
    proof {
        if signed is Ok {
            lemma_decode_encode(signed->Ok_0@);
        }
    }
    Jws::sealed(protected, payload, signed)
}

} // verus!
