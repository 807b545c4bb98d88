//! Authorizations and challenges: how control of a name is proved.

use std::sync::Arc;
use vstd::prelude::*;
use vstd::string::StringExecFns;
use vstd::utf8::encode_utf8;

use crate::acc::{share, AccountInner, AccountInnerView};
use crate::api::{
    first_of_type, ApiAuth, ApiAuthView, ApiChallenge, ApiChallengeView, AuthStatus,
    ChallengeStatus, ChallengeType,
};
use crate::cert::{create_acme_certificate, AcmeCertificate};
use crate::error::{Error, ErrorView};
use crate::jwt::{thumb_of, thumbprint_spec, JwkThumb};
use crate::order::{Action, ActionView, Event, Phase};
use crate::util::{base64url, base64url_spec, occurs_in, sha256, sha256_spec};

verus! {

/// An authorization ([ownership proof]) for a domain name.
///
/// Each authorization for an order must be progressed to a valid state
/// before the ACME API will issue a certificate.
pub struct Auth {
    inner: Arc<AccountInner>,
    api_auth: ApiAuth,
    auth_url: String,
}

/// The mathematical value of an [`Auth`].
pub struct AuthView {
    pub inner: AccountInnerView,
    pub api_auth: ApiAuthView,
    pub auth_url: Seq<char>,
}

impl View for Auth {
    type V = AuthView;

    closed spec fn view(&self) -> AuthView {
        AuthView { inner: (*self.inner)@, api_auth: self.api_auth@, auth_url: self.auth_url@ }
    }
}

/// The views of a list of authorizations.
pub open spec fn auths_view(auths: Seq<Auth>) -> Seq<AuthView> {
    auths.map_values(|a: Auth| a@)
}

/// A challenge of an authorization: one way to prove control of the name.
pub struct Challenge {
    inner: Arc<AccountInner>,
    api_challenge: ApiChallenge,
    auth_url: String,
    kind: ChallengeType,
}

/// The mathematical value of a [`Challenge`].
pub struct ChallengeView {
    pub inner: AccountInnerView,
    pub api_challenge: ApiChallengeView,
    pub auth_url: Seq<char>,
    pub kind: ChallengeType,
}

impl View for Challenge {
    type V = ChallengeView;

    closed spec fn view(&self) -> ChallengeView {
        ChallengeView {
            inner: (*self.inner)@,
            api_challenge: self.api_challenge@,
            auth_url: self.auth_url@,
            kind: self.kind,
        }
    }
}

/// How the server writes a kind of challenge.
pub open spec fn kind_name(kind: ChallengeType) -> Seq<char> {
    match kind {
        ChallengeType::Http01 => "http-01"@,
        ChallengeType::Dns01 => "dns-01"@,
        ChallengeType::TlsAlpn01 => "tls-alpn-01"@,
    }
}

/// The challenge of the given kind that an authorization offers: the
/// first of that kind in the server's list.
pub open spec fn challenge_of(auth: AuthView, kind: ChallengeType) -> Option<ChallengeView> {
    match first_of_type(auth.api_auth.challenges, kind_name(kind)) {
        Some(c) => Some(
            ChallengeView { inner: auth.inner, api_challenge: c, auth_url: auth.auth_url, kind },
        ),
        None => None,
    }
}

/// The key authorization of a challenge: the token, a dot, and the
/// thumbprint of the account key in base64url.
pub open spec fn key_authorization_spec(token: Seq<char>, thumbprint: Seq<u8>) -> Seq<char> {
    token + "."@ + base64url_spec(thumbprint)
}

/// The key authorization of a challenge of the account `inner`.
pub open spec fn key_authorization_of(c: ChallengeView) -> Seq<char> {
    key_authorization_spec(c.api_challenge.token, thumbprint_spec(thumb_of(c.inner.jwk)))
}

/// The digest of a key authorization, which a TLS-ALPN certificate
/// carries and of which a DNS record holds the base64url text.
pub open spec fn proof_digest(key_authorization: Seq<char>) -> Seq<u8> {
    sha256_spec(encode_utf8(key_authorization))
}

/// The key authorization for a token and the thumbprint of the account
/// key.
pub fn key_authorization(token: &str, thumbprint: &[u8]) -> (proof: String)
    ensures
        proof@ == key_authorization_spec(token@, thumbprint@),
{
    let mut proof = token.to_owned();
    proof.append(".");
    proof.append(base64url(thumbprint).as_str());
    proof
}

/// The value of the `TXT` record that proves a key authorization: its
/// digest in base64url.
pub fn dns_txt_value(key_authorization: &str) -> (value: String)
    ensures
        value@ == base64url_spec(proof_digest(key_authorization@)),
{
    let digest = sha256(key_authorization.as_bytes());
    base64url(digest.as_slice())
}

impl Auth {
    /// The authorization that was fetched from `auth_url`.
    pub fn new(inner: &Arc<AccountInner>, api_auth: ApiAuth, auth_url: &str) -> (auth: Auth)
        ensures
            auth@ == (AuthView { inner: (**inner)@, api_auth: api_auth@, auth_url: auth_url@ }),
    {
        Auth { inner: share(inner), api_auth, auth_url: auth_url.to_owned() }
    }

    /// Domain name for this authorization.
    pub fn domain_name(&self) -> (name: &str)
        ensures
            name@ == self@.api_auth.identifier.value,
    {
        self.api_auth.identifier.value.as_str()
    }

    /// The name of the `TXT` record that a dns challenge is answered
    /// under: `_acme-challenge.` and the domain name.
    pub fn dns_record_name(&self) -> (name: String)
        ensures
            name@ == "_acme-challenge."@ + self@.api_auth.identifier.value,
    {
        let mut name = "_acme-challenge.".to_owned();
        name.append(self.api_auth.identifier.value.as_str());
        name
    }

    /// Whether we actually need to do the authorization. This might not be
    /// needed if we have proven ownership of the domain recently.
    pub fn need_challenge(&self) -> (need: bool)
        ensures
            need == (self@.api_auth.status != Some(AuthStatus::Valid)),
    {
        !self.api_auth.is_status_valid()
    }

    /// The challenge of the given kind, if the server offers one.
    fn challenge(&self, kind: ChallengeType) -> (found: Option<Challenge>)
        ensures
            found is Some <==> challenge_of(self@, kind) is Some,
            found matches Some(c) ==> Some(c@) == challenge_of(self@, kind),
    {
        let name = match kind {
            ChallengeType::Http01 => "http-01",
            ChallengeType::Dns01 => "dns-01",
            ChallengeType::TlsAlpn01 => "tls-alpn-01",
        };
        match self.api_auth.challenge_of_type(name) {
            Some(api_challenge) => Some(
                Challenge {
                    inner: share(&self.inner),
                    api_challenge: api_challenge.duplicate(),
                    auth_url: self.auth_url.clone(),
                    kind,
                },
            ),
            None => None,
        }
    }

    /// Get the http challenge.
    ///
    /// The http challenge must be placed so it is accessible under:
    ///
    /// ```text
    /// http://<domain-to-be-proven>/.well-known/acme-challenge/<token>
    /// ```
    pub fn http_challenge(&self) -> (found: Option<Challenge>)
        ensures
            found is Some <==> challenge_of(self@, ChallengeType::Http01) is Some,
            found matches Some(c) ==> Some(c@) == challenge_of(self@, ChallengeType::Http01),
    {
        self.challenge(ChallengeType::Http01)
    }

    /// Get the dns challenge.
    ///
    /// The dns challenge is a `TXT` record that must be created under:
    ///
    /// ```text
    /// _acme-challenge.<domain-to-be-proven>.  TXT  <proof>
    /// ```
    pub fn dns_challenge(&self) -> (found: Option<Challenge>)
        ensures
            found is Some <==> challenge_of(self@, ChallengeType::Dns01) is Some,
            found matches Some(c) ==> Some(c@) == challenge_of(self@, ChallengeType::Dns01),
    {
        self.challenge(ChallengeType::Dns01)
    }

    /// Get the TLS ALPN challenge.
    ///
    /// The TLS ALPN challenge is a certificate that must be served when a
    /// request is made for the ALPN protocol "acme-tls/1".
    pub fn tls_alpn_challenge(&self) -> (found: Option<Challenge>)
        ensures
            found is Some <==> challenge_of(self@, ChallengeType::TlsAlpn01) is Some,
            found matches Some(c) ==> Some(c@) == challenge_of(self@, ChallengeType::TlsAlpn01),
    {
        self.challenge(ChallengeType::TlsAlpn01)
    }

    /// Access the underlying JSON object for debugging.
    pub fn api_auth(&self) -> (api_auth: &ApiAuth)
        ensures
            api_auth@ == self@.api_auth,
    {
        &self.api_auth
    }

    /// The URL that the authorization was fetched from.
    pub fn auth_url(&self) -> (url: &String)
        ensures
            url@ == self@.auth_url,
    {
        &self.auth_url
    }
}

/// The flow that has a challenge validated: the server is told that the
/// proof is in place, then the authorization is asked for until it is no
/// longer `pending`.
pub struct Validating {
    auth_url: String,
    delay_millis: u64,
    polls_left: u32,
    phase: Phase,
}

/// The mathematical value of a [`Validating`].
pub struct ValidatingView {
    pub auth_url: Seq<char>,
    pub delay_millis: u64,
    /// How many more times the authorization may be found `pending`.
    pub polls_left: nat,
    pub phase: Phase,
}

impl View for Validating {
    type V = ValidatingView;

    closed spec fn view(&self) -> ValidatingView {
        ValidatingView {
            auth_url: self.auth_url@,
            delay_millis: self.delay_millis,
            polls_left: self.polls_left as nat,
            phase: self.phase,
        }
    }
}

/// How the flow goes on.
pub enum ValidateStep {
    /// The caller is to perform the action and hand the event to the flow.
    Go(Validating, Action),
    /// Control of the name has been proved.
    Done,
    /// The flow has failed.
    Failed(Error),
}

/// The mathematical value of a [`ValidateStep`].
pub enum ValidateStepView {
    Go(ValidatingView, ActionView),
    Done,
    Failed(ErrorView),
}

impl View for ValidateStep {
    type V = ValidateStepView;

    open spec fn view(&self) -> ValidateStepView {
        match self {
            ValidateStep::Go(f, a) => ValidateStepView::Go(f@, a@),
            ValidateStep::Done => ValidateStepView::Done,
            ValidateStep::Failed(e) => ValidateStepView::Failed(e@),
        }
    }
}

/// The mathematical value of an [`Event`] that brings an authorization.
pub enum AuthEventView {
    Called(Result<(), ErrorView>),
    Fetched(Result<ApiAuthView, ErrorView>),
    Woke,
}

/// The view of an event that brings an authorization.
pub open spec fn auth_event_view(event: Event<ApiAuth>) -> AuthEventView {
    match event {
        Event::Called(Ok(_)) => AuthEventView::Called(Ok(())),
        Event::Called(Err(e)) => AuthEventView::Called(Err(e@)),
        Event::Fetched(Ok(doc)) => AuthEventView::Fetched(Ok(doc@)),
        Event::Fetched(Err(e)) => AuthEventView::Fetched(Err(e@)),
        Event::Woke => AuthEventView::Woke,
    }
}

/// How a validation begins: an empty JSON object is posted to the URL of
/// the challenge, which tells the server to look for the proof.
pub open spec fn validate_begun(c: ChallengeView, delay_millis: u64, max_polls: u32) -> ValidateStepView {
    ValidateStepView::Go(
        ValidatingView {
            auth_url: c.auth_url,
            delay_millis,
            polls_left: max_polls as nat,
            phase: Phase::Submitting,
        },
        ActionView::Call { url: c.api_challenge.url, payload: "{}"@ },
    )
}

/// What is done for an authorization that was fetched while the server
/// validates: while it is `pending`, wait and ask again, as many times as
/// are left; once it is `valid`, the name is proved; any other status is
/// the end of it.
pub open spec fn wait_for_auth_status(f: ValidatingView, status: Option<AuthStatus>) -> ValidateStepView {
    match status {
        Some(AuthStatus::Pending) => if f.polls_left == 0 {
            ValidateStepView::Failed(ErrorView::TooManyAttempts)
        } else {
            ValidateStepView::Go(
                ValidatingView {
                    polls_left: (f.polls_left - 1) as nat,
                    phase: Phase::Sleeping,
                    ..f
                },
                ActionView::Sleep { millis: f.delay_millis },
            )
        },
        Some(AuthStatus::Valid) => ValidateStepView::Done,
        status => ValidateStepView::Failed(ErrorView::Authorization(status)),
    }
}

/// How the flow that validates a challenge goes on for an event.
pub open spec fn validate_stepped(f: ValidatingView, event: AuthEventView) -> ValidateStepView {
    match (f.phase, event) {
        (Phase::Submitting, AuthEventView::Called(Ok(_))) => ValidateStepView::Go(
            ValidatingView { phase: Phase::Fetching, ..f },
            ActionView::Fetch { url: f.auth_url },
        ),
        (Phase::Submitting, AuthEventView::Called(Err(e))) => ValidateStepView::Failed(e),
        (Phase::Fetching, AuthEventView::Fetched(Ok(auth))) => wait_for_auth_status(
            f,
            auth.status,
        ),
        (Phase::Fetching, AuthEventView::Fetched(Err(e))) => ValidateStepView::Failed(e),
        (Phase::Sleeping, AuthEventView::Woke) => ValidateStepView::Go(
            ValidatingView { phase: Phase::Fetching, ..f },
            ActionView::Fetch { url: f.auth_url },
        ),
        _ => ValidateStepView::Failed(ErrorView::NotWaiting),
    }
}

/// What is to be put in place for a challenge, so that the server finds
/// the proof: which responder it is for, and what that responder is given.
pub enum Presentation {
    /// Serve `key_authorization` on the web server of `domain`, under
    /// `/.well-known/acme-challenge/` and `token`.
    Http01 { domain: String, token: String, key_authorization: String },
    /// Publish `txt_record` as a `TXT` record of `_acme-challenge.` and
    /// `domain`.
    Dns01 { domain: String, txt_record: String },
    /// Serve the certificate for `domain` where `acme-tls/1` is negotiated.
    TlsAlpn01 { domain: String, certificate_der: Vec<u8>, private_key_der: Vec<u8> },
}

/// The mathematical value of a [`Presentation`].
pub enum PresentationView {
    Http01 { domain: Seq<char>, token: Seq<char>, key_authorization: Seq<char> },
    Dns01 { domain: Seq<char>, txt_record: Seq<char> },
    TlsAlpn01 { domain: Seq<char>, certificate_der: Seq<u8>, private_key_der: Seq<u8> },
}

impl View for Presentation {
    type V = PresentationView;

    open spec fn view(&self) -> PresentationView {
        match self {
            Presentation::Http01 { domain, token, key_authorization } => PresentationView::Http01 {
                domain: domain@,
                token: token@,
                key_authorization: key_authorization@,
            },
            Presentation::Dns01 { domain, txt_record } => PresentationView::Dns01 {
                domain: domain@,
                txt_record: txt_record@,
            },
            Presentation::TlsAlpn01 {
                domain,
                certificate_der,
                private_key_der,
            } => PresentationView::TlsAlpn01 {
                domain: domain@,
                certificate_der: certificate_der@,
                private_key_der: private_key_der@,
            },
        }
    }
}

impl Presentation {
    /// What is put in place for a TLS ALPN challenge on `domain`, for what
    /// making the certificate gave: the certificate with its key, or the
    /// failure to make it.
    pub fn tls_alpn(domain: &str, made: Result<AcmeCertificate, Error>) -> (res: Result<
        Presentation,
        Error,
    >)
        ensures
            res is Ok <==> made is Ok,
            res matches Ok(p) ==> p@ == (PresentationView::TlsAlpn01 {
                domain: domain@,
                certificate_der: made->Ok_0.certificate_der@,
                private_key_der: made->Ok_0.private_key_der@,
            }),
            res matches Err(e) ==> e@ == made->Err_0@,
    {
        match made {
            Ok(cert) => Ok(
                Presentation::TlsAlpn01 {
                    domain: domain.to_owned(),
                    certificate_der: cert.certificate_der,
                    private_key_der: cert.private_key_der,
                },
            ),
            Err(e) => Err(e),
        }
    }
}

/// Whether `p` is what a challenge asks to be put in place for `domain`:
/// the responder is that of the challenge's kind, and it is given the
/// proof of that kind. The certificate of a TLS ALPN challenge holds the
/// bytes of the domain and of the digest of the key authorization.
pub open spec fn presents(c: ChallengeView, domain: Seq<char>, p: PresentationView) -> bool {
    match c.kind {
        ChallengeType::Http01 => p == (PresentationView::Http01 {
            domain,
            token: c.api_challenge.token,
            key_authorization: key_authorization_of(c),
        }),
        ChallengeType::Dns01 => p == (PresentationView::Dns01 {
            domain,
            txt_record: base64url_spec(proof_digest(key_authorization_of(c))),
        }),
        ChallengeType::TlsAlpn01 => {
            &&& p matches PresentationView::TlsAlpn01 { domain: d, certificate_der, .. }
            &&& d == domain
            &&& occurs_in(encode_utf8(domain), certificate_der)
            &&& occurs_in(proof_digest(key_authorization_of(c)), certificate_der)
        },
    }
}

impl Challenge {
    /// The kind of the challenge.
    pub fn kind(&self) -> (kind: ChallengeType)
        ensures
            kind == self@.kind,
    {
        self.kind
    }

    /// The token of the challenge. For an http challenge it is the last
    /// part of the path that the proof is served under.
    pub fn token(&self) -> (token: &str)
        ensures
            token@ == self@.api_challenge.token,
    {
        self.api_challenge.token.as_str()
    }

    /// The key authorization: the token, a dot, and the thumbprint of the
    /// account key in base64url.
    pub fn key_authorization(&self) -> (proof: String)
        ensures
            proof@ == key_authorization_of(self@),
    {
        let thumb = JwkThumb::from(self.inner.jwk());
        let digest = thumb.digest();
        key_authorization(self.api_challenge.token.as_str(), digest.as_slice())
    }

    /// The proof of an http challenge: the key authorization, which is to
    /// be served as the body under the challenge's path.
    pub fn http_proof(&self) -> (proof: String)
        ensures
            proof@ == key_authorization_of(self@),
    {
        self.key_authorization()
    }

    /// The path that the proof of an http challenge is served under:
    /// `/.well-known/acme-challenge/` and the token.
    pub fn http_path(&self) -> (path: String)
        ensures
            path@ == "/.well-known/acme-challenge/"@ + self@.api_challenge.token,
    {
        let mut path = "/.well-known/acme-challenge/".to_owned();
        path.append(self.api_challenge.token.as_str());
        path
    }

    /// The certificate that answers a TLS ALPN challenge for `domain`: it
    /// is self-signed and carries the proof in its `acmeIdentifier`
    /// extension. It is to be served where the protocol `acme-tls/1` is
    /// negotiated.
    pub fn tls_alpn_certificate(&self, domain: &str) -> (res: Result<AcmeCertificate, Error>)
        ensures
            res matches Ok(cert) ==> occurs_in(encode_utf8(domain@), cert.certificate_der@)
                && occurs_in(proof_digest(key_authorization_of(self@)), cert.certificate_der@),
            res matches Err(e) ==> e@ == ErrorView::Csr,
    {
        let digest = self.tls_alpn_proof();
        create_acme_certificate(domain, digest.as_slice())
    }

    /// The proof of a dns challenge: the digest of the key authorization
    /// in base64url, which is the value of the `TXT` record.
    pub fn dns_proof(&self) -> (proof: String)
        ensures
            proof@ == base64url_spec(proof_digest(key_authorization_of(self@))),
    {
        let key_authorization = self.key_authorization();
        dns_txt_value(key_authorization.as_str())
    }

    /// The proof of a TLS ALPN challenge: the digest of the key
    /// authorization, which the served certificate carries.
    pub fn tls_alpn_proof(&self) -> (proof: Vec<u8>)
        ensures
            proof@ == proof_digest(key_authorization_of(self@)),
            proof@.len() == 32,
    {
        let key_authorization = self.key_authorization();
        sha256(key_authorization.as_str().as_bytes())
    }

    /// What is to be put in place for this challenge on `domain`, and by
    /// which responder. A challenge over http or dns always has it; for a
    /// TLS ALPN challenge the certificate has to be made first.
    pub fn presentation(&self, domain: &str) -> (res: Result<Presentation, Error>)
        ensures
            self@.kind != ChallengeType::TlsAlpn01 ==> res is Ok,
            res matches Ok(p) ==> presents(self@, domain@, p@),
            res matches Err(e) ==> e@ == ErrorView::Csr,
    {
        match self.kind {
            ChallengeType::Http01 => Ok(
                Presentation::Http01 {
                    domain: domain.to_owned(),
                    token: self.api_challenge.token.clone(),
                    key_authorization: self.http_proof(),
                },
            ),
            ChallengeType::Dns01 => Ok(
                Presentation::Dns01 { domain: domain.to_owned(), txt_record: self.dns_proof() },
            ),
            ChallengeType::TlsAlpn01 => Presentation::tls_alpn(
                domain,
                self.tls_alpn_certificate(domain),
            ),
        }
    }

    /// Check whether this challenge really needs validation. It might
    /// already have been done in a previous order for the same account.
    pub fn need_validate(&self) -> (need: bool)
        ensures
            need == (self@.api_challenge.status == Some(ChallengeStatus::Pending)),
    {
        matches!(self.api_challenge.status, Some(ChallengeStatus::Pending))
    }

    /// Tell the ACME API to attempt validating the proof of this
    /// challenge.
    ///
    /// The user must first update the DNS record or HTTP web server
    /// depending on the type challenge being validated. The authorization
    /// is then asked for every `delay_millis`, and is found `pending` at
    /// most `max_polls` times before the flow gives up.
    pub fn validate(self, delay_millis: u64, max_polls: u32) -> (step: ValidateStep)
        ensures
            step@ == validate_begun(self@, delay_millis, max_polls),
    {
        let flow = Validating {
            auth_url: self.auth_url,
            delay_millis,
            polls_left: max_polls,
            phase: Phase::Submitting,
        };
        let url = self.api_challenge.url;
        ValidateStep::Go(flow, Action::Call { url, payload: "{}".to_owned() })
    }

    /// Access the underlying JSON object for debugging.
    pub fn api_challenge(&self) -> (api_challenge: &ApiChallenge)
        ensures
            api_challenge@ == self@.api_challenge,
    {
        &self.api_challenge
    }
}

impl Validating {
    /// Goes on with the flow, now that the event of the last action is
    /// there.
    pub fn step(self, event: Event<ApiAuth>) -> (step: ValidateStep)
        ensures
            step@ == validate_stepped(self@, auth_event_view(event)),
    {
        let mut flow = self;
        match (flow.phase, event) {
            (Phase::Submitting, Event::Called(Ok(_))) => {
                flow.phase = Phase::Fetching;
                let url = flow.auth_url.clone();
                ValidateStep::Go(flow, Action::Fetch { url })
            },
            (Phase::Submitting, Event::Called(Err(e))) => ValidateStep::Failed(e),
            (Phase::Fetching, Event::Fetched(Ok(auth))) => {
                if auth.is_status_pending() {
                    if flow.polls_left == 0 {
                        return ValidateStep::Failed(Error::TooManyAttempts);
                    }
                    flow.polls_left = flow.polls_left - 1;
                    flow.phase = Phase::Sleeping;
                    let millis: u64 = flow.delay_millis;
                    ValidateStep::Go(flow, Action::Sleep { millis })
                } else if auth.is_status_valid() {
                    ValidateStep::Done
                } else {
                    ValidateStep::Failed(Error::Authorization(auth.status))
                }
            },
            (Phase::Fetching, Event::Fetched(Err(e))) => ValidateStep::Failed(e),
            (Phase::Sleeping, Event::Woke) => {
                flow.phase = Phase::Fetching;
                let url = flow.auth_url.clone();
                ValidateStep::Go(flow, Action::Fetch { url })
            },
            _ => ValidateStep::Failed(Error::NotWaiting),
        }
    }
}

} // verus!
