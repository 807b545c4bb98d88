//! The signed request layer: the nonce that each request consumes, and the
//! one retry that a refused nonce is worth.
//!
//! Nothing here touches the network. A request is a [`Call`]; the caller
//! sends what a [`Step`] holds and hands the reply to [`Transport::resume`].

use vstd::prelude::*;
use vstd::utf8::encode_utf8;

use crate::acc::AcmeKey;
use crate::api::{ApiProblem, ApiProblemView};
use crate::error::{Error, ErrorView};
use crate::jwt::{
    jws_json_spec, jws_sign, matches_template, p256_jwk, protected_json_spec, signature_holds,
    template_point, template_x, template_y, Jwk, Jws, JwsProtected, JwsProtectedView, JwsView,
};
use crate::req::{
    ascii_text, first_header, handled, is_visible, missing_header, parsed_view, req_expect_header,
    req_handle_error, HttpResponse, HttpResponseView,
};
use crate::util::base64url_spec;

verus! {

/// The nonce that the next request will use, if one is at hand.
///
/// The pool keeps a record, for proofs only, of every nonce that it was
/// offered and of which of them it has handed out.
pub struct NoncePool {
    nonce: Option<String>,
    received: Ghost<Seq<Seq<char>>>,
    held: Ghost<Option<nat>>,
    spent: Ghost<Seq<nat>>,
}

/// The mathematical value of a [`NoncePool`].
pub struct NoncePoolView {
    /// The nonce at hand.
    pub nonce: Option<Seq<char>>,
    /// Every nonce that the pool was offered, in the order of arrival.
    pub received: Seq<Seq<char>>,
    /// Which of them is at hand: its place in `received`.
    pub held: Option<nat>,
    /// Which of them have been handed out, in that order.
    pub spent: Seq<nat>,
}

impl View for NoncePool {
    type V = NoncePoolView;

    closed spec fn view(&self) -> NoncePoolView {
        NoncePoolView {
            nonce: match self.nonce {
                Some(n) => Some(n@),
                None => None,
            },
            received: self.received@,
            held: self.held@,
            spent: self.spent@,
        }
    }
}

/// What holds of every pool: the nonce at hand is the one that `held`
/// names, it has not been handed out, and what has been handed out was
/// handed out in the order of arrival, each nonce once.
pub open spec fn pool_valid(p: NoncePoolView) -> bool {
    &&& p.held is Some <==> p.nonce is Some
    &&& p.held matches Some(h) ==> {
        &&& h < p.received.len()
        &&& p.nonce == Some(p.received[h as int])
        &&& forall|i: int| 0 <= i < p.spent.len() ==> p.spent[i] < h
    }
    &&& forall|i: int| 0 <= i < p.spent.len() ==> p.spent[i] < p.received.len()
    &&& forall|i: int, j: int| 0 <= i < j < p.spent.len() ==> p.spent[i] < p.spent[j]
}

/// A pool that no nonce has come to yet.
pub open spec fn empty_pool() -> NoncePoolView {
    NoncePoolView { nonce: None, received: Seq::empty(), held: None, spent: Seq::empty() }
}

/// The pool once it was offered `nonce`: the nonce is at hand, in the
/// place of an older one.
pub open spec fn offered(p: NoncePoolView, nonce: Seq<char>) -> NoncePoolView {
    NoncePoolView {
        nonce: Some(nonce),
        received: p.received.push(nonce),
        held: Some(p.received.len()),
        spent: p.spent,
    }
}

/// The pool once its nonce was handed out.
pub open spec fn taken(p: NoncePoolView) -> NoncePoolView {
    NoncePoolView {
        nonce: None,
        received: p.received,
        held: None,
        spent: match p.held {
            Some(h) => p.spent.push(h),
            None => p.spent,
        },
    }
}

/// The pool once its nonce was thrown away.
pub open spec fn discarded(p: NoncePoolView) -> NoncePoolView {
    NoncePoolView { nonce: None, held: None, ..p }
}

impl NoncePool {
    #[verifier::type_invariant]
    closed spec fn wf(&self) -> bool {
        pool_valid(self@)
    }

    /// A pool without a nonce.
    pub fn new() -> (pool: NoncePool)
        ensures
            pool@ == empty_pool(),
            pool_valid(pool@),
    {
        NoncePool {
            nonce: None,
            received: Ghost(Seq::empty()),
            held: Ghost(None),
            spent: Ghost(Seq::empty()),
        }
    }

    /// Hands out the nonce, if there is one. It is gone from the pool.
    pub fn take(&mut self) -> (nonce: Option<String>)
        ensures
            nonce is Some <==> old(self)@.nonce is Some,
            nonce matches Some(n) ==> Some(n@) == old(self)@.nonce,
            final(self)@ == taken(old(self)@),
            pool_valid(old(self)@),
            pool_valid(final(self)@),
    {
        proof {
            use_type_invariant(&*self);
        }
        let ghost spent = match self.held@ {
            Some(h) => self.spent@.push(h),
            None => self.spent@,
        };
        let mut other = NoncePool {
            nonce: None,
            received: Ghost(self.received@),
            held: Ghost(None),
            spent: Ghost(spent),
        };
        std::mem::swap(self, &mut other);
        other.nonce
    }

    /// Stores a nonce that a response brought. It takes the place of an
    /// older one.
    pub fn offer(&mut self, nonce: String)
        ensures
            final(self)@ == offered(old(self)@, nonce@),
            pool_valid(old(self)@),
            pool_valid(final(self)@),
    {
        proof {
            use_type_invariant(&*self);
        }
        *self = NoncePool {
            nonce: Some(nonce),
            received: Ghost(self.received@.push(nonce@)),
            held: Ghost(Some(self.received@.len())),
            spent: Ghost(self.spent@),
        };
    }

    /// Throws the nonce away.
    pub fn discard(&mut self)
        ensures
            final(self)@ == discarded(old(self)@),
            pool_valid(old(self)@),
            pool_valid(final(self)@),
    {
        proof {
            use_type_invariant(&*self);
        }
        *self = NoncePool {
            nonce: None,
            received: Ghost(self.received@),
            held: Ghost(None),
            spent: Ghost(self.spent@),
        };
    }

    /// Whether a nonce is at hand.
    pub fn is_empty(&self) -> (empty: bool)
        ensures
            empty == (self@.nonce is None),
            pool_valid(self@),
    {
        proof {
            use_type_invariant(self);
        }
        self.nonce.is_none()
    }
}

/// No nonce is handed out twice: what a pool has handed out are different
/// arrivals, one for one.
pub proof fn lemma_nonce_single_use(p: NoncePoolView)
    requires
        pool_valid(p),
    ensures
        forall|i: int, j: int| 0 <= i < p.spent.len() && 0 <= j < p.spent.len() && i != j
            ==> p.spent[i] != p.spent[j],
{
    assert forall|i: int, j: int| 0 <= i < p.spent.len() && 0 <= j < p.spent.len() && i
        != j implies p.spent[i] != p.spent[j] by {
        if i < j {
            assert(p.spent[i] < p.spent[j]);
        } else {
            assert(p.spent[j] < p.spent[i]);
        }
    }
}

/// A nonce that was handed out is gone: until another nonce arrives, the
/// pool hands out nothing.
pub proof fn lemma_taken_is_gone(p: NoncePoolView)
    requires
        pool_valid(p),
    ensures
        taken(p).nonce is None,
        taken(taken(p)) == taken(p),
        pool_valid(taken(p)),
        pool_valid(discarded(p)),
        forall|nonce: Seq<char>| pool_valid(#[trigger] offered(p, nonce)),
{
}

/// Whether the pool `later` is a later state of the pool `earlier`: what
/// had arrived and what had been handed out is still there, in the same
/// places, and more may have come after it.
pub open spec fn pool_follows(earlier: NoncePoolView, later: NoncePoolView) -> bool {
    &&& earlier.received.len() <= later.received.len()
    &&& forall|i: int| 0 <= i < earlier.received.len() ==> earlier.received[i] == later.received[i]
    &&& earlier.spent.len() <= later.spent.len()
    &&& forall|i: int| 0 <= i < earlier.spent.len() ==> earlier.spent[i] == later.spent[i]
}

/// Whether one nonce was handed out between the pool `before` and the
/// pool `after`, as it is for every signed request.
pub open spec fn spends_one(before: NoncePoolView, after: NoncePoolView) -> bool {
    pool_follows(before, after) && after.spent.len() == before.spent.len() + 1
}

/// Whatever is done with a pool leads to a later state of it.
pub proof fn lemma_pool_moves_forward(p: NoncePoolView, nonce: Seq<char>)
    requires
        pool_valid(p),
    ensures
        pool_follows(p, p),
        pool_follows(p, offered(p, nonce)),
        pool_follows(p, taken(p)),
        pool_follows(p, discarded(p)),
        p.nonce is Some ==> spends_one(p, taken(p)),
{
}

/// Over a whole session, no two signed requests share a nonce. `pools`
/// holds the states of the pool in the course of the session, each a later
/// state of the one before. Where a nonce is handed out at the step `k` and
/// another at a later step `m`, the two are different arrivals, and each is
/// to the end of the session the nonce that it was when it was handed out.
pub proof fn lemma_session_single_use(pools: Seq<NoncePoolView>, k: int, m: int)
    requires
        forall|i: int| 0 <= i < pools.len() ==> pool_valid(#[trigger] pools[i]),
        forall|i: int| 0 <= i < pools.len() - 1 ==> pool_follows(#[trigger] pools[i], pools[i + 1]),
        0 <= k < m < pools.len() - 1,
        spends_one(pools[k], pools[k + 1]),
        spends_one(pools[m], pools[m + 1]),
    ensures
        pools[k + 1].spent.last() != pools[m + 1].spent.last(),
        pool_follows(pools[k + 1], pools.last()),
        pool_follows(pools[m + 1], pools.last()),
        pools.last().received[pools[k + 1].spent.last() as int] == pools[k + 1].received[pools[k
            + 1].spent.last() as int],
        pools.last().received[pools[m + 1].spent.last() as int] == pools[m + 1].received[pools[m
            + 1].spent.last() as int],
{
    lemma_follows_along(pools, k + 1, m);
    lemma_follows_along(pools, k + 1, m + 1);
    lemma_follows_along(pools, k + 1, pools.len() - 1);
    lemma_follows_along(pools, m + 1, pools.len() - 1);
    let at_k = pools[k + 1].spent.len() - 1;
    let at_m = pools[m + 1].spent.len() - 1;
    assert(pools[m + 1].spent[at_k] == pools[k + 1].spent[at_k]);
    assert(at_k < at_m);
    assert(pools[m + 1].spent[at_k] < pools[m + 1].spent[at_m]);
}

/// Later states of a pool follow one another all along a session.
pub proof fn lemma_follows_along(pools: Seq<NoncePoolView>, i: int, j: int)
    requires
        forall|n: int| 0 <= n < pools.len() - 1 ==> pool_follows(#[trigger] pools[n], pools[n + 1]),
        0 <= i <= j < pools.len(),
    ensures
        pool_follows(pools[i], pools[j]),
    decreases j - i,
{
    if i < j {
        lemma_follows_along(pools, i, j - 1);
        assert(pool_follows(pools[j - 1], pools[j]));
    }
}

/// How a request is made.
#[derive(Clone, Copy, Debug, PartialEq, Eq, Structural)]
pub enum Method {
    Get,
    Head,
    Post,
}

/// A request for the transport to send. A POST is sent with the content
/// type `application/jose+json`.
#[derive(Clone, Debug, PartialEq, Eq)]
pub struct HttpRequest {
    pub method: Method,
    pub url: String,
    pub body: String,
}

/// The mathematical value of an [`HttpRequest`].
pub struct HttpRequestView {
    pub method: Method,
    pub url: Seq<char>,
    pub body: Seq<char>,
}

impl View for HttpRequest {
    type V = HttpRequestView;

    open spec fn view(&self) -> HttpRequestView {
        HttpRequestView { method: self.method, url: self.url@, body: self.body@ }
    }
}

impl HttpRequest {
    /// The content type that the request is sent with, if it has a body.
    pub fn content_type(&self) -> (kind: Option<&'static str>)
        ensures
            kind is Some <==> self.method == Method::Post,
            kind matches Some(k) ==> k@ == "application/jose+json"@,
    {
        match self.method {
            Method::Post => Some("application/jose+json"),
            _ => None,
        }
    }
}

/// What the transport made of a request: a response, or the reason why
/// there is none (a timeout, a failure of TLS).
pub enum Reply {
    /// A response, with what the caller's JSON reader made of its body,
    /// read as a problem document.
    Response(HttpResponse, Result<ApiProblem, String>),
    /// No response.
    Failed(String),
}

/// The mathematical value of a [`Reply`].
pub enum ReplyView {
    Response(HttpResponseView, Result<ApiProblemView, Seq<char>>),
    Failed(Seq<char>),
}

impl View for Reply {
    type V = ReplyView;

    open spec fn view(&self) -> ReplyView {
        match self {
            Reply::Response(res, parsed) => ReplyView::Response(res@, parsed_view(*parsed)),
            Reply::Failed(reason) => ReplyView::Failed(reason@),
        }
    }
}

/// What is to be done next for a request.
pub enum Step {
    /// Send this, and resume with the reply.
    Send(HttpRequest),
    /// The server has answered the request.
    Done(HttpResponse),
    /// The request has failed.
    Failed(Error),
}

/// The mathematical value of a [`Step`].
pub enum StepView {
    Send(HttpRequestView),
    Done(HttpResponseView),
    Failed(ErrorView),
}

impl View for Step {
    type V = StepView;

    open spec fn view(&self) -> StepView {
        match self {
            Step::Send(req) => StepView::Send(req@),
            Step::Done(res) => StepView::Done(res@),
            Step::Failed(e) => StepView::Failed(e@),
        }
    }
}

/// What a request waits for.
#[derive(Clone, Copy, Debug, PartialEq, Eq, Structural)]
pub enum Waiting {
    /// The reply to the HEAD that fetches a nonce.
    ForNonce,
    /// The reply to the signed POST.
    ForReply,
    /// Nothing: the request is over.
    Nothing,
}

/// One request to the server: a POST, or a POST-as-GET where the payload
/// is empty.
pub struct Call {
    url: String,
    payload: String,
    posts: u8,
    waiting: Waiting,
}

/// The mathematical value of a [`Call`].
pub struct CallView {
    pub url: Seq<char>,
    pub payload: Seq<char>,
    /// How many times the request has been posted.
    pub posts: nat,
    pub waiting: Waiting,
}

impl View for Call {
    type V = CallView;

    closed spec fn view(&self) -> CallView {
        CallView {
            url: self.url@,
            payload: self.payload@,
            posts: self.posts as nat,
            waiting: self.waiting,
        }
    }
}

/// What a reply to a signed POST leads to.
pub enum Verdict {
    /// The server has answered the request.
    Done(HttpResponse),
    /// The request has failed for good.
    Failed(ApiProblem),
    /// The nonce was refused: the request is sent once more, with the
    /// fresh nonce that the refusal brought, which is in the pool.
    Retry,
    /// The nonce was refused, and the refusal brought no other: the
    /// request is sent once more when a nonce has been fetched.
    FetchAndRetry,
}

/// The mathematical value of a [`Verdict`].
pub enum VerdictView {
    Done(HttpResponseView),
    Failed(ApiProblemView),
    Retry,
    FetchAndRetry,
}

impl View for Verdict {
    type V = VerdictView;

    open spec fn view(&self) -> VerdictView {
        match self {
            Verdict::Done(res) => VerdictView::Done(res@),
            Verdict::Failed(p) => VerdictView::Failed(p@),
            Verdict::Retry => VerdictView::Retry,
            Verdict::FetchAndRetry => VerdictView::FetchAndRetry,
        }
    }
}

/// The problem type by which a server refuses a nonce.
pub open spec fn is_bad_nonce(problem: ApiProblemView) -> bool {
    problem._type == "urn:ietf:params:acme:error:badNonce"@
}

/// The nonce that a response brings in its `Replay-Nonce` header.
pub open spec fn fresh_nonce(res: HttpResponseView) -> Option<Seq<char>> {
    match first_header(res.headers, "replay-nonce"@) {
        Some(v) => if is_visible(v) {
            Some(ascii_text(v))
        } else {
            None
        },
        None => None,
    }
}

/// The pool once a response has been looked at: the nonce of the
/// response is at hand; where the response brings none, the pool is as it
/// was.
pub open spec fn refilled(pool: NoncePoolView, res: HttpResponseView) -> NoncePoolView {
    match fresh_nonce(res) {
        Some(n) => offered(pool, n),
        None => pool,
    }
}

/// What a reply to a signed POST leads to, and the pool afterwards.
/// `posts` says how many times the request has been posted.
///
/// A refused nonce is worth one retry: the request is sent again with the
/// fresh nonce of the refusal, and whatever nonce the pool held is gone. A
/// second refusal is a failure like any other.
pub open spec fn judged(
    pool: NoncePoolView,
    posts: nat,
    res: HttpResponseView,
    parsed: Result<ApiProblemView, Seq<char>>,
) -> (VerdictView, NoncePoolView) {
    match handled(res, parsed) {
        Ok(r) => (VerdictView::Done(r), refilled(pool, res)),
        Err(problem) => if is_bad_nonce(problem) && posts < 2 {
            match fresh_nonce(res) {
                Some(n) => (VerdictView::Retry, offered(pool, n)),
                None => (VerdictView::FetchAndRetry, discarded(pool)),
            }
        } else {
            (VerdictView::Failed(problem), refilled(pool, res))
        },
    }
}

/// Looks at the reply to a signed POST.
pub fn judge(
    pool: &mut NoncePool,
    posts: u8,
    res: HttpResponse,
    parsed: Result<ApiProblem, String>,
) -> (verdict: Verdict)
    ensures
        (verdict@, final(pool)@) == judged(old(pool)@, posts as nat, res@, parsed_view(parsed)),
        pool_valid(old(pool)@),
        pool_valid(final(pool)@),
{
    proof {
        use_type_invariant(&*pool);
    }
    let fresh = match req_expect_header(&res, "replay-nonce") {
        Ok(nonce) => Some(nonce),
        Err(_) => None,
    };
    match req_handle_error(res, parsed) {
        Ok(res) => {
            if let Some(nonce) = fresh {
                pool.offer(nonce);
            }
            Verdict::Done(res)
        },
        Err(problem) => {
            if problem.is_bad_nonce() && posts < 2 {
                match fresh {
                    Some(nonce) => {
                        pool.offer(nonce);
                        Verdict::Retry
                    },
                    None => {
                        pool.discard();
                        Verdict::FetchAndRetry
                    },
                }
            } else {
                if let Some(nonce) = fresh {
                    pool.offer(nonce);
                }
                Verdict::Failed(problem)
            }
        },
    }
}

/// The signing side of a session: the account key, the nonce pool, and
/// where a nonce is fetched.
pub struct Transport {
    acme_key: AcmeKey,
    nonce_pool: NoncePool,
    new_nonce_url: String,
}

/// The mathematical value of a [`Transport`].
pub struct TransportView {
    /// The PKCS#8 document of the account key.
    pub pkcs8: Seq<u8>,
    /// The key id of the account, once the server has assigned one.
    pub key_id: Option<Seq<char>>,
    /// The nonce pool.
    pub pool: NoncePoolView,
    pub new_nonce_url: Seq<char>,
}

impl View for Transport {
    type V = TransportView;

    closed spec fn view(&self) -> TransportView {
        TransportView {
            pkcs8: self.acme_key.pkcs8(),
            key_id: self.acme_key.spec_key_id(),
            pool: self.nonce_pool@,
            new_nonce_url: self.new_nonce_url@,
        }
    }
}

/// The protected header of a request to `url` that consumes `nonce`: it
/// names the account by its key id, or carries the public key while the
/// server has not assigned a key id.
pub open spec fn header_for(
    pkcs8: Seq<u8>,
    key_id: Option<Seq<char>>,
    url: Seq<char>,
    nonce: Seq<char>,
) -> JwsProtectedView {
    JwsProtectedView {
        alg: "ES256"@,
        jwk: match key_id {
            Some(_) => None,
            None => Some(p256_jwk(template_x(pkcs8), template_y(pkcs8))),
        },
        kid: key_id,
        nonce,
        url,
    }
}

/// Whether `signed` is the signed request for `payload` to `url` under
/// `nonce`: its header is [`header_for`] these, its payload is `payload`,
/// and its signature is one that the account key's public key accepts.
pub open spec fn is_signed_for(
    pkcs8: Seq<u8>,
    key_id: Option<Seq<char>>,
    url: Seq<char>,
    payload: Seq<char>,
    nonce: Seq<char>,
    signed: JwsView,
) -> bool {
    &&& signed.protected == base64url_spec(
        encode_utf8(protected_json_spec(header_for(pkcs8, key_id, url, nonce))),
    )
    &&& signed.payload == base64url_spec(encode_utf8(payload))
    &&& signature_holds(template_point(pkcs8), signed)
}

/// Whether `req` is the signed POST of `payload` to `url` under `nonce`:
/// its body is the JSON text of the signed request for these.
pub open spec fn is_signed_post(
    pkcs8: Seq<u8>,
    key_id: Option<Seq<char>>,
    url: Seq<char>,
    payload: Seq<char>,
    nonce: Seq<char>,
    req: HttpRequestView,
) -> bool {
    &&& req.method == Method::Post
    &&& req.url == url
    &&& exists|signed: JwsView|
        req.body == #[trigger] jws_json_spec(signed) && is_signed_for(
            pkcs8,
            key_id,
            url,
            payload,
            nonce,
            signed,
        )
}

/// What posting a request leads to. The nonce at hand in `pool` is handed
/// out for it, so the pool is left without one. The step is the signed POST
/// under that nonce, or the failure to sign; a key of another layout than
/// the expected one cannot sign.
pub open spec fn posted(
    t: TransportView,
    pool: NoncePoolView,
    c: CallView,
    t2: TransportView,
    c2: CallView,
    step: StepView,
) -> bool {
    &&& pool.nonce is Some
    &&& t2.pool == taken(pool)
    &&& match step {
        StepView::Send(req) => {
            &&& matches_template(t.pkcs8)
            &&& is_signed_post(t.pkcs8, t.key_id, c.url, c.payload, pool.nonce->Some_0, req)
            &&& c2.waiting == Waiting::ForReply
            &&& c2.posts == c.posts + 1
        },
        StepView::Failed(e) => {
            &&& e == (if matches_template(t.pkcs8) {
                ErrorView::Signing
            } else {
                ErrorView::InvalidKey
            })
            &&& c2.waiting == Waiting::Nothing
            &&& c2.posts == c.posts
        },
        StepView::Done(_) => false,
    }
}

/// The request that fetches a nonce.
pub open spec fn nonce_request(t: TransportView) -> HttpRequestView {
    HttpRequestView { method: Method::Head, url: t.new_nonce_url, body: Seq::empty() }
}

/// How a request begins: with the nonce at hand it is posted; without
/// one, a nonce is fetched first.
pub open spec fn begun(
    t: TransportView,
    url: Seq<char>,
    payload: Seq<char>,
    t2: TransportView,
    c2: CallView,
    step: StepView,
) -> bool {
    let c = CallView { url, payload, posts: 0, waiting: Waiting::Nothing };
    &&& t2 == (TransportView { pool: t2.pool, ..t })
    &&& c2.url == url
    &&& c2.payload == payload
    &&& match t.pool.nonce {
        Some(_) => posted(t, t.pool, c, t2, c2, step),
        None => step == StepView::Send(nonce_request(t)) && c2.waiting == Waiting::ForNonce
            && c2.posts == 0 && t2.pool == t.pool,
    }
}

/// How a request goes on when the reply to what was sent last is there.
///
/// The nonce that a reply brings goes into the pool. A nonce that was
/// fetched for the request is handed out for it at once.
pub open spec fn resumed(
    t: TransportView,
    c: CallView,
    reply: ReplyView,
    t2: TransportView,
    c2: CallView,
    step: StepView,
) -> bool {
    &&& c2.url == c.url
    &&& c2.payload == c.payload
    &&& t2 == (TransportView { pool: t2.pool, ..t })
    &&& match (c.waiting, reply) {
        (Waiting::Nothing, _) => step == StepView::Failed(ErrorView::NotWaiting) && c2 == c && t2
            == t,
        (_, ReplyView::Failed(reason)) => step == StepView::Failed(ErrorView::Transport(reason))
            && c2.waiting == Waiting::Nothing && c2.posts == c.posts && t2 == t,
        (Waiting::ForNonce, ReplyView::Response(res, _)) => match fresh_nonce(res) {
            Some(nonce) => posted(t, offered(t.pool, nonce), c, t2, c2, step),
            None => step == StepView::Failed(
                ErrorView::Protocol(missing_header("replay-nonce"@)),
            ) && c2.waiting == Waiting::Nothing && c2.posts == c.posts && t2 == t,
        },
        (Waiting::ForReply, ReplyView::Response(res, parsed)) => {
            let (verdict, pool) = judged(t.pool, c.posts, res, parsed);
            match verdict {
                VerdictView::Done(r) => step == StepView::Done(r) && c2.waiting
                    == Waiting::Nothing && c2.posts == c.posts && t2.pool == pool,
                VerdictView::Failed(problem) => step == StepView::Failed(
                    ErrorView::Protocol(problem),
                ) && c2.waiting == Waiting::Nothing && c2.posts == c.posts && t2.pool == pool,
                VerdictView::Retry => posted(t, pool, c, t2, c2, step),
                VerdictView::FetchAndRetry => step == StepView::Send(nonce_request(t))
                    && c2.waiting == Waiting::ForNonce && c2.posts == c.posts && t2.pool == pool,
            }
        },
    }
}

/// Whether a step that sends a signed request sends it under the nonce
/// that the pool handed out last, and under no other: between the
/// transport `t` before the step and `t2` after it one nonce was handed out,
/// and the request is the signed POST of the call under that nonce.
pub open spec fn posts_under_spent_nonce(
    t: TransportView,
    c2: CallView,
    t2: TransportView,
    step: StepView,
) -> bool {
    match step {
        StepView::Send(req) => req.method == Method::Post ==> {
            &&& spends_one(t.pool, t2.pool)
            &&& is_signed_post(
                t.pkcs8,
                t.key_id,
                c2.url,
                c2.payload,
                t2.pool.received[t2.pool.spent.last() as int],
                req,
            )
        },
        _ => true,
    }
}

/// A request is posted at most twice: once, and once more where the
/// server refused the nonce. While it waits for a nonce it can still be
/// posted.
pub open spec fn call_valid(c: CallView) -> bool {
    &&& c.posts <= 2
    &&& c.waiting == Waiting::ForNonce ==> c.posts <= 1
}

impl Call {
    #[verifier::type_invariant]
    closed spec fn wf(&self) -> bool {
        call_valid(self@)
    }

    /// What becomes of the request once it was handed to the signer: a
    /// signed request is sent as the body of a POST to the URL of the call,
    /// which then waits for the reply; a failure of the signer ends the
    /// call.
    fn posted_step(&mut self, signed: Result<Jws, Error>) -> (step: Step)
        requires
            old(self)@.posts < 2,
        ensures
            signed matches Ok(jws) ==> step@ == StepView::Send(
                HttpRequestView {
                    method: Method::Post,
                    url: old(self)@.url,
                    body: jws_json_spec(jws@),
                },
            ) && final(self)@ == (CallView {
                waiting: Waiting::ForReply,
                posts: old(self)@.posts + 1,
                ..old(self)@
            }),
            signed matches Err(e) ==> step@ == StepView::Failed(e@) && final(self)@ == (CallView {
                waiting: Waiting::Nothing,
                ..old(self)@
            }),
    {
        match signed {
            Ok(jws) => {
                self.waiting = Waiting::ForReply;
                self.posts = self.posts + 1;
                Step::Send(
                    HttpRequest { method: Method::Post, url: self.url.clone(), body: jws.to_json() },
                )
            },
            Err(e) => {
                self.waiting = Waiting::Nothing;
                Step::Failed(e)
            },
        }
    }

    /// What the request waits for.
    pub fn waiting(&self) -> (w: Waiting)
        ensures
            w == self@.waiting,
    {
        self.waiting
    }

    /// How many times the request has been posted.
    pub fn posts(&self) -> (n: u8)
        ensures
            n == self@.posts,
            n <= 2,
    {
        proof {
            use_type_invariant(self);
        }
        self.posts
    }
}

impl Transport {
    /// The signing side of a session with the given account key.
    pub fn new(acme_key: AcmeKey, new_nonce_url: String) -> (t: Transport)
        ensures
            t@ == (TransportView {
                pkcs8: acme_key.pkcs8(),
                key_id: acme_key.spec_key_id(),
                pool: empty_pool(),
                new_nonce_url: new_nonce_url@,
            }),
    {
        Transport { acme_key, nonce_pool: NoncePool::new(), new_nonce_url }
    }

    /// The account key.
    pub fn acme_key(&self) -> (key: &AcmeKey)
        ensures
            key.pkcs8() == self@.pkcs8,
            key.spec_key_id() == self@.key_id,
    {
        &self.acme_key
    }

    /// The nonce pool.
    pub fn nonce_pool(&self) -> (pool: &NoncePool)
        ensures
            pool@ == self@.pool,
            pool_valid(pool@),
    {
        proof {
            use_type_invariant(&self.nonce_pool);
        }
        &self.nonce_pool
    }

    /// Records the key id that the server assigned to the account. A key
    /// id that is set already is never overwritten.
    pub fn set_key_id(&mut self, kid: String)
        ensures
            final(self)@ == (TransportView {
                key_id: match old(self)@.key_id {
                    Some(k) => Some(k),
                    None => Some(kid@),
                },
                ..old(self)@
            }),
    {
        self.acme_key.set_key_id(kid);
    }

    /// The protected header of a request to `url` that consumes `nonce`.
    fn protected_header(&self, url: &str, nonce: String) -> (res: Result<JwsProtected, Error>)
        ensures
            res is Ok <==> (self@.key_id is Some || matches_template(self@.pkcs8)),
            res matches Ok(header) ==> header@ == header_for(
                self@.pkcs8,
                self@.key_id,
                url@,
                nonce@,
            ),
            res matches Err(e) ==> e@ == ErrorView::InvalidKey,
    {
        match self.acme_key.key_id() {
            Some(kid) => Ok(JwsProtected::new_kid(kid.as_str(), url, nonce)),
            None => {
                let jwk = Jwk::from_key(&self.acme_key)?;
                Ok(JwsProtected::new_jwk(jwk, url, nonce))
            },
        }
    }

    /// Signs the POST of `payload` to `url` under `nonce`.
    fn sign_call(&self, url: &str, payload: &str, nonce: String) -> (res: Result<Jws, Error>)
        ensures
            res matches Ok(signed) ==> matches_template(self@.pkcs8) && is_signed_for(
                self@.pkcs8,
                self@.key_id,
                url@,
                payload@,
                nonce@,
                signed@,
            ),
            res matches Err(e) ==> e@ == (if matches_template(self@.pkcs8) {
                ErrorView::Signing
            } else {
                ErrorView::InvalidKey
            }),
    {
        let header = match self.protected_header(url, nonce) {
            Ok(header) => header,
            Err(e) => {
                return Err(e);
            },
        };
        jws_sign(&self.acme_key, &header, payload)
    }

    /// Posts `call` under the nonce at hand, or fails to sign it.
    fn post(&mut self, call: &mut Call) -> (step: Step)
        requires
            old(call).posts < 2,
            old(self)@.pool.nonce is Some,
        ensures
            posted(old(self)@, old(self)@.pool, old(call)@, final(self)@, final(call)@, step@),
            final(self)@ == (TransportView { pool: final(self)@.pool, ..old(self)@ }),
            final(call)@.url == old(call)@.url,
            final(call)@.payload == old(call)@.payload,
    {
        let nonce = match self.nonce_pool.take() {
            Some(nonce) => nonce,
            // the caller has seen that a nonce is at hand
            None => String::new(),
        };
        let signed = self.sign_call(call.url.as_str(), call.payload.as_str(), nonce);
        call.posted_step(signed)
    }

    /// The request that fetches a nonce.
    fn fetch_nonce(&self) -> (req: HttpRequest)
        ensures
            req@ == nonce_request(self@),
    {
        HttpRequest { method: Method::Head, url: self.new_nonce_url.clone(), body: String::new() }
    }

    /// Begins a request: a POST of `payload` to `url`, or a POST-as-GET
    /// where `payload` is empty.
    pub fn begin(&mut self, url: &str, payload: &str) -> (res: (Call, Step))
        ensures
            begun(old(self)@, url@, payload@, final(self)@, res.0@, res.1@),
            call_valid(res.0@),
            pool_valid(old(self)@.pool),
            pool_valid(final(self)@.pool),
            pool_follows(old(self)@.pool, final(self)@.pool),
            posts_under_spent_nonce(old(self)@, res.0@, final(self)@, res.1@),
    {
        let mut call = Call {
            url: url.to_owned(),
            payload: payload.to_owned(),
            posts: 0,
            waiting: Waiting::Nothing,
        };
        let step = if self.nonce_pool.is_empty() {
            call.waiting = Waiting::ForNonce;
            Step::Send(self.fetch_nonce())
        } else {
            self.post(&mut call)
        };
        proof {
            use_type_invariant(&self.nonce_pool);
        }
        (call, step)
    }

    /// Goes on with a request, now that the reply to what was sent last is
    /// there.
    pub fn resume(&mut self, call: &mut Call, reply: Reply) -> (step: Step)
        ensures
            resumed(old(self)@, old(call)@, reply@, final(self)@, final(call)@, step@),
            call_valid(old(call)@),
            call_valid(final(call)@),
            pool_valid(old(self)@.pool),
            pool_valid(final(self)@.pool),
            pool_follows(old(self)@.pool, final(self)@.pool),
            posts_under_spent_nonce(old(self)@, final(call)@, final(self)@, step@),
    {
        proof {
            use_type_invariant(&*call);
            use_type_invariant(&self.nonce_pool);
        }
        let step = match call.waiting {
            Waiting::Nothing => Step::Failed(Error::NotWaiting),
            Waiting::ForNonce => match reply {
                Reply::Failed(reason) => {
                    call.waiting = Waiting::Nothing;
                    Step::Failed(Error::Transport(reason))
                },
                Reply::Response(res, _) => match req_expect_header(&res, "replay-nonce") {
                    Ok(nonce) => {
                        self.nonce_pool.offer(nonce);
                        self.post(call)
                    },
                    Err(problem) => {
                        call.waiting = Waiting::Nothing;
                        Step::Failed(Error::Protocol(problem))
                    },
                },
            },
            Waiting::ForReply => match reply {
                Reply::Failed(reason) => {
                    call.waiting = Waiting::Nothing;
                    Step::Failed(Error::Transport(reason))
                },
                Reply::Response(res, parsed) => {
                    match judge(&mut self.nonce_pool, call.posts, res, parsed) {
                        Verdict::Done(res) => {
                            call.waiting = Waiting::Nothing;
                            Step::Done(res)
                        },
                        Verdict::Failed(problem) => {
                            call.waiting = Waiting::Nothing;
                            Step::Failed(Error::Protocol(problem))
                        },
                        Verdict::Retry => self.post(call),
                        Verdict::FetchAndRetry => {
                            call.waiting = Waiting::ForNonce;
                            Step::Send(self.fetch_nonce())
                        },
                    }
                },
            },
        };
        proof {
            use_type_invariant(&*call);
            use_type_invariant(&self.nonce_pool);
        }
        step
    }
}

/// A refused nonce is worth exactly one retry. Where the server refuses
/// the nonce of a request that was posted once, the request does not fail
/// for the refusal: it is posted again, under a fresh nonce, or another is
/// fetched for it. Where the server refuses the nonce of a request that
/// was posted twice, the request fails with the server's problem.
pub proof fn lemma_one_replay(
    t: TransportView,
    c: CallView,
    res: HttpResponseView,
    parsed: Result<ApiProblemView, Seq<char>>,
    t2: TransportView,
    c2: CallView,
    step: StepView,
)
    requires
        call_valid(c),
        c.waiting == Waiting::ForReply,
        handled(res, parsed) matches Err(problem) && is_bad_nonce(problem),
        resumed(t, c, ReplyView::Response(res, parsed), t2, c2, step),
    ensures
        c2.posts <= 2,
        c.posts < 2 ==> step !is Done && !(step matches StepView::Failed(
            ErrorView::Protocol(_),
        )),
        c.posts < 2 && step is Send ==> (step->Send_0.method == Method::Post <==> c2.posts
            == c.posts + 1),
        c.posts == 2 ==> step == StepView::Failed(ErrorView::Protocol(handled(res, parsed)->Err_0))
            && c2.waiting == Waiting::Nothing,
{
}

/// A request is posted under another nonce each time: posting hands out
/// the nonce at hand, and what is handed out is never handed out again.
pub proof fn lemma_post_spends_nonce(
    t: TransportView,
    pool: NoncePoolView,
    c: CallView,
    t2: TransportView,
    c2: CallView,
    step: StepView,
)
    requires
        pool_valid(pool),
        posted(t, pool, c, t2, c2, step),
    ensures
        pool_valid(t2.pool),
        t2.pool.nonce is None,
        t2.pool.spent == pool.spent.push(pool.held->Some_0),
        t2.pool.received[t2.pool.spent.last() as int] == pool.nonce->Some_0,
        forall|i: int| 0 <= i < pool.spent.len() ==> pool.spent[i] != t2.pool.spent.last(),
{
}

} // verus!
