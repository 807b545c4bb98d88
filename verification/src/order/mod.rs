//! Order life cycle.
//!
//! An order goes through a life cycle of different states that require
//! various actions by the user. To ensure that only appropriate actions are
//! used, the order is wrapped in façades:
//!
//! 1. First prove ownership:
//!    * [`NewOrder`] -> [`Auth`]* -> [`Challenge`]
//! 2. Then submit the CSR and download the certificate.
//!    * [`NewOrder`] -> [`CsrOrder`] -> [`CertOrder`]
//!
//! \* Possibly multiple auths.
//!
//! Nothing here touches the network. What needs the server is a flow
//! ([`Authorizing`], [`Finalizing`], [`Validating`]): the caller performs the
//! [`Action`] that a step names and hands the [`Event`] that came of it to
//! the next step.

use std::sync::Arc;
use vstd::prelude::*;
use vstd::std_specs::iter::IteratorSpec;
use vstd::utf8::encode_utf8;

use crate::acc::{share, AccountInner, AccountInnerView};
use crate::api::{
    finalize_payload, finalize_payload_spec, rank_of, stage_of, strs_view, ApiAuth, ApiAuthView,
    ApiIdentifier, ApiIdentifierView, ApiOrder, ApiOrderView, OrderStatus,
};
use crate::cert::{
    chain_read, create_csr_der, pem_certs_spec, pem_key_spec, CertKey, Certificate,
};
use crate::error::{Error, ErrorView};
use crate::util::{base64url, base64url_spec, occurs_in, str_equal};

pub mod auth;

pub use self::auth::{Auth, Challenge, Presentation, Validating};

verus! {

/// What the caller is to do for a flow.
pub enum Action {
    /// Post `payload` to `url`, signed; the answer's body is not needed.
    Call { url: String, payload: String },
    /// Fetch the document at `url` with a signed POST-as-GET.
    Fetch { url: String },
    /// Wait this long.
    Sleep { millis: u64 },
}

/// The mathematical value of an [`Action`].
pub enum ActionView {
    Call { url: Seq<char>, payload: Seq<char> },
    Fetch { url: Seq<char> },
    Sleep { millis: u64 },
}

impl View for Action {
    type V = ActionView;

    open spec fn view(&self) -> ActionView {
        match self {
            Action::Call { url, payload } => ActionView::Call { url: url@, payload: payload@ },
            Action::Fetch { url } => ActionView::Fetch { url: url@ },
            Action::Sleep { millis } => ActionView::Sleep { millis: *millis },
        }
    }
}

/// What came of an [`Action`]; `D` is the kind of document that the flow
/// fetches.
pub enum Event<D> {
    /// The server has answered the call, or the call has failed.
    Called(Result<(), Error>),
    /// The document has been fetched, or fetching it has failed.
    Fetched(Result<D, Error>),
    /// The time has passed.
    Woke,
}

/// The order wrapped with an outer façade.
pub struct Order {
    inner: Arc<AccountInner>,
    api_order: ApiOrder,
    url: String,
}

/// The mathematical value of an [`Order`].
pub struct OrderView {
    pub inner: AccountInnerView,
    pub api_order: ApiOrderView,
    pub url: Seq<char>,
}

impl View for Order {
    type V = OrderView;

    closed spec fn view(&self) -> OrderView {
        OrderView { inner: (*self.inner)@, api_order: self.api_order@, url: self.url@ }
    }
}

/// Whether every identifier of `a` is one of `b`.
pub open spec fn covers(a: Seq<ApiIdentifierView>, b: Seq<ApiIdentifierView>) -> bool {
    forall|i: int| 0 <= i < a.len() ==> b.contains(#[trigger] a[i])
}

/// Whether two lists hold the same set of identifiers.
pub open spec fn same_identifiers(a: Seq<ApiIdentifierView>, b: Seq<ApiIdentifierView>) -> bool {
    covers(a, b) && covers(b, a)
}

/// An order as it stands once the server has described it anew. The
/// server may move an order forward only, and cannot change what the order
/// is for: a description that does either is refused.
pub open spec fn observed(order: OrderView, fresh: ApiOrderView) -> Result<OrderView, ErrorView> {
    if stage_of(fresh.status) < stage_of(order.api_order.status) {
        Err(ErrorView::State(fresh.status))
    } else if !same_identifiers(order.api_order.identifiers, fresh.identifiers) {
        Err(ErrorView::IdentifiersChanged)
    } else {
        Ok(OrderView { api_order: fresh, ..order })
    }
}

/// The order after the server has described it several times in a row: a
/// description that is refused leaves the order as it was.
pub open spec fn observed_all(order: OrderView, docs: Seq<ApiOrderView>) -> OrderView
    decreases docs.len(),
{
    if docs.len() == 0 {
        order
    } else {
        let before = observed_all(order, docs.drop_last());
        match observed(before, docs.last()) {
            Ok(after) => after,
            Err(_) => before,
        }
    }
}

/// An order never moves backwards: whatever the server says of it, the
/// status that the order is seen in afterwards is no earlier in `pending`,
/// `ready`, `processing`, `valid` than the one before, and the order is
/// for the same names.
pub proof fn lemma_status_never_regresses(order: OrderView, fresh: ApiOrderView)
    ensures
        observed(order, fresh) matches Ok(after) ==> {
            &&& stage_of(after.api_order.status) >= stage_of(order.api_order.status)
            &&& same_identifiers(order.api_order.identifiers, after.api_order.identifiers)
            &&& after.url == order.url
            &&& after.inner == order.inner
        },
        order.api_order.status == Some(OrderStatus::Valid) ==> (observed(order, fresh) matches Ok(
            after,
        ) ==> after.api_order.status == Some(OrderStatus::Valid) || after.api_order.status == Some(
            OrderStatus::Invalid,
        )),
        order.api_order.status == Some(OrderStatus::Processing) ==> (observed(
            order,
            fresh,
        ) matches Ok(after) ==> after.api_order.status != Some(OrderStatus::Ready)
            && after.api_order.status != Some(OrderStatus::Pending)),
{
}

/// Over any run of descriptions, the status of an order only moves
/// forward: what is seen after the first `j` of them is no earlier than
/// what was seen after the first `i`.
pub proof fn lemma_status_monotone(order: OrderView, docs: Seq<ApiOrderView>, i: int, j: int)
    requires
        0 <= i <= j <= docs.len(),
    ensures
        stage_of(observed_all(order, docs.take(i)).api_order.status) <= stage_of(
            observed_all(order, docs.take(j)).api_order.status,
        ),
    decreases j - i,
{
    if i < j {
        lemma_status_monotone(order, docs, i, j - 1);
        assert(docs.take(j).drop_last() =~= docs.take(j - 1));
        lemma_status_never_regresses(observed_all(order, docs.take(j - 1)), docs.take(j).last());
    }
}

/// Whether the names of an order have been authorized: the order is
/// `ready` or `valid`.
pub open spec fn is_validated(status: Option<OrderStatus>) -> bool {
    status == Some(OrderStatus::Ready) || status == Some(OrderStatus::Valid)
}

/// Whether `id` is one of `list`.
fn has_identifier(list: &Vec<ApiIdentifier>, id: &ApiIdentifier) -> (found: bool)
    ensures
        found == list@.map_values(|i: ApiIdentifier| i@).contains(id@),
{
    let ghost all = list@.map_values(|i: ApiIdentifier| i@);
    let mut k: usize = 0;
    while k < list.len()
        invariant
            k <= list.len(),
            all == list@.map_values(|i: ApiIdentifier| i@),
            forall|j: int| 0 <= j < k ==> all[j] != id@,
        decreases list.len() - k,
    {
        if str_equal(list[k]._type.as_str(), id._type.as_str()) && str_equal(
            list[k].value.as_str(),
            id.value.as_str(),
        ) {
            assert(all[k as int] == id@);
            return true;
        }
        k += 1;
    }
    false
}

/// Whether every identifier of `a` is one of `b`.
fn covered(a: &Vec<ApiIdentifier>, b: &Vec<ApiIdentifier>) -> (all: bool)
    ensures
        all == covers(a@.map_values(|i: ApiIdentifier| i@), b@.map_values(|i: ApiIdentifier| i@)),
{
    let ghost left = a@.map_values(|i: ApiIdentifier| i@);
    let ghost right = b@.map_values(|i: ApiIdentifier| i@);
    let mut k: usize = 0;
    while k < a.len()
        invariant
            k <= a.len(),
            left == a@.map_values(|i: ApiIdentifier| i@),
            right == b@.map_values(|i: ApiIdentifier| i@),
            forall|j: int| 0 <= j < k ==> right.contains(#[trigger] left[j]),
        decreases a.len() - k,
    {
        if !has_identifier(b, &a[k]) {
            assert(!right.contains(left[k as int]));
            return false;
        }
        k += 1;
    }
    true
}

impl Order {
    /// An order of the account `inner`, known under `url`.
    pub fn new(inner: &Arc<AccountInner>, api_order: ApiOrder, url: String) -> (order: Order)
        ensures
            order@ == (OrderView { inner: (**inner)@, api_order: api_order@, url: url@ }),
    {
        Order { inner: share(inner), api_order, url }
    }

    /// Takes in what the server says of the order now. A description
    /// that moves the order backwards, or that changes what the order is
    /// for, is refused, and the order stays as it was.
    pub fn observe(&mut self, fresh: ApiOrder) -> (res: Result<(), Error>)
        ensures
            res is Ok <==> observed(old(self)@, fresh@) is Ok,
            res is Ok ==> Ok::<OrderView, ErrorView>(final(self)@) == observed(old(self)@, fresh@),
            res matches Err(e) ==> final(self)@ == old(self)@ && Err::<OrderView, ErrorView>(e@)
                == observed(old(self)@, fresh@),
            stage_of(final(self)@.api_order.status) >= stage_of(old(self)@.api_order.status),
    {
        if rank_of(fresh.status) < rank_of(self.api_order.status) {
            return Err(Error::State(fresh.status));
        }
        if !(covered(&self.api_order.identifiers, &fresh.identifiers) && covered(
            &fresh.identifiers,
            &self.api_order.identifiers,
        )) {
            return Err(Error::IdentifiersChanged);
        }
        self.api_order = fresh;
        Ok(())
    }

    /// The order as the server described it last.
    pub fn api_order(&self) -> (api_order: &ApiOrder)
        ensures
            api_order@ == self@.api_order,
    {
        &self.api_order
    }

    /// The URL of the order.
    pub fn url(&self) -> (url: &String)
        ensures
            url@ == self@.url,
    {
        &self.url
    }

    /// The account that the order belongs to.
    pub fn inner(&self) -> (inner: &Arc<AccountInner>)
        ensures
            (**inner)@ == self@.inner,
    {
        &self.inner
    }

    /// A copy of the order, which shares the account.
    pub fn duplicate(&self) -> (copy: Order)
        ensures
            copy@ == self@,
    {
        Order::new(&self.inner, self.api_order.duplicate(), self.url.clone())
    }
}

/// A new order created by [`crate::acc::Account::new_order`].
///
/// An order is created using one or many domains (a primary `CN` and
/// possible multiple alt names). All domains in the order must have
/// authorizations (confirmed ownership) before the order can progress to
/// submitting a CSR.
///
/// The ACME API provider might "remember" for a time that you already own
/// a domain, which means you might not need to prove the ownership every
/// time. Use appropriate methods to first check whether you really need to
/// handle authorizations.
pub struct NewOrder {
    pub(crate) order: Order,
}

impl View for NewOrder {
    type V = OrderView;

    closed spec fn view(&self) -> OrderView {
        self.order@
    }
}

/// The authorizations of an order of the account `inner`: each URL that
/// the order lists, with the authorization that was fetched from it.
pub open spec fn paired(
    inner: AccountInnerView,
    urls: Seq<Seq<char>>,
    fetched: Seq<ApiAuthView>,
) -> Seq<auth::AuthView> {
    Seq::new(
        urls.len(),
        |i: int| auth::AuthView { inner, api_auth: fetched[i], auth_url: urls[i] },
    )
}

/// The authorization URLs that an order lists.
pub open spec fn authorization_urls_of(api_order: ApiOrderView) -> Seq<Seq<char>> {
    match api_order.authorizations {
        Some(urls) => urls,
        None => Seq::empty(),
    }
}

impl NewOrder {
    /// The façade of an order that was just created.
    pub(crate) fn new(order: Order) -> (new_order: NewOrder)
        ensures
            new_order@ == order@,
    {
        NewOrder { order }
    }

    /// Tell if the domains in this order have been authorized.
    ///
    /// This doesn't do any calls against the API. You must manually call
    /// [`NewOrder::refresh`].
    ///
    /// In ACME API terms, the order can either be `ready` or `valid`, which
    /// both would mean we have passed the authorization stage.
    pub fn is_validated(&self) -> (validated: bool)
        ensures
            validated == is_validated(self@.api_order.status),
    {
        self.order.api_order.is_status_ready() || self.order.api_order.is_status_valid()
    }

    /// If the order [`NewOrder::is_validated`] progress it to a
    /// [`CsrOrder`].
    ///
    /// This doesn't do any calls against the API. You must manually call
    /// [`NewOrder::refresh`].
    pub fn confirm_validations(&self) -> (csr: Option<CsrOrder>)
        ensures
            csr is Some <==> is_validated(self@.api_order.status),
            csr matches Some(c) ==> c@ == self@,
    {
        if self.is_validated() {
            Some(CsrOrder { order: self.order.duplicate() })
        } else {
            None
        }
    }

    /// Takes in the state of the order as the ACME API gave it for a
    /// "POST-as-GET" against the order URL.
    pub fn refresh(&mut self, fresh: ApiOrder) -> (res: Result<(), Error>)
        ensures
            res is Ok <==> observed(old(self)@, fresh@) is Ok,
            res is Ok ==> Ok::<OrderView, ErrorView>(final(self)@) == observed(old(self)@, fresh@),
            res matches Err(e) ==> final(self)@ == old(self)@ && Err::<OrderView, ErrorView>(e@)
                == observed(old(self)@, fresh@),
            stage_of(final(self)@.api_order.status) >= stage_of(old(self)@.api_order.status),
    {
        self.order.observe(fresh)
    }

    /// The URL of the order, which a refresh asks anew.
    pub fn url(&self) -> (url: &String)
        ensures
            url@ == self@.url,
    {
        self.order.url()
    }

    /// The URLs of the authorizations, in the order's own sequence.
    pub fn authorization_urls(&self) -> (urls: &[String])
        ensures
            strs_view(urls@) == authorization_urls_of(self@.api_order),
    {
        match &self.order.api_order.authorizations {
            Some(urls) => {
                urls.as_slice()
            },
            None => {
                let none: &[String] = &[];
                assert(strs_view(none@) =~= Seq::<Seq<char>>::empty());
                none
            },
        }
    }

    /// Provide the authorizations. The number of authorizations will be
    /// the same as the number of domains requested, i.e. at least one (the
    /// primary CN), but possibly more (for alt names).
    ///
    /// `fetched` holds, for each URL of
    /// [`NewOrder::authorization_urls`], the authorization that a
    /// "POST-as-GET" against it gave. If the order includes new domain names
    /// that have not been authorized before, this list might contain a mix
    /// of already valid and not yet valid auths.
    pub fn authorizations(&self, fetched: Vec<ApiAuth>) -> (res: Result<Vec<Auth>, Error>)
        ensures
            res is Ok <==> fetched@.len() == authorization_urls_of(self@.api_order).len(),
            res matches Ok(auths) ==> auth::auths_view(auths@) == paired(
                self@.inner,
                authorization_urls_of(self@.api_order),
                fetched@.map_values(|a: ApiAuth| a@),
            ),
            res matches Err(e) ==> e@ == ErrorView::AuthorizationsMismatch,
    {
        let urls = self.authorization_urls();
        if fetched.len() != urls.len() {
            return Err(Error::AuthorizationsMismatch);
        }
        Ok(pair_up(self.order.inner(), urls, fetched))
    }

    /// Begins the flow that fetches the authorizations of the order: each
    /// URL that the order lists is asked once, in the order's own sequence.
    /// An order that lists none has none.
    pub fn fetch_authorizations(&self) -> (step: AuthorizeStep)
        ensures
            step@ == authorize_begun(self@),
    {
        let urls = self.authorization_urls();
        if urls.len() == 0 {
            let none: Vec<Auth> = Vec::new();
            assert(auth::auths_view(none@) =~= Seq::<auth::AuthView>::empty());
            return AuthorizeStep::Done(none);
        }
        let mut list: Vec<String> = Vec::new();
        let mut i: usize = 0;
        while i < urls.len()
            invariant
                i <= urls.len(),
                strs_view(list@) == strs_view(urls@).take(i as int),
            decreases urls.len() - i,
        {
            let ghost before = list@;
            let url = urls[i].clone();
            list.push(url);
            i += 1;
            proof {
                assert(strs_view(urls@).take(i as int) =~= strs_view(urls@).take(i - 1).push(
                    urls@[i - 1]@,
                ));
                assert(strs_view(list@) =~= strs_view(before).push(url@));
            }
        }
        assert(strs_view(urls@).take(i as int) =~= strs_view(urls@));
        let first = urls[0].clone();
        assert(strs_view(urls@)[0] == urls@[0]@);
        let flow = Authorizing { inner: share(self.order.inner()), urls: list, fetched: Vec::new() };
        assert(flow@.fetched =~= Seq::<ApiAuthView>::empty());
        AuthorizeStep::Go(flow, Action::Fetch { url: first })
    }

    /// Access the underlying JSON object for debugging.
    pub fn api_order(&self) -> (api_order: &ApiOrder)
        ensures
            api_order@ == self@.api_order,
    {
        &self.order.api_order
    }
}

/// Pairs each URL with the authorization that was fetched from it.
fn pair_up(inner: &Arc<AccountInner>, urls: &[String], fetched: Vec<ApiAuth>) -> (out: Vec<Auth>)
    requires
        fetched@.len() == urls@.len(),
    ensures
        auth::auths_view(out@) == paired(
            (**inner)@,
            strs_view(urls@),
            fetched@.map_values(|a: ApiAuth| a@),
        ),
{
    let ghost items = fetched@;
    let ghost all = fetched@.map_values(|a: ApiAuth| a@);
    let ghost want = paired((**inner)@, strs_view(urls@), all);
    let n: usize = urls.len();
    let mut out: Vec<Auth> = Vec::new();
    for api_auth in rest: fetched
        invariant
            n == urls@.len(),
            items.len() == n,
            rest.seq() == items,
            all == items.map_values(|a: ApiAuth| a@),
            want == paired((**inner)@, strs_view(urls@), all),
            out@.len() == rest.index(),
            forall|j: int| 0 <= j < out@.len() ==> (#[trigger] out@[j])@ == want[j],
    {
        let k: usize = out.len();
        proof {
            assert(all[k as int] == items[k as int]@);
            assert(strs_view(urls@)[k as int] == urls@[k as int]@);
        }
        let made = Auth::new(inner, api_auth, urls[k].as_str());
        out.push(made);
    }
    assert(auth::auths_view(out@) =~= want);
    out
}

/// The flow that fetches the authorizations of an order, one after the
/// other. It waits for the authorization of the first URL that has none
/// yet.
pub struct Authorizing {
    inner: Arc<AccountInner>,
    urls: Vec<String>,
    fetched: Vec<ApiAuth>,
}

/// The mathematical value of an [`Authorizing`].
pub struct AuthorizingView {
    pub inner: AccountInnerView,
    /// The URLs that the order lists.
    pub urls: Seq<Seq<char>>,
    /// The authorizations that were fetched so far, from the first URLs.
    pub fetched: Seq<ApiAuthView>,
}

impl View for Authorizing {
    type V = AuthorizingView;

    closed spec fn view(&self) -> AuthorizingView {
        AuthorizingView {
            inner: (*self.inner)@,
            urls: strs_view(self.urls@),
            fetched: self.fetched@.map_values(|a: ApiAuth| a@),
        }
    }
}

/// How the flow goes on.
pub enum AuthorizeStep {
    /// The caller is to perform the action and hand the event to the flow.
    Go(Authorizing, Action),
    /// Every authorization has been fetched.
    Done(Vec<Auth>),
    /// The flow has failed.
    Failed(Error),
}

/// The mathematical value of an [`AuthorizeStep`].
pub enum AuthorizeStepView {
    Go(AuthorizingView, ActionView),
    Done(Seq<auth::AuthView>),
    Failed(ErrorView),
}

impl View for AuthorizeStep {
    type V = AuthorizeStepView;

    open spec fn view(&self) -> AuthorizeStepView {
        match self {
            AuthorizeStep::Go(f, a) => AuthorizeStepView::Go(f@, a@),
            AuthorizeStep::Done(auths) => AuthorizeStepView::Done(auth::auths_view(auths@)),
            AuthorizeStep::Failed(e) => AuthorizeStepView::Failed(e@),
        }
    }
}

/// How the flow that fetches the authorizations of `order` begins: with
/// the first URL, or with the end where the order lists no URL.
pub open spec fn authorize_begun(order: OrderView) -> AuthorizeStepView {
    let urls = authorization_urls_of(order.api_order);
    if urls.len() == 0 {
        AuthorizeStepView::Done(Seq::empty())
    } else {
        AuthorizeStepView::Go(
            AuthorizingView { inner: order.inner, urls, fetched: Seq::empty() },
            ActionView::Fetch { url: urls[0] },
        )
    }
}

/// How the flow that fetches authorizations goes on for an event: an
/// authorization that was fetched belongs to the URL that was asked last;
/// the next URL is asked, or the flow is done when there is none left.
pub open spec fn authorize_stepped(f: AuthorizingView, event: auth::AuthEventView) -> AuthorizeStepView {
    match event {
        auth::AuthEventView::Fetched(Ok(api_auth)) => {
            let fetched = f.fetched.push(api_auth);
            if fetched.len() >= f.urls.len() {
                AuthorizeStepView::Done(paired(f.inner, f.urls, fetched))
            } else {
                AuthorizeStepView::Go(
                    AuthorizingView { fetched, ..f },
                    ActionView::Fetch { url: f.urls[fetched.len() as int] },
                )
            }
        },
        auth::AuthEventView::Fetched(Err(e)) => AuthorizeStepView::Failed(e),
        _ => AuthorizeStepView::Failed(ErrorView::NotWaiting),
    }
}

/// How many requests a flow that fetches authorizations has still to
/// make, the one that it waits for included.
pub open spec fn fetches_left(f: AuthorizingView) -> int {
    f.urls.len() - f.fetched.len()
}

/// The flow asks each URL of the order once, in the order's sequence: a
/// step that goes on asks the URL after the one that was answered and has
/// one request less to make, and the flow is done with the answer to its
/// last request, with one authorization for each URL.
pub proof fn lemma_each_url_asked_once(f: AuthorizingView, event: auth::AuthEventView)
    requires
        fetches_left(f) >= 1,
    ensures
        authorize_stepped(f, event) matches AuthorizeStepView::Go(next, action) ==> {
            &&& fetches_left(next) == fetches_left(f) - 1
            &&& fetches_left(next) >= 1
            &&& next.urls == f.urls
            &&& action == (ActionView::Fetch { url: f.urls[f.fetched.len() as int + 1] })
        },
        authorize_stepped(f, event) matches AuthorizeStepView::Done(auths) ==> {
            &&& fetches_left(f) == 1
            &&& auths.len() == f.urls.len()
            &&& forall|i: int| 0 <= i < auths.len() ==> (#[trigger] auths[i]).auth_url == f.urls[i]
        },
{
}

impl Authorizing {
    #[verifier::type_invariant]
    closed spec fn wf(&self) -> bool {
        self.fetched@.len() < self.urls@.len()
    }

    /// Goes on with the flow, now that the event of the last action is
    /// there.
    pub fn step(self, event: Event<ApiAuth>) -> (step: AuthorizeStep)
        ensures
            step@ == authorize_stepped(self@, auth::auth_event_view(event)),
            fetches_left(self@) >= 1,
    {
        proof {
            use_type_invariant(&self);
        }
        match event {
            Event::Fetched(Ok(api_auth)) => {
                let ghost before = self.fetched@;
                let inner = self.inner;
                let urls = self.urls;
                let mut fetched = self.fetched;
                fetched.push(api_auth);
                assert(fetched@.map_values(|a: ApiAuth| a@) =~= before.map_values(
                    |a: ApiAuth| a@,
                ).push(api_auth@));
                if fetched.len() >= urls.len() {
                    AuthorizeStep::Done(pair_up(&inner, urls.as_slice(), fetched))
                } else {
                    let url = urls[fetched.len()].clone();
                    assert(strs_view(urls@)[fetched@.len() as int] == urls@[fetched@.len() as int]@);
                    AuthorizeStep::Go(Authorizing { inner, urls, fetched }, Action::Fetch { url })
                }
            },
            Event::Fetched(Err(e)) => AuthorizeStep::Failed(e),
            _ => AuthorizeStep::Failed(Error::NotWaiting),
        }
    }

    /// The URL that the flow waits for.
    pub fn waiting_for(&self) -> (url: &String)
        ensures
            url@ == self@.urls[self@.fetched.len() as int],
            fetches_left(self@) >= 1,
    {
        proof {
            use_type_invariant(self);
        }
        assert(strs_view(self.urls@)[self.fetched@.len() as int] == self.urls@[self.fetched@.len() as int]@);
        &self.urls[self.fetched.len()]
    }
}

/// An order that is ready for a CSR submission.
///
/// To submit the CSR is called "finalizing" the order.
///
/// To finalize, the user supplies a private key (from which a public key
/// is derived). This library provides functions to create private keys, but
/// the user can opt for creating them in some other way.
///
/// This library makes no attempt at validating which key algorithms are
/// used. Unsupported algorithms will show as an error when finalizing the
/// order. It is up to the ACME API provider to decide which key algorithms
/// to support.
pub struct CsrOrder {
    pub(crate) order: Order,
}

impl View for CsrOrder {
    type V = OrderView;

    closed spec fn view(&self) -> OrderView {
        self.order@
    }
}

/// Where the flow that finalizes an order stands.
#[derive(Clone, Copy, Debug, PartialEq, Eq, Structural)]
pub enum Phase {
    /// The request has been handed out; its answer is awaited.
    Submitting,
    /// The document has been asked for.
    Fetching,
    /// The caller waits before the document is asked for again.
    Sleeping,
}

/// The flow that finalizes an order: the CSR is submitted, then the order
/// is asked for until it is no longer `processing`.
pub struct Finalizing {
    order: Order,
    key: CertKey,
    delay_millis: u64,
    polls_left: u32,
    phase: Phase,
}

/// The mathematical value of a [`Finalizing`].
pub struct FinalizingView {
    pub order: OrderView,
    pub key: Seq<u8>,
    pub delay_millis: u64,
    /// How many more times the order may be found `processing`.
    pub polls_left: nat,
    pub phase: Phase,
}

impl View for Finalizing {
    type V = FinalizingView;

    closed spec fn view(&self) -> FinalizingView {
        FinalizingView {
            order: self.order@,
            key: self.key@,
            delay_millis: self.delay_millis,
            polls_left: self.polls_left as nat,
            phase: self.phase,
        }
    }
}

/// Order for an issued certificate that is ready to download.
pub struct CertOrder {
    key: CertKey,
    order: Order,
}

/// The mathematical value of a [`CertOrder`].
pub struct CertOrderView {
    pub key: Seq<u8>,
    pub order: OrderView,
}

impl View for CertOrder {
    type V = CertOrderView;

    closed spec fn view(&self) -> CertOrderView {
        CertOrderView { key: self.key@, order: self.order@ }
    }
}

/// How a flow goes on.
pub enum FinalizeStep {
    /// The caller is to perform the action and hand the event to the flow.
    Go(Finalizing, Action),
    /// The certificate has been issued.
    Done(CertOrder),
    /// The flow has failed.
    Failed(Error),
}

/// The mathematical value of a [`FinalizeStep`].
pub enum FinalizeStepView {
    Go(FinalizingView, ActionView),
    Done(CertOrderView),
    Failed(ErrorView),
}

impl View for FinalizeStep {
    type V = FinalizeStepView;

    open spec fn view(&self) -> FinalizeStepView {
        match self {
            FinalizeStep::Go(f, a) => FinalizeStepView::Go(f@, a@),
            FinalizeStep::Done(c) => FinalizeStepView::Done(c@),
            FinalizeStep::Failed(e) => FinalizeStepView::Failed(e@),
        }
    }
}

/// The mathematical value of an [`Event`] that brings an order.
pub enum OrderEventView {
    Called(Result<(), ErrorView>),
    Fetched(Result<ApiOrderView, ErrorView>),
    Woke,
}

/// The view of an event that brings an order.
pub open spec fn order_event_view(event: Event<ApiOrder>) -> OrderEventView {
    match event {
        Event::Called(Ok(_)) => OrderEventView::Called(Ok(())),
        Event::Called(Err(e)) => OrderEventView::Called(Err(e@)),
        Event::Fetched(Ok(doc)) => OrderEventView::Fetched(Ok(doc@)),
        Event::Fetched(Err(e)) => OrderEventView::Fetched(Err(e@)),
        Event::Woke => OrderEventView::Woke,
    }
}

/// What is done for an order that was fetched while its certificate is
/// being issued: while it is `processing`, wait and ask again, as many
/// times as are left; once it is `valid`, the certificate is there; any
/// other status is the end of it.
pub open spec fn wait_for_order_status(f: FinalizingView, order: OrderView) -> FinalizeStepView {
    match order.api_order.status {
        Some(OrderStatus::Processing) => if f.polls_left == 0 {
            FinalizeStepView::Failed(ErrorView::TooManyAttempts)
        } else {
            FinalizeStepView::Go(
                FinalizingView {
                    order,
                    polls_left: (f.polls_left - 1) as nat,
                    phase: Phase::Sleeping,
                    ..f
                },
                ActionView::Sleep { millis: f.delay_millis },
            )
        },
        Some(OrderStatus::Valid) => match order.api_order.certificate {
            Some(_) => FinalizeStepView::Done(CertOrderView { key: f.key, order }),
            None => FinalizeStepView::Failed(ErrorView::MissingCertificateUrl),
        },
        status => FinalizeStepView::Failed(ErrorView::State(status)),
    }
}

/// How the flow that finalizes an order goes on for an event.
pub open spec fn finalize_stepped(f: FinalizingView, event: OrderEventView) -> FinalizeStepView {
    match (f.phase, event) {
        (Phase::Submitting, OrderEventView::Called(Ok(_))) => FinalizeStepView::Go(
            FinalizingView { phase: Phase::Fetching, ..f },
            ActionView::Fetch { url: f.order.url },
        ),
        (Phase::Submitting, OrderEventView::Called(Err(e))) => FinalizeStepView::Failed(e),
        (Phase::Fetching, OrderEventView::Fetched(Ok(fresh))) => match observed(f.order, fresh) {
            Ok(order) => wait_for_order_status(f, order),
            Err(e) => FinalizeStepView::Failed(e),
        },
        (Phase::Fetching, OrderEventView::Fetched(Err(e))) => FinalizeStepView::Failed(e),
        (Phase::Sleeping, OrderEventView::Woke) => FinalizeStepView::Go(
            FinalizingView { phase: Phase::Fetching, ..f },
            ActionView::Fetch { url: f.order.url },
        ),
        _ => FinalizeStepView::Failed(ErrorView::NotWaiting),
    }
}

/// The flow that finalizes an order never moves the order backwards: the
/// order that a step leaves behind is no earlier in its life than the one
/// before, and a certificate is ready for download only in the status
/// `valid`.
pub proof fn lemma_finalize_forward(f: FinalizingView, event: OrderEventView)
    ensures
        finalize_stepped(f, event) matches FinalizeStepView::Go(next, _) ==> stage_of(
            next.order.api_order.status,
        ) >= stage_of(f.order.api_order.status) && next.polls_left <= f.polls_left && next.key
            == f.key,
        finalize_stepped(f, event) matches FinalizeStepView::Done(cert) ==> {
            &&& stage_of(cert.order.api_order.status) >= stage_of(f.order.api_order.status)
            &&& cert.order.api_order.status == Some(OrderStatus::Valid)
            &&& cert.order.api_order.certificate is Some
            &&& cert.key == f.key
            &&& f.phase == Phase::Fetching
        },
{
}

/// Whether the bytes of every name of the order stand in `der`.
pub open spec fn holds_order_names(order: OrderView, der: Seq<u8>) -> bool {
    forall|i: int|
        0 <= i < order.api_order.identifiers.len() ==> occurs_in(
            encode_utf8(#[trigger] order.api_order.identifiers[i].value),
            der,
        )
}

/// The payload that finalizes an order, for what making the signing
/// request gave: the request in base64url, or the failure to make it.
pub fn finalize_payload_of(csr: Result<Vec<u8>, Error>) -> (res: Result<String, Error>)
    ensures
        res is Ok <==> csr is Ok,
        res matches Ok(payload) ==> payload@ == finalize_payload_spec(base64url_spec(csr->Ok_0@)),
        res matches Err(e) ==> e@ == csr->Err_0@,
{
    match csr {
        Ok(der) => {
            let csr_enc = base64url(der.as_slice());
            Ok(finalize_payload(csr_enc.as_str()))
        },
        Err(e) => Err(e),
    }
}

impl CsrOrder {
    #[verifier::type_invariant]
    closed spec fn wf(&self) -> bool {
        is_validated(self.order@.api_order.status)
    }

    /// The payload that finalizes the order with the private key `key`:
    /// the signing request for the names of the order, in base64url.
    pub fn finalize_request(&self, key: &CertKey) -> (res: Result<String, Error>)
        ensures
            self@.api_order.identifiers.len() == 0 ==> res is Err,
            res matches Ok(payload) ==> exists|der: Seq<u8>|
                {
                    &&& payload@ == finalize_payload_spec(#[trigger] base64url_spec(der))
                    &&& forall|i: int|
                        0 <= i < self@.api_order.identifiers.len() ==> occurs_in(
                            encode_utf8(#[trigger] self@.api_order.identifiers[i].value),
                            der,
                        )
                },
            res matches Err(e) ==> e@ == (if self@.api_order.identifiers.len() == 0 {
                ErrorView::EmptyDomains
            } else {
                ErrorView::Csr
            }),
    {
        let csr = self.signing_request(key);
        finalize_payload_of(csr)
    }

    /// The signing request for the names of the order and the private key
    /// `key`, in DER.
    pub fn signing_request(&self, key: &CertKey) -> (res: Result<Vec<u8>, Error>)
        ensures
            self@.api_order.identifiers.len() == 0 ==> res is Err,
            res matches Ok(der) ==> holds_order_names(self@, der@),
            res matches Err(e) ==> e@ == (if self@.api_order.identifiers.len() == 0 {
                ErrorView::EmptyDomains
            } else {
                ErrorView::Csr
            }),
    {
        // the domains that we have authorized
        let domains = self.order.api_order.domains();
        assert(domains@.len() == domains@.map_values(|s: &str| s@).len());
        // csr from private key and authorized domains.
        let csr = create_csr_der(key, domains.as_slice());
        proof {
            if csr is Ok {
                assert forall|i: int|
                    0 <= i < self@.api_order.identifiers.len() implies occurs_in(
                    encode_utf8(#[trigger] self@.api_order.identifiers[i].value),
                    csr->Ok_0@,
                ) by {
                    assert(domains@.map_values(|s: &str| s@)[i] == domains@[i]@);
                }
            }
        }
        csr
    }

    /// Begins the flow that finalizes the order, for what making the
    /// signing request gave: a request that was made is posted to the
    /// order's `finalize` URL, in base64url, and a failure to make it is the
    /// end of the flow.
    pub fn finalize_with(
        self,
        key: CertKey,
        csr: Result<Vec<u8>, Error>,
        delay_millis: u64,
        max_polls: u32,
    ) -> (step: FinalizeStep)
        ensures
            csr matches Ok(der) ==> step@ == FinalizeStepView::Go(
                FinalizingView {
                    order: self@,
                    key: key@,
                    delay_millis,
                    polls_left: max_polls as nat,
                    phase: Phase::Submitting,
                },
                ActionView::Call {
                    url: self@.api_order.finalize,
                    payload: finalize_payload_spec(base64url_spec(der@)),
                },
            ),
            csr matches Err(e) ==> step@ == FinalizeStepView::Failed(e@),
    {
        let payload = match finalize_payload_of(csr) {
            Ok(payload) => payload,
            Err(e) => {
                return FinalizeStep::Failed(e);
            },
        };
        let url = self.order.api_order.finalize.clone();
        let flow = Finalizing {
            order: self.order,
            key,
            delay_millis,
            polls_left: max_polls,
            phase: Phase::Submitting,
        };
        FinalizeStep::Go(flow, Action::Call { url, payload })
    }

    /// Finalize the order by providing a private key as PEM.
    ///
    /// This is a convenience wrapper that in turn calls the lower level
    /// [`CsrOrder::finalize_pkey`].
    pub fn finalize(self, private_key_pem: &str, delay_millis: u64, max_polls: u32) -> (step:
        FinalizeStep)
        ensures
            self@.api_order.identifiers.len() == 0 ==> step@ is Failed,
            pem_key_spec(private_key_pem@) is None ==> step@ == FinalizeStepView::Failed(
                ErrorView::PrivateKey,
            ),
            step@ is Go ==> finalize_begun(self@, step@, delay_millis, max_polls) && Some(
                step@->Go_0.key,
            ) == pem_key_spec(private_key_pem@),
            step@ matches FinalizeStepView::Failed(e) ==> e == ErrorView::PrivateKey || e == (
            if self@.api_order.identifiers.len() == 0 {
                ErrorView::EmptyDomains
            } else {
                ErrorView::Csr
            }),
            step@ !is Done,
    {
        match CertKey::from_pem(private_key_pem) {
            Ok(key) => self.finalize_pkey(key, delay_millis, max_polls),
            Err(e) => FinalizeStep::Failed(e),
        }
    }

    /// Lower level finalize call that works directly with the private key.
    ///
    /// Creates the CSR for the domains in the order and begins the flow
    /// that submits it to the ACME API.
    ///
    /// Once the CSR has been submitted, the order goes into a `processing`
    /// status, where we must poll until the status changes. The
    /// `delay_millis` is the amount of time to wait between each poll
    /// attempt, and the order is found `processing` at most `max_polls`
    /// times before the flow gives up.
    pub fn finalize_pkey(self, key: CertKey, delay_millis: u64, max_polls: u32) -> (step:
        FinalizeStep)
        ensures
            self@.api_order.identifiers.len() == 0 ==> step@ == FinalizeStepView::Failed(
                ErrorView::EmptyDomains,
            ),
            step@ is Go ==> finalize_begun(self@, step@, delay_millis, max_polls) && step@->Go_0.key
                == key@,
            step@ matches FinalizeStepView::Failed(e) ==> e == (if self@.api_order.identifiers.len()
                == 0 {
                ErrorView::EmptyDomains
            } else {
                ErrorView::Csr
            }),
            step@ !is Done,
    {
        let csr = self.signing_request(&key);
        self.finalize_with(key, csr, delay_millis, max_polls)
    }

    /// Access the underlying JSON object for debugging.
    pub fn api_order(&self) -> (api_order: &ApiOrder)
        ensures
            api_order@ == self@.api_order,
            is_validated(api_order@.status),
    {
        proof {
            use_type_invariant(self);
        }
        &self.order.api_order
    }
}

/// How the flow that finalizes `order` begins: the signing request for
/// the names of the order is posted to the order's `finalize` URL.
pub open spec fn finalize_begun(
    order: OrderView,
    step: FinalizeStepView,
    delay_millis: u64,
    max_polls: u32,
) -> bool {
    &&& step matches FinalizeStepView::Go(f, action)
    &&& f.order == order
    &&& f.delay_millis == delay_millis
    &&& f.polls_left == max_polls
    &&& f.phase == Phase::Submitting
    &&& action matches ActionView::Call { url, payload }
    &&& url == order.api_order.finalize
    &&& exists|der: Seq<u8>|
        {
            &&& payload == finalize_payload_spec(#[trigger] base64url_spec(der))
            &&& forall|i: int|
                0 <= i < order.api_order.identifiers.len() ==> occurs_in(
                    encode_utf8(#[trigger] order.api_order.identifiers[i].value),
                    der,
                )
        }
}

impl Finalizing {
    /// Goes on with the flow, now that the event of the last action is
    /// there.
    pub fn step(self, event: Event<ApiOrder>) -> (step: FinalizeStep)
        ensures
            step@ == finalize_stepped(self@, order_event_view(event)),
    {
        let mut flow = self;
        match (flow.phase, event) {
            (Phase::Submitting, Event::Called(Ok(_))) => {
                flow.phase = Phase::Fetching;
                let url = flow.order.url().clone();
                FinalizeStep::Go(flow, Action::Fetch { url })
            },
            (Phase::Submitting, Event::Called(Err(e))) => FinalizeStep::Failed(e),
            (Phase::Fetching, Event::Fetched(Ok(fresh))) => {
                match flow.order.observe(fresh) {
                    Ok(_) => {},
                    Err(e) => {
                        return FinalizeStep::Failed(e);
                    },
                }
                // wait for the status to not be processing.
                // valid -> cert is issued
                // invalid -> the whole thing is off
                if flow.order.api_order().is_status_processing() {
                    if flow.polls_left == 0 {
                        return FinalizeStep::Failed(Error::TooManyAttempts);
                    }
                    flow.polls_left = flow.polls_left - 1;
                    flow.phase = Phase::Sleeping;
                    let millis: u64 = flow.delay_millis;
                    FinalizeStep::Go(flow, Action::Sleep { millis })
                } else if flow.order.api_order().is_status_valid() {
                    if flow.order.api_order().certificate.is_none() {
                        return FinalizeStep::Failed(Error::MissingCertificateUrl);
                    }
                    FinalizeStep::Done(CertOrder { key: flow.key, order: flow.order })
                } else {
                    FinalizeStep::Failed(Error::State(flow.order.api_order().status))
                }
            },
            (Phase::Fetching, Event::Fetched(Err(e))) => FinalizeStep::Failed(e),
            (Phase::Sleeping, Event::Woke) => {
                flow.phase = Phase::Fetching;
                let url = flow.order.url().clone();
                FinalizeStep::Go(flow, Action::Fetch { url })
            },
            _ => FinalizeStep::Failed(Error::NotWaiting),
        }
    }

    /// The order as the server described it last.
    pub fn api_order(&self) -> (api_order: &ApiOrder)
        ensures
            api_order@ == self@.order.api_order,
    {
        self.order.api_order()
    }
}

impl CertOrder {
    #[verifier::type_invariant]
    closed spec fn wf(&self) -> bool {
        &&& self.order@.api_order.status == Some(OrderStatus::Valid)
        &&& self.order@.api_order.certificate is Some
    }

    /// The URL that the certificate is downloaded from with a
    /// "POST-as-GET".
    pub fn certificate_url(&self) -> (url: &String)
        ensures
            Some(url@) == self@.order.api_order.certificate,
    {
        proof {
            use_type_invariant(self);
        }
        match &self.order.api_order().certificate {
            Some(url) => url,
            // an order becomes a `CertOrder` only with its certificate URL
            None => self.order.url(),
        }
    }

    /// What is to be done to download the certificate: one "POST-as-GET"
    /// against the certificate URL, whose body is then handed to
    /// [`CertOrder::download_cert`].
    pub fn download_request(&self) -> (action: Action)
        ensures
            self@.order.api_order.certificate == Some(action@->Fetch_url),
            action@ is Fetch,
    {
        Action::Fetch { url: self.certificate_url().clone() }
    }

    /// Takes in the issued certificate as it was downloaded: `chain_pem`
    /// is the body that a "POST-as-GET" against
    /// [`CertOrder::certificate_url`] gave, a chain of certificates in PEM.
    /// The chain is paired with the private key of the signing request. It
    /// holds the certificates of the text in the order of the text; a text
    /// without a certificate is refused.
    pub fn download_cert(self, chain_pem: &str) -> (res: Result<Certificate, Error>)
        ensures
            chain_read(pem_certs_spec(encode_utf8(chain_pem@))) is None ==> res is Err,
            res matches Ok(cert) ==> {
                &&& cert@.private_key_der == self@.key
                &&& Some(cert@.chain) == pem_certs_spec(encode_utf8(chain_pem@))
                &&& cert@.chain.len() >= 1
            },
            res matches Err(e) ==> e@ == (if chain_read(
                pem_certs_spec(encode_utf8(chain_pem@)),
            ) is None {
                ErrorView::CertificateChain
            } else {
                ErrorView::PrivateKey
            }),
    {
        Certificate::from_pem_chain(chain_pem, self.key)
    }

    /// Access the underlying JSON object for debugging.
    pub fn api_order(&self) -> (api_order: &ApiOrder)
        ensures
            api_order@ == self@.order.api_order,
            api_order@.status == Some(OrderStatus::Valid),
            api_order@.certificate is Some,
    {
        proof {
            use_type_invariant(self);
        }
        &self.order.api_order
    }
}

} // verus!
