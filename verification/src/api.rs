//! The documents that an ACME server sends and receives, as plain values.

use vstd::prelude::*;
use vstd::string::StringExecFns;

use crate::error::{Error, ErrorView};
use crate::json::{push_quoted, quote_spec};
use crate::util::{starts_with, str_equal};

verus! {

/// The status of an order (RFC 8555, section 7.1.6).
#[derive(Clone, Copy, Debug, PartialEq, Eq, Structural)]
pub enum OrderStatus {
    Pending,
    Ready,
    Processing,
    Valid,
    Invalid,
}

/// The status of an authorization (RFC 8555, section 7.1.6).
#[derive(Clone, Copy, Debug, PartialEq, Eq, Structural)]
pub enum AuthStatus {
    Pending,
    Valid,
    Invalid,
    Deactivated,
    Expired,
    Revoked,
}

/// The status of a challenge (RFC 8555, section 7.1.6).
#[derive(Clone, Copy, Debug, PartialEq, Eq, Structural)]
pub enum ChallengeStatus {
    Pending,
    Processing,
    Valid,
    Invalid,
}

/// The kinds of challenge that this client answers.
#[derive(Clone, Copy, Debug, PartialEq, Eq, Structural)]
pub enum ChallengeType {
    Http01,
    Dns01,
    TlsAlpn01,
}

/// The status of an order that the server writes as `name`.
pub open spec fn order_status_spec(name: Seq<char>) -> Option<OrderStatus> {
    if name == "pending"@ {
        Some(OrderStatus::Pending)
    } else if name == "ready"@ {
        Some(OrderStatus::Ready)
    } else if name == "processing"@ {
        Some(OrderStatus::Processing)
    } else if name == "valid"@ {
        Some(OrderStatus::Valid)
    } else if name == "invalid"@ {
        Some(OrderStatus::Invalid)
    } else {
        None
    }
}

/// The status of an authorization that the server writes as `name`.
pub open spec fn auth_status_spec(name: Seq<char>) -> Option<AuthStatus> {
    if name == "pending"@ {
        Some(AuthStatus::Pending)
    } else if name == "valid"@ {
        Some(AuthStatus::Valid)
    } else if name == "invalid"@ {
        Some(AuthStatus::Invalid)
    } else if name == "deactivated"@ {
        Some(AuthStatus::Deactivated)
    } else if name == "expired"@ {
        Some(AuthStatus::Expired)
    } else if name == "revoked"@ {
        Some(AuthStatus::Revoked)
    } else {
        None
    }
}

/// The status of a challenge that the server writes as `name`.
pub open spec fn challenge_status_spec(name: Seq<char>) -> Option<ChallengeStatus> {
    if name == "pending"@ {
        Some(ChallengeStatus::Pending)
    } else if name == "processing"@ {
        Some(ChallengeStatus::Processing)
    } else if name == "valid"@ {
        Some(ChallengeStatus::Valid)
    } else if name == "invalid"@ {
        Some(ChallengeStatus::Invalid)
    } else {
        None
    }
}

/// The kind of challenge that the server writes as `name`.
pub open spec fn challenge_type_spec(name: Seq<char>) -> Option<ChallengeType> {
    if name == "http-01"@ {
        Some(ChallengeType::Http01)
    } else if name == "dns-01"@ {
        Some(ChallengeType::Dns01)
    } else if name == "tls-alpn-01"@ {
        Some(ChallengeType::TlsAlpn01)
    } else {
        None
    }
}

/// How the server writes the status of an order.
pub open spec fn order_status_name(status: OrderStatus) -> Seq<char> {
    match status {
        OrderStatus::Pending => "pending"@,
        OrderStatus::Ready => "ready"@,
        OrderStatus::Processing => "processing"@,
        OrderStatus::Valid => "valid"@,
        OrderStatus::Invalid => "invalid"@,
    }
}

/// How the server writes the status of an authorization.
pub open spec fn auth_status_name(status: AuthStatus) -> Seq<char> {
    match status {
        AuthStatus::Pending => "pending"@,
        AuthStatus::Valid => "valid"@,
        AuthStatus::Invalid => "invalid"@,
        AuthStatus::Deactivated => "deactivated"@,
        AuthStatus::Expired => "expired"@,
        AuthStatus::Revoked => "revoked"@,
    }
}

/// How the server writes the status of a challenge.
pub open spec fn challenge_status_name(status: ChallengeStatus) -> Seq<char> {
    match status {
        ChallengeStatus::Pending => "pending"@,
        ChallengeStatus::Processing => "processing"@,
        ChallengeStatus::Valid => "valid"@,
        ChallengeStatus::Invalid => "invalid"@,
    }
}

/// A status that was written out is read back as what it was.
pub proof fn lemma_status_names_read_back(
    order: OrderStatus,
    auth: AuthStatus,
    challenge: ChallengeStatus,
)
    ensures
        order_status_spec(order_status_name(order)) == Some(order),
        auth_status_spec(auth_status_name(auth)) == Some(auth),
        challenge_status_spec(challenge_status_name(challenge)) == Some(challenge),
{
    reveal_strlit("pending");
    reveal_strlit("ready");
    reveal_strlit("processing");
    reveal_strlit("valid");
    reveal_strlit("invalid");
    reveal_strlit("deactivated");
    reveal_strlit("expired");
    reveal_strlit("revoked");
    assert("pending"@.len() == 7 && "pending"@[0] == 'p');
    assert("ready"@.len() == 5 && "ready"@[0] == 'r');
    assert("processing"@.len() == 10);
    assert("valid"@.len() == 5 && "valid"@[0] == 'v');
    assert("invalid"@.len() == 7 && "invalid"@[0] == 'i');
    assert("deactivated"@.len() == 11);
    assert("expired"@.len() == 7 && "expired"@[0] == 'e');
    assert("revoked"@.len() == 7 && "revoked"@[0] == 'r');
}

impl OrderStatus {
    /// How the server writes the status.
    pub fn name(self) -> (name: &'static str)
        ensures
            name@ == order_status_name(self),
    {
        match self {
            OrderStatus::Pending => "pending",
            OrderStatus::Ready => "ready",
            OrderStatus::Processing => "processing",
            OrderStatus::Valid => "valid",
            OrderStatus::Invalid => "invalid",
        }
    }

    /// The status of an order whose document holds `name`.
    pub fn read(name: Option<&str>) -> (res: Result<Option<OrderStatus>, Error>)
        ensures
            res is Ok <==> (name matches Some(n) ==> order_status_spec(n@) is Some),
            res matches Ok(status) ==> status == match name {
                Some(n) => order_status_spec(n@),
                None => None,
            },
            res matches Err(e) ==> e@ == ErrorView::UnknownStatus(name->Some_0@),
    {
        match name {
            None => Ok(None),
            Some(n) => match OrderStatus::parse(n) {
                Some(status) => Ok(Some(status)),
                None => Err(Error::UnknownStatus(n.to_owned())),
            },
        }
    }

    /// Reads the status of an order.
    pub fn parse(name: &str) -> (status: Option<OrderStatus>)
        ensures
            status == order_status_spec(name@),
    {
        if str_equal(name, "pending") {
            Some(OrderStatus::Pending)
        } else if str_equal(name, "ready") {
            Some(OrderStatus::Ready)
        } else if str_equal(name, "processing") {
            Some(OrderStatus::Processing)
        } else if str_equal(name, "valid") {
            Some(OrderStatus::Valid)
        } else if str_equal(name, "invalid") {
            Some(OrderStatus::Invalid)
        } else {
            None
        }
    }

    /// How far an order has come. An order only ever moves forward:
    /// pending, ready, processing, valid; invalid is the end of any of them.
    pub open spec fn stage(self) -> nat {
        match self {
            OrderStatus::Pending => 0,
            OrderStatus::Ready => 1,
            OrderStatus::Processing => 2,
            OrderStatus::Valid => 3,
            OrderStatus::Invalid => 4,
        }
    }

    /// How far an order has come.
    pub fn rank(self) -> (r: u8)
        ensures
            r == self.stage(),
    {
        match self {
            OrderStatus::Pending => 0,
            OrderStatus::Ready => 1,
            OrderStatus::Processing => 2,
            OrderStatus::Valid => 3,
            OrderStatus::Invalid => 4,
        }
    }
}

impl AuthStatus {
    /// How the server writes the status.
    pub fn name(self) -> (name: &'static str)
        ensures
            name@ == auth_status_name(self),
    {
        match self {
            AuthStatus::Pending => "pending",
            AuthStatus::Valid => "valid",
            AuthStatus::Invalid => "invalid",
            AuthStatus::Deactivated => "deactivated",
            AuthStatus::Expired => "expired",
            AuthStatus::Revoked => "revoked",
        }
    }

    /// The status of an authorization whose document holds `name`.
    pub fn read(name: Option<&str>) -> (res: Result<Option<AuthStatus>, Error>)
        ensures
            res is Ok <==> (name matches Some(n) ==> auth_status_spec(n@) is Some),
            res matches Ok(status) ==> status == match name {
                Some(n) => auth_status_spec(n@),
                None => None,
            },
            res matches Err(e) ==> e@ == ErrorView::UnknownStatus(name->Some_0@),
    {
        match name {
            None => Ok(None),
            Some(n) => match AuthStatus::parse(n) {
                Some(status) => Ok(Some(status)),
                None => Err(Error::UnknownStatus(n.to_owned())),
            },
        }
    }

    /// Reads the status of an authorization.
    pub fn parse(name: &str) -> (status: Option<AuthStatus>)
        ensures
            status == auth_status_spec(name@),
    {
        if str_equal(name, "pending") {
            Some(AuthStatus::Pending)
        } else if str_equal(name, "valid") {
            Some(AuthStatus::Valid)
        } else if str_equal(name, "invalid") {
            Some(AuthStatus::Invalid)
        } else if str_equal(name, "deactivated") {
            Some(AuthStatus::Deactivated)
        } else if str_equal(name, "expired") {
            Some(AuthStatus::Expired)
        } else if str_equal(name, "revoked") {
            Some(AuthStatus::Revoked)
        } else {
            None
        }
    }
}

impl ChallengeStatus {
    /// How the server writes the status.
    pub fn name(self) -> (name: &'static str)
        ensures
            name@ == challenge_status_name(self),
    {
        match self {
            ChallengeStatus::Pending => "pending",
            ChallengeStatus::Processing => "processing",
            ChallengeStatus::Valid => "valid",
            ChallengeStatus::Invalid => "invalid",
        }
    }

    /// The status of a challenge whose document holds `name`.
    pub fn read(name: Option<&str>) -> (res: Result<Option<ChallengeStatus>, Error>)
        ensures
            res is Ok <==> (name matches Some(n) ==> challenge_status_spec(n@) is Some),
            res matches Ok(status) ==> status == match name {
                Some(n) => challenge_status_spec(n@),
                None => None,
            },
            res matches Err(e) ==> e@ == ErrorView::UnknownStatus(name->Some_0@),
    {
        match name {
            None => Ok(None),
            Some(n) => match ChallengeStatus::parse(n) {
                Some(status) => Ok(Some(status)),
                None => Err(Error::UnknownStatus(n.to_owned())),
            },
        }
    }

    /// Reads the status of a challenge.
    pub fn parse(name: &str) -> (status: Option<ChallengeStatus>)
        ensures
            status == challenge_status_spec(name@),
    {
        if str_equal(name, "pending") {
            Some(ChallengeStatus::Pending)
        } else if str_equal(name, "processing") {
            Some(ChallengeStatus::Processing)
        } else if str_equal(name, "valid") {
            Some(ChallengeStatus::Valid)
        } else if str_equal(name, "invalid") {
            Some(ChallengeStatus::Invalid)
        } else {
            None
        }
    }
}

impl ChallengeType {
    /// Reads the kind of a challenge.
    pub fn parse(name: &str) -> (kind: Option<ChallengeType>)
        ensures
            kind == challenge_type_spec(name@),
    {
        if str_equal(name, "http-01") {
            Some(ChallengeType::Http01)
        } else if str_equal(name, "dns-01") {
            Some(ChallengeType::Dns01)
        } else if str_equal(name, "tls-alpn-01") {
            Some(ChallengeType::TlsAlpn01)
        } else {
            None
        }
    }
}

/// The views of a list of texts.
pub open spec fn strs_view(v: Seq<String>) -> Seq<Seq<char>> {
    v.map_values(|s: String| s@)
}

/// A problem nested in another one, about a single identifier.
#[derive(Clone, Debug, PartialEq, Eq)]
pub struct ApiSubproblem {
    pub _type: String,
    pub detail: Option<String>,
}

/// The mathematical value of an [`ApiSubproblem`].
pub struct ApiSubproblemView {
    pub _type: Seq<char>,
    pub detail: Option<Seq<char>>,
}

/// The view of an optional string.
pub open spec fn opt_str_view(s: Option<String>) -> Option<Seq<char>> {
    match s {
        Some(s) => Some(s@),
        None => None,
    }
}

impl View for ApiSubproblem {
    type V = ApiSubproblemView;

    open spec fn view(&self) -> ApiSubproblemView {
        ApiSubproblemView { _type: self._type@, detail: opt_str_view(self.detail) }
    }
}

/// A problem document (RFC 7807) as an ACME server sends it.
#[derive(Clone, Debug, PartialEq, Eq)]
pub struct ApiProblem {
    pub _type: String,
    pub detail: Option<String>,
    pub subproblems: Option<Vec<ApiSubproblem>>,
}

/// The mathematical value of an [`ApiProblem`].
pub struct ApiProblemView {
    pub _type: Seq<char>,
    pub detail: Option<Seq<char>>,
    pub subproblems: Option<Seq<ApiSubproblemView>>,
}

impl View for ApiProblem {
    type V = ApiProblemView;

    open spec fn view(&self) -> ApiProblemView {
        ApiProblemView {
            _type: self._type@,
            detail: opt_str_view(self.detail),
            subproblems: match self.subproblems {
                Some(v) => Some(v@.map_values(|p: ApiSubproblem| p@)),
                None => None,
            },
        }
    }
}

impl ApiProblem {
    /// Whether the server refused the request for its nonce.
    pub open spec fn spec_is_bad_nonce(&self) -> bool {
        self@._type == "urn:ietf:params:acme:error:badNonce"@
    }

    /// Whether the server refused the request for its nonce.
    pub fn is_bad_nonce(&self) -> (bad: bool)
        ensures
            bad == self.spec_is_bad_nonce(),
    {
        str_equal(self._type.as_str(), "urn:ietf:params:acme:error:badNonce")
    }
}

/// What a certificate is asked for: a DNS name.
#[derive(Clone, Debug, PartialEq, Eq)]
pub struct ApiIdentifier {
    pub _type: String,
    pub value: String,
}

/// The mathematical value of an [`ApiIdentifier`].
pub struct ApiIdentifierView {
    pub _type: Seq<char>,
    pub value: Seq<char>,
}

impl View for ApiIdentifier {
    type V = ApiIdentifierView;

    open spec fn view(&self) -> ApiIdentifierView {
        ApiIdentifierView { _type: self._type@, value: self.value@ }
    }
}

impl ApiIdentifier {
    /// The identifier of a DNS name.
    pub fn dns(name: &str) -> (id: ApiIdentifier)
        ensures
            id@ == (ApiIdentifierView { _type: "dns"@, value: name@ }),
    {
        ApiIdentifier { _type: "dns".to_owned(), value: name.to_owned() }
    }
}

/// The views of a list of identifiers.
pub open spec fn identifiers_view(v: Seq<ApiIdentifier>) -> Seq<ApiIdentifierView> {
    v.map_values(|i: ApiIdentifier| i@)
}

/// The names that a list of identifiers holds.
pub open spec fn names_of(ids: Seq<ApiIdentifierView>) -> Seq<Seq<char>> {
    ids.map_values(|i: ApiIdentifierView| i.value)
}

/// An order as the server describes it (RFC 8555, section 7.1.3).
#[derive(Clone, Debug, PartialEq, Eq)]
pub struct ApiOrder {
    pub status: Option<OrderStatus>,
    pub expires: Option<String>,
    pub identifiers: Vec<ApiIdentifier>,
    pub error: Option<ApiProblem>,
    pub authorizations: Option<Vec<String>>,
    pub finalize: String,
    pub certificate: Option<String>,
}

/// The mathematical value of an [`ApiOrder`].
pub struct ApiOrderView {
    pub status: Option<OrderStatus>,
    pub expires: Option<Seq<char>>,
    pub identifiers: Seq<ApiIdentifierView>,
    pub error: Option<ApiProblemView>,
    pub authorizations: Option<Seq<Seq<char>>>,
    pub finalize: Seq<char>,
    pub certificate: Option<Seq<char>>,
}

impl View for ApiOrder {
    type V = ApiOrderView;

    open spec fn view(&self) -> ApiOrderView {
        ApiOrderView {
            status: self.status,
            expires: opt_str_view(self.expires),
            identifiers: identifiers_view(self.identifiers@),
            error: match self.error {
                Some(e) => Some(e@),
                None => None,
            },
            authorizations: match self.authorizations {
                Some(a) => Some(strs_view(a@)),
                None => None,
            },
            finalize: self.finalize@,
            certificate: opt_str_view(self.certificate),
        }
    }
}

/// How far an order with the given status has come; an order without
/// a status has not begun.
pub open spec fn stage_of(status: Option<OrderStatus>) -> nat {
    match status {
        Some(s) => s.stage(),
        None => 0,
    }
}

/// How far an order with the given status has come.
pub fn rank_of(status: Option<OrderStatus>) -> (r: u8)
    ensures
        r == stage_of(status),
{
    match status {
        Some(s) => s.rank(),
        None => 0,
    }
}

impl ApiOrder {
    /// Whether the order waits for its authorizations.
    pub fn is_status_pending(&self) -> (b: bool)
        ensures
            b == (self@.status == Some(OrderStatus::Pending)),
    {
        matches!(self.status, Some(OrderStatus::Pending))
    }

    /// Whether the order can be finalized.
    pub fn is_status_ready(&self) -> (b: bool)
        ensures
            b == (self@.status == Some(OrderStatus::Ready)),
    {
        matches!(self.status, Some(OrderStatus::Ready))
    }

    /// Whether the certificate is being issued.
    pub fn is_status_processing(&self) -> (b: bool)
        ensures
            b == (self@.status == Some(OrderStatus::Processing)),
    {
        matches!(self.status, Some(OrderStatus::Processing))
    }

    /// Whether the certificate has been issued.
    pub fn is_status_valid(&self) -> (b: bool)
        ensures
            b == (self@.status == Some(OrderStatus::Valid)),
    {
        matches!(self.status, Some(OrderStatus::Valid))
    }

    /// Whether the order has failed.
    pub fn is_status_invalid(&self) -> (b: bool)
        ensures
            b == (self@.status == Some(OrderStatus::Invalid)),
    {
        matches!(self.status, Some(OrderStatus::Invalid))
    }

    /// The names that the order is for, in the order's own sequence.
    pub fn domains(&self) -> (names: Vec<&str>)
        ensures
            names@.map_values(|s: &str| s@) == names_of(self@.identifiers),
    {
        let mut names: Vec<&str> = Vec::new();
        let mut i: usize = 0;
        while i < self.identifiers.len()
            invariant
                i <= self.identifiers.len(),
                names@.map_values(|s: &str| s@) == names_of(self@.identifiers).take(i as int),
            decreases self.identifiers.len() - i,
        {
            let ghost before = names@;
            let name = self.identifiers[i].value.as_str();
            names.push(name);
            i += 1;
            proof {
                let all = names_of(self@.identifiers);
                assert(all[i - 1] == self.identifiers@[i - 1]@.value);
                assert(all.take(i as int) =~= all.take(i - 1).push(all[i - 1]));
                assert(names@.map_values(|s: &str| s@) =~= before.map_values(|s: &str| s@).push(
                    name@,
                ));
            }
        }
        assert(names_of(self@.identifiers).take(i as int) =~= names_of(self@.identifiers));
        names
    }
}

/// One way to prove control of a name, as the server offers it.
#[derive(Clone, Debug, PartialEq, Eq)]
pub struct ApiChallenge {
    pub url: String,
    pub _type: String,
    pub status: Option<ChallengeStatus>,
    pub token: String,
    pub validated: Option<String>,
    pub error: Option<ApiProblem>,
}

/// The mathematical value of an [`ApiChallenge`].
pub struct ApiChallengeView {
    pub url: Seq<char>,
    pub _type: Seq<char>,
    pub status: Option<ChallengeStatus>,
    pub token: Seq<char>,
    pub validated: Option<Seq<char>>,
    pub error: Option<ApiProblemView>,
}

impl View for ApiChallenge {
    type V = ApiChallengeView;

    open spec fn view(&self) -> ApiChallengeView {
        ApiChallengeView {
            url: self.url@,
            _type: self._type@,
            status: self.status,
            token: self.token@,
            validated: opt_str_view(self.validated),
            error: match self.error {
                Some(e) => Some(e@),
                None => None,
            },
        }
    }
}

/// The views of a list of challenges.
pub open spec fn challenges_view(v: Seq<ApiChallenge>) -> Seq<ApiChallengeView> {
    v.map_values(|c: ApiChallenge| c@)
}

/// An authorization as the server describes it (RFC 8555, section 7.1.4).
#[derive(Clone, Debug, PartialEq, Eq)]
pub struct ApiAuth {
    pub identifier: ApiIdentifier,
    pub status: Option<AuthStatus>,
    pub expires: Option<String>,
    pub challenges: Vec<ApiChallenge>,
    pub wildcard: Option<bool>,
}

/// The mathematical value of an [`ApiAuth`].
pub struct ApiAuthView {
    pub identifier: ApiIdentifierView,
    pub status: Option<AuthStatus>,
    pub expires: Option<Seq<char>>,
    pub challenges: Seq<ApiChallengeView>,
    pub wildcard: Option<bool>,
}

impl View for ApiAuth {
    type V = ApiAuthView;

    open spec fn view(&self) -> ApiAuthView {
        ApiAuthView {
            identifier: self.identifier@,
            status: self.status,
            expires: opt_str_view(self.expires),
            challenges: challenges_view(self.challenges@),
            wildcard: self.wildcard,
        }
    }
}

/// The first challenge of the given kind in a list.
pub open spec fn first_of_type(challenges: Seq<ApiChallengeView>, name: Seq<char>) -> Option<
    ApiChallengeView,
>
    decreases challenges.len(),
{
    if challenges.len() == 0 {
        None
    } else if challenges[0]._type == name {
        Some(challenges[0])
    } else {
        first_of_type(challenges.skip(1), name)
    }
}

impl ApiAuth {
    /// Whether the name is still waiting for proof.
    pub fn is_status_pending(&self) -> (b: bool)
        ensures
            b == (self@.status == Some(AuthStatus::Pending)),
    {
        matches!(self.status, Some(AuthStatus::Pending))
    }

    /// Whether control of the name has been proved.
    pub fn is_status_valid(&self) -> (b: bool)
        ensures
            b == (self@.status == Some(AuthStatus::Valid)),
    {
        matches!(self.status, Some(AuthStatus::Valid))
    }

    /// The first challenge of the kind that the server writes as `name`.
    pub fn challenge_of_type(&self, name: &str) -> (found: Option<&ApiChallenge>)
        ensures
            found is Some <==> first_of_type(self@.challenges, name@) is Some,
            found matches Some(c) ==> Some(c@) == first_of_type(self@.challenges, name@),
    {
        let ghost all = self@.challenges;
        let mut i: usize = 0;
        assert(all.skip(0) =~= all);
        while i < self.challenges.len()
            invariant
                i <= self.challenges.len(),
                all == self@.challenges,
                first_of_type(all, name@) == first_of_type(all.skip(i as int), name@),
            decreases self.challenges.len() - i,
        {
            assert(all.skip(i as int)[0] == self.challenges@[i as int]@);
            assert(all.skip(i as int).skip(1) =~= all.skip(i + 1));
            if str_equal(self.challenges[i]._type.as_str(), name) {
                return Some(&self.challenges[i]);
            }
            i += 1;
        }
        None
    }
}

/// The URLs of the server's resources (RFC 8555, section 7.1.1).
#[derive(Clone, Debug, PartialEq, Eq)]
pub struct ApiDirectory {
    pub new_nonce: String,
    pub new_account: String,
    pub new_order: String,
    pub revoke_cert: String,
    pub key_change: String,
}

/// The mathematical value of an [`ApiDirectory`].
pub struct ApiDirectoryView {
    pub new_nonce: Seq<char>,
    pub new_account: Seq<char>,
    pub new_order: Seq<char>,
    pub revoke_cert: Seq<char>,
    pub key_change: Seq<char>,
}

impl View for ApiDirectory {
    type V = ApiDirectoryView;

    open spec fn view(&self) -> ApiDirectoryView {
        ApiDirectoryView {
            new_nonce: self.new_nonce@,
            new_account: self.new_account@,
            new_order: self.new_order@,
            revoke_cert: self.revoke_cert@,
            key_change: self.key_change@,
        }
    }
}

/// The elements of a JSON array of strings, each with the comma before it
/// where it is not the first.
pub open spec fn quoted_list_spec(items: Seq<Seq<char>>) -> Seq<char>
    decreases items.len(),
{
    if items.len() == 0 {
        seq![]
    } else if items.len() == 1 {
        quote_spec(items[0])
    } else {
        quoted_list_spec(items.drop_last()) + ","@ + quote_spec(items.last())
    }
}

/// The payload that registers an account: the terms of service are
/// agreed, and `contact` lists how to reach the holder.
pub open spec fn account_payload_spec(contact: Seq<Seq<char>>) -> Seq<char> {
    "{\"termsOfServiceAgreed\":true,\"contact\":["@ + quoted_list_spec(contact) + "]}"@
}

/// The elements of the JSON array of DNS identifiers for `names`.
pub open spec fn identifier_list_spec(names: Seq<Seq<char>>) -> Seq<char>
    decreases names.len(),
{
    if names.len() == 0 {
        seq![]
    } else if names.len() == 1 {
        "{\"type\":\"dns\",\"value\":"@ + quote_spec(names[0]) + "}"@
    } else {
        identifier_list_spec(names.drop_last()) + ",{\"type\":\"dns\",\"value\":"@ + quote_spec(
            names.last(),
        ) + "}"@
    }
}

/// The payload that asks for a certificate for `names`.
pub open spec fn order_payload_spec(names: Seq<Seq<char>>) -> Seq<char> {
    "{\"identifiers\":["@ + identifier_list_spec(names) + "]}"@
}

/// The payload that finalizes an order: the signing request in base64url.
pub open spec fn finalize_payload_spec(csr: Seq<char>) -> Seq<char> {
    "{\"csr\":"@ + quote_spec(csr) + "}"@
}

/// The payload that registers an account.
pub fn account_payload(contact: &Vec<String>) -> (text: String)
    ensures
        text@ == account_payload_spec(strs_view(contact@)),
{
    let ghost items = strs_view(contact@);
    let mut out = "{\"termsOfServiceAgreed\":true,\"contact\":[".to_owned();
    let ghost head = out@;
    let mut i: usize = 0;
    assert(items.take(0) =~= Seq::<Seq<char>>::empty());
    assert(head + Seq::<char>::empty() =~= head);
    while i < contact.len()
        invariant
            i <= contact.len(),
            items == strs_view(contact@),
            out@ == head + quoted_list_spec(items.take(i as int)),
        decreases contact.len() - i,
    {
        if i > 0 {
            out.append(",");
        }
        push_quoted(&mut out, contact[i].as_str());
        i += 1;
        proof {
            assert(items.take(i as int).drop_last() =~= items.take(i - 1));
            assert(items.take(i as int).last() == contact@[i - 1]@);
            assert(out@ =~= head + quoted_list_spec(items.take(i as int)));
        }
    }
    assert(items.take(i as int) =~= items);
    out.append("]}");
    out
}

/// The payload that asks for a certificate for `names`.
pub fn order_payload(names: &Vec<String>) -> (text: String)
    ensures
        text@ == order_payload_spec(strs_view(names@)),
{
    let ghost items = strs_view(names@);
    let mut out = "{\"identifiers\":[".to_owned();
    let ghost head = out@;
    let mut i: usize = 0;
    assert(items.take(0) =~= Seq::<Seq<char>>::empty());
    assert(head + Seq::<char>::empty() =~= head);
    while i < names.len()
        invariant
            i <= names.len(),
            items == strs_view(names@),
            out@ == head + identifier_list_spec(items.take(i as int)),
        decreases names.len() - i,
    {
        let ghost before = out@;
        if i > 0 {
            out.append(",{\"type\":\"dns\",\"value\":");
        } else {
            out.append("{\"type\":\"dns\",\"value\":");
        }
        push_quoted(&mut out, names[i].as_str());
        out.append("}");
        i += 1;
        proof {
            assert(items.take(i as int).drop_last() =~= items.take(i - 1));
            assert(items.take(i as int).last() == names@[i - 1]@);
            assert(out@ =~= head + identifier_list_spec(items.take(i as int)));
        }
    }
    assert(items.take(i as int) =~= items);
    out.append("]}");
    out
}

/// The payload that finalizes an order.
pub fn finalize_payload(csr: &str) -> (text: String)
    ensures
        text@ == finalize_payload_spec(csr@),
{
    let mut out = "{\"csr\":".to_owned();
    push_quoted(&mut out, csr);
    out.append("}");
    out
}

/// A copy of an optional text.
pub fn copy_opt_str(s: &Option<String>) -> (copy: Option<String>)
    ensures
        opt_str_view(copy) == opt_str_view(*s),
{
    match s {
        Some(s) => Some(s.clone()),
        None => None,
    }
}

/// A copy of a list of texts.
pub fn copy_strs(v: &Vec<String>) -> (copy: Vec<String>)
    ensures
        strs_view(copy@) == strs_view(v@),
{
    let mut copy: Vec<String> = Vec::new();
    let mut i: usize = 0;
    while i < v.len()
        invariant
            i <= v.len(),
            strs_view(copy@) == strs_view(v@).take(i as int),
        decreases v.len() - i,
    {
        let ghost before = copy@;
        let item = v[i].clone();
        copy.push(item);
        i += 1;
        proof {
            assert(strs_view(v@).take(i as int) =~= strs_view(v@).take(i - 1).push(v@[i - 1]@));
            assert(strs_view(copy@) =~= strs_view(before).push(item@));
        }
    }
    assert(strs_view(v@).take(i as int) =~= strs_view(v@));
    copy
}

impl ApiSubproblem {
    /// A copy of the problem.
    pub fn duplicate(&self) -> (copy: ApiSubproblem)
        ensures
            copy@ == self@,
    {
        ApiSubproblem { _type: self._type.clone(), detail: copy_opt_str(&self.detail) }
    }
}

impl ApiProblem {
    /// A copy of the problem.
    pub fn duplicate(&self) -> (copy: ApiProblem)
        ensures
            copy@ == self@,
    {
        let subproblems = match &self.subproblems {
            None => None,
            Some(v) => {
                let mut copy: Vec<ApiSubproblem> = Vec::new();
                let mut i: usize = 0;
                while i < v.len()
                    invariant
                        i <= v.len(),
                        copy@.map_values(|p: ApiSubproblem| p@) == v@.map_values(
                            |p: ApiSubproblem| p@,
                        ).take(i as int),
                    decreases v.len() - i,
                {
                    let ghost before = copy@;
                    let item = v[i].duplicate();
                    copy.push(item);
                    i += 1;
                    proof {
                        let all = v@.map_values(|p: ApiSubproblem| p@);
                        assert(all.take(i as int) =~= all.take(i - 1).push(v@[i - 1]@));
                        assert(copy@.map_values(|p: ApiSubproblem| p@) =~= before.map_values(
                            |p: ApiSubproblem| p@,
                        ).push(item@));
                    }
                }
                assert(v@.map_values(|p: ApiSubproblem| p@).take(i as int) =~= v@.map_values(
                    |p: ApiSubproblem| p@,
                ));
                Some(copy)
            },
        };
        ApiProblem {
            _type: self._type.clone(),
            detail: copy_opt_str(&self.detail),
            subproblems,
        }
    }
}

/// A copy of an optional problem.
pub fn copy_opt_problem(p: &Option<ApiProblem>) -> (copy: Option<ApiProblem>)
    ensures
        copy is Some <==> p is Some,
        copy matches Some(c) ==> c@ == p->Some_0@,
{
    match p {
        Some(p) => Some(p.duplicate()),
        None => None,
    }
}

impl ApiIdentifier {
    /// A copy of the identifier.
    pub fn duplicate(&self) -> (copy: ApiIdentifier)
        ensures
            copy@ == self@,
    {
        ApiIdentifier { _type: self._type.clone(), value: self.value.clone() }
    }
}

impl ApiOrder {
    /// A copy of the order.
    pub fn duplicate(&self) -> (copy: ApiOrder)
        ensures
            copy@ == self@,
    {
        let mut identifiers: Vec<ApiIdentifier> = Vec::new();
        let mut i: usize = 0;
        while i < self.identifiers.len()
            invariant
                i <= self.identifiers.len(),
                identifiers_view(identifiers@) == identifiers_view(self.identifiers@).take(
                    i as int,
                ),
            decreases self.identifiers.len() - i,
        {
            let ghost before = identifiers@;
            let item = self.identifiers[i].duplicate();
            identifiers.push(item);
            i += 1;
            proof {
                let all = identifiers_view(self.identifiers@);
                assert(all.take(i as int) =~= all.take(i - 1).push(self.identifiers@[i - 1]@));
                assert(identifiers_view(identifiers@) =~= identifiers_view(before).push(item@));
            }
        }
        assert(identifiers_view(self.identifiers@).take(i as int) =~= identifiers_view(
            self.identifiers@,
        ));
        let authorizations = match &self.authorizations {
            Some(a) => Some(copy_strs(a)),
            None => None,
        };
        ApiOrder {
            status: self.status,
            expires: copy_opt_str(&self.expires),
            identifiers,
            error: copy_opt_problem(&self.error),
            authorizations,
            finalize: self.finalize.clone(),
            certificate: copy_opt_str(&self.certificate),
        }
    }
}

impl ApiChallenge {
    /// A copy of the challenge.
    pub fn duplicate(&self) -> (copy: ApiChallenge)
        ensures
            copy@ == self@,
    {
        ApiChallenge {
            url: self.url.clone(),
            _type: self._type.clone(),
            status: self.status,
            token: self.token.clone(),
            validated: copy_opt_str(&self.validated),
            error: copy_opt_problem(&self.error),
        }
    }
}

/// Whether `url` is an absolute URL of the web: `https://` or `http://`,
/// and something after it.
pub open spec fn is_absolute_url(url: Seq<char>) -> bool {
    ("https://"@.is_prefix_of(url) && url != "https://"@) || ("http://"@.is_prefix_of(url) && url
        != "http://"@)
}

/// What is wrong with the entry `name` of a directory, if anything: it is
/// missing where it is empty, and malformed where it is no absolute URL.
pub open spec fn entry_checked(name: Seq<char>, url: Seq<char>) -> Result<(), ErrorView> {
    if url.len() == 0 {
        Err(ErrorView::MissingDirectoryEntry(name))
    } else if !is_absolute_url(url) {
        Err(ErrorView::MalformedUrl(url))
    } else {
        Ok(())
    }
}

/// What is wrong with a directory, if anything: the first of its entries
/// that is missing or malformed, in the order `newNonce`, `newAccount`,
/// `newOrder`, `revokeCert`, `keyChange`.
pub open spec fn directory_checked(d: ApiDirectoryView) -> Result<(), ErrorView> {
    if entry_checked("newNonce"@, d.new_nonce) is Err {
        entry_checked("newNonce"@, d.new_nonce)
    } else if entry_checked("newAccount"@, d.new_account) is Err {
        entry_checked("newAccount"@, d.new_account)
    } else if entry_checked("newOrder"@, d.new_order) is Err {
        entry_checked("newOrder"@, d.new_order)
    } else if entry_checked("revokeCert"@, d.revoke_cert) is Err {
        entry_checked("revokeCert"@, d.revoke_cert)
    } else {
        entry_checked("keyChange"@, d.key_change)
    }
}

/// The view of a check.
pub open spec fn checked_view(res: Result<(), Error>) -> Result<(), ErrorView> {
    match res {
        Ok(_) => Ok(()),
        Err(e) => Err(e@),
    }
}

/// Whether `url` is an absolute URL of the web.
pub fn absolute_url(url: &str) -> (absolute: bool)
    ensures
        absolute == is_absolute_url(url@),
{
    (starts_with(url, "https://") && !str_equal(url, "https://")) || (starts_with(url, "http://")
        && !str_equal(url, "http://"))
}

/// Checks the entry `name` of a directory.
pub fn check_entry(name: &str, url: &str) -> (res: Result<(), Error>)
    ensures
        checked_view(res) == entry_checked(name@, url@),
{
    if url.is_empty() {
        Err(Error::MissingDirectoryEntry(name.to_owned()))
    } else if !absolute_url(url) {
        Err(Error::MalformedUrl(url.to_owned()))
    } else {
        Ok(())
    }
}

impl ApiDirectory {
    /// Checks that the directory names every resource by an absolute URL.
    pub fn check(&self) -> (res: Result<(), Error>)
        ensures
            checked_view(res) == directory_checked(self@),
    {
        check_entry("newNonce", self.new_nonce.as_str())?;
        check_entry("newAccount", self.new_account.as_str())?;
        check_entry("newOrder", self.new_order.as_str())?;
        check_entry("revokeCert", self.revoke_cert.as_str())?;
        check_entry("keyChange", self.key_change.as_str())
    }

    /// A copy of the directory.
    pub fn duplicate(&self) -> (copy: ApiDirectory)
        ensures
            copy@ == self@,
    {
        ApiDirectory {
            new_nonce: self.new_nonce.clone(),
            new_account: self.new_account.clone(),
            new_order: self.new_order.clone(),
            revoke_cert: self.revoke_cert.clone(),
            key_change: self.key_change.clone(),
        }
    }
}

} // verus!
