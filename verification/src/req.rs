//! Responses of the server, and how they are told apart.

use vstd::prelude::*;
use vstd::string::StringExecFns;
use vstd::utf8::encode_utf8;

use crate::api::{ApiProblem, ApiProblemView};
use crate::util::{ascii_lower_text, bytes_equal, push_char};

verus! {

/// hyper's `HeaderMap`: the headers of a response. It is read through
/// [`header_get`] alone.
#[verifier::external_type_specification]
#[verifier::external_body]
#[verifier::reject_recursive_types(T)]
pub struct ExHeaderMap<T>(hyper::HeaderMap<T>);

/// hyper's `HeaderValue`: the value of one header. It is read through
/// [`header_get`] alone.
#[verifier::external_type_specification]
#[verifier::external_body]
pub struct ExHeaderValue(hyper::header::HeaderValue);

/// What a header map holds: for the name of each header, in lower case,
/// the value that came first under that name.
pub uninterp spec fn header_contents(
    headers: hyper::HeaderMap<hyper::header::HeaderValue>,
) -> Map<Seq<char>, Seq<u8>>;

/// A response as the transport hands it over: the status code, the
/// headers, and the body.
#[derive(Debug, PartialEq, Eq)]
pub struct HttpResponse {
    pub status: u16,
    pub headers: hyper::HeaderMap<hyper::header::HeaderValue>,
    pub body: String,
}

/// The mathematical value of an [`HttpResponse`].
pub struct HttpResponseView {
    pub status: u16,
    /// For the name of each header, in lower case, its first value.
    pub headers: Map<Seq<char>, Seq<u8>>,
    pub body: Seq<char>,
}

impl View for HttpResponse {
    type V = HttpResponseView;

    open spec fn view(&self) -> HttpResponseView {
        HttpResponseView {
            status: self.status,
            headers: header_contents(self.headers),
            body: self.body@,
        }
    }
}

pub type ReqResult<T> = Result<T, ApiProblem>;

/// Whether a status code is one of success: 200 to 299.
pub open spec fn is_success(status: u16) -> bool {
    200 <= status < 300
}

/// The value of the first header with the given name, the case of
/// letters set aside.
pub open spec fn first_header(headers: Map<Seq<char>, Seq<u8>>, name: Seq<char>) -> Option<
    Seq<u8>,
> {
    if headers.dom().contains(ascii_lower_text(name)) {
        Some(headers[ascii_lower_text(name)])
    } else {
        None
    }
}

/// Whether a header value is text: visible ASCII, blanks and tabs.
pub open spec fn is_visible(value: Seq<u8>) -> bool {
    forall|i: int| 0 <= i < value.len() ==> (32 <= #[trigger] value[i] < 127 || value[i] == 9)
}

/// The text of a header value of visible ASCII.
pub open spec fn ascii_text(value: Seq<u8>) -> Seq<char> {
    value.map_values(|b: u8| b as char)
}

/// The problem that stands for a header which a response should have had.
pub open spec fn missing_header(name: Seq<char>) -> ApiProblemView {
    ApiProblemView { _type: "Missing header: "@ + name, detail: None, subproblems: None }
}

/// The problem that stands for a problem document which could not be
/// read: `reason` says why, `body` is what was sent.
pub open spec fn unreadable_problem(reason: Seq<char>, body: Seq<char>) -> ApiProblemView {
    ApiProblemView {
        _type: "problemJsonFail"@,
        detail: Some(
            "Failed to deserialize application/problem+json ("@ + reason + ") body: "@ + body,
        ),
        subproblems: None,
    }
}

/// The text under which `hyper::StatusCode` displays a status code: the
/// number and the reason phrase. It is empty for a number that is no
/// status code.
pub uninterp spec fn status_text_spec(status: u16) -> Seq<char>;

/// The problem that stands for a failure which came without a problem
/// document.
pub open spec fn plain_failure(status: u16, body: Seq<char>) -> ApiProblemView {
    ApiProblemView {
        _type: "httpReqError"@,
        detail: Some(status_text_spec(status) + " body: "@ + body),
        subproblems: None,
    }
}

/// What a response stands for: itself where the status is one of success,
/// else a problem. A failure that announces a problem document gives that
/// document, `parsed`, or says that it could not be read; any other failure
/// is reported with its status and body.
pub open spec fn handled(res: HttpResponseView, parsed: Result<ApiProblemView, Seq<char>>) -> Result<
    HttpResponseView,
    ApiProblemView,
> {
    if is_success(res.status) {
        Ok(res)
    } else if first_header(res.headers, "content-type"@) == Some(
        encode_utf8("application/problem+json"@),
    ) {
        match parsed {
            Ok(problem) => Err(problem),
            Err(reason) => Err(unreadable_problem(reason, res.body)),
        }
    } else {
        Err(plain_failure(res.status, res.body))
    }
}

/// The view of what parsing a problem document gave.
pub open spec fn parsed_view(parsed: Result<ApiProblem, String>) -> Result<
    ApiProblemView,
    Seq<char>,
> {
    match parsed {
        Ok(p) => Ok(p@),
        Err(e) => Err(e@),
    }
}

/// The view of a response or the problem in its place.
pub open spec fn outcome_view(res: ReqResult<HttpResponse>) -> Result<
    HttpResponseView,
    ApiProblemView,
> {
    match res {
        Ok(r) => Ok(r@),
        Err(p) => Err(p@),
    }
}

/// Displays a status code with `hyper::StatusCode::from_u16` and the
/// `Display` of `StatusCode`; the text is empty where hyper refuses the
/// number.
#[verifier::external_body]
fn status_text(status: u16) -> (text: String)
    ensures
        text@ == status_text_spec(status),
{
    hyper::StatusCode::from_u16(status).map(|code| code.to_string()).unwrap_or_default()
}

/// Looks a header up with `hyper::HeaderMap::get` and copies the bytes of
/// its value (`HeaderValue::as_bytes`). hyper finds a header whatever the
/// case of the letters of `name`, and gives the value that came first.
#[verifier::external_body]
fn header_get(headers: &hyper::HeaderMap<hyper::header::HeaderValue>, name: &str) -> (found: Option<
    Vec<u8>,
>)
    ensures
        found is Some <==> first_header(header_contents(*headers), name@) is Some,
        found matches Some(v) ==> Some(v@) == first_header(header_contents(*headers), name@),
{
    headers.get(name).map(|value| value.as_bytes().to_vec())
}

/// The value of the first header of a response with the given name.
pub fn find_header(res: &HttpResponse, name: &str) -> (found: Option<Vec<u8>>)
    ensures
        found is Some <==> first_header(res@.headers, name@) is Some,
        found matches Some(v) ==> Some(v@) == first_header(res@.headers, name@),
{
    header_get(&res.headers, name)
}

/// The text of a header value, if it is visible ASCII.
pub fn header_text(value: &[u8]) -> (text: Option<String>)
    ensures
        text is Some <==> is_visible(value@),
        text matches Some(s) ==> s@ == ascii_text(value@),
{
    let mut out = String::new();
    let mut i: usize = 0;
    while i < value.len()
        invariant
            i <= value.len(),
            is_visible(value@.take(i as int)),
            out@ == ascii_text(value@.take(i as int)),
        decreases value.len() - i,
    {
        let b: u8 = value[i];
        if !(32 <= b && b < 127 || b == 9) {
            return None;
        }
        push_char(&mut out, b as char);
        i += 1;
        assert(value@.take(i as int) =~= value@.take(i - 1).push(b));
        assert(out@ =~= ascii_text(value@.take(i as int)));
    }
    assert(value@.take(i as int) =~= value@);
    Some(out)
}

/// The value of the header `name`, which the response must have.
///
/// A response without the header, or with a value that is no text, gives
/// a problem that names the header.
pub fn req_expect_header(res: &HttpResponse, name: &str) -> (value: ReqResult<String>)
    ensures
        value is Ok <==> (first_header(res@.headers, name@) matches Some(v) && is_visible(v)),
        value matches Ok(text) ==> text@ == ascii_text(first_header(res@.headers, name@).unwrap()),
        value matches Err(problem) ==> problem@ == missing_header(name@),
{
    if let Some(val) = find_header(res, name) {
        if let Some(val) = header_text(val.as_slice()) {
            Ok(val)
        } else {
            Err(missing(name))
        }
    } else {
        Err(missing(name))
    }
}

/// The problem that stands for a missing header.
fn missing(name: &str) -> (problem: ApiProblem)
    ensures
        problem@ == missing_header(name@),
{
    let mut _type = "Missing header: ".to_owned();
    _type.append(name);
    ApiProblem { _type, detail: None, subproblems: None }
}

/// Tells a response of success from a failure, and puts the failure into
/// the form of a problem.
///
/// `parsed` is what the caller's JSON reader made of the body, read as a
/// problem document; it is looked at only where the response announces
/// such a document.
pub fn req_handle_error(res: HttpResponse, parsed: Result<ApiProblem, String>) -> (out: ReqResult<
    HttpResponse,
>)
    ensures
        outcome_view(out) == handled(res@, parsed_view(parsed)),
        out matches Ok(r) ==> r == res,
{
    if 200 <= res.status && res.status < 300 {
        return Ok(res);
    }
    let announced = match find_header(&res, "content-type") {
        Some(value) => bytes_equal(value.as_slice(), "application/problem+json".as_bytes()),
        None => false,
    };
    let problem = if announced {
        match parsed {
            Ok(problem) => problem,
            Err(reason) => {
                let mut detail = "Failed to deserialize application/problem+json (".to_owned();
                detail.append(reason.as_str());
                detail.append(") body: ");
                detail.append(res.body.as_str());
                ApiProblem { _type: "problemJsonFail".to_owned(), detail: Some(detail), subproblems: None }
            },
        }
    } else {
        let mut detail = status_text(res.status);
        detail.append(" body: ");
        detail.append(res.body.as_str());
        ApiProblem { _type: "httpReqError".to_owned(), detail: Some(detail), subproblems: None }
    };
    Err(problem)
}

} // verus!
