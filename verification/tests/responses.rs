use acme_core::api::ApiProblem;
use acme_core::req::{
    find_header, header_text, req_expect_header, req_handle_error, HttpResponse,
};

fn header(name: &str, value: &str) -> (String, Vec<u8>) {
    (name.to_string(), value.as_bytes().to_vec())
}

fn response(status: u16, headers: Vec<(String, Vec<u8>)>, body: &str) -> HttpResponse {
    let mut map = hyper::HeaderMap::new();
    for (name, value) in headers {
        map.append(
            hyper::header::HeaderName::from_bytes(name.as_bytes()).unwrap(),
            hyper::header::HeaderValue::from_bytes(&value).unwrap(),
        );
    }
    HttpResponse { status, headers: map, body: body.to_string() }
}

fn copy(res: &HttpResponse) -> HttpResponse {
    HttpResponse { status: res.status, headers: res.headers.clone(), body: res.body.clone() }
}

fn bad_nonce() -> ApiProblem {
    ApiProblem {
        _type: "urn:ietf:params:acme:error:badNonce".to_string(),
        detail: Some("JWS has an invalid anti-replay nonce".to_string()),
        subproblems: None,
    }
}

#[test]
fn a_response_of_success_is_handed_on() {
    for status in [200u16, 201, 204, 299] {
        let res = response(status, vec![header("content-type", "application/json")], "{}");
        assert_eq!(req_handle_error(copy(&res), Err("unused".to_string())), Ok(res));
    }
    // a success is a success whatever it says of its content
    let res = response(200, vec![header("content-type", "application/problem+json")], "{}");
    assert_eq!(req_handle_error(copy(&res), Ok(bad_nonce())), Ok(res));
}

#[test]
fn a_problem_document_is_handed_on_as_it_is() {
    let res = response(
        400,
        vec![header("content-type", "application/problem+json"), header("replay-nonce", "abc")],
        "{\"type\":\"urn:ietf:params:acme:error:badNonce\"}",
    );
    assert_eq!(req_handle_error(res, Ok(bad_nonce())), Err(bad_nonce()));
}

#[test]
fn a_problem_document_that_cannot_be_read_is_reported() {
    let res = response(
        403,
        vec![header("Content-Type", "application/problem+json")],
        "{not json",
    );
    assert_eq!(
        req_handle_error(res, Err("key must be a string at line 1 column 2".to_string())),
        Err(ApiProblem {
            _type: "problemJsonFail".to_string(),
            detail: Some(
                "Failed to deserialize application/problem+json (key must be a string at line 1 column 2) body: {not json"
                    .to_string()
            ),
            subproblems: None,
        })
    );
}

#[test]
fn any_other_failure_is_reported_with_status_and_body() {
    let res = response(500, vec![header("content-type", "text/plain")], "oops");
    assert_eq!(
        req_handle_error(res, Ok(bad_nonce())),
        Err(ApiProblem {
            _type: "httpReqError".to_string(),
            detail: Some("500 Internal Server Error body: oops".to_string()),
            subproblems: None,
        })
    );
    let res = response(404, vec![], "");
    assert_eq!(
        req_handle_error(res, Err(String::new())),
        Err(ApiProblem {
            _type: "httpReqError".to_string(),
            detail: Some("404 Not Found body: ".to_string()),
            subproblems: None,
        })
    );
    // the content type is compared as a whole
    let res = response(
        400,
        vec![header("content-type", "application/problem+json; charset=utf-8")],
        "{}",
    );
    assert_eq!(
        req_handle_error(res, Ok(bad_nonce())),
        Err(ApiProblem {
            _type: "httpReqError".to_string(),
            detail: Some("400 Bad Request body: {}".to_string()),
            subproblems: None,
        })
    );
    // and the first of several counts
    let res = response(
        400,
        vec![header("content-type", "text/html"), header("content-type", "application/problem+json")],
        "x",
    );
    assert_eq!(
        req_handle_error(res, Ok(bad_nonce())).unwrap_err()._type,
        "httpReqError"
    );
}

#[test]
fn statuses_next_to_success_are_failures() {
    for status in [100u16, 199, 300, 301, 400, 599] {
        let res = response(status, vec![], "b");
        assert_eq!(
            req_handle_error(res, Err(String::new())).unwrap_err()._type,
            "httpReqError",
            "{}",
            status
        );
    }
    // a number that is no status code has no text
    let res = response(42, vec![], "b");
    assert_eq!(
        req_handle_error(res, Err(String::new())).unwrap_err().detail,
        Some(" body: b".to_string())
    );
    let res = response(299, vec![], "b");
    assert!(req_handle_error(res, Err(String::new())).is_ok());
}

#[test]
fn a_header_is_found_whatever_the_case_of_its_name() {
    let res = response(
        201,
        vec![
            header("content-type", "application/json"),
            header("Replay-Nonce", "nonce-1"),
            header("location", "https://acme.test/acct/1"),
        ],
        "",
    );
    assert_eq!(req_expect_header(&res, "replay-nonce"), Ok("nonce-1".to_string()));
    assert_eq!(req_expect_header(&res, "Replay-Nonce"), Ok("nonce-1".to_string()));
    assert_eq!(req_expect_header(&res, "LOCATION"), Ok("https://acme.test/acct/1".to_string()));
}

#[test]
fn the_first_of_several_headers_counts() {
    let res = response(
        200,
        vec![header("link", "<a>"), header("Link", "<b>"), header("link", "<c>")],
        "",
    );
    assert_eq!(req_expect_header(&res, "link"), Ok("<a>".to_string()));
    assert_eq!(find_header(&res, "LINK"), Some(b"<a>".to_vec()));
    assert_eq!(find_header(&res, "lin"), None);
    assert_eq!(find_header(&res, "not a name"), None);
    assert_eq!(find_header(&res, ""), None);
}

#[test]
fn a_missing_header_is_a_problem_that_names_it() {
    let res = response(200, vec![header("content-type", "application/json")], "");
    assert_eq!(
        req_expect_header(&res, "replay-nonce"),
        Err(ApiProblem {
            _type: "Missing header: replay-nonce".to_string(),
            detail: None,
            subproblems: None,
        })
    );
    let res = response(200, vec![], "");
    assert_eq!(
        req_expect_header(&res, "location").unwrap_err()._type,
        "Missing header: location"
    );
}

#[test]
fn a_header_that_is_no_text_counts_as_missing() {
    let res = response(
        200,
        vec![("replay-nonce".to_string(), vec![b'a', 0xff, b'b'])],
        "",
    );
    assert_eq!(
        req_expect_header(&res, "replay-nonce").unwrap_err()._type,
        "Missing header: replay-nonce"
    );
    assert_eq!(header_text(&[b'a', 0x7f]), None);
    assert_eq!(header_text(&[b'a', 0x1f]), None);
    assert_eq!(header_text(&[b'a', b'\n']), None);
    assert_eq!(header_text(b"a\tb c~"), Some("a\tb c~".to_string()));
    assert_eq!(header_text(b""), Some(String::new()));
}

#[test]
fn a_bad_nonce_is_known_by_its_type() {
    assert!(bad_nonce().is_bad_nonce());
    let other = ApiProblem {
        _type: "urn:ietf:params:acme:error:malformed".to_string(),
        detail: None,
        subproblems: None,
    };
    assert!(!other.is_bad_nonce());
    let copy = bad_nonce().duplicate();
    assert_eq!(copy, bad_nonce());
}
