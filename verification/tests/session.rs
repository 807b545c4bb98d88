use acme_core::acc::{register_request, Account, AcmeKey};
use acme_core::api::{ApiDirectory, ApiIdentifier, ApiOrder, ApiProblem, OrderStatus};
use acme_core::error::Error;
use acme_core::req::HttpResponse;
use acme_core::trans::{judge, HttpRequest, Method, NoncePool, Reply, Step, Transport, Verdict, Waiting};
use acme_core::util::base64url_decode;
use ring::signature::KeyPair;

fn header(name: &str, value: &str) -> (String, Vec<u8>) {
    (name.to_string(), value.as_bytes().to_vec())
}

fn response(status: u16, headers: Vec<(String, Vec<u8>)>, body: &str) -> HttpResponse {
    let mut map = hyper::HeaderMap::new();
    for (name, value) in headers {
        map.append(
            hyper::header::HeaderName::from_bytes(name.as_bytes()).unwrap(),
            hyper::header::HeaderValue::from_bytes(&value).unwrap(),
        );
    }
    HttpResponse { status, headers: map, body: body.to_string() }
}

fn copy(res: &HttpResponse) -> HttpResponse {
    HttpResponse { status: res.status, headers: res.headers.clone(), body: res.body.clone() }
}

fn ok(res: HttpResponse) -> Reply {
    Reply::Response(res, Err("not a problem document".to_string()))
}

fn bad_nonce() -> ApiProblem {
    ApiProblem {
        _type: "urn:ietf:params:acme:error:badNonce".to_string(),
        detail: Some("JWS has an invalid anti-replay nonce".to_string()),
        subproblems: None,
    }
}

fn refusal(fresh: Option<&str>) -> Reply {
    let mut headers = vec![header("content-type", "application/problem+json")];
    if let Some(nonce) = fresh {
        headers.push(header("Replay-Nonce", nonce));
    }
    Reply::Response(response(400, headers, "{\"type\":\"urn:ietf:params:acme:error:badNonce\"}"), Ok(bad_nonce()))
}

fn directory() -> ApiDirectory {
    ApiDirectory {
        new_nonce: "https://acme.test/acme/new-nonce".to_string(),
        new_account: "https://acme.test/acme/new-acct".to_string(),
        new_order: "https://acme.test/acme/new-order".to_string(),
        revoke_cert: "https://acme.test/acme/revoke-cert".to_string(),
        key_change: "https://acme.test/acme/key-change".to_string(),
    }
}

fn transport() -> Transport {
    Transport::new(AcmeKey::new().unwrap(), directory().new_nonce)
}

fn sent(step: Step) -> HttpRequest {
    match step {
        Step::Send(req) => req,
        Step::Done(res) => panic!("done: {:?}", res),
        Step::Failed(e) => panic!("failed: {:?}", e),
    }
}

fn done(step: Step) -> HttpResponse {
    match step {
        Step::Done(res) => res,
        Step::Send(req) => panic!("send: {:?}", req),
        Step::Failed(e) => panic!("failed: {:?}", e),
    }
}

fn failed(step: Step) -> Error {
    match step {
        Step::Failed(e) => e,
        Step::Send(req) => panic!("send: {:?}", req),
        Step::Done(res) => panic!("done: {:?}", res),
    }
}

/// The parts of a signed request: the protected header and the payload as they were before
/// they were encoded. The signature is checked against the key of the transport.
fn open_post(t: &Transport, req: &HttpRequest) -> (serde_json::Value, String) {
    assert_eq!(req.method, Method::Post);
    assert_eq!(req.content_type(), Some("application/jose+json"));
    let body: serde_json::Value = serde_json::from_str(&req.body).unwrap();
    let protected = body.get("protected").unwrap().as_str().unwrap();
    let payload = body.get("payload").unwrap().as_str().unwrap();
    let signature = base64url_decode(body.get("signature").unwrap().as_str().unwrap()).unwrap();
    assert_eq!(signature.len(), 64);
    let pair = ring::signature::EcdsaKeyPair::from_pkcs8(
        &ring::signature::ECDSA_P256_SHA256_FIXED_SIGNING,
        t.acme_key().to_pkcs8(),
    )
    .unwrap();
    let input = format!("{}.{}", protected, payload);
    ring::signature::UnparsedPublicKey::new(
        &ring::signature::ECDSA_P256_SHA256_FIXED,
        pair.public_key().as_ref(),
    )
    .verify(input.as_bytes(), &signature)
    .unwrap();
    let header: serde_json::Value =
        serde_json::from_slice(&base64url_decode(protected).unwrap()).unwrap();
    assert_eq!(header.get("alg").unwrap().as_str(), Some("ES256"));
    assert_eq!(header.get("url").unwrap().as_str(), Some(req.url.as_str()));
    assert_eq!(header.get("jwk").is_some(), header.get("kid").is_none());
    (header, String::from_utf8(base64url_decode(payload).unwrap()).unwrap())
}

fn nonce_of(header: &serde_json::Value) -> String {
    header.get("nonce").unwrap().as_str().unwrap().to_string()
}

#[test]
fn the_pool_hands_a_nonce_out_once() {
    let mut pool = NoncePool::new();
    assert!(pool.is_empty());
    assert_eq!(pool.take(), None);
    pool.offer("first".to_string());
    assert!(!pool.is_empty());
    assert_eq!(pool.take(), Some("first".to_string()));
    assert_eq!(pool.take(), None);
    assert!(pool.is_empty());
}

#[test]
fn the_pool_holds_one_nonce() {
    let mut pool = NoncePool::new();
    pool.offer("first".to_string());
    pool.offer("second".to_string());
    assert_eq!(pool.take(), Some("second".to_string()));
    assert_eq!(pool.take(), None);
    pool.offer("third".to_string());
    pool.discard();
    assert_eq!(pool.take(), None);
}

#[test]
fn a_request_without_a_nonce_fetches_one_first() {
    let mut t = transport();
    let (mut call, step) = t.begin("https://acme.test/order/1", "");
    assert_eq!(call.waiting(), Waiting::ForNonce);
    assert_eq!(call.posts(), 0);
    let head = sent(step);
    assert_eq!(
        head,
        HttpRequest {
            method: Method::Head,
            url: "https://acme.test/acme/new-nonce".to_string(),
            body: String::new()
        }
    );
    assert_eq!(head.content_type(), None);

    let step = t.resume(&mut call, ok(response(200, vec![header("Replay-Nonce", "nonce-1")], "")));
    let post = sent(step);
    assert_eq!(call.waiting(), Waiting::ForReply);
    assert_eq!(call.posts(), 1);
    assert_eq!(post.url, "https://acme.test/order/1");
    let (protected, payload) = open_post(&t, &post);
    assert_eq!(nonce_of(&protected), "nonce-1");
    assert_eq!(payload, "");
    assert!(t.nonce_pool().is_empty());

    let answer = response(200, vec![header("replay-nonce", "nonce-2")], "{\"status\":\"pending\"}");
    let step = t.resume(&mut call, ok(copy(&answer)));
    assert_eq!(done(step), answer);
    assert_eq!(call.waiting(), Waiting::Nothing);
    assert!(!t.nonce_pool().is_empty());
}

#[test]
fn each_request_consumes_the_nonce_of_the_answer_before() {
    let mut t = transport();
    t.set_key_id("https://acme.test/acct/1".to_string());
    let (mut call, step) = t.begin("https://acme.test/a", "{}");
    sent(step);
    let post = sent(t.resume(&mut call, ok(response(200, vec![header("replay-nonce", "n0")], ""))));
    let mut seen = vec![nonce_of(&open_post(&t, &post).0)];
    done(t.resume(&mut call, ok(response(200, vec![header("replay-nonce", "n1")], ""))));
    for round in 1..6 {
        let (mut call, step) = t.begin("https://acme.test/a", "{}");
        // the nonce at hand is used: no HEAD
        let post = sent(step);
        assert!(t.nonce_pool().is_empty());
        let (protected, payload) = open_post(&t, &post);
        assert_eq!(payload, "{}");
        assert_eq!(protected.get("kid").unwrap().as_str(), Some("https://acme.test/acct/1"));
        let nonce = nonce_of(&protected);
        assert_eq!(nonce, format!("n{}", round));
        assert!(!seen.contains(&nonce));
        seen.push(nonce);
        let next = format!("n{}", round + 1);
        done(t.resume(&mut call, ok(response(200, vec![header("replay-nonce", &next)], ""))));
    }
    assert_eq!(seen, vec!["n0", "n1", "n2", "n3", "n4", "n5"]);
}

#[test]
fn a_refused_nonce_is_retried_once() {
    let mut t = transport();
    t.set_key_id("https://acme.test/acct/1".to_string());
    let mut pool_seed = t.begin("https://acme.test/seed", "");
    sent(pool_seed.1);
    sent(t.resume(&mut pool_seed.0, ok(response(200, vec![header("replay-nonce", "seed")], ""))));
    done(t.resume(&mut pool_seed.0, ok(response(200, vec![header("replay-nonce", "stale")], ""))));

    // one logical operation
    let mut posts: Vec<HttpRequest> = Vec::new();
    let (mut call, step) = t.begin("https://acme.test/acme/new-order", "{\"identifiers\":[]}");
    let first = sent(step);
    posts.push(first.clone());
    assert_eq!(nonce_of(&open_post(&t, &first).0), "stale");

    // the server refuses the nonce and brings a fresh one
    let step = t.resume(&mut call, refusal(Some("fresh")));
    let second = sent(step);
    posts.push(second.clone());
    assert_eq!(second.method, Method::Post);
    assert_eq!(second.url, first.url);
    let (protected, payload) = open_post(&t, &second);
    assert_eq!(nonce_of(&protected), "fresh");
    assert_eq!(payload, "{\"identifiers\":[]}");
    assert_eq!(call.posts(), 2);
    assert!(t.nonce_pool().is_empty());

    // and answers the second
    let answer = response(201, vec![header("replay-nonce", "next"), header("location", "https://acme.test/order/7")], "{}");
    assert_eq!(done(t.resume(&mut call, ok(copy(&answer)))), answer);
    // exactly two network calls were made
    assert_eq!(posts.len(), 2);
    assert_eq!(call.waiting(), Waiting::Nothing);
    // the request is over
    assert_eq!(failed(t.resume(&mut call, ok(answer))), Error::NotWaiting);
}

#[test]
fn a_second_refusal_is_final() {
    let mut t = transport();
    let (mut call, step) = t.begin("https://acme.test/x", "{}");
    sent(step);
    sent(t.resume(&mut call, ok(response(200, vec![header("replay-nonce", "n1")], ""))));
    sent(t.resume(&mut call, refusal(Some("n2"))));
    assert_eq!(call.posts(), 2);
    let step = t.resume(&mut call, refusal(Some("n3")));
    assert_eq!(failed(step), Error::Protocol(bad_nonce()));
    assert_eq!(call.posts(), 2);
    assert_eq!(call.waiting(), Waiting::Nothing);
    // the nonce of the refusal serves the next request
    let (_, step) = t.begin("https://acme.test/y", "");
    assert_eq!(nonce_of(&open_post(&t, &sent(step)).0), "n3");
}

#[test]
fn a_refusal_without_a_nonce_fetches_one() {
    let mut t = transport();
    let (mut call, step) = t.begin("https://acme.test/x", "{}");
    sent(step);
    sent(t.resume(&mut call, ok(response(200, vec![header("replay-nonce", "n1")], ""))));
    let head = sent(t.resume(&mut call, refusal(None)));
    assert_eq!(head.method, Method::Head);
    assert_eq!(head.url, "https://acme.test/acme/new-nonce");
    assert_eq!(call.waiting(), Waiting::ForNonce);
    assert_eq!(call.posts(), 1);
    let post = sent(t.resume(&mut call, ok(response(204, vec![header("replay-nonce", "n2")], ""))));
    assert_eq!(nonce_of(&open_post(&t, &post).0), "n2");
    assert_eq!(call.posts(), 2);
    let step = t.resume(&mut call, refusal(None));
    assert_eq!(failed(step), Error::Protocol(bad_nonce()));
}

#[test]
fn another_problem_is_not_retried() {
    let mut t = transport();
    let (mut call, step) = t.begin("https://acme.test/x", "{}");
    sent(step);
    sent(t.resume(&mut call, ok(response(200, vec![header("replay-nonce", "n1")], ""))));
    let problem = ApiProblem {
        _type: "urn:ietf:params:acme:error:unauthorized".to_string(),
        detail: None,
        subproblems: None,
    };
    let reply = Reply::Response(
        response(
            403,
            vec![header("content-type", "application/problem+json"), header("replay-nonce", "n2")],
            "{}",
        ),
        Ok(problem.clone()),
    );
    assert_eq!(failed(t.resume(&mut call, reply)), Error::Protocol(problem));
    assert_eq!(call.posts(), 1);
    assert!(!t.nonce_pool().is_empty());
}

#[test]
fn a_failure_of_the_transport_ends_the_request() {
    let mut t = transport();
    let (mut call, step) = t.begin("https://acme.test/x", "{}");
    sent(step);
    let step = t.resume(&mut call, Reply::Failed("connect timed out".to_string()));
    assert_eq!(failed(step), Error::Transport("connect timed out".to_string()));
    assert_eq!(call.waiting(), Waiting::Nothing);

    let (mut call, step) = t.begin("https://acme.test/x", "{}");
    sent(step);
    sent(t.resume(&mut call, ok(response(200, vec![header("replay-nonce", "n1")], ""))));
    let step = t.resume(&mut call, Reply::Failed("read timed out".to_string()));
    assert_eq!(failed(step), Error::Transport("read timed out".to_string()));
}

#[test]
fn a_nonce_answer_without_a_nonce_ends_the_request() {
    let mut t = transport();
    let (mut call, step) = t.begin("https://acme.test/x", "{}");
    sent(step);
    let step = t.resume(&mut call, ok(response(200, vec![], "")));
    assert_eq!(
        failed(step),
        Error::Protocol(ApiProblem {
            _type: "Missing header: replay-nonce".to_string(),
            detail: None,
            subproblems: None
        })
    );
}

/// The key of `doc`, written out anew with the curve named a second time inside the key
/// itself, which the signing library takes as well.
fn with_parameters(doc: &[u8]) -> Vec<u8> {
    let mut out: Vec<u8> = vec![
        0x30, 0x81, 0x93, 0x02, 0x01, 0x00, 0x30, 0x13, 0x06, 0x07, 0x2a, 0x86, 0x48, 0xce, 0x3d,
        0x02, 0x01, 0x06, 0x08, 0x2a, 0x86, 0x48, 0xce, 0x3d, 0x03, 0x01, 0x07, 0x04, 0x79, 0x30,
        0x77, 0x02, 0x01, 0x01, 0x04, 0x20,
    ];
    out.extend_from_slice(&doc[0x24..0x44]);
    out.extend([0xa0, 0x0a, 0x06, 0x08, 0x2a, 0x86, 0x48, 0xce, 0x3d, 0x03, 0x01, 0x07]);
    out.extend([0xa1, 0x44, 0x03, 0x42, 0x00]);
    out.extend_from_slice(&doc[0x49..0x8a]);
    out
}

#[test]
fn a_key_of_another_layout_cannot_sign() {
    let doc = with_parameters(AcmeKey::new().unwrap().to_pkcs8());
    assert_eq!(doc.len(), 0x96);
    let key = AcmeKey::from_pkcs8(&doc).unwrap();
    assert_eq!(acme_core::jwt::Jwk::from_key(&key).err(), Some(Error::InvalidKey));
    assert_eq!(key.public_point().err(), Some(Error::InvalidKey));
    assert_eq!(key.sign_es256(b"message").err(), Some(Error::InvalidKey));
    let mut t = Transport::new(key, "https://acme.test/nonce".to_string());
    let (mut call, step) = t.begin("https://acme.test/x", "{}");
    sent(step);
    let step = t.resume(&mut call, ok(response(200, vec![header("replay-nonce", "n1")], "")));
    assert_eq!(failed(step), Error::InvalidKey);
    assert_eq!(call.waiting(), Waiting::Nothing);
    assert_eq!(call.posts(), 0);
    // the nonce is spent all the same
    assert!(t.nonce_pool().is_empty());
    let res = response(201, vec![header("location", "https://acme.test/acct/1")], "");
    assert_eq!(
        Account::from_registration(&mut t, directory(), &res).err(),
        Some(Error::InvalidKey)
    );
    assert_eq!(t.acme_key().key_id(), None);
}

#[test]
fn what_a_reply_leads_to() {
    let mut pool = NoncePool::new();
    let res = response(200, vec![header("replay-nonce", "a")], "body");
    match judge(&mut pool, 1, copy(&res), Err(String::new())) {
        Verdict::Done(r) => assert_eq!(r, res),
        _ => panic!("not done"),
    }
    assert_eq!(pool.take(), Some("a".to_string()));

    pool.offer("old".to_string());
    let Reply::Response(res, parsed) = refusal(Some("new")) else { unreachable!() };
    assert!(matches!(judge(&mut pool, 1, res, parsed), Verdict::Retry));
    assert_eq!(pool.take(), Some("new".to_string()));

    pool.offer("old".to_string());
    let Reply::Response(res, parsed) = refusal(None) else { unreachable!() };
    assert!(matches!(judge(&mut pool, 1, res, parsed), Verdict::FetchAndRetry));
    assert_eq!(pool.take(), None);

    pool.offer("old".to_string());
    let Reply::Response(res, parsed) = refusal(None) else { unreachable!() };
    match judge(&mut pool, 2, res, parsed) {
        Verdict::Failed(p) => assert_eq!(p, bad_nonce()),
        _ => panic!("not failed"),
    }
    assert_eq!(pool.take(), Some("old".to_string()));
}

#[test]
fn register_an_account() {
    let mut t = transport();
    let contact = vec!["mailto:foo@bar.com".to_string()];
    let (mut call, step) = register_request(&mut t, &directory(), &contact);
    let head = sent(step);
    assert_eq!(head.method, Method::Head);
    let post = sent(t.resume(&mut call, ok(response(200, vec![header("replay-nonce", "n1")], ""))));
    assert_eq!(post.url, "https://acme.test/acme/new-acct");
    let (protected, payload) = open_post(&t, &post);
    // the server does not know the key yet: the request carries it
    assert!(protected.get("kid").is_none());
    let jwk = protected.get("jwk").unwrap();
    assert_eq!(jwk.get("kty").unwrap().as_str(), Some("EC"));
    assert_eq!(jwk.get("crv").unwrap().as_str(), Some("P-256"));
    assert_eq!(nonce_of(&protected), "n1");
    assert_eq!(payload, "{\"termsOfServiceAgreed\":true,\"contact\":[\"mailto:foo@bar.com\"]}");

    let answer = response(
        201,
        vec![header("Location", "https://acme.test/acct/1"), header("Replay-Nonce", "n2")],
        "{\"status\":\"valid\"}",
    );
    let res = done(t.resume(&mut call, ok(answer)));
    assert_eq!(res.status, 201);
    let account = Account::from_registration(&mut t, directory(), &res).unwrap();
    assert_eq!(account.key_id(), "https://acme.test/acct/1");
    assert_eq!(t.acme_key().key_id(), Some(&"https://acme.test/acct/1".to_string()));
    assert_eq!(account.api_directory(), &directory());

    // from now on requests are signed under the key id
    let (_, step) = t.begin("https://acme.test/acme/new-order", "{}");
    let (protected, _) = open_post(&t, &sent(step));
    assert_eq!(protected.get("kid").unwrap().as_str(), Some("https://acme.test/acct/1"));
    assert!(protected.get("jwk").is_none());
    assert_eq!(nonce_of(&protected), "n2");
}

#[test]
fn a_registration_without_a_location_fails() {
    let mut t = transport();
    let res = response(201, vec![header("replay-nonce", "n2")], "{}");
    let out = Account::from_registration(&mut t, directory(), &res);
    assert_eq!(
        out.err(),
        Some(Error::Protocol(ApiProblem {
            _type: "Missing header: location".to_string(),
            detail: None,
            subproblems: None
        }))
    );
    assert_eq!(t.acme_key().key_id(), None);
}

#[test]
fn create_an_order() {
    let mut t = transport();
    let res = response(201, vec![header("location", "https://acme.test/acct/1")], "");
    let account = Account::from_registration(&mut t, directory(), &res).unwrap();

    let (mut call, step) = account.new_order_request(&mut t, "acmetest.example.com", &[]);
    sent(step);
    let post = sent(t.resume(&mut call, ok(response(200, vec![header("replay-nonce", "n1")], ""))));
    assert_eq!(post.url, "https://acme.test/acme/new-order");
    let (_, payload) = open_post(&t, &post);
    assert_eq!(payload, "{\"identifiers\":[{\"type\":\"dns\",\"value\":\"acmetest.example.com\"}]}");

    let answer = response(
        201,
        vec![header("location", "https://acme.test/order/1"), header("replay-nonce", "n2")],
        "",
    );
    let res = done(t.resume(&mut call, ok(answer)));
    let api_order = ApiOrder {
        status: Some(OrderStatus::Pending),
        expires: Some("2030-01-09T08:26:43Z".to_string()),
        identifiers: vec![ApiIdentifier::dns("acmetest.example.com")],
        error: None,
        authorizations: Some(vec!["https://acme.test/authz/1".to_string()]),
        finalize: "https://acme.test/finalize/1".to_string(),
        certificate: None,
    };
    let order = account.new_order(&res, api_order.clone()).unwrap();
    assert_eq!(order.api_order(), &api_order);
    assert_eq!(order.api_order().status, Some(OrderStatus::Pending));
    assert_eq!(order.authorization_urls(), &["https://acme.test/authz/1".to_string()][..]);
    assert_eq!(order.url(), "https://acme.test/order/1");
    assert!(!order.is_validated());
    assert!(order.confirm_validations().is_none());
}

#[test]
fn an_order_for_several_names_lists_the_primary_name_first() {
    let mut t = transport();
    let res = response(201, vec![header("location", "https://acme.test/acct/1")], "");
    let account = Account::from_registration(&mut t, directory(), &res).unwrap();
    let (mut call, step) = account.new_order_request(&mut t, "a.example", &["b.example", "c.example"]);
    sent(step);
    let post = sent(t.resume(&mut call, ok(response(200, vec![header("replay-nonce", "n1")], ""))));
    let (_, payload) = open_post(&t, &post);
    assert_eq!(
        payload,
        "{\"identifiers\":[{\"type\":\"dns\",\"value\":\"a.example\"},{\"type\":\"dns\",\"value\":\"b.example\"},{\"type\":\"dns\",\"value\":\"c.example\"}]}"
    );
}

#[test]
fn an_order_without_a_location_fails() {
    let mut t = transport();
    let res = response(201, vec![header("location", "https://acme.test/acct/1")], "");
    let account = Account::from_registration(&mut t, directory(), &res).unwrap();
    let api_order = ApiOrder {
        status: Some(OrderStatus::Pending),
        expires: None,
        identifiers: vec![],
        error: None,
        authorizations: None,
        finalize: String::new(),
        certificate: None,
    };
    let out = account.new_order(&response(201, vec![], ""), api_order);
    assert!(matches!(out.err(), Some(Error::Protocol(p)) if p._type == "Missing header: location"));
}

#[test]
fn fetching_the_authorizations_of_an_order_spends_a_nonce_each() {
    let mut t = transport();
    let res = response(201, vec![header("location", "https://acme.test/acct/1")], "");
    let account = Account::from_registration(&mut t, directory(), &res).unwrap();
    let api_order = ApiOrder {
        status: Some(OrderStatus::Pending),
        expires: None,
        identifiers: vec![
            ApiIdentifier::dns("a.example"),
            ApiIdentifier::dns("b.example"),
            ApiIdentifier::dns("c.example"),
        ],
        error: None,
        authorizations: Some(vec![
            "https://acme.test/authz/1".to_string(),
            "https://acme.test/authz/2".to_string(),
            "https://acme.test/authz/3".to_string(),
        ]),
        finalize: "https://acme.test/finalize/1".to_string(),
        certificate: None,
    };
    let order = account
        .new_order(&response(201, vec![header("location", "https://acme.test/order/1")], ""), api_order)
        .unwrap();

    let urls: Vec<String> = order.authorization_urls().to_vec();
    let mut posts: Vec<HttpRequest> = Vec::new();
    let mut nonces: Vec<String> = Vec::new();
    let mut heads = 0;
    let mut last_answer: Option<String> = None;
    for (i, url) in urls.iter().enumerate() {
        let (mut call, mut step) = t.begin(url, "");
        loop {
            match step {
                Step::Send(req) if req.method == Method::Head => {
                    heads += 1;
                    last_answer = Some(format!("head-{}", i));
                    let reply = ok(response(200, vec![header("replay-nonce", &format!("head-{}", i))], ""));
                    step = t.resume(&mut call, reply);
                }
                Step::Send(req) => {
                    assert_eq!(&req.url, url);
                    let (protected, payload) = open_post(&t, &req);
                    assert_eq!(payload, "");
                    // the nonce is that of the answer before
                    assert_eq!(Some(nonce_of(&protected)), last_answer);
                    nonces.push(nonce_of(&protected));
                    posts.push(req);
                    last_answer = Some(format!("answer-{}", i));
                    let reply = ok(response(200, vec![header("replay-nonce", &format!("answer-{}", i))], "{}"));
                    step = t.resume(&mut call, reply);
                }
                Step::Done(_) => break,
                Step::Failed(e) => panic!("failed: {:?}", e),
            }
        }
    }
    // as many signed requests as the order lists authorizations
    assert_eq!(posts.len(), urls.len());
    assert_eq!(heads, 1);
    assert_eq!(nonces, vec!["head-0", "answer-0", "answer-1"]);
    for i in 0..nonces.len() {
        for j in 0..i {
            assert_ne!(nonces[i], nonces[j]);
        }
    }
}
