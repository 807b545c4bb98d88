use acme_core::api::{
    account_payload, finalize_payload, order_payload, AuthStatus, ChallengeStatus, ChallengeType,
    OrderStatus,
};
use acme_core::api::{absolute_url, check_entry, ApiDirectory};
use acme_core::error::Error;
use acme_core::json::quote;
use acme_core::util::{
    base64url, base64url_decode, bytes_equal, contains_bytes, sha256, starts_with, str_equal,
    str_equal_ignoring_case,
};

fn hex(bytes: &[u8]) -> String {
    let mut out = String::new();
    for b in bytes {
        out.push_str(&format!("{:02x}", b));
    }
    out
}

#[test]
fn base64url_encodes_the_rfc_vectors() {
    assert_eq!(base64url(b""), "");
    assert_eq!(base64url(b"f"), "Zg");
    assert_eq!(base64url(b"fo"), "Zm8");
    assert_eq!(base64url(b"foo"), "Zm9v");
    assert_eq!(base64url(b"foob"), "Zm9vYg");
    assert_eq!(base64url(b"fooba"), "Zm9vYmE");
    assert_eq!(base64url(b"foobar"), "Zm9vYmFy");
}

#[test]
fn base64url_uses_the_url_safe_alphabet() {
    assert_eq!(base64url(&[0xfb, 0xff]), "-_8");
    assert_eq!(base64url(&[0xff, 0xff, 0xff]), "____");
    assert_eq!(base64url(&[0xfb, 0xef, 0xbe]), "----");
    assert_eq!(base64url(&[0x00]), "AA");
}

#[test]
fn base64url_output_has_no_padding_and_no_plus_or_slash() {
    let mut input: Vec<u8> = Vec::new();
    for n in 0..=255u8 {
        input.push(n);
        let text = base64url(&input);
        assert!(!text.contains('='));
        assert!(!text.contains('+'));
        assert!(!text.contains('/'));
        assert_eq!(text.len(), (input.len() / 3) * 4 + [0, 2, 3][input.len() % 3]);
    }
}

#[test]
fn base64url_round_trip() {
    let mut input: Vec<u8> = Vec::new();
    for n in 0..200u32 {
        assert_eq!(base64url_decode(&base64url(&input)), Some(input.clone()));
        input.push((n * 37 % 251) as u8);
    }
    let all: Vec<u8> = (0..=255u8).collect();
    assert_eq!(base64url_decode(&base64url(&all)), Some(all));
}

#[test]
fn base64url_decode_reads_known_texts() {
    assert_eq!(base64url_decode(""), Some(vec![]));
    assert_eq!(base64url_decode("Zg"), Some(b"f".to_vec()));
    assert_eq!(base64url_decode("Zm8"), Some(b"fo".to_vec()));
    assert_eq!(base64url_decode("Zm9vYmFy"), Some(b"foobar".to_vec()));
    assert_eq!(base64url_decode("-_8"), Some(vec![0xfb, 0xff]));
}

#[test]
fn base64url_decode_refuses_what_is_not_canonical() {
    // a single symbol carries less than a byte
    assert_eq!(base64url_decode("Z"), None);
    assert_eq!(base64url_decode("Zm9vY"), None);
    // padding
    assert_eq!(base64url_decode("Zg=="), None);
    assert_eq!(base64url_decode("Zm8="), None);
    // the standard alphabet
    assert_eq!(base64url_decode("+/8"), None);
    // stray bits in the last symbol
    assert_eq!(base64url_decode("Zh"), None);
    assert_eq!(base64url_decode("Zm9"), None);
    // anything else
    assert_eq!(base64url_decode("Zm 8"), None);
    assert_eq!(base64url_decode("Zm\u{e9}8"), None);
    assert_eq!(base64url_decode("Zg\n"), None);
}

#[test]
fn sha256_of_known_texts() {
    assert_eq!(
        hex(&sha256(b"abc")),
        "ba7816bf8f01cfea414140de5dae2223b00361a396177a9cb410ff61f20015ad"
    );
    assert_eq!(
        hex(&sha256(b"")),
        "e3b0c44298fc1c149afbf4c8996fb92427ae41e4649b934ca495991b7852b855"
    );
    assert_eq!(sha256(b"hello, world").len(), 32);
}

#[test]
fn comparing_texts_and_bytes() {
    assert!(bytes_equal(b"", b""));
    assert!(bytes_equal(b"abc", b"abc"));
    assert!(!bytes_equal(b"abc", b"abd"));
    assert!(!bytes_equal(b"abc", b"ab"));
    assert!(str_equal("ready", "ready"));
    assert!(!str_equal("ready", "Ready"));
    assert!(!str_equal("ready", "read"));
    assert!(str_equal_ignoring_case("Replay-Nonce", "replay-nonce"));
    assert!(str_equal_ignoring_case("LOCATION", "location"));
    assert!(str_equal_ignoring_case("", ""));
    assert!(!str_equal_ignoring_case("location", "locations"));
    assert!(!str_equal_ignoring_case("locatio", "location"));
    assert!(!str_equal_ignoring_case("a-b", "a_b"));
    // only ASCII letters are folded
    assert!(!str_equal_ignoring_case("\u{c9}", "\u{e9}"));
    assert!(!str_equal_ignoring_case("@", "`"));
    assert!(!str_equal_ignoring_case("[", "{"));
}

#[test]
fn quote_leaves_plain_text_alone() {
    assert_eq!(quote(""), "\"\"");
    assert_eq!(quote("mailto:foo@bar.com"), "\"mailto:foo@bar.com\"");
    assert_eq!(quote("https://acme.test/acct/1"), "\"https://acme.test/acct/1\"");
    assert_eq!(quote("gr\u{fc}\u{df}e \u{1f600}"), "\"gr\u{fc}\u{df}e \u{1f600}\"");
    assert_eq!(quote("\u{7f}"), "\"\u{7f}\"");
}

#[test]
fn quote_escapes_what_json_asks_for() {
    assert_eq!(quote("a\"b"), "\"a\\\"b\"");
    assert_eq!(quote("a\\b"), "\"a\\\\b\"");
    assert_eq!(quote("a\nb\rc\td"), "\"a\\nb\\rc\\td\"");
    assert_eq!(quote("\u{8}\u{c}"), "\"\\b\\f\"");
    assert_eq!(quote("\u{0}\u{1}\u{1f}"), "\"\\u0000\\u0001\\u001f\"");
    assert_eq!(quote("\u{b}\u{e}\u{1a}"), "\"\\u000b\\u000e\\u001a\"");
}

#[test]
fn quote_agrees_with_serde_json() {
    let mut samples: Vec<String> = vec![
        String::new(),
        "plain".to_string(),
        "with \"quotes\" and \\ backslash / slash".to_string(),
        "\u{e9}\u{4e2d}\u{1f600}".to_string(),
    ];
    for code in 0..160u32 {
        let c = char::from_u32(code).unwrap();
        samples.push(format!("x{}y", c));
    }
    for sample in samples {
        assert_eq!(quote(&sample), serde_json::to_string(&sample).unwrap());
        let back: String = serde_json::from_str(&quote(&sample)).unwrap();
        assert_eq!(back, sample);
    }
}

#[test]
fn statuses_are_read_from_their_names() {
    assert_eq!(OrderStatus::parse("pending"), Some(OrderStatus::Pending));
    assert_eq!(OrderStatus::parse("ready"), Some(OrderStatus::Ready));
    assert_eq!(OrderStatus::parse("processing"), Some(OrderStatus::Processing));
    assert_eq!(OrderStatus::parse("valid"), Some(OrderStatus::Valid));
    assert_eq!(OrderStatus::parse("invalid"), Some(OrderStatus::Invalid));
    assert_eq!(OrderStatus::parse("Valid"), None);
    assert_eq!(OrderStatus::parse(""), None);
    assert_eq!(OrderStatus::parse("<STATUS>"), None);

    assert_eq!(AuthStatus::parse("pending"), Some(AuthStatus::Pending));
    assert_eq!(AuthStatus::parse("valid"), Some(AuthStatus::Valid));
    assert_eq!(AuthStatus::parse("invalid"), Some(AuthStatus::Invalid));
    assert_eq!(AuthStatus::parse("deactivated"), Some(AuthStatus::Deactivated));
    assert_eq!(AuthStatus::parse("expired"), Some(AuthStatus::Expired));
    assert_eq!(AuthStatus::parse("revoked"), Some(AuthStatus::Revoked));
    assert_eq!(AuthStatus::parse("ready"), None);

    assert_eq!(ChallengeStatus::parse("pending"), Some(ChallengeStatus::Pending));
    assert_eq!(ChallengeStatus::parse("processing"), Some(ChallengeStatus::Processing));
    assert_eq!(ChallengeStatus::parse("valid"), Some(ChallengeStatus::Valid));
    assert_eq!(ChallengeStatus::parse("invalid"), Some(ChallengeStatus::Invalid));
    assert_eq!(ChallengeStatus::parse("ready"), None);

    assert_eq!(ChallengeType::parse("http-01"), Some(ChallengeType::Http01));
    assert_eq!(ChallengeType::parse("dns-01"), Some(ChallengeType::Dns01));
    assert_eq!(ChallengeType::parse("tls-alpn-01"), Some(ChallengeType::TlsAlpn01));
    assert_eq!(ChallengeType::parse("tls-sni-01"), None);
}

#[test]
fn the_stages_of_an_order_are_in_line() {
    assert_eq!(OrderStatus::Pending.rank(), 0);
    assert_eq!(OrderStatus::Ready.rank(), 1);
    assert_eq!(OrderStatus::Processing.rank(), 2);
    assert_eq!(OrderStatus::Valid.rank(), 3);
    assert_eq!(OrderStatus::Invalid.rank(), 4);
}

#[test]
fn payloads_are_written_as_json() {
    assert_eq!(
        account_payload(&vec!["mailto:foo@bar.com".to_string()]),
        "{\"termsOfServiceAgreed\":true,\"contact\":[\"mailto:foo@bar.com\"]}"
    );
    assert_eq!(account_payload(&vec![]), "{\"termsOfServiceAgreed\":true,\"contact\":[]}");
    assert_eq!(
        account_payload(&vec!["mailto:a@b.c".to_string(), "tel:+1\"2".to_string()]),
        "{\"termsOfServiceAgreed\":true,\"contact\":[\"mailto:a@b.c\",\"tel:+1\\\"2\"]}"
    );
    assert_eq!(
        order_payload(&vec!["acmetest.example.com".to_string()]),
        "{\"identifiers\":[{\"type\":\"dns\",\"value\":\"acmetest.example.com\"}]}"
    );
    assert_eq!(
        order_payload(&vec!["a.example".to_string(), "b.example".to_string(), "c.example".to_string()]),
        "{\"identifiers\":[{\"type\":\"dns\",\"value\":\"a.example\"},{\"type\":\"dns\",\"value\":\"b.example\"},{\"type\":\"dns\",\"value\":\"c.example\"}]}"
    );
    assert_eq!(order_payload(&vec![]), "{\"identifiers\":[]}");
    assert_eq!(finalize_payload("MIIB"), "{\"csr\":\"MIIB\"}");
}

#[test]
fn payloads_are_read_back_by_a_json_reader() {
    let text = order_payload(&vec!["a.example".to_string(), "b \"quoted\".example".to_string()]);
    let value: serde_json::Value = serde_json::from_str(&text).unwrap();
    let ids = value.get("identifiers").unwrap().as_array().unwrap();
    assert_eq!(ids.len(), 2);
    assert_eq!(ids[0].get("type").unwrap().as_str(), Some("dns"));
    assert_eq!(ids[0].get("value").unwrap().as_str(), Some("a.example"));
    assert_eq!(ids[1].get("value").unwrap().as_str(), Some("b \"quoted\".example"));
    let text = account_payload(&vec!["mailto:foo@bar.com".to_string()]);
    let value: serde_json::Value = serde_json::from_str(&text).unwrap();
    assert_eq!(value.get("termsOfServiceAgreed").unwrap().as_bool(), Some(true));
    assert_eq!(value.get("contact").unwrap().as_array().unwrap().len(), 1);
}

#[test]
fn the_beginning_of_a_text() {
    assert!(starts_with("https://acme.test", "https://"));
    assert!(starts_with("https://", "https://"));
    assert!(starts_with("anything", ""));
    assert!(starts_with("", ""));
    assert!(!starts_with("https:/", "https://"));
    assert!(!starts_with("", "a"));
    assert!(!starts_with("http://acme.test", "https://"));
    assert!(!starts_with("Https://acme.test", "https://"));
    assert!(starts_with("\u{e9}t\u{e9}", "\u{e9}t"));
    assert!(!starts_with("\u{e9}t\u{e9}", "\u{e8}"));
}

#[test]
fn absolute_urls() {
    assert!(absolute_url("https://acme.test/dir"));
    assert!(absolute_url("http://localhost:14000/dir"));
    assert!(absolute_url("https://a"));
    assert!(!absolute_url("https://"));
    assert!(!absolute_url("http://"));
    assert!(!absolute_url("/acme/new-nonce"));
    assert!(!absolute_url("ftp://acme.test"));
    assert!(!absolute_url("acme.test/dir"));
    assert!(!absolute_url(""));
}

fn directory() -> ApiDirectory {
    ApiDirectory {
        new_nonce: "https://acme.test/acme/new-nonce".to_string(),
        new_account: "https://acme.test/acme/new-acct".to_string(),
        new_order: "https://acme.test/acme/new-order".to_string(),
        revoke_cert: "https://acme.test/acme/revoke-cert".to_string(),
        key_change: "https://acme.test/acme/key-change".to_string(),
    }
}

#[test]
fn a_directory_names_every_resource() {
    assert_eq!(directory().check(), Ok(()));
    assert_eq!(check_entry("newNonce", "https://acme.test/n"), Ok(()));
    assert_eq!(
        check_entry("newNonce", ""),
        Err(Error::MissingDirectoryEntry("newNonce".to_string()))
    );
    assert_eq!(
        check_entry("newNonce", "/n"),
        Err(Error::MalformedUrl("/n".to_string()))
    );
    let lacking = ApiDirectory { new_order: String::new(), ..directory() };
    assert_eq!(lacking.check(), Err(Error::MissingDirectoryEntry("newOrder".to_string())));
    let lacking = ApiDirectory { new_nonce: String::new(), key_change: String::new(), ..directory() };
    assert_eq!(lacking.check(), Err(Error::MissingDirectoryEntry("newNonce".to_string())));
    let lacking = ApiDirectory { new_account: String::new(), ..directory() };
    assert_eq!(lacking.check(), Err(Error::MissingDirectoryEntry("newAccount".to_string())));
    let lacking = ApiDirectory { revoke_cert: String::new(), ..directory() };
    assert_eq!(lacking.check(), Err(Error::MissingDirectoryEntry("revokeCert".to_string())));
    let lacking = ApiDirectory { key_change: String::new(), ..directory() };
    assert_eq!(lacking.check(), Err(Error::MissingDirectoryEntry("keyChange".to_string())));
    let malformed = ApiDirectory { new_account: "acme.test/new-acct".to_string(), ..directory() };
    assert_eq!(malformed.check(), Err(Error::MalformedUrl("acme.test/new-acct".to_string())));
    // the first that is wrong is reported
    let both = ApiDirectory {
        new_account: "nope".to_string(),
        new_order: String::new(),
        ..directory()
    };
    assert_eq!(both.check(), Err(Error::MalformedUrl("nope".to_string())));
}

#[test]
fn bytes_that_stand_in_others() {
    assert!(contains_bytes(b"abcdef", b"abc"));
    assert!(contains_bytes(b"abcdef", b"cde"));
    assert!(contains_bytes(b"abcdef", b"def"));
    assert!(contains_bytes(b"abcdef", b"abcdef"));
    assert!(contains_bytes(b"abcdef", b"f"));
    assert!(contains_bytes(b"abcdef", b""));
    assert!(contains_bytes(b"", b""));
    assert!(contains_bytes(b"aab", b"ab"));
    assert!(!contains_bytes(b"abcdef", b"abd"));
    assert!(!contains_bytes(b"abcdef", b"efg"));
    assert!(!contains_bytes(b"abcdef", b"abcdefg"));
    assert!(!contains_bytes(b"", b"a"));
    assert!(!contains_bytes(b"abab", b"bb"));
}

#[test]
fn statuses_are_written_as_they_are_read() {
    for status in [
        OrderStatus::Pending,
        OrderStatus::Ready,
        OrderStatus::Processing,
        OrderStatus::Valid,
        OrderStatus::Invalid,
    ] {
        assert_eq!(OrderStatus::parse(status.name()), Some(status));
    }
    assert_eq!(OrderStatus::Processing.name(), "processing");
    for status in [
        AuthStatus::Pending,
        AuthStatus::Valid,
        AuthStatus::Invalid,
        AuthStatus::Deactivated,
        AuthStatus::Expired,
        AuthStatus::Revoked,
    ] {
        assert_eq!(AuthStatus::parse(status.name()), Some(status));
    }
    assert_eq!(AuthStatus::Deactivated.name(), "deactivated");
    for status in [
        ChallengeStatus::Pending,
        ChallengeStatus::Processing,
        ChallengeStatus::Valid,
        ChallengeStatus::Invalid,
    ] {
        assert_eq!(ChallengeStatus::parse(status.name()), Some(status));
    }
}

#[test]
fn a_status_outside_the_protocol_is_refused_by_its_name() {
    assert_eq!(OrderStatus::read(None), Ok(None));
    assert_eq!(OrderStatus::read(Some("valid")), Ok(Some(OrderStatus::Valid)));
    assert_eq!(
        OrderStatus::read(Some("shipped")),
        Err(Error::UnknownStatus("shipped".to_string()))
    );
    assert_eq!(OrderStatus::read(Some("")), Err(Error::UnknownStatus(String::new())));
    assert_eq!(AuthStatus::read(None), Ok(None));
    assert_eq!(AuthStatus::read(Some("revoked")), Ok(Some(AuthStatus::Revoked)));
    assert_eq!(AuthStatus::read(Some("ready")), Err(Error::UnknownStatus("ready".to_string())));
    assert_eq!(ChallengeStatus::read(None), Ok(None));
    assert_eq!(ChallengeStatus::read(Some("processing")), Ok(Some(ChallengeStatus::Processing)));
    assert_eq!(
        ChallengeStatus::read(Some("ready")),
        Err(Error::UnknownStatus("ready".to_string()))
    );
}
