use lnurl_pay::address::parse_lnaddress;
use lnurl_pay::descriptor::{check_status, validate_amount, PayDescriptor, PayerDataRequirement};
use lnurl_pay::error::{check_http_status, ResolveError};
use lnurl_pay::flow::plan_invoice_request;
use lnurl_pay::invoice::{
    accept_invoice, success_action_kind, InvoiceResponse, SuccessAction, SuccessActionKind,
};
use lnurl_pay::text::str_equals;

fn descriptor(min: i64, max: i64) -> PayDescriptor {
    PayDescriptor {
        status: String::from("OK"),
        reason: None,
        tag: String::from("payRequest"),
        comment_allowed: 255,
        callback_url: String::from("https://pay.example/cb"),
        metadata: String::from("[]"),
        min_sendable: min,
        max_sendable: max,
        payer_data: PayerDataRequirement {
            name_mandatory: false,
            email_mandatory: false,
            pubkey_mandatory: false,
        },
        nostr_pubkey: String::from("npub"),
        allows_nostr: true,
    }
}

#[test]
fn parses_plain_address() {
    let a = parse_lnaddress("alice@example.com").unwrap();
    assert_eq!(a.username, "alice");
    assert_eq!(a.domain, "example.com");
}

#[test]
fn rejects_malformed_addresses() {
    assert_eq!(parse_lnaddress("no-at-sign").unwrap_err(), ResolveError::InvalidAddress);
    assert_eq!(parse_lnaddress("a@b@c").unwrap_err(), ResolveError::InvalidAddress);
    assert_eq!(parse_lnaddress("@example.com").unwrap_err(), ResolveError::InvalidAddress);
    assert_eq!(parse_lnaddress("alice@").unwrap_err(), ResolveError::InvalidAddress);
    assert_eq!(parse_lnaddress("").unwrap_err(), ResolveError::InvalidAddress);
}

#[test]
fn builds_well_known_url() {
    let a = parse_lnaddress("user@pay.example").unwrap();
    assert_eq!(a.well_known_url(), "https://pay.example/.well-known/lnurlp/user");
}

#[test]
fn bounds_are_inclusive() {
    let d = descriptor(1000, 100000000);
    assert_eq!(d.validate(1000), Ok(()));
    assert_eq!(d.validate(100000000), Ok(()));
    assert_eq!(d.validate(999), Err(ResolveError::AmountOutOfRange));
    assert_eq!(d.validate(100000001), Err(ResolveError::AmountOutOfRange));
}

#[test]
fn inverted_bounds_are_invariant_violation() {
    let d = descriptor(5000, 1000);
    for amount in [0i64, 1000, 3000, 5000, 100000] {
        assert_eq!(d.validate(amount), Err(ResolveError::InvariantViolation));
    }
    assert_eq!(validate_amount(5000, 1000, 2000), Err(ResolveError::InvariantViolation));
}

#[test]
fn http_status_mapping() {
    assert_eq!(check_http_status(200), Ok(()));
    assert_eq!(check_http_status(299), Ok(()));
    assert_eq!(check_http_status(500), Err(ResolveError::UpstreamUnavailable(Some(500))));
    assert_eq!(check_http_status(404), Err(ResolveError::UpstreamUnavailable(Some(404))));
}

#[test]
fn error_fault_classes() {
    assert!(ResolveError::InvalidAddress.is_caller_error());
    assert!(ResolveError::AmountOutOfRange.is_caller_error());
    assert!(ResolveError::InvariantViolation.is_caller_error());
    assert!(!ResolveError::UpstreamUnavailable(Some(500)).is_caller_error());
    assert!(!ResolveError::ProtocolViolation(None).is_caller_error());
}

#[test]
fn status_must_be_ok() {
    assert_eq!(check_status("OK", None), Ok(()));
    assert_eq!(
        check_status("ERROR", Some(String::from("no such user"))),
        Err(ResolveError::ProtocolViolation(Some(String::from("no such user"))))
    );
    assert_eq!(check_status("ok", None), Err(ResolveError::ProtocolViolation(None)));
    assert_eq!(check_status("", None), Err(ResolveError::ProtocolViolation(None)));
}

#[test]
fn builds_invoice_request_url() {
    let d = descriptor(1000, 100000000);
    assert_eq!(d.invoice_request_url(1000), "https://pay.example/cb?amount=1000");
    assert_eq!(d.invoice_request_url(0), "https://pay.example/cb?amount=0");
    assert_eq!(
        d.invoice_request_url(u64::MAX),
        "https://pay.example/cb?amount=18446744073709551615"
    );
}

#[test]
fn plans_invoice_request_in_order() {
    let d = descriptor(1000, 100000000);
    assert_eq!(
        plan_invoice_request(200, &d, 1000),
        Ok(String::from("https://pay.example/cb?amount=1000"))
    );
    assert_eq!(
        plan_invoice_request(500, &d, 1000),
        Err(ResolveError::UpstreamUnavailable(Some(500)))
    );
    assert_eq!(plan_invoice_request(200, &d, 999), Err(ResolveError::AmountOutOfRange));
    assert_eq!(plan_invoice_request(200, &d, u64::MAX), Err(ResolveError::AmountOutOfRange));
    let mut e = descriptor(1000, 100000000);
    e.status = String::from("ERROR");
    assert_eq!(plan_invoice_request(200, &e, 1000), Err(ResolveError::ProtocolViolation(None)));
    let inv = descriptor(5000, 1000);
    assert_eq!(plan_invoice_request(200, &inv, u64::MAX), Err(ResolveError::InvariantViolation));
}

fn invoice(status: &str, routes: Vec<String>) -> InvoiceResponse {
    InvoiceResponse {
        status: String::from(status),
        reason: None,
        success_action: Some(SuccessAction::Message { message: String::from("Thanks") }),
        verify: String::from("https://pay.example/verify"),
        routes,
        pr: String::from("lnbc1..."),
    }
}

#[test]
fn error_descriptor_carries_reason() {
    let mut d = descriptor(1000, 100000000);
    d.status = String::from("ERROR");
    d.reason = Some(String::from("no such user"));
    assert_eq!(
        plan_invoice_request(200, &d, 1000),
        Err(ResolveError::ProtocolViolation(Some(String::from("no such user"))))
    );
}

#[test]
fn end_to_end_returns_invoice() {
    let a = parse_lnaddress("user@pay.example").unwrap();
    assert_eq!(a.well_known_url(), "https://pay.example/.well-known/lnurlp/user");
    let d = descriptor(1000, 100000000);
    let url = plan_invoice_request(200, &d, 1000).unwrap();
    assert_eq!(url, "https://pay.example/cb?amount=1000");
    let r = accept_invoice(200, invoice("OK", vec![])).unwrap();
    assert_eq!(r.pr, "lnbc1...");
}

#[test]
fn callback_server_error_is_upstream_unavailable() {
    let r = accept_invoice(500, invoice("OK", vec![]));
    assert_eq!(r.unwrap_err(), ResolveError::UpstreamUnavailable(Some(500)));
}

#[test]
fn callback_error_status_is_protocol_violation() {
    let mut resp = invoice("ERROR", vec![]);
    resp.reason = Some(String::from("amount too small"));
    assert_eq!(
        accept_invoice(200, resp).unwrap_err(),
        ResolveError::ProtocolViolation(Some(String::from("amount too small")))
    );
    assert_eq!(
        accept_invoice(200, invoice("ok", vec![])).unwrap_err(),
        ResolveError::ProtocolViolation(None)
    );
}

#[test]
fn empty_routes_reemit_as_empty_array() {
    assert_eq!(invoice("OK", vec![]).routes_json(), "[]");
}

#[test]
fn nested_routes_reemit_unchanged() {
    let first = String::from("[{\"pubkey\":\"02ab\",\"hops\":[1,{\"x\":null}]}]");
    let second = String::from("{\"k\":[true,false,\"\\u00e9\"]}");
    let text = format!("[{},{}]", first, second);
    assert_eq!(invoice("OK", vec![first, second]).routes_json(), text);
    assert_eq!(invoice("OK", vec![String::from("{}")]).routes_json(), "[{}]");
}

#[test]
fn success_action_tags() {
    assert_eq!(success_action_kind("message"), SuccessActionKind::Message);
    assert_eq!(success_action_kind("url"), SuccessActionKind::Url);
    assert_eq!(success_action_kind("aes"), SuccessActionKind::Aes);
    assert_eq!(success_action_kind("Message"), SuccessActionKind::Other);
    assert_eq!(success_action_kind("future-tag"), SuccessActionKind::Other);
    assert_eq!(success_action_kind(""), SuccessActionKind::Other);
}

#[test]
fn string_equality() {
    assert!(str_equals("OK", "OK"));
    assert!(!str_equals("OK", "OKAY"));
    assert!(!str_equals("OK", "ok"));
    assert!(str_equals("", ""));
    assert!(str_equals("h\u{e9}", "h\u{e9}"));
}
