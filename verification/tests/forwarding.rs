use std::cell::Cell;

use http_forwarder::error::ErrorKind;
use http_forwarder::exchange::{
    conclude, forward, prepare, OutboundRequest, RawHeader, RawResponse, TransportOutcome,
};
use http_forwarder::headers::Headers;
use http_forwarder::message::HttpRequest;
use http_forwarder::verb::Verb;

fn text(s: &str) -> String {
    s.to_string()
}

fn request(method: &str, url: &str) -> HttpRequest {
    HttpRequest { url: text(url), headers: None, body: None, method: text(method) }
}

fn raw_header(name: &str, value: &[u8]) -> RawHeader {
    RawHeader { name: text(name), value: value.to_vec() }
}

/// A transport that answers with the headers and the body it was sent.
fn echo(plan: OutboundRequest) -> TransportOutcome {
    let mut headers = Vec::new();
    let mut place = 0;
    while let Some((name, value)) = plan.headers.entry_at(place) {
        headers.push(RawHeader { name: name.clone(), value: value.clone().into_bytes() });
        place += 1;
    }
    let body = match plan.body {
        Some(b) => b.into_bytes(),
        None => Vec::new(),
    };
    TransportOutcome::Received(RawResponse { status: 200, headers, body })
}

#[test]
fn prepare_resolves_the_method_and_carries_the_rest() {
    let mut headers = Headers::new();
    headers.insert(text("X-Test"), text("1"));
    headers.insert(text("Accept"), text("*/*"));
    let plan = prepare(HttpRequest {
        url: text("https://example.org/a?b=c"),
        headers: Some(headers),
        body: Some(text("hello")),
        method: text("post"),
    })
    .unwrap();
    assert_eq!(plan.verb, Verb::Post);
    assert_eq!(plan.url, "https://example.org/a?b=c");
    assert_eq!(plan.body, Some(text("hello")));
    assert_eq!(plan.headers.len(), 2);
    assert_eq!(plan.headers.entry_at(0), Some((&text("X-Test"), &text("1"))));
    assert_eq!(plan.headers.entry_at(1), Some((&text("Accept"), &text("*/*"))));
}

#[test]
fn prepare_without_headers_or_body() {
    let plan = prepare(request("GET", "http://localhost/")).unwrap();
    assert_eq!(plan.verb, Verb::Get);
    assert_eq!(plan.url, "http://localhost/");
    assert!(plan.headers.is_empty());
    assert_eq!(plan.body, None);
}

#[test]
fn prepare_does_not_look_at_the_url() {
    let plan = prepare(request("head", "not a url")).unwrap();
    assert_eq!(plan.verb, Verb::Head);
    assert_eq!(plan.url, "not a url");
    let plan = prepare(request("get", "")).unwrap();
    assert_eq!(plan.url, "");
}

#[test]
fn prepare_accepts_every_case_of_a_verb() {
    for method in ["get", "GET", "Get"] {
        let plan = prepare(request(method, "http://localhost/"));
        assert!(!matches!(plan, Err(ErrorKind::InvalidMethod)));
        assert_eq!(plan.unwrap().verb, Verb::Get);
    }
}

#[test]
fn prepare_rejects_an_unknown_method() {
    for method in ["FOOBAR", "", "GET POST", "GETT", "G\u{c9}T"] {
        let plan = prepare(request(method, "http://localhost/"));
        assert!(matches!(plan, Err(ErrorKind::InvalidMethod)));
    }
}

#[test]
fn unknown_method_issues_no_call() {
    let calls = Cell::new(0);
    let result = forward(request("FOOBAR", "http://localhost/"), |plan| {
        calls.set(calls.get() + 1);
        echo(plan)
    });
    assert!(matches!(result, Err(ErrorKind::InvalidMethod)));
    assert_eq!(calls.get(), 0);
}

#[test]
fn known_method_issues_one_call() {
    let calls = Cell::new(0);
    let result = forward(request("options", "http://localhost/"), |plan| {
        calls.set(calls.get() + 1);
        assert_eq!(plan.verb, Verb::Options);
        echo(plan)
    });
    assert!(result.is_ok());
    assert_eq!(calls.get(), 1);
}

#[test]
fn echo_round_trip() {
    let mut headers = Headers::new();
    headers.insert(text("X-Test"), text("1"));
    let response = forward(
        HttpRequest {
            url: text("http://localhost/echo"),
            headers: Some(headers),
            body: Some(text("hello")),
            method: text("POST"),
        },
        echo,
    )
    .unwrap();
    assert!(response.success);
    assert_eq!(response.status, 200);
    assert_eq!(response.headers.get("X-Test"), Some(&text("1")));
    assert_eq!(response.headers.len(), 1);
    assert_eq!(response.body, "hello");
}

#[test]
fn echo_round_trip_without_body_gives_an_empty_body() {
    let response = forward(request("get", "http://localhost/echo"), echo).unwrap();
    assert!(response.success);
    assert!(response.headers.is_empty());
    assert_eq!(response.body, "");
}

#[test]
fn echo_round_trip_keeps_text_beyond_ascii_in_the_body() {
    let response = forward(
        HttpRequest {
            url: text("http://localhost/echo"),
            headers: None,
            body: Some(text("gr\u{fc}\u{df}e \u{2713}")),
            method: text("put"),
        },
        echo,
    )
    .unwrap();
    assert_eq!(response.body, "gr\u{fc}\u{df}e \u{2713}");
}

#[test]
fn transport_failure_is_reported() {
    let result = forward(request("GET", "http://localhost/"), |_plan| TransportOutcome::Failed);
    assert!(matches!(result, Err(ErrorKind::TransportFailed)));
    assert!(matches!(conclude(TransportOutcome::Failed), Err(ErrorKind::TransportFailed)));
}

#[test]
fn conclude_assembles_the_response() {
    let response = conclude(TransportOutcome::Received(RawResponse {
        status: 404,
        headers: vec![
            raw_header("content-type", b"text/plain"),
            raw_header("content-length", b"9"),
        ],
        body: b"not found".to_vec(),
    }))
    .unwrap();
    assert!(response.success);
    assert_eq!(response.status, 404);
    assert_eq!(response.body, "not found");
    assert_eq!(response.headers.len(), 2);
    assert_eq!(response.headers.entry_at(0), Some((&text("content-type"), &text("text/plain"))));
    assert_eq!(response.headers.entry_at(1), Some((&text("content-length"), &text("9"))));
}

#[test]
fn conclude_keeps_the_status_whatever_it_is() {
    for status in [0u16, 100, 204, 302, 500, 599, 999, u16::MAX] {
        let response = conclude(TransportOutcome::Received(RawResponse {
            status,
            headers: Vec::new(),
            body: Vec::new(),
        }))
        .unwrap();
        assert!(response.success);
        assert_eq!(response.status, status);
    }
}

#[test]
fn repeated_response_header_keeps_the_last_value() {
    let response = conclude(TransportOutcome::Received(RawResponse {
        status: 200,
        headers: vec![
            raw_header("set-cookie", b"a=1"),
            raw_header("vary", b"accept"),
            raw_header("set-cookie", b"b=2"),
            raw_header("set-cookie", b"c=3"),
        ],
        body: Vec::new(),
    }))
    .unwrap();
    assert_eq!(response.headers.len(), 2);
    assert_eq!(response.headers.get("set-cookie"), Some(&text("c=3")));
    assert_eq!(response.headers.get("vary"), Some(&text("accept")));
    assert_eq!(response.headers.entry_at(0), Some((&text("set-cookie"), &text("c=3"))));
    assert_eq!(response.headers.entry_at(1), Some((&text("vary"), &text("accept"))));
}

#[test]
fn undecodable_header_value_fails_the_call() {
    let result = conclude(TransportOutcome::Received(RawResponse {
        status: 200,
        headers: vec![raw_header("x-ok", b"fine"), raw_header("x-bad", &[b'c', 0xe9])],
        body: b"ok".to_vec(),
    }));
    assert!(matches!(result, Err(ErrorKind::DecodeFailed)));
}

#[test]
fn undecodable_header_value_fails_even_when_overwritten() {
    let result = conclude(TransportOutcome::Received(RawResponse {
        status: 200,
        headers: vec![raw_header("x", &[0xff]), raw_header("x", b"fine")],
        body: b"ok".to_vec(),
    }));
    assert!(matches!(result, Err(ErrorKind::DecodeFailed)));
}

#[test]
fn undecodable_body_fails_the_call() {
    let result = conclude(TransportOutcome::Received(RawResponse {
        status: 200,
        headers: vec![raw_header("x-ok", b"fine")],
        body: vec![b'o', b'k', 0xff],
    }));
    assert!(matches!(result, Err(ErrorKind::DecodeFailed)));
}

#[test]
fn body_bytes_are_decoded_not_handed_back() {
    let response = conclude(TransportOutcome::Received(RawResponse {
        status: 200,
        headers: Vec::new(),
        body: vec![0xe2, 0x82, 0xac],
    }))
    .unwrap();
    assert_eq!(response.body.chars().count(), 1);
    assert_eq!(response.body, "\u{20ac}");
}

#[test]
fn interleaved_exchanges_do_not_mix() {
    let count: usize = 8;
    let mut plans = Vec::new();
    for i in 0..count {
        let mut headers = Headers::new();
        headers.insert(text("X-Call"), format!("{}", i));
        headers.insert(format!("X-Only-{}", i), text("yes"));
        let plan = prepare(HttpRequest {
            url: format!("http://host-{}.test/", i),
            headers: Some(headers),
            body: Some(format!("body of call {}", i)),
            method: text(if i % 2 == 0 { "post" } else { "PUT" }),
        })
        .unwrap();
        plans.push(plan);
    }
    // Every endpoint answers; the answers are concluded in the opposite order.
    let mut outcomes = Vec::new();
    for plan in plans {
        outcomes.push(echo(plan));
    }
    let mut responses = Vec::new();
    while let Some(outcome) = outcomes.pop() {
        responses.push(conclude(outcome).unwrap());
    }
    responses.reverse();
    assert_eq!(responses.len(), count);
    for (i, response) in responses.iter().enumerate() {
        assert_eq!(response.body, format!("body of call {}", i));
        assert_eq!(response.headers.len(), 2);
        assert_eq!(response.headers.get("X-Call"), Some(&format!("{}", i)));
        assert_eq!(response.headers.get(&format!("X-Only-{}", i)), Some(&text("yes")));
        for other in 0..count {
            if other != i {
                assert!(!response.headers.contains_key(&format!("X-Only-{}", other)));
            }
        }
    }
}

#[test]
fn a_cloned_request_is_planned_alike() {
    let mut headers = Headers::new();
    headers.insert(text("X-Test"), text("1"));
    let first = HttpRequest {
        url: text("http://localhost/a"),
        headers: Some(headers),
        body: Some(text("payload")),
        method: text("Patch"),
    };
    let second = first.clone();
    let a = prepare(first).unwrap();
    let b = prepare(second).unwrap();
    assert_eq!(a.verb, Verb::Patch);
    assert_eq!(b.verb, Verb::Patch);
    assert_eq!(a.url, b.url);
    assert_eq!(a.body, b.body);
    assert_eq!(a.headers.len(), 1);
    assert_eq!(a.headers.entry_at(0), b.headers.entry_at(0));
}

#[test]
fn a_cloned_response_holds_the_same() {
    let response = conclude(TransportOutcome::Received(RawResponse {
        status: 201,
        headers: vec![raw_header("etag", b"\"abc\"")],
        body: b"created".to_vec(),
    }))
    .unwrap();
    let copy = response.clone();
    assert_eq!(copy.success, response.success);
    assert_eq!(copy.status, 201);
    assert_eq!(copy.body, "created");
    assert_eq!(copy.headers.get("etag"), Some(&text("\"abc\"")));
}
