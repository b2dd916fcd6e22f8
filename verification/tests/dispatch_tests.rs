use std::cell::Cell;

use algolia::dispatch::attempt_url;
use algolia::dispatch::attempt_urls;
use algolia::dispatch::classify_outcome;
use algolia::dispatch::dispatch;
use algolia::dispatch::dispatch_attempts;
use algolia::dispatch::fallback_order;
use algolia::dispatch::AttemptOutcome;
use algolia::dispatch::TransportOutcome;
use algolia::error::RequestFailure;
use algolia::Error;
use algolia::RefAppId;

#[test]
fn fallback_order_starts_with_primary() {
    for _ in 0..50 {
        let order = fallback_order();
        assert_eq!(order.len(), 4);
        assert_eq!(order[0], 0);
        let mut rest: Vec<usize> = order[1..].to_vec();
        rest.sort_unstable();
        assert_eq!(rest, vec![1, 2, 3]);
    }
}

#[test]
fn attempt_urls_shape() {
    let urls = attempt_urls(RefAppId::new("T"), "indexes/idx/query");
    assert_eq!(urls.len(), 4);
    assert_eq!(urls[0], "https://T.algolia.net/1/indexes/idx/query");
    let mut rest: Vec<String> = urls[1..].to_vec();
    rest.sort();
    assert_eq!(
        rest,
        vec![
            "https://T-1.algolia.net/1/indexes/idx/query".to_string(),
            "https://T-2.algolia.net/1/indexes/idx/query".to_string(),
            "https://T-3.algolia.net/1/indexes/idx/query".to_string(),
        ]
    );
    assert_eq!(
        attempt_url(RefAppId::new("T"), 0, "r"),
        "https://T.algolia.net/1/r"
    );
}

#[test]
fn dispatch_exhausts_retryable_attempts() {
    let urls: Vec<String> = (0..4).map(|i| format!("u{i}")).collect();
    let calls = Cell::new(0usize);
    let (result, attempts) = dispatch_attempts(&urls, |_url: String| {
        calls.set(calls.get() + 1);
        AttemptOutcome::<u32>::Retryable
    });
    assert_eq!(calls.get(), 4);
    assert_eq!(attempts, 4);
    assert_eq!(result, Err(Error::Timeout));
}

#[test]
fn dispatch_stops_on_first_fatal() {
    let urls: Vec<String> = (0..4).map(|i| format!("u{i}")).collect();
    let calls = Cell::new(0usize);
    let (result, attempts) = dispatch_attempts(&urls, |_url: String| {
        calls.set(calls.get() + 1);
        AttemptOutcome::<u32>::Fatal(Error::IndexNotFound("missing".to_string()))
    });
    assert_eq!(calls.get(), 1);
    assert_eq!(attempts, 1);
    assert_eq!(result, Err(Error::IndexNotFound("missing".to_string())));
}

#[test]
fn dispatch_returns_first_success() {
    let urls: Vec<String> = (0..4).map(|i| format!("u{i}")).collect();
    let calls = Cell::new(0usize);
    let (result, attempts) = dispatch_attempts(&urls, |url: String| {
        calls.set(calls.get() + 1);
        if calls.get() < 3 {
            AttemptOutcome::Retryable
        } else {
            AttemptOutcome::Success(url)
        }
    });
    assert_eq!(calls.get(), 3);
    assert_eq!(attempts, 3);
    assert_eq!(result, Ok("u2".to_string()));
}

#[test]
fn dispatch_builds_tenant_urls() {
    let seen: Cell<usize> = Cell::new(0);
    let result = dispatch(RefAppId::new("T"), "route", |url: String| {
        seen.set(seen.get() + 1);
        assert!(url.starts_with("https://T"));
        assert!(url.ends_with(".algolia.net/1/route"));
        AttemptOutcome::<()>::Retryable
    });
    assert_eq!(seen.get(), 4);
    assert_eq!(result, Err(Error::Timeout));
}

#[test]
fn classify_transport_timeout_is_retryable() {
    let r = classify_outcome(TransportOutcome::TimedOut, None);
    assert!(matches!(r, AttemptOutcome::Retryable));
}

#[test]
fn classify_transport_failure_is_fatal() {
    let r = classify_outcome(TransportOutcome::Failed("connection refused".to_string()), None);
    match r {
        AttemptOutcome::Fatal(Error::RequestError(RequestFailure::Transport(m))) => {
            assert_eq!(m, "connection refused");
        }
        _ => panic!("expected a fatal transport error"),
    }
}

#[test]
fn classify_server_error_is_retryable() {
    for status in [500u16, 503, 599] {
        let r = classify_outcome(
            TransportOutcome::Received {
                status,
                body: String::new(),
            },
            Some("idx"),
        );
        assert!(matches!(r, AttemptOutcome::Retryable));
    }
}

#[test]
fn classify_not_found_with_index_context() {
    let r = classify_outcome(
        TransportOutcome::Received {
            status: 404,
            body: String::new(),
        },
        Some("products"),
    );
    match r {
        AttemptOutcome::Fatal(Error::IndexNotFound(name)) => assert_eq!(name, "products"),
        _ => panic!("expected index-not-found"),
    }
}

#[test]
fn classify_not_found_without_index_context() {
    let r = classify_outcome(
        TransportOutcome::Received {
            status: 404,
            body: r#"{"message":"not here","status":404}"#.to_string(),
        },
        None,
    );
    match r {
        AttemptOutcome::Fatal(Error::RequestError(RequestFailure::Unexpected(u))) => {
            assert_eq!(u.message, "not here");
            assert_eq!(u.status, 404);
        }
        _ => panic!("a 404 without an index context is an ordinary client error"),
    }
}

#[test]
fn classify_bad_request_with_message() {
    let r = classify_outcome(
        TransportOutcome::Received {
            status: 400,
            body: r#"{"message":"bad filter"}"#.to_string(),
        },
        None,
    );
    match r {
        AttemptOutcome::Fatal(Error::RequestError(RequestFailure::BadRequest(b))) => {
            assert_eq!(b.message, "bad filter");
        }
        _ => panic!("expected a bad-request error"),
    }
}

#[test]
fn classify_bad_request_with_malformed_body() {
    let r = classify_outcome(
        TransportOutcome::Received {
            status: 400,
            body: "this is not json".to_string(),
        },
        Some("idx"),
    );
    match r {
        AttemptOutcome::Fatal(Error::RequestError(RequestFailure::UndecodableBody { status })) => {
            assert_eq!(status, 400);
        }
        _ => panic!("a 400 with an undecodable body must still be a request error"),
    }
}

#[test]
fn classify_other_client_error_with_structured_body() {
    let r = classify_outcome(
        TransportOutcome::Received {
            status: 403,
            body: r#"{"message":"forbidden","status":403}"#.to_string(),
        },
        None,
    );
    match r {
        AttemptOutcome::Fatal(Error::RequestError(RequestFailure::Unexpected(u))) => {
            assert_eq!(u.message, "forbidden");
            assert_eq!(u.status, 403);
        }
        _ => panic!("expected an unexpected-response error"),
    }
}

#[test]
fn classify_other_client_error_with_malformed_body() {
    let r = classify_outcome(
        TransportOutcome::Received {
            status: 418,
            body: r#"{"message":"no status field"}"#.to_string(),
        },
        None,
    );
    match r {
        AttemptOutcome::Fatal(Error::RequestError(RequestFailure::UndecodableBody { status })) => {
            assert_eq!(status, 418);
        }
        _ => panic!("expected an undecodable-body error"),
    }
}

#[test]
fn classify_success_hands_body_over() {
    let r = classify_outcome(
        TransportOutcome::Received {
            status: 200,
            body: r#"{"hits":[]}"#.to_string(),
        },
        Some("idx"),
    );
    match r {
        AttemptOutcome::Success(body) => assert_eq!(body, r#"{"hits":[]}"#),
        _ => panic!("expected success"),
    }
}
