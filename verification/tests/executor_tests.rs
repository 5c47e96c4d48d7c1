use github_stats::error::Error;
use github_stats::executor::{
    Attempts, Decision, Outcome, RequestError, INITIAL_BACKOFF, MAX_RETRIES,
};
use github_stats::response::{
    ratelimit_remaining, ratelimit_reset, retry_after, HeaderValue, ResponseHeaders,
};

fn text(s: &str) -> HeaderValue {
    HeaderValue::Text(s.to_string())
}

fn no_headers() -> ResponseHeaders {
    ResponseHeaders {
        ratelimit_remaining: HeaderValue::Missing,
        ratelimit_reset: HeaderValue::Missing,
        retry_after: HeaderValue::Missing,
        link: HeaderValue::Missing,
    }
}

fn response(status: u16, headers: ResponseHeaders) -> Outcome {
    Outcome::Response { status, headers }
}

#[test]
fn constants_are_two_retries_from_two_seconds() {
    assert_eq!(MAX_RETRIES, 2);
    assert_eq!(INITIAL_BACKOFF, 2);
}

#[test]
fn header_numbers_are_read() {
    let headers = ResponseHeaders {
        ratelimit_remaining: text("59"),
        ratelimit_reset: text("1700000100"),
        retry_after: text("30"),
        link: HeaderValue::Missing,
    };
    assert_eq!(ratelimit_remaining(&headers), Some(59));
    assert_eq!(ratelimit_reset(&headers, 1_700_000_000), Some(100));
    assert_eq!(ratelimit_reset(&headers, 1_700_000_099), Some(1));
    assert_eq!(ratelimit_reset(&headers, 1_700_000_100), None);
    assert_eq!(ratelimit_reset(&headers, 1_700_000_101), None);
    assert_eq!(retry_after(&headers), Some(30));
    assert_eq!(HeaderValue::Missing.to_number(), None);
    assert_eq!(HeaderValue::Opaque.to_number(), None);
    assert_eq!(text("12").to_number(), Some(12));
}

#[test]
fn header_values_that_are_no_numbers_count_as_absent() {
    let headers = ResponseHeaders {
        ratelimit_remaining: text("many"),
        ratelimit_reset: HeaderValue::Opaque,
        retry_after: text("Wed, 21 Oct 2015 07:28:00 GMT"),
        link: HeaderValue::Missing,
    };
    assert_eq!(ratelimit_remaining(&headers), None);
    assert_eq!(ratelimit_reset(&headers, 0), None);
    assert_eq!(retry_after(&headers), None);
}

#[test]
fn success_is_delivered() {
    let mut attempts = Attempts::new();
    for status in [200u16, 201, 204, 299] {
        assert_eq!(attempts.decide(&response(status, no_headers()), 0), Decision::Deliver);
    }
    assert_eq!(attempts.retries(), 0);
}

#[test]
fn transport_failure_is_final() {
    let mut attempts = Attempts::new();
    assert_eq!(
        attempts.decide(&Outcome::TransportFailure, 0),
        Decision::Fail(RequestError::Transport)
    );
    assert_eq!(attempts.retries(), 0);
}

#[test]
fn other_statuses_fail_at_once_with_the_code() {
    for status in [199u16, 300, 301, 400, 401, 403, 404, 422, 501, 505] {
        let mut attempts = Attempts::new();
        assert_eq!(
            attempts.decide(&response(status, no_headers()), 0),
            Decision::Fail(RequestError::Status(status))
        );
        assert_eq!(attempts.retries(), 0);
    }
}

#[test]
fn without_remaining_header_there_is_no_reset_wait() {
    let headers = ResponseHeaders {
        ratelimit_remaining: HeaderValue::Missing,
        ratelimit_reset: text("2000"),
        retry_after: HeaderValue::Missing,
        link: HeaderValue::Missing,
    };
    let mut attempts = Attempts::new();
    assert_eq!(attempts.decide(&response(200, headers.clone()), 1000), Decision::Deliver);
    assert_eq!(
        attempts.decide(&response(403, headers), 1000),
        Decision::Fail(RequestError::Status(403))
    );
}

#[test]
fn exhausted_window_waits_until_reset() {
    let headers = ResponseHeaders {
        ratelimit_remaining: text("0"),
        ratelimit_reset: text("1700000060"),
        retry_after: HeaderValue::Missing,
        link: HeaderValue::Missing,
    };
    let mut attempts = Attempts::new();
    for status in [200u16, 403, 429, 500] {
        assert_eq!(
            attempts.decide(&response(status, headers.clone()), 1_700_000_000),
            Decision::AwaitReset(60)
        );
        assert_eq!(attempts.retries(), 0);
    }
}

#[test]
fn exhausted_window_whose_reset_has_passed_falls_through() {
    let headers = ResponseHeaders {
        ratelimit_remaining: text("0"),
        ratelimit_reset: text("1000"),
        retry_after: HeaderValue::Missing,
        link: HeaderValue::Missing,
    };
    let mut attempts = Attempts::new();
    assert_eq!(attempts.decide(&response(200, headers.clone()), 1000), Decision::Deliver);
    assert_eq!(
        attempts.decide(&response(403, headers), 2000),
        Decision::Fail(RequestError::Status(403))
    );
    let headers = ResponseHeaders {
        ratelimit_remaining: text("0"),
        ratelimit_reset: HeaderValue::Missing,
        retry_after: text("7"),
        link: HeaderValue::Missing,
    };
    assert_eq!(attempts.decide(&response(403, headers), 2000), Decision::AwaitRetryAfter(7));
}

#[test]
fn remaining_requests_mean_no_wait() {
    let headers = ResponseHeaders {
        ratelimit_remaining: text("1"),
        ratelimit_reset: text("5000"),
        retry_after: HeaderValue::Missing,
        link: HeaderValue::Missing,
    };
    let mut attempts = Attempts::new();
    assert_eq!(attempts.decide(&response(200, headers), 1000), Decision::Deliver);
}

#[test]
fn retry_after_waits_without_spending_a_retry() {
    let headers = ResponseHeaders {
        ratelimit_remaining: HeaderValue::Missing,
        ratelimit_reset: HeaderValue::Missing,
        retry_after: text("30"),
        link: HeaderValue::Missing,
    };
    let mut attempts = Attempts::new();
    for status in [200u16, 403, 429] {
        assert_eq!(
            attempts.decide(&response(status, headers.clone()), 0),
            Decision::AwaitRetryAfter(30)
        );
    }
    assert_eq!(attempts.retries(), 0);
}

#[test]
fn retry_after_zero_is_no_wait() {
    let headers = ResponseHeaders {
        ratelimit_remaining: HeaderValue::Missing,
        ratelimit_reset: HeaderValue::Missing,
        retry_after: text("0"),
        link: HeaderValue::Missing,
    };
    let mut attempts = Attempts::new();
    assert_eq!(attempts.decide(&response(200, headers.clone()), 0), Decision::Deliver);
    assert_eq!(attempts.decide(&response(503, headers), 0), Decision::Backoff(2));
}

#[test]
fn retryable_status_backs_off_twice_then_fails() {
    for status in [500u16, 502, 503, 504, 429, 408] {
        let mut attempts = Attempts::new();
        assert_eq!(attempts.decide(&response(status, no_headers()), 0), Decision::Backoff(2));
        assert_eq!(attempts.retries(), 1);
        assert_eq!(attempts.decide(&response(status, no_headers()), 0), Decision::Backoff(4));
        assert_eq!(attempts.retries(), 2);
        assert_eq!(
            attempts.decide(&response(status, no_headers()), 0),
            Decision::Fail(RequestError::RetriesExhausted)
        );
        assert_eq!(attempts.retries(), 2);
    }
}

#[test]
fn rate_limit_waits_leave_the_retry_budget_alone() {
    let limited = ResponseHeaders {
        ratelimit_remaining: text("0"),
        ratelimit_reset: text("160"),
        retry_after: HeaderValue::Missing,
        link: HeaderValue::Missing,
    };
    let mut attempts = Attempts::new();
    assert_eq!(attempts.decide(&response(500, no_headers()), 100), Decision::Backoff(2));
    assert_eq!(attempts.decide(&response(500, limited.clone()), 100), Decision::AwaitReset(60));
    assert_eq!(attempts.decide(&response(500, limited), 130), Decision::AwaitReset(30));
    assert_eq!(attempts.retries(), 1);
    assert_eq!(attempts.decide(&response(502, no_headers()), 170), Decision::Backoff(4));
    assert_eq!(attempts.decide(&response(200, no_headers()), 180), Decision::Deliver);
    assert_eq!(attempts.retries(), 2);
}

#[test]
fn request_errors_map_to_fetch_errors() {
    assert_eq!(Error::from_request(RequestError::Transport), Error::Transport);
    assert_eq!(Error::from_request(RequestError::Status(404)), Error::UnretryableStatus(404));
    assert_eq!(Error::from_request(RequestError::RetriesExhausted), Error::RetriesExhausted);
}
