use plz::error::Error;
use plz::provider::{
    authorization, body_error_kind, call_api, retryable, Attempt, CallKind, CallStep, Failure,
    IoKind,
};
use serde_json::Value;

#[derive(Clone, Copy)]
enum Response {
    Reset,
    Truncated,
    Http(&'static str, &'static str),
}

fn failure(kind: CallKind, causes: &[IoKind]) -> Failure {
    Failure { kind, causes: causes.to_vec() }
}

fn parse(body: &str) -> Attempt {
    match serde_json::from_str::<Value>(body) {
        Ok(value) => Attempt::Answered(value),
        Err(error) => {
            let cause = body_error_kind(None, error.is_eof());
            Attempt::Failed(
                failure(CallKind::Other, &[cause]),
                Error::Outside(error.to_string()),
            )
        }
    }
}

fn attempt(response: Response) -> Attempt {
    match response {
        Response::Reset => Attempt::Failed(
            failure(CallKind::Other, &[IoKind::ConnectionReset]),
            Error::Outside("connection reset".to_string()),
        ),
        Response::Truncated => parse("{\"ok\":"),
        Response::Http("200 OK", body) => parse(body),
        Response::Http(status, _) => Attempt::Failed(
            failure(CallKind::Other, &[]),
            Error::Outside(status.to_string()),
        ),
    }
}

fn empty() -> Value {
    Value::Object(Default::default())
}

struct Outcome {
    result: Result<Value, Error>,
    requests: Vec<(String, Value)>,
    waits: Vec<u64>,
    last_retryable: bool,
}

fn call(responses: Vec<Response>, key: &str, body: &Value) -> Outcome {
    let mut requests = Vec::new();
    let mut waits = Vec::new();
    let mut retries = 0;
    let mut last_retryable = false;
    for response in responses {
        requests.push((authorization(key), body.clone()));
        let attempt = attempt(response);
        if let Attempt::Failed(failure, _) = &attempt {
            last_retryable = retryable(failure);
        }
        match call_api(retries, attempt) {
            CallStep::Return(value) => {
                return Outcome { result: Ok(value), requests, waits, last_retryable };
            }
            CallStep::Retry { millis, retries: next } => {
                waits.push(millis);
                retries = next;
            }
            CallStep::Fail(error) => {
                return Outcome { result: Err(error), requests, waits, last_retryable };
            }
        }
    }
    panic!("the call wants more attempts than there are responses");
}

#[test]
fn retries_reset_and_truncated_body() {
    let body: Value = [("state", "pwd")].into_iter().collect();
    let outcome = call(
        vec![
            Response::Reset,
            Response::Truncated,
            Response::Http("200 OK", "{\"ok\":true}"),
        ],
        "test-key",
        &body,
    );
    let expected: Value = [("ok", true)].into_iter().collect();
    assert_eq!(outcome.result.unwrap(), expected);
    assert_eq!(outcome.requests.len(), 3);
    assert!(outcome
        .requests
        .iter()
        .all(|(header, sent)| header == "Bearer test-key" && *sent == body));
}

#[test]
fn limits_retries_and_preserves_error() {
    let outcome = call(vec![Response::Reset; 4], "test-key", &empty());
    assert_eq!(outcome.requests.len(), 4);
    assert!(outcome.last_retryable);
    assert_eq!(outcome.result.unwrap_err().message(), "connection reset");
    assert_eq!(outcome.waits, vec![100, 200, 400]);
}

#[test]
fn does_not_retry_auth_or_invalid_json() {
    for (status, body) in [("401 Unauthorized", "{}"), ("200 OK", "not json")] {
        let outcome = call(vec![Response::Http(status, body)], "test-key", &empty());
        assert_eq!(outcome.requests.len(), 1);
        assert!(outcome.result.is_err());
        assert!(!outcome.last_retryable);
    }
}

#[test]
fn transient_kinds_are_retried_at_any_depth() {
    for kind in [
        IoKind::ConnectionReset,
        IoKind::ConnectionAborted,
        IoKind::BrokenPipe,
        IoKind::NotConnected,
        IoKind::UnexpectedEof,
        IoKind::TimedOut,
        IoKind::WouldBlock,
        IoKind::Interrupted,
    ] {
        assert!(retryable(&failure(CallKind::Other, &[kind])));
        assert!(retryable(&failure(CallKind::Other, &[IoKind::Other, IoKind::InvalidData, kind])));
    }
    assert!(!retryable(&failure(CallKind::Other, &[IoKind::Other, IoKind::InvalidData])));
    assert!(!retryable(&failure(CallKind::Other, &[])));
    assert!(retryable(&failure(CallKind::Dns, &[])));
    assert!(retryable(&failure(CallKind::ConnectionFailed, &[IoKind::Other])));
}

#[test]
fn body_errors_keep_the_input_error() {
    assert_eq!(body_error_kind(Some(IoKind::TimedOut), true), IoKind::TimedOut);
    assert_eq!(body_error_kind(Some(IoKind::Other), false), IoKind::Other);
    assert_eq!(body_error_kind(None, true), IoKind::UnexpectedEof);
    assert_eq!(body_error_kind(None, false), IoKind::InvalidData);
}
