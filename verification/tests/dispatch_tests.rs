use rocketapi::errors::{RocketAPIError, TransportFailure};
use rocketapi::instagramapi::InstagramAPI;
use rocketapi::json::JsonValue;
use rocketapi::threadsapi::ThreadsAPI;
use std::time::Duration;

fn client() -> InstagramAPI {
    InstagramAPI::new("SECRET-REDACTED".to_string(), Duration::from_secs(30))
}

fn obj(fields: Vec<(&str, JsonValue)>) -> JsonValue {
    JsonValue::Object(fields.into_iter().map(|(k, v)| (k.to_string(), v)).collect())
}

fn s(text: &str) -> JsonValue {
    JsonValue::Str(text.to_string())
}

fn envelope(status_code: i64, content_type: &str, body: Option<JsonValue>) -> JsonValue {
    let mut inner = vec![
        ("status_code", JsonValue::Int(status_code)),
        ("content_type", s(content_type)),
    ];
    if let Some(b) = body {
        inner.push(("body", b));
    }
    obj(vec![("status", s("done")), ("response", obj(inner))])
}

#[test]
fn success_envelope_yields_payload() {
    let mut api = client();
    let body = obj(vec![("a", JsonValue::UInt(1))]);
    let env = envelope(200, "application/json", Some(body.clone()));
    let r = api.complete_request(Ok(env));
    assert_eq!(r, Ok(body));
}

#[test]
fn not_found_envelope_yields_not_found() {
    let mut api = client();
    let env = envelope(404, "application/json", None);
    let r = api.complete_request(Ok(env.clone()));
    assert_eq!(r, Err(RocketAPIError::NotFound(env)));
}

#[test]
fn server_error_envelope_yields_bad_response() {
    let mut api = client();
    let env = envelope(500, "text/html", None);
    let r = api.complete_request(Ok(env.clone()));
    assert_eq!(r, Err(RocketAPIError::BadResponse(env)));
}

#[test]
fn pending_envelope_yields_bad_response() {
    let mut api = client();
    let env = obj(vec![("status", s("pending"))]);
    let r = api.complete_request(Ok(env.clone()));
    assert_eq!(r, Err(RocketAPIError::BadResponse(env)));
}

#[test]
fn pending_envelope_with_response_yields_bad_response() {
    let mut api = client();
    let env = obj(vec![
        ("status", s("pending")),
        (
            "response",
            obj(vec![
                ("status_code", JsonValue::Int(200)),
                ("content_type", s("application/json")),
            ]),
        ),
    ]);
    let r = api.complete_request(Ok(env.clone()));
    assert_eq!(r, Err(RocketAPIError::BadResponse(env)));
}

#[test]
fn success_without_body_yields_null_payload() {
    let mut api = client();
    let env = envelope(200, "application/json", None);
    let r = api.complete_request(Ok(env));
    assert_eq!(r, Ok(JsonValue::Null));
}

#[test]
fn wrong_content_type_with_200_yields_bad_response() {
    let mut api = client();
    let env = envelope(200, "text/html", None);
    let r = api.complete_request(Ok(env.clone()));
    assert_eq!(r, Err(RocketAPIError::BadResponse(env)));
}

#[test]
fn missing_status_code_coerces_to_zero_and_yields_bad_response() {
    let mut api = client();
    let env = obj(vec![
        ("status", s("done")),
        ("response", obj(vec![("content_type", s("application/json"))])),
    ]);
    let r = api.complete_request(Ok(env.clone()));
    assert_eq!(r, Err(RocketAPIError::BadResponse(env)));
}

#[test]
fn huge_unsigned_status_code_coerces_to_zero() {
    let mut api = client();
    let env = obj(vec![
        ("status", s("done")),
        (
            "response",
            obj(vec![
                ("status_code", JsonValue::UInt(u64::MAX)),
                ("content_type", s("application/json")),
            ]),
        ),
    ]);
    let r = api.complete_request(Ok(env.clone()));
    assert_eq!(r, Err(RocketAPIError::BadResponse(env)));
}

#[test]
fn unsigned_200_status_code_counts_as_success() {
    let mut api = client();
    let env = obj(vec![
        ("status", s("done")),
        (
            "response",
            obj(vec![
                ("status_code", JsonValue::UInt(200)),
                ("content_type", s("application/json")),
                ("body", s("ok")),
            ]),
        ),
    ]);
    let r = api.complete_request(Ok(env));
    assert_eq!(r, Ok(s("ok")));
}

#[test]
fn non_object_envelope_yields_bad_response() {
    let mut api = client();
    let env = s("not an envelope");
    let r = api.complete_request(Ok(env.clone()));
    assert_eq!(r, Err(RocketAPIError::BadResponse(env)));
}

#[test]
fn non_string_status_yields_bad_response() {
    let mut api = client();
    let env = obj(vec![("status", JsonValue::Int(1))]);
    let r = api.complete_request(Ok(env.clone()));
    assert_eq!(r, Err(RocketAPIError::BadResponse(env)));
}

#[test]
fn transport_failure_yields_request_error_and_leaves_state() {
    let mut api = client();
    let env = envelope(200, "application/json", Some(s("kept")));
    let _ = api.complete_request(Ok(env.clone()));
    assert_eq!(api.counter, 1);
    assert_eq!(api.last_response, env);
    let fault = TransportFailure { message: "connection timed out".to_string() };
    let r = api.complete_request(Err(fault.clone()));
    assert_eq!(r, Err(RocketAPIError::RequestError(fault)));
    assert_eq!(api.counter, 1);
    assert_eq!(api.last_response, env);
}

#[test]
fn delivered_envelope_is_recorded_and_counted_whatever_the_outcome() {
    let mut api = client();
    assert_eq!(api.counter, 0);
    assert_eq!(api.last_response, JsonValue::Null);

    let bad = obj(vec![("status", s("pending"))]);
    let _ = api.complete_request(Ok(bad.clone()));
    assert_eq!(api.counter, 1);
    assert_eq!(api.last_response, bad);

    let found = envelope(200, "application/json", Some(s("x")));
    let _ = api.complete_request(Ok(found.clone()));
    assert_eq!(api.counter, 2);
    assert_eq!(api.last_response, found);

    let missing = envelope(404, "application/json", None);
    let _ = api.complete_request(Ok(missing.clone()));
    assert_eq!(api.counter, 3);
    assert_eq!(api.last_response, missing);
}

#[test]
fn same_envelope_twice_yields_identical_outcomes_and_counter_grows_by_two() {
    let mut api = client();
    let start = api.counter;
    let env = envelope(404, "application/json", None);
    let first = api.complete_request(Ok(env.clone()));
    let second = api.complete_request(Ok(env.clone()));
    assert_eq!(first, second);
    assert_eq!(api.counter, start + 2);
    assert_eq!(api.last_response, env);
}

#[test]
fn threads_client_classifies_like_the_instagram_client() {
    let mut insta = client();
    let mut threads = ThreadsAPI::new("SECRET-REDACTED".to_string(), Duration::from_secs(30));
    for env in [
        envelope(200, "application/json", Some(s("payload"))),
        envelope(404, "application/json", None),
        envelope(500, "text/html", None),
        obj(vec![("status", s("pending"))]),
    ] {
        let a = insta.complete_request(Ok(env.clone()));
        let b = threads.complete_request(Ok(env));
        assert_eq!(a, b);
    }
    assert_eq!(insta.counter, 4);
    assert_eq!(threads.counter, 4);
}

#[test]
fn client_stays_usable_after_every_failure_kind() {
    let mut api = client();
    let _ = api.complete_request(Err(TransportFailure { message: "dns".to_string() }));
    let _ = api.complete_request(Ok(obj(vec![("status", s("error"))])));
    let _ = api.complete_request(Ok(envelope(404, "application/json", None)));
    let good = envelope(200, "application/json", Some(s("alive")));
    let r = api.complete_request(Ok(good));
    assert_eq!(r, Ok(s("alive")));
    assert_eq!(api.counter, 3);
}

#[test]
fn field_lookup_finds_first_match_and_defaults() {
    let doc = obj(vec![("k", JsonValue::Int(1)), ("k", JsonValue::Int(2))]);
    assert_eq!(doc.get("k"), Some(&JsonValue::Int(1)));
    assert_eq!(doc.get("missing"), None);
    assert_eq!(s("scalar").get("k"), None);
}
