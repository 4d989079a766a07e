//! The envelope dispatcher: classification of the provider's two-layer
//! response envelope, and the session bookkeeping around each dispatch.
//!
//! Every domain operation flows through the same algorithm, whatever the
//! platform namespace: the transport outcome is recorded, and the envelope
//! is classified into a payload or one of three error kinds.

use vstd::prelude::*;
use crate::errors::{RocketAPIError, TransportFailure};
use crate::json::{field_of, int_or_zero, Json, JsonValue};

verus! {

/// Whether the outer delivery status of the envelope is the literal
/// `done`.
pub open spec fn envelope_done(env: Json) -> bool {
    field_of(env, "status"@) matches Json::JStr(s) && s == "done"@
}

/// The inner status code, with absent or non-integer fields coerced to
/// zero.
pub open spec fn envelope_status_code(env: Json) -> int {
    int_or_zero(field_of(field_of(env, "response"@), "status_code"@))
}

/// Whether the inner content type is the literal `application/json`.  A
/// missing or non-string field coerces to the empty string and so never
/// matches.
pub open spec fn envelope_content_is_json(env: Json) -> bool {
    field_of(field_of(env, "response"@), "content_type"@) matches Json::JStr(s) && s
        == "application/json"@
}

/// The inner payload, null when absent.
pub open spec fn envelope_body(env: Json) -> Json {
    field_of(field_of(env, "response"@), "body"@)
}

/// A delivered envelope carries a payload exactly when the outer status is
/// `done`, the inner status code is 200 and the inner content type is
/// `application/json`.
pub open spec fn is_success(env: Json) -> bool {
    envelope_done(env) && envelope_status_code(env) == 200 && envelope_content_is_json(env)
}

/// A delivered envelope reports a missing resource exactly when the outer
/// status is `done` and the inner status code is 404.
pub open spec fn is_not_found(env: Json) -> bool {
    envelope_done(env) && envelope_status_code(env) == 404
}

/// Every other delivered envelope is a bad response.
pub open spec fn is_bad_response(env: Json) -> bool {
    !is_success(env) && !is_not_found(env)
}

/// The classified outcome of one dispatch, at the level of models.
pub enum Classified {
    Payload(Json),
    NotFound(Json),
    BadResponse(Json),
    TransportError,
}

/// How a delivered envelope is classified.
pub open spec fn classify_model(env: Json) -> Classified {
    if is_success(env) {
        Classified::Payload(envelope_body(env))
    } else if is_not_found(env) {
        Classified::NotFound(env)
    } else {
        Classified::BadResponse(env)
    }
}

/// The model of an executable dispatch result.
pub open spec fn result_model(r: Result<JsonValue, RocketAPIError>) -> Classified {
    match r {
        Ok(body) => Classified::Payload(body@),
        Err(RocketAPIError::NotFound(env)) => Classified::NotFound(env@),
        Err(RocketAPIError::BadResponse(env)) => Classified::BadResponse(env@),
        Err(RocketAPIError::RequestError(_)) => Classified::TransportError,
    }
}

/// The diagnostic session state a client keeps between dispatches.
pub struct SessionState {
    pub last_response: Json,
    pub counter: int,
}

/// One dispatch step over a delivered envelope: the envelope is recorded,
/// the counter grows by one, and the envelope's classification is the
/// outcome.  A transport failure takes no step: the session state is left
/// untouched.
pub open spec fn step(s: SessionState, env: Json) -> (SessionState, Classified) {
    (SessionState { last_response: env, counter: s.counter + 1 }, classify_model(env))
}

/// At most one classification holds of any envelope: a payload, a missing
/// resource and a bad response are mutually exclusive, and one of the
/// three always applies.
pub proof fn lemma_classification_exclusive(env: Json)
    ensures
        is_success(env) ==> !is_not_found(env) && !is_bad_response(env),
        is_not_found(env) ==> !is_success(env) && !is_bad_response(env),
        is_bad_response(env) ==> !is_success(env) && !is_not_found(env),
        is_success(env) || is_not_found(env) || is_bad_response(env),
{
}

/// Dispatching the same envelope twice yields the same classified outcome
/// both times, and grows the call counter by exactly two; the second
/// envelope is the one left recorded.
pub proof fn lemma_repeat_dispatch(s0: SessionState, env: Json)
    ensures
        ({
            let (s1, o1) = step(s0, env);
            let (s2, o2) = step(s1, env);
            &&& o1 == o2
            &&& s2.counter == s0.counter + 2
            &&& s2.last_response == env
        }),
{
}

/// Classifies one delivered envelope, in the exact order the protocol
/// fixes: an outer status other than `done` is a bad response; otherwise
/// the inner status code and content type decide between payload, missing
/// resource and bad response.  The error kinds carry the whole envelope.
pub fn classify_envelope(env: JsonValue) -> (r: Result<JsonValue, RocketAPIError>)
    ensures
        result_model(r) == classify_model(env@),
{
    let done = match env.get("status") {
        Some(v) => match v {
            JsonValue::Str(s) => crate::json::str_eq(s.as_str(), "done"),
            _ => false,
        },
        None => false,
    };
    if !done {
        return Err(RocketAPIError::BadResponse(env));
    }
    let mut status_code: i64 = 0;
    let mut content_is_json: bool = false;
    let mut body: JsonValue = JsonValue::Null;
    if let Some(response) = env.get("response") {
        if let Some(code) = response.get("status_code") {
            match code {
                JsonValue::Int(i) => {
                    status_code = *i;
                },
                JsonValue::UInt(u) => {
                    if *u <= i64::MAX as u64 {
                        status_code = *u as i64;
                    }
                },
                _ => {},
            }
        }
        if let Some(ct) = response.get("content_type") {
            if let JsonValue::Str(s) = ct {
                content_is_json = crate::json::str_eq(s.as_str(), "application/json");
            }
        }
        if status_code == 200 && content_is_json {
            if let Some(b) = response.get("body") {
                body = b.clone();
            }
        }
    }
    if status_code == 200 && content_is_json {
        Ok(body)
    } else if status_code == 404 {
        Err(RocketAPIError::NotFound(env))
    } else {
        Err(RocketAPIError::BadResponse(env))
    }
}

/// Settles one dispatch against the session state: a transport failure is
/// surfaced untouched and records nothing; a delivered envelope is
/// recorded, counted, and classified.
pub fn settle_outcome(
    last_response: &mut JsonValue,
    counter: &mut u32,
    outcome: Result<JsonValue, TransportFailure>,
) -> (r: Result<JsonValue, RocketAPIError>)
    requires
        *old(counter) < u32::MAX,
    ensures
        match outcome {
            Ok(env) => {
                &&& *final(counter) == *old(counter) + 1
                &&& final(last_response)@ == env@
                &&& result_model(r) == classify_model(env@)
            },
            Err(f) => {
                &&& r matches Err(RocketAPIError::RequestError(g)) && g == f
                &&& *final(last_response) == *old(last_response)
                &&& *final(counter) == *old(counter)
            },
        },
{
    match outcome {
        Ok(env) => {
            *last_response = env.clone();
            *counter = *counter + 1;
            classify_envelope(env)
        },
        Err(f) => Err(RocketAPIError::RequestError(f)),
    }
}

} // verus!
