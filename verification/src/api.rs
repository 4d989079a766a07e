//! The transport adapter's configuration and the wire call it prepares.
//!
//! The adapter owns the fixed base endpoint, the bearer credential and the
//! per-call timeout.  Preparing a call is pure: it yields the absolute
//! target, the two headers and the body, and the caller performs the POST.

use vstd::prelude::*;
use vstd::string::StringExecFns;
use crate::json::{Json, JsonValue};
use core::time::Duration;

verus! {

/// What every domain operation owes the transport: the wire call carries
/// the adapter's endpoint with the operation's fixed method path appended,
/// the two fixed headers, the adapter's timeout, and exactly the payload
/// the operation built.
pub open spec fn prepared_for(
    r: PreparedRequest,
    api: RocketAPI,
    method: Seq<char>,
    payload: Json,
) -> bool {
    &&& r.url@ == api.spec_base_url() + method
    &&& r.authorization@ == "Token "@ + api.spec_token()
    &&& r.content_type@ == "application/json"@
    &&& r.timeout == api.spec_timeout()
    &&& r.body@ == payload
}

/// Configuration of the transport adapter: fixed base endpoint, opaque
/// bearer credential, per-call timeout.  Immutable after construction.
pub struct RocketAPI {
    base_url: String,
    token: String,
    max_timeout: Duration,
}

/// One fully prepared wire call: `POST url` with the two headers, the
/// serialized `body` as the request body, and `timeout` applied to the
/// whole request/response cycle.
pub struct PreparedRequest {
    pub url: String,
    pub authorization: String,
    pub content_type: String,
    pub body: JsonValue,
    pub timeout: Duration,
}

impl RocketAPI {
    /// The fixed base endpoint.
    pub closed spec fn spec_base_url(&self) -> Seq<char> {
        self.base_url@
    }

    /// The stored bearer credential.
    pub closed spec fn spec_token(&self) -> Seq<char> {
        self.token@
    }

    /// The per-call timeout.
    pub closed spec fn spec_timeout(&self) -> Duration {
        self.max_timeout
    }

    /// A fresh adapter around the fixed endpoint, holding the caller's
    /// credential and timeout as given, with no validation.
    pub fn new(token: String, max_timeout: Duration) -> (r: Self)
        ensures
            r.spec_base_url() == "https://v1.rocketapi.io/"@,
            r.spec_token() == token@,
            r.spec_timeout() == max_timeout,
    {
        RocketAPI { base_url: String::from_str("https://v1.rocketapi.io/"), token, max_timeout }
    }

    /// The wire call for one method path and payload: the target is the
    /// base endpoint with the method path appended verbatim, the
    /// authorization header is the literal `Token ` followed by the
    /// credential, and the payload is passed through unchanged.
    pub fn prepare_request(&self, method: &str, data: JsonValue) -> (r: PreparedRequest)
        ensures
            r.url@ == self.spec_base_url() + method@,
            r.authorization@ == "Token "@ + self.spec_token(),
            r.content_type@ == "application/json"@,
            r.body == data,
            r.timeout == self.spec_timeout(),
    {
        let url = self.base_url.clone().concat(method);
        let authorization = String::from_str("Token ").concat(self.token.as_str());
        let content_type = String::from_str("application/json");
        PreparedRequest { url, authorization, content_type, body: data, timeout: self.max_timeout }
    }
}

} // verus!
