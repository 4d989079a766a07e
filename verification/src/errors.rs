//! The classified outcomes of a dispatch that did not produce a payload.

use vstd::prelude::*;
use crate::json::JsonValue;

verus! {

/// A transport-level fault: the request never produced an interpretable
/// envelope (network fault, timeout, malformed body at the transport
/// boundary).  Carries the underlying cause as text.
#[derive(Clone, Debug, PartialEq, Eq)]
pub struct TransportFailure {
    pub message: String,
}

/// The three error kinds a dispatch can end in, mutually exclusive per
/// call.  `NotFound` and `BadResponse` carry the full envelope for
/// inspection; `RequestError` carries the transport cause.
#[derive(Debug, PartialEq, Eq)]
pub enum RocketAPIError {
    BadResponse(JsonValue),
    NotFound(JsonValue),
    RequestError(TransportFailure),
}

} // verus!
