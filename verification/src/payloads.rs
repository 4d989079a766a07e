//! The shared payload shapes of the domain operation layer.
//!
//! Every domain operation builds its payload from a minimal
//! required-field object, appending an optional key only when its value
//! is present — an absent optional field is omitted entirely, never sent
//! as null.  The recurring shapes live here, each as a spec-level payload
//! beside the builder that constructs it.

use vstd::prelude::*;
use crate::json::{jstr, obj1, obj2, obj3, Json, JsonValue};

verus! {

/// The payload `{"ids": [...]}` over the given integer ids.
pub open spec fn ids_payload(ids: Seq<int>) -> Json {
    Json::JObj(seq![("ids"@, Json::JArr(ids.map_values(|n: int| Json::JInt(n))))])
}

/// The payload `{"id": ..., "count": ...}` with `count` defaulting to 12,
/// and `max_id` appended when present.
pub open spec fn count_paged_id_payload(id: u64, count: Option<u8>, max_id: Option<&str>) -> Json {
    let c: int = match count {
        Some(n) => n as int,
        None => 12,
    };
    match max_id {
        Some(m) => Json::JObj(
            seq![
                ("id"@, Json::JInt(id as int)),
                ("count"@, Json::JInt(c)),
                ("max_id"@, Json::JStr(m@)),
            ],
        ),
        None => Json::JObj(seq![("id"@, Json::JInt(id as int)), ("count"@, Json::JInt(c))]),
    }
}

/// The payload `{"id": ...}` with `max_id` appended when present.
pub open spec fn paged_id_payload(id: u64, max_id: Option<&str>) -> Json {
    match max_id {
        Some(m) => Json::JObj(seq![("id"@, Json::JInt(id as int)), ("max_id"@, Json::JStr(m@))]),
        None => Json::JObj(seq![("id"@, Json::JInt(id as int))]),
    }
}

/// The payload of one required entry with an optional `page` and an
/// optional `max_id` appended in that order.
pub open spec fn page_tokened_payload(
    key: Seq<char>,
    value: Json,
    page: Option<&u64>,
    max_id: Option<&str>,
) -> Json {
    match (page, max_id) {
        (Some(p), Some(m)) => Json::JObj(
            seq![
                (key, value),
                ("page"@, Json::JInt(*p as int)),
                ("max_id"@, Json::JStr(m@)),
            ],
        ),
        (Some(p), None) => Json::JObj(seq![(key, value), ("page"@, Json::JInt(*p as int))]),
        (None, Some(m)) => Json::JObj(seq![(key, value), ("max_id"@, Json::JStr(m@))]),
        (None, None) => Json::JObj(seq![(key, value)]),
    }
}

/// The payload `{"query": ...}` with an optional `rank_token` and an
/// optional `page_token` appended in that order.
pub open spec fn query_tokened_payload(
    query: Seq<char>,
    rank_token: Option<&str>,
    page_token: Option<&str>,
) -> Json {
    match (rank_token, page_token) {
        (Some(rk), Some(pt)) => Json::JObj(
            seq![
                ("query"@, Json::JStr(query)),
                ("rank_token"@, Json::JStr(rk@)),
                ("page_token"@, Json::JStr(pt@)),
            ],
        ),
        (Some(rk), None) => Json::JObj(
            seq![("query"@, Json::JStr(query)), ("rank_token"@, Json::JStr(rk@))],
        ),
        (None, Some(pt)) => Json::JObj(
            seq![("query"@, Json::JStr(query)), ("page_token"@, Json::JStr(pt@))],
        ),
        (None, None) => Json::JObj(seq![("query"@, Json::JStr(query))]),
    }
}

/// Builds `count_paged_id_payload` as a document.
pub fn build_count_paged_id(id: u64, count: Option<u8>, max_id: Option<&str>) -> (r: JsonValue)
    ensures
        r@ == count_paged_id_payload(id, count, max_id),
{
    let c: u8 = match count {
        Some(n) => n,
        None => 12,
    };
    match max_id {
        Some(m) => obj3(
            "id",
            JsonValue::UInt(id),
            "count",
            JsonValue::UInt(c as u64),
            "max_id",
            jstr(m),
        ),
        None => obj2("id", JsonValue::UInt(id), "count", JsonValue::UInt(c as u64)),
    }
}

/// Builds `paged_id_payload` as a document.
pub fn build_paged_id(id: u64, max_id: Option<&str>) -> (r: JsonValue)
    ensures
        r@ == paged_id_payload(id, max_id),
{
    match max_id {
        Some(m) => obj2("id", JsonValue::UInt(id), "max_id", jstr(m)),
        None => obj1("id", JsonValue::UInt(id)),
    }
}

/// Builds `page_tokened_payload` as a document.
pub fn build_page_tokened(key: &str, value: JsonValue, page: Option<&u64>, max_id: Option<&str>) -> (
    r: JsonValue)
    ensures
        r@ == page_tokened_payload(key@, value@, page, max_id),
{
    match (page, max_id) {
        (Some(p), Some(m)) => obj3(key, value, "page", JsonValue::UInt(*p), "max_id", jstr(m)),
        (Some(p), None) => obj2(key, value, "page", JsonValue::UInt(*p)),
        (None, Some(m)) => obj2(key, value, "max_id", jstr(m)),
        (None, None) => obj1(key, value),
    }
}

/// Builds `query_tokened_payload` as a document.
pub fn build_query_tokened(query: &str, rank_token: Option<&str>, page_token: Option<&str>) -> (r:
    JsonValue)
    ensures
        r@ == query_tokened_payload(query@, rank_token, page_token),
{
    match (rank_token, page_token) {
        (Some(rk), Some(pt)) => obj3("query", jstr(query), "rank_token", jstr(rk), "page_token",
            jstr(pt)),
        (Some(rk), None) => obj2("query", jstr(query), "rank_token", jstr(rk)),
        (None, Some(pt)) => obj2("query", jstr(query), "page_token", jstr(pt)),
        (None, None) => obj1("query", jstr(query)),
    }
}

} // verus!
