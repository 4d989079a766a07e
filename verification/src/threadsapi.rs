//! The Threads-facing client: the same diagnostic session state and
//! dispatch algorithm as the Instagram client, dispatching into the
//! `threads/` method-path namespace.  The classification algorithm is the
//! shared one; only the method paths and payload shapes differ.

use vstd::prelude::*;
use crate::api::{prepared_for, PreparedRequest, RocketAPI};
use crate::dispatch::{result_model, step, SessionState};
use crate::errors::{RocketAPIError, TransportFailure};
use crate::json::{jstr, obj1, obj2, Json, JsonValue};
use crate::payloads::{build_paged_id, build_query_tokened, paged_id_payload, query_tokened_payload};
use core::time::Duration;

verus! {

/// Threads API client: the transport adapter plus the diagnostic session
/// state (`last_response`, `counter`) that each dispatch updates.
pub struct ThreadsAPI {
    pub api: RocketAPI,
    pub last_response: JsonValue,
    pub counter: u32,
}

impl ThreadsAPI {
    /// The diagnostic session state as a mathematical value.
    pub open spec fn session(&self) -> SessionState {
        SessionState { last_response: self.last_response@, counter: self.counter as int }
    }

    /// A fresh client around the given credential and timeout, with a
    /// null last response and a zero call counter.
    pub fn new(token: String, max_timeout: Duration) -> (r: Self)
        ensures
            r.api.spec_base_url() == "https://v1.rocketapi.io/"@,
            r.api.spec_token() == token@,
            r.api.spec_timeout() == max_timeout,
            r.last_response@ == Json::JNull,
            r.counter == 0,
    {
        ThreadsAPI {
            api: RocketAPI::new(token, max_timeout),
            last_response: JsonValue::Null,
            counter: 0,
        }
    }

    /// Settles one dispatch: a delivered envelope is recorded as the last
    /// response, counted once, and classified; a transport failure is
    /// surfaced as `RequestError` and leaves the session state untouched.
    pub fn complete_request(&mut self, outcome: Result<JsonValue, TransportFailure>) -> (r: Result<
        JsonValue,
        RocketAPIError,
    >)
        requires
            old(self).counter < u32::MAX,
        ensures
            final(self).api == old(self).api,
            match outcome {
                Ok(env) => (final(self).session(), result_model(r)) == step(
                    old(self).session(),
                    env@,
                ),
                Err(f) => {
                    &&& r matches Err(RocketAPIError::RequestError(g)) && g == f
                    &&& *final(self) == *old(self)
                },
            },
    {
        crate::dispatch::settle_outcome(&mut self.last_response, &mut self.counter, outcome)
    }

    /// The most recent envelope the transport delivered, for debugging
    /// only; overwritten on every delivered dispatch.
    pub fn last_response(&self) -> (r: &JsonValue)
        ensures
            *r == self.last_response,
    {
        &self.last_response
    }

    /// How many dispatches reached and returned from the transport in
    /// this session.
    pub fn call_counter(&self) -> (r: u32)
        ensures
            r == self.counter,
    {
        self.counter
    }

    /// Search for a specific user in Threads, with optional rank and page
    /// tokens.
    pub fn search_users(&self, query: &str, rank_token: Option<&str>, page_token: Option<&str>) -> (
        r: PreparedRequest)
        ensures
            prepared_for(
                r,
                self.api,
                "threads/search_users"@,
                query_tokened_payload(query@, rank_token, page_token),
            ),
    {
        self.api.prepare_request(
            "threads/search_users",
            build_query_tokened(query, rank_token, page_token),
        )
    }

    /// Retrieve Threads user information by id.
    pub fn get_user_info(&self, user_id: &u64) -> (r: PreparedRequest)
        ensures
            prepared_for(
                r,
                self.api,
                "threads/user/get_info"@,
                Json::JObj(seq![("id"@, Json::JInt(*user_id as int))]),
            ),
    {
        self.api.prepare_request("threads/user/get_info", obj1("id", JsonValue::UInt(*user_id)))
    }

    /// Retrieve Threads user feed by id, with optional pagination.
    pub fn get_user_feed(&self, user_id: &u64, max_id: Option<&str>) -> (r: PreparedRequest)
        ensures
            prepared_for(
                r,
                self.api,
                "threads/user/get_feed"@,
                paged_id_payload(*user_id, max_id),
            ),
    {
        self.api.prepare_request("threads/user/get_feed", build_paged_id(*user_id, max_id))
    }

    /// Retrieve Threads user replies by id, with optional pagination.
    pub fn get_user_replies(&self, user_id: &u64, max_id: Option<&str>) -> (r: PreparedRequest)
        ensures
            prepared_for(
                r,
                self.api,
                "threads/user/get_replies"@,
                paged_id_payload(*user_id, max_id),
            ),
    {
        self.api.prepare_request("threads/user/get_replies", build_paged_id(*user_id, max_id))
    }

    /// Retrieve Threads user followers by id, with optional pagination.
    pub fn get_user_followers(&self, user_id: &u64, max_id: Option<&str>) -> (r: PreparedRequest)
        ensures
            prepared_for(
                r,
                self.api,
                "threads/user/get_followers"@,
                paged_id_payload(*user_id, max_id),
            ),
    {
        self.api.prepare_request("threads/user/get_followers", build_paged_id(*user_id, max_id))
    }

    /// Search Threads user followers by user id.
    pub fn search_user_followers(&self, user_id: &u64, query: &str) -> (r: PreparedRequest)
        ensures
            prepared_for(
                r,
                self.api,
                "threads/user/get_followers"@,
                Json::JObj(
                    seq![("id"@, Json::JInt(*user_id as int)), ("query"@, Json::JStr(query@))],
                ),
            ),
    {
        self.api.prepare_request(
            "threads/user/get_followers",
            obj2("id", JsonValue::UInt(*user_id), "query", jstr(query)),
        )
    }

    /// Retrieve Threads user following by id, with optional pagination.
    pub fn get_user_following(&self, user_id: &u64, max_id: Option<&str>) -> (r: PreparedRequest)
        ensures
            prepared_for(
                r,
                self.api,
                "threads/user/get_following"@,
                paged_id_payload(*user_id, max_id),
            ),
    {
        self.api.prepare_request("threads/user/get_following", build_paged_id(*user_id, max_id))
    }

    /// Search Threads user following by user id.
    pub fn search_user_following(&self, user_id: &u64, query: &str) -> (r: PreparedRequest)
        ensures
            prepared_for(
                r,
                self.api,
                "threads/user/get_following"@,
                Json::JObj(
                    seq![("id"@, Json::JInt(*user_id as int)), ("query"@, Json::JStr(query@))],
                ),
            ),
    {
        self.api.prepare_request(
            "threads/user/get_following",
            obj2("id", JsonValue::UInt(*user_id), "query", jstr(query)),
        )
    }

    /// Retrieve thread replies by id, with optional pagination.
    pub fn get_thread_replies(&self, thread_id: &u64, max_id: Option<&str>) -> (r: PreparedRequest)
        ensures
            prepared_for(
                r,
                self.api,
                "threads/thread/get_replies"@,
                paged_id_payload(*thread_id, max_id),
            ),
    {
        self.api.prepare_request("threads/thread/get_replies", build_paged_id(*thread_id, max_id))
    }

    /// Retrieve thread likes by id.
    pub fn get_thread_likes(&self, thread_id: &u64) -> (r: PreparedRequest)
        ensures
            prepared_for(
                r,
                self.api,
                "threads/thread/get_likes"@,
                Json::JObj(seq![("id"@, Json::JInt(*thread_id as int))]),
            ),
    {
        self.api.prepare_request("threads/thread/get_likes", obj1("id", JsonValue::UInt(*thread_id)))
    }
}

} // verus!
