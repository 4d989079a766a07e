//! The Instagram-facing client: diagnostic session state, the shared
//! dispatch algorithm, and one payload builder per remote capability.
//!
//! Every operation is a pure builder: it maps its typed arguments to a
//! JSON payload — omitting absent optional fields entirely — and prepares
//! the wire call for its fixed method path.  The caller performs the POST
//! and hands the outcome to `complete_request`, which records it and
//! classifies the envelope.

use vstd::prelude::*;
use crate::api::{prepared_for, PreparedRequest, RocketAPI};
use crate::dispatch::{result_model, step, SessionState};
use crate::errors::{RocketAPIError, TransportFailure};
use crate::json::{jstr, juint_array, obj1, obj2, obj3, Json, JsonValue};
use crate::payloads::{
    build_count_paged_id, build_page_tokened, build_paged_id, count_paged_id_payload, ids_payload,
    page_tokened_payload, paged_id_payload,
};
use core::time::Duration;

verus! {

/// Instagram API client: the transport adapter plus the diagnostic
/// session state (`last_response`, `counter`) that each dispatch updates.
pub struct InstagramAPI {
    pub api: RocketAPI,
    pub last_response: JsonValue,
    pub counter: u32,
}

impl InstagramAPI {
    /// The diagnostic session state as a mathematical value.
    pub open spec fn session(&self) -> SessionState {
        SessionState { last_response: self.last_response@, counter: self.counter as int }
    }

    /// A fresh client around the given credential and timeout, with a
    /// null last response and a zero call counter.
    pub fn new(token: String, max_timeout: Duration) -> (r: Self)
        ensures
            r.api.spec_base_url() == "https://v1.rocketapi.io/"@,
            r.api.spec_token() == token@,
            r.api.spec_timeout() == max_timeout,
            r.last_response@ == Json::JNull,
            r.counter == 0,
    {
        InstagramAPI {
            api: RocketAPI::new(token, max_timeout),
            last_response: JsonValue::Null,
            counter: 0,
        }
    }

    /// Settles one dispatch: a delivered envelope is recorded as the last
    /// response, counted once, and classified; a transport failure is
    /// surfaced as `RequestError` and leaves the session state untouched.
    pub fn complete_request(&mut self, outcome: Result<JsonValue, TransportFailure>) -> (r: Result<
        JsonValue,
        RocketAPIError,
    >)
        requires
            old(self).counter < u32::MAX,
        ensures
            final(self).api == old(self).api,
            match outcome {
                Ok(env) => (final(self).session(), result_model(r)) == step(
                    old(self).session(),
                    env@,
                ),
                Err(f) => {
                    &&& r matches Err(RocketAPIError::RequestError(g)) && g == f
                    &&& *final(self) == *old(self)
                },
            },
    {
        crate::dispatch::settle_outcome(&mut self.last_response, &mut self.counter, outcome)
    }

    /// The most recent envelope the transport delivered, for debugging
    /// only; overwritten on every delivered dispatch.
    pub fn last_response(&self) -> (r: &JsonValue)
        ensures
            *r == self.last_response,
    {
        &self.last_response
    }

    /// How many dispatches reached and returned from the transport in
    /// this session.
    pub fn call_counter(&self) -> (r: u32)
        ensures
            r == self.counter,
    {
        self.counter
    }

    /// Search for a specific user, hashtag or place.
    pub fn search(&self, query: &str) -> (r: PreparedRequest)
        ensures
            prepared_for(
                r,
                self.api,
                "instagram/search"@,
                Json::JObj(seq![("query"@, Json::JStr(query@))]),
            ),
    {
        self.api.prepare_request("instagram/search", obj1("query", jstr(query)))
    }

    /// Retrieve user information by username.
    pub fn get_user_info(&self, username: &str) -> (r: PreparedRequest)
        ensures
            prepared_for(
                r,
                self.api,
                "instagram/user/get_info"@,
                Json::JObj(seq![("username"@, Json::JStr(username@))]),
            ),
    {
        self.api.prepare_request("instagram/user/get_info", obj1("username", jstr(username)))
    }

    /// Retrieve user information by id.
    pub fn get_user_info_by_id(&self, user_id: &u64) -> (r: PreparedRequest)
        ensures
            prepared_for(
                r,
                self.api,
                "instagram/user/get_info_by_id"@,
                Json::JObj(seq![("id"@, Json::JInt(*user_id as int))]),
            ),
    {
        self.api.prepare_request(
            "instagram/user/get_info_by_id",
            obj1("id", JsonValue::UInt(*user_id)),
        )
    }

    /// Retrieve user media by id, `count` defaulting to 12, with optional
    /// pagination.
    pub fn get_user_media(&self, user_id: &u64, count: Option<u8>, max_id: Option<&str>) -> (r:
        PreparedRequest)
        ensures
            prepared_for(
                r,
                self.api,
                "instagram/user/get_media"@,
                count_paged_id_payload(*user_id, count, max_id),
            ),
    {
        self.api.prepare_request(
            "instagram/user/get_media",
            build_count_paged_id(*user_id, count, max_id),
        )
    }

    /// Retrieve user clips (videos from the Reels section) by id,
    /// `count` defaulting to 12, with optional pagination.
    pub fn get_user_clips(&self, user_id: &u64, count: Option<u8>, max_id: Option<&str>) -> (r:
        PreparedRequest)
        ensures
            prepared_for(
                r,
                self.api,
                "instagram/user/get_clips"@,
                count_paged_id_payload(*user_id, count, max_id),
            ),
    {
        self.api.prepare_request(
            "instagram/user/get_clips",
            build_count_paged_id(*user_id, count, max_id),
        )
    }

    /// Retrieve user guides by id, with optional pagination.
    pub fn get_user_guides(&self, user_id: &u64, max_id: Option<&str>) -> (r: PreparedRequest)
        ensures
            prepared_for(
                r,
                self.api,
                "instagram/user/get_guides"@,
                paged_id_payload(*user_id, max_id),
            ),
    {
        self.api.prepare_request("instagram/user/get_guides", build_paged_id(*user_id, max_id))
    }

    /// Retrieve user tags by id, `count` defaulting to 12, with optional
    /// pagination.
    pub fn get_user_tags(&self, user_id: &u64, count: Option<u8>, max_id: Option<&str>) -> (r:
        PreparedRequest)
        ensures
            prepared_for(
                r,
                self.api,
                "instagram/user/get_tags"@,
                count_paged_id_payload(*user_id, count, max_id),
            ),
    {
        self.api.prepare_request(
            "instagram/user/get_tags",
            build_count_paged_id(*user_id, count, max_id),
        )
    }

    /// Retrieve user following by user id, `count` defaulting to 12, with
    /// optional pagination.
    pub fn get_user_following(&self, user_id: &u64, count: Option<u16>, max_id: Option<&str>) -> (r:
        PreparedRequest)
        ensures
            prepared_for(
                r,
                self.api,
                "instagram/user/get_following"@,
                ({
                    let c: int = match count {
                        Some(n) => n as int,
                        None => 12,
                    };
                    match max_id {
                        Some(m) => Json::JObj(
                            seq![
                                ("id"@, Json::JInt(*user_id as int)),
                                ("count"@, Json::JInt(c)),
                                ("max_id"@, Json::JStr(m@)),
                            ],
                        ),
                        None => Json::JObj(
                            seq![("id"@, Json::JInt(*user_id as int)), ("count"@, Json::JInt(c))],
                        ),
                    }
                }),
            ),
    {
        let c: u16 = match count {
            Some(n) => n,
            None => 12,
        };
        let payload = match max_id {
            Some(m) => obj3(
                "id",
                JsonValue::UInt(*user_id),
                "count",
                JsonValue::UInt(c as u64),
                "max_id",
                jstr(m),
            ),
            None => obj2("id", JsonValue::UInt(*user_id), "count", JsonValue::UInt(c as u64)),
        };
        self.api.prepare_request("instagram/user/get_following", payload)
    }

    /// Search user following by user id.
    pub fn search_user_following(&self, user_id: &u64, query: &str) -> (r: PreparedRequest)
        ensures
            prepared_for(
                r,
                self.api,
                "instagram/user/get_following"@,
                Json::JObj(
                    seq![("id"@, Json::JInt(*user_id as int)), ("query"@, Json::JStr(query@))],
                ),
            ),
    {
        self.api.prepare_request(
            "instagram/user/get_following",
            obj2("id", JsonValue::UInt(*user_id), "query", jstr(query)),
        )
    }

    /// Retrieve user followers by user id, `count` defaulting to 12, with
    /// optional pagination.
    pub fn get_user_followers(&self, user_id: &u64, count: Option<u8>, max_id: Option<&str>) -> (r:
        PreparedRequest)
        ensures
            prepared_for(
                r,
                self.api,
                "instagram/user/get_followers"@,
                count_paged_id_payload(*user_id, count, max_id),
            ),
    {
        self.api.prepare_request(
            "instagram/user/get_followers",
            build_count_paged_id(*user_id, count, max_id),
        )
    }

    /// Search user followers by user id.
    pub fn search_user_followers(&self, user_id: &u64, query: &str) -> (r: PreparedRequest)
        ensures
            prepared_for(
                r,
                self.api,
                "instagram/user/get_followers"@,
                Json::JObj(
                    seq![("id"@, Json::JInt(*user_id as int)), ("query"@, Json::JStr(query@))],
                ),
            ),
    {
        self.api.prepare_request(
            "instagram/user/get_followers",
            obj2("id", JsonValue::UInt(*user_id), "query", jstr(query)),
        )
    }

    /// Retrieve stories of up to four users by their ids.
    pub fn get_user_stories_bulk(&self, user_ids: Vec<&u64>) -> (r: PreparedRequest)
        ensures
            prepared_for(
                r,
                self.api,
                "instagram/user/get_stories"@,
                ids_payload(user_ids@.map_values(|id: &u64| *id as int)),
            ),
    {
        let payload = obj1("ids", juint_array(&user_ids));
        proof {
            assert(Seq::new(user_ids@.len(), |i: int| Json::JInt(user_ids@[i] as int))
                =~= user_ids@.map_values(|id: &u64| *id as int).map_values(
                |n: int| Json::JInt(n),
            ));
        }
        self.api.prepare_request("instagram/user/get_stories", payload)
    }

    /// Retrieve user stories by user id.
    pub fn get_user_stories(&self, user_id: &u64) -> (r: PreparedRequest)
        ensures
            prepared_for(
                r,
                self.api,
                "instagram/user/get_stories"@,
                ids_payload(seq![*user_id as int]),
            ),
    {
        let ids: Vec<&u64> = vec![user_id];
        proof {
            assert(ids@.map_values(|id: &u64| *id as int) =~= seq![*user_id as int]);
        }
        self.get_user_stories_bulk(ids)
    }

    /// Retrieve user highlights by user id.
    pub fn get_user_highlights(&self, user_id: &u64) -> (r: PreparedRequest)
        ensures
            prepared_for(
                r,
                self.api,
                "instagram/user/get_highlights"@,
                Json::JObj(seq![("id"@, Json::JInt(*user_id as int))]),
            ),
    {
        self.api.prepare_request(
            "instagram/user/get_highlights",
            obj1("id", JsonValue::UInt(*user_id)),
        )
    }

    /// Retrieve user live broadcast by id.
    pub fn get_user_live(&self, user_id: &u64) -> (r: PreparedRequest)
        ensures
            prepared_for(
                r,
                self.api,
                "instagram/user/get_live"@,
                Json::JObj(seq![("id"@, Json::JInt(*user_id as int))]),
            ),
    {
        self.api.prepare_request("instagram/user/get_live", obj1("id", JsonValue::UInt(*user_id)))
    }

    /// Look up accounts similar to the given one.
    pub fn get_user_similar_accounts(&self, user_id: &u64) -> (r: PreparedRequest)
        ensures
            prepared_for(
                r,
                self.api,
                "instagram/user/get_similar_accounts"@,
                Json::JObj(seq![("id"@, Json::JInt(*user_id as int))]),
            ),
    {
        self.api.prepare_request(
            "instagram/user/get_similar_accounts",
            obj1("id", JsonValue::UInt(*user_id)),
        )
    }

    /// Retrieve media information by media id.
    pub fn get_media_info(&self, media_id: &u64) -> (r: PreparedRequest)
        ensures
            prepared_for(
                r,
                self.api,
                "instagram/media/get_info"@,
                Json::JObj(seq![("id"@, Json::JInt(*media_id as int))]),
            ),
    {
        self.api.prepare_request("instagram/media/get_info", obj1("id", JsonValue::UInt(*media_id)))
    }

    /// Retrieve media information by media shortcode.
    pub fn get_media_info_by_shortcode(&self, shortcode: &str) -> (r: PreparedRequest)
        ensures
            prepared_for(
                r,
                self.api,
                "instagram/media/get_info_by_shortcode"@,
                Json::JObj(seq![("shortcode"@, Json::JStr(shortcode@))]),
            ),
    {
        self.api.prepare_request(
            "instagram/media/get_info_by_shortcode",
            obj1("shortcode", jstr(shortcode)),
        )
    }

    /// Retrieve media likes by media shortcode, `count` defaulting to 12,
    /// with optional pagination.
    pub fn get_media_likes(&self, shortcode: &str, count: Option<u8>, max_id: Option<&str>) -> (r:
        PreparedRequest)
        ensures
            prepared_for(
                r,
                self.api,
                "instagram/media/get_likes"@,
                ({
                    let c: int = match count {
                        Some(n) => n as int,
                        None => 12,
                    };
                    match max_id {
                        Some(m) => Json::JObj(
                            seq![
                                ("shortcode"@, Json::JStr(shortcode@)),
                                ("count"@, Json::JInt(c)),
                                ("max_id"@, Json::JStr(m@)),
                            ],
                        ),
                        None => Json::JObj(
                            seq![("shortcode"@, Json::JStr(shortcode@)), ("count"@, Json::JInt(c))],
                        ),
                    }
                }),
            ),
    {
        let c: u8 = match count {
            Some(n) => n,
            None => 12,
        };
        let payload = match max_id {
            Some(m) => obj3(
                "shortcode",
                jstr(shortcode),
                "count",
                JsonValue::UInt(c as u64),
                "max_id",
                jstr(m),
            ),
            None => obj2("shortcode", jstr(shortcode), "count", JsonValue::UInt(c as u64)),
        };
        self.api.prepare_request("instagram/media/get_likes", payload)
    }

    /// Retrieve media comments by media id; `can_support_threading`
    /// defaults to true (false yields chronological order), with optional
    /// pagination by `min_id`.
    pub fn get_media_comments(
        &self,
        media_id: &u64,
        can_support_threading: Option<bool>,
        min_id: Option<&str>,
    ) -> (r: PreparedRequest)
        ensures
            prepared_for(
                r,
                self.api,
                "instagram/media/get_comments"@,
                ({
                    let t = match can_support_threading {
                        Some(b) => b,
                        None => true,
                    };
                    match min_id {
                        Some(m) => Json::JObj(
                            seq![
                                ("media_id"@, Json::JInt(*media_id as int)),
                                ("can_support_threading"@, Json::JBool(t)),
                                ("min_id"@, Json::JStr(m@)),
                            ],
                        ),
                        None => Json::JObj(
                            seq![
                                ("media_id"@, Json::JInt(*media_id as int)),
                                ("can_support_threading"@, Json::JBool(t)),
                            ],
                        ),
                    }
                }),
            ),
    {
        let t: bool = match can_support_threading {
            Some(b) => b,
            None => true,
        };
        let payload = match min_id {
            Some(m) => obj3(
                "media_id",
                JsonValue::UInt(*media_id),
                "can_support_threading",
                JsonValue::Bool(t),
                "min_id",
                jstr(m),
            ),
            None => obj2(
                "media_id",
                JsonValue::UInt(*media_id),
                "can_support_threading",
                JsonValue::Bool(t),
            ),
        };
        self.api.prepare_request("instagram/media/get_comments", payload)
    }

    /// Get media shortcode by media id.
    pub fn get_media_shortcode_by_id(&self, media_id: &u64) -> (r: PreparedRequest)
        ensures
            prepared_for(
                r,
                self.api,
                "instagram/media/get_shortcode_by_id"@,
                Json::JObj(seq![("id"@, Json::JInt(*media_id as int))]),
            ),
    {
        self.api.prepare_request(
            "instagram/media/get_shortcode_by_id",
            obj1("id", JsonValue::UInt(*media_id)),
        )
    }

    /// Get media id by media shortcode.
    pub fn get_media_id_by_shortcode(&self, shortcode: &str) -> (r: PreparedRequest)
        ensures
            prepared_for(
                r,
                self.api,
                "instagram/media/get_id_by_shortcode"@,
                Json::JObj(seq![("shortcode"@, Json::JStr(shortcode@))]),
            ),
    {
        self.api.prepare_request(
            "instagram/media/get_id_by_shortcode",
            obj1("shortcode", jstr(shortcode)),
        )
    }

    /// Retrieve guide information by guide id.
    pub fn get_guide_info(&self, guide_id: &u64) -> (r: PreparedRequest)
        ensures
            prepared_for(
                r,
                self.api,
                "instagram/guide/get_info"@,
                Json::JObj(seq![("id"@, Json::JInt(*guide_id as int))]),
            ),
    {
        self.api.prepare_request("instagram/guide/get_info", obj1("id", JsonValue::UInt(*guide_id)))
    }

    /// Retrieve location information by location id.
    pub fn get_location_info(&self, location_id: &u64) -> (r: PreparedRequest)
        ensures
            prepared_for(
                r,
                self.api,
                "instagram/location/get_info"@,
                Json::JObj(seq![("id"@, Json::JInt(*location_id as int))]),
            ),
    {
        self.api.prepare_request(
            "instagram/location/get_info",
            obj1("id", JsonValue::UInt(*location_id)),
        )
    }

    /// Retrieve location media by location id, with optional page and
    /// pagination token.
    pub fn get_location_media(
        &self,
        location_id: &u64,
        page: Option<&u64>,
        max_id: Option<&str>,
    ) -> (r: PreparedRequest)
        ensures
            prepared_for(
                r,
                self.api,
                "instagram/location/get_media"@,
                page_tokened_payload("id"@, Json::JInt(*location_id as int), page, max_id),
            ),
    {
        let payload = build_page_tokened("id", JsonValue::UInt(*location_id), page, max_id);
        self.api.prepare_request("instagram/location/get_media", payload)
    }

    /// Retrieve hashtag information by hashtag name.
    pub fn get_hashtag_info(&self, name: &str) -> (r: PreparedRequest)
        ensures
            prepared_for(
                r,
                self.api,
                "instagram/hashtag/get_info"@,
                Json::JObj(seq![("name"@, Json::JStr(name@))]),
            ),
    {
        self.api.prepare_request("instagram/hashtag/get_info", obj1("name", jstr(name)))
    }

    /// Retrieve hashtag media by hashtag name, with optional page and
    /// pagination token.
    pub fn get_hashtag_media(&self, name: &str, page: Option<&u64>, max_id: Option<&str>) -> (r:
        PreparedRequest)
        ensures
            prepared_for(
                r,
                self.api,
                "instagram/hashtag/get_media"@,
                page_tokened_payload("name"@, Json::JStr(name@), page, max_id),
            ),
    {
        let payload = build_page_tokened("name", jstr(name), page, max_id);
        self.api.prepare_request("instagram/hashtag/get_media", payload)
    }

    /// Retrieve stories of one or more highlights by their ids.
    pub fn get_highlight_stories_bulk(&self, highlight_ids: Vec<&u64>) -> (r: PreparedRequest)
        ensures
            prepared_for(
                r,
                self.api,
                "instagram/highlight/get_stories"@,
                ids_payload(highlight_ids@.map_values(|id: &u64| *id as int)),
            ),
    {
        let payload = obj1("ids", juint_array(&highlight_ids));
        proof {
            assert(Seq::new(highlight_ids@.len(), |i: int| Json::JInt(highlight_ids@[i] as int))
                =~= highlight_ids@.map_values(|id: &u64| *id as int).map_values(
                |n: int| Json::JInt(n),
            ));
        }
        self.api.prepare_request("instagram/highlight/get_stories", payload)
    }

    /// Retrieve highlight stories by highlight id.
    pub fn get_highlight_stories(&self, highlight_id: &u64) -> (r: PreparedRequest)
        ensures
            prepared_for(
                r,
                self.api,
                "instagram/highlight/get_stories"@,
                ids_payload(seq![*highlight_id as int]),
            ),
    {
        let ids: Vec<&u64> = vec![highlight_id];
        proof {
            assert(ids@.map_values(|id: &u64| *id as int) =~= seq![*highlight_id as int]);
        }
        self.get_highlight_stories_bulk(ids)
    }

    /// Retrieve comment likes by comment id, with optional pagination.
    pub fn get_comment_likes(&self, comment_id: &u64, max_id: Option<&str>) -> (r: PreparedRequest)
        ensures
            prepared_for(
                r,
                self.api,
                "instagram/comment/get_likes"@,
                paged_id_payload(*comment_id, max_id),
            ),
    {
        self.api.prepare_request("instagram/comment/get_likes", build_paged_id(*comment_id, max_id))
    }

    /// Retrieve comment replies by comment id and media id, with optional
    /// pagination.
    pub fn get_comment_replies(&self, comment_id: &u64, media_id: &u64, max_id: Option<&str>) -> (r:
        PreparedRequest)
        ensures
            prepared_for(
                r,
                self.api,
                "instagram/comment/get_replies"@,
                match max_id {
                    Some(m) => Json::JObj(
                        seq![
                            ("id"@, Json::JInt(*comment_id as int)),
                            ("media_id"@, Json::JInt(*media_id as int)),
                            ("max_id"@, Json::JStr(m@)),
                        ],
                    ),
                    None => Json::JObj(
                        seq![
                            ("id"@, Json::JInt(*comment_id as int)),
                            ("media_id"@, Json::JInt(*media_id as int)),
                        ],
                    ),
                },
            ),
    {
        let payload = match max_id {
            Some(m) => obj3(
                "id",
                JsonValue::UInt(*comment_id),
                "media_id",
                JsonValue::UInt(*media_id),
                "max_id",
                jstr(m),
            ),
            None => obj2("id", JsonValue::UInt(*comment_id), "media_id", JsonValue::UInt(*media_id)),
        };
        self.api.prepare_request("instagram/comment/get_replies", payload)
    }

    /// Retrieve audio media by audio id, with optional pagination.
    pub fn get_audio_media(&self, audio_id: &u64, max_id: Option<&str>) -> (r: PreparedRequest)
        ensures
            prepared_for(
                r,
                self.api,
                "instagram/audio/get_media"@,
                paged_id_payload(*audio_id, max_id),
            ),
    {
        self.api.prepare_request("instagram/audio/get_media", build_paged_id(*audio_id, max_id))
    }

    /// Obtain user details from the About This Account section.
    pub fn get_user_about(&self, user_id: &u64) -> (r: PreparedRequest)
        ensures
            prepared_for(
                r,
                self.api,
                "instagram/user/get_about"@,
                Json::JObj(seq![("id"@, Json::JInt(*user_id as int))]),
            ),
    {
        self.api.prepare_request("instagram/user/get_about", obj1("id", JsonValue::UInt(*user_id)))
    }
}

} // verus!
