use rocketapi::api::RocketAPI;
use rocketapi::instagramapi::InstagramAPI;
use rocketapi::json::JsonValue;
use rocketapi::threadsapi::ThreadsAPI;
use std::time::Duration;

fn insta() -> InstagramAPI {
    InstagramAPI::new("SECRET-REDACTED".to_string(), Duration::from_secs(30))
}

fn threads() -> ThreadsAPI {
    ThreadsAPI::new("SECRET-REDACTED".to_string(), Duration::from_secs(30))
}

fn obj(fields: Vec<(&str, JsonValue)>) -> JsonValue {
    JsonValue::Object(fields.into_iter().map(|(k, v)| (k.to_string(), v)).collect())
}

fn s(text: &str) -> JsonValue {
    JsonValue::Str(text.to_string())
}

#[test]
fn search_prepares_exact_wire_call() {
    let api = insta();
    let r = api.search("verus");
    assert_eq!(r.url, "https://v1.rocketapi.io/instagram/search");
    assert_eq!(r.authorization, "Token SECRET-REDACTED");
    assert_eq!(r.content_type, "application/json");
    assert_eq!(r.timeout, Duration::from_secs(30));
    assert_eq!(r.body, obj(vec![("query", s("verus"))]));
}

#[test]
fn get_user_info_sends_username() {
    let r = insta().get_user_info("someone");
    assert_eq!(r.url, "https://v1.rocketapi.io/instagram/user/get_info");
    assert_eq!(r.body, obj(vec![("username", s("someone"))]));
}

#[test]
fn get_user_info_by_id_sends_id() {
    let r = insta().get_user_info_by_id(&42);
    assert_eq!(r.url, "https://v1.rocketapi.io/instagram/user/get_info_by_id");
    assert_eq!(r.body, obj(vec![("id", JsonValue::UInt(42))]));
}

#[test]
fn get_user_media_count_defaults_to_twelve_and_omits_absent_max_id() {
    let r = insta().get_user_media(&7, None, None);
    assert_eq!(r.url, "https://v1.rocketapi.io/instagram/user/get_media");
    assert_eq!(
        r.body,
        obj(vec![("id", JsonValue::UInt(7)), ("count", JsonValue::UInt(12))])
    );
}

#[test]
fn get_user_media_keeps_count_and_appends_max_id() {
    let r = insta().get_user_media(&7, Some(50), Some("cursor"));
    assert_eq!(
        r.body,
        obj(vec![
            ("id", JsonValue::UInt(7)),
            ("count", JsonValue::UInt(50)),
            ("max_id", s("cursor")),
        ])
    );
}

#[test]
fn get_user_guides_appends_max_id_only_when_present() {
    let without = insta().get_user_guides(&9, None);
    assert_eq!(without.body, obj(vec![("id", JsonValue::UInt(9))]));
    let with = insta().get_user_guides(&9, Some("tok"));
    assert_eq!(
        with.body,
        obj(vec![("id", JsonValue::UInt(9)), ("max_id", s("tok"))])
    );
}

#[test]
fn get_user_following_takes_wide_count() {
    let r = insta().get_user_following(&3, Some(200), None);
    assert_eq!(r.url, "https://v1.rocketapi.io/instagram/user/get_following");
    assert_eq!(
        r.body,
        obj(vec![("id", JsonValue::UInt(3)), ("count", JsonValue::UInt(200))])
    );
}

#[test]
fn search_user_following_sends_id_and_query() {
    let r = insta().search_user_following(&3, "pal");
    assert_eq!(r.url, "https://v1.rocketapi.io/instagram/user/get_following");
    assert_eq!(
        r.body,
        obj(vec![("id", JsonValue::UInt(3)), ("query", s("pal"))])
    );
}

#[test]
fn get_user_stories_bulk_sends_id_array() {
    let r = insta().get_user_stories_bulk(vec![&1, &2, &3]);
    assert_eq!(r.url, "https://v1.rocketapi.io/instagram/user/get_stories");
    assert_eq!(
        r.body,
        obj(vec![(
            "ids",
            JsonValue::Array(vec![
                JsonValue::UInt(1),
                JsonValue::UInt(2),
                JsonValue::UInt(3),
            ]),
        )])
    );
}

#[test]
fn get_user_stories_wraps_single_id() {
    let r = insta().get_user_stories(&5);
    assert_eq!(
        r.body,
        obj(vec![("ids", JsonValue::Array(vec![JsonValue::UInt(5)]))])
    );
}

#[test]
fn get_media_likes_uses_shortcode() {
    let r = insta().get_media_likes("AbC", None, Some("next"));
    assert_eq!(r.url, "https://v1.rocketapi.io/instagram/media/get_likes");
    assert_eq!(
        r.body,
        obj(vec![
            ("shortcode", s("AbC")),
            ("count", JsonValue::UInt(12)),
            ("max_id", s("next")),
        ])
    );
}

#[test]
fn get_media_comments_threading_defaults_to_true() {
    let r = insta().get_media_comments(&11, None, None);
    assert_eq!(
        r.body,
        obj(vec![
            ("media_id", JsonValue::UInt(11)),
            ("can_support_threading", JsonValue::Bool(true)),
        ])
    );
    let chronological = insta().get_media_comments(&11, Some(false), Some("m"));
    assert_eq!(
        chronological.body,
        obj(vec![
            ("media_id", JsonValue::UInt(11)),
            ("can_support_threading", JsonValue::Bool(false)),
            ("min_id", s("m")),
        ])
    );
}

#[test]
fn get_location_media_appends_page_and_max_id_in_order() {
    let none = insta().get_location_media(&8, None, None);
    assert_eq!(none.body, obj(vec![("id", JsonValue::UInt(8))]));
    let page_only = insta().get_location_media(&8, Some(&2), None);
    assert_eq!(
        page_only.body,
        obj(vec![("id", JsonValue::UInt(8)), ("page", JsonValue::UInt(2))])
    );
    let max_only = insta().get_location_media(&8, None, Some("t"));
    assert_eq!(
        max_only.body,
        obj(vec![("id", JsonValue::UInt(8)), ("max_id", s("t"))])
    );
    let both = insta().get_location_media(&8, Some(&2), Some("t"));
    assert_eq!(
        both.body,
        obj(vec![
            ("id", JsonValue::UInt(8)),
            ("page", JsonValue::UInt(2)),
            ("max_id", s("t")),
        ])
    );
}

#[test]
fn get_hashtag_media_uses_name_key() {
    let r = insta().get_hashtag_media("sunset", Some(&1), None);
    assert_eq!(r.url, "https://v1.rocketapi.io/instagram/hashtag/get_media");
    assert_eq!(
        r.body,
        obj(vec![("name", s("sunset")), ("page", JsonValue::UInt(1))])
    );
}

#[test]
fn get_comment_replies_sends_both_ids() {
    let r = insta().get_comment_replies(&4, &6, None);
    assert_eq!(r.url, "https://v1.rocketapi.io/instagram/comment/get_replies");
    assert_eq!(
        r.body,
        obj(vec![("id", JsonValue::UInt(4)), ("media_id", JsonValue::UInt(6))])
    );
}

#[test]
fn remaining_id_endpoints_use_their_fixed_paths() {
    let api = insta();
    let cases = [
        (api.get_user_highlights(&1), "instagram/user/get_highlights"),
        (api.get_user_live(&1), "instagram/user/get_live"),
        (
            api.get_user_similar_accounts(&1),
            "instagram/user/get_similar_accounts",
        ),
        (api.get_media_info(&1), "instagram/media/get_info"),
        (
            api.get_media_shortcode_by_id(&1),
            "instagram/media/get_shortcode_by_id",
        ),
        (api.get_guide_info(&1), "instagram/guide/get_info"),
        (api.get_location_info(&1), "instagram/location/get_info"),
        (api.get_user_about(&1), "instagram/user/get_about"),
    ];
    for (r, path) in cases {
        assert_eq!(r.url, format!("https://v1.rocketapi.io/{}", path));
        assert_eq!(r.body, obj(vec![("id", JsonValue::UInt(1))]));
    }
}

#[test]
fn shortcode_endpoints_send_shortcode() {
    let api = insta();
    let info = api.get_media_info_by_shortcode("Xy");
    assert_eq!(
        info.url,
        "https://v1.rocketapi.io/instagram/media/get_info_by_shortcode"
    );
    assert_eq!(info.body, obj(vec![("shortcode", s("Xy"))]));
    let id = api.get_media_id_by_shortcode("Xy");
    assert_eq!(
        id.url,
        "https://v1.rocketapi.io/instagram/media/get_id_by_shortcode"
    );
    assert_eq!(id.body, obj(vec![("shortcode", s("Xy"))]));
}

#[test]
fn get_highlight_stories_bulk_and_single() {
    let api = insta();
    let bulk = api.get_highlight_stories_bulk(vec![&10, &20]);
    assert_eq!(
        bulk.url,
        "https://v1.rocketapi.io/instagram/highlight/get_stories"
    );
    assert_eq!(
        bulk.body,
        obj(vec![(
            "ids",
            JsonValue::Array(vec![JsonValue::UInt(10), JsonValue::UInt(20)]),
        )])
    );
    let single = api.get_highlight_stories(&10);
    assert_eq!(
        single.body,
        obj(vec![("ids", JsonValue::Array(vec![JsonValue::UInt(10)]))])
    );
}

#[test]
fn audio_and_comment_likes_paginate_by_id() {
    let api = insta();
    let audio = api.get_audio_media(&77, Some("c"));
    assert_eq!(audio.url, "https://v1.rocketapi.io/instagram/audio/get_media");
    assert_eq!(
        audio.body,
        obj(vec![("id", JsonValue::UInt(77)), ("max_id", s("c"))])
    );
    let likes = api.get_comment_likes(&77, None);
    assert_eq!(
        likes.url,
        "https://v1.rocketapi.io/instagram/comment/get_likes"
    );
    assert_eq!(likes.body, obj(vec![("id", JsonValue::UInt(77))]));
}

#[test]
fn threads_search_users_appends_tokens_in_order() {
    let api = threads();
    let plain = api.search_users("zuck", None, None);
    assert_eq!(plain.url, "https://v1.rocketapi.io/threads/search_users");
    assert_eq!(plain.body, obj(vec![("query", s("zuck"))]));
    let full = api.search_users("zuck", Some("rank"), Some("page"));
    assert_eq!(
        full.body,
        obj(vec![
            ("query", s("zuck")),
            ("rank_token", s("rank")),
            ("page_token", s("page")),
        ])
    );
    let page_only = api.search_users("zuck", None, Some("page"));
    assert_eq!(
        page_only.body,
        obj(vec![("query", s("zuck")), ("page_token", s("page"))])
    );
}

#[test]
fn threads_endpoints_use_their_fixed_paths() {
    let api = threads();
    assert_eq!(
        api.get_user_info(&1).url,
        "https://v1.rocketapi.io/threads/user/get_info"
    );
    assert_eq!(
        api.get_user_feed(&1, None).url,
        "https://v1.rocketapi.io/threads/user/get_feed"
    );
    assert_eq!(
        api.get_user_replies(&1, None).url,
        "https://v1.rocketapi.io/threads/user/get_replies"
    );
    assert_eq!(
        api.get_user_followers(&1, None).url,
        "https://v1.rocketapi.io/threads/user/get_followers"
    );
    assert_eq!(
        api.get_user_following(&1, None).url,
        "https://v1.rocketapi.io/threads/user/get_following"
    );
    assert_eq!(
        api.get_thread_replies(&1, None).url,
        "https://v1.rocketapi.io/threads/thread/get_replies"
    );
    assert_eq!(
        api.get_thread_likes(&1).url,
        "https://v1.rocketapi.io/threads/thread/get_likes"
    );
}

#[test]
fn threads_paged_and_search_payloads() {
    let api = threads();
    let feed = api.get_user_feed(&2, Some("cur"));
    assert_eq!(
        feed.body,
        obj(vec![("id", JsonValue::UInt(2)), ("max_id", s("cur"))])
    );
    let followers = api.search_user_followers(&2, "who");
    assert_eq!(
        followers.body,
        obj(vec![("id", JsonValue::UInt(2)), ("query", s("who"))])
    );
    let following = api.search_user_following(&2, "who");
    assert_eq!(
        following.url,
        "https://v1.rocketapi.io/threads/user/get_following"
    );
    assert_eq!(
        following.body,
        obj(vec![("id", JsonValue::UInt(2)), ("query", s("who"))])
    );
}

#[test]
fn prepare_request_concatenates_base_and_method() {
    let api = RocketAPI::new("SECRET-REDACTED".to_string(), Duration::from_secs(15));
    let r = api.prepare_request("instagram/search", JsonValue::Null);
    assert_eq!(r.url, "https://v1.rocketapi.io/instagram/search");
    assert_eq!(r.authorization, "Token SECRET-REDACTED");
    assert_eq!(r.content_type, "application/json");
    assert_eq!(r.body, JsonValue::Null);
    assert_eq!(r.timeout, Duration::from_secs(15));
}

#[test]
fn prepared_request_passes_payload_through_unchanged() {
    let api = RocketAPI::new("SECRET-REDACTED".to_string(), Duration::from_secs(15));
    let payload = obj(vec![
        ("nested", obj(vec![("deep", JsonValue::Array(vec![s("x"), JsonValue::Int(-5)]))])),
        ("flag", JsonValue::Bool(true)),
    ]);
    let r = api.prepare_request("threads/user/get_info", payload.clone());
    assert_eq!(r.body, payload);
}
