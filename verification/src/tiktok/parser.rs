//! Resolving a page's state into an entity.
//!
//! The platform has served the same entity in more than one shape. Each
//! resolver tries the shapes it knows in a fixed order and takes the first
//! that holds every part it needs; a shape that is there in part only is no
//! match, and the next one is tried. A field that the data lacks is left
//! empty or zero. Where no shape matches, or the page holds no state at all,
//! the page functions answer with a placeholder that echoes the request.

use vstd::prelude::*;
use vstd::string::StringExecFns;
use crate::error::AppError;
use crate::text::occurs;
use crate::tiktok::extract::extract_sigi_state;
use crate::tiktok::extract::lemma_no_script_no_state;
use crate::tiktok::extract::script_open;
use crate::tiktok::extract::sigi_state;
use crate::tiktok::json::Json;
use crate::tiktok::json::JsonView;
use crate::tiktok::types::TagInfo;
use crate::tiktok::types::TagInfoView;
use crate::tiktok::types::UserInfo;
use crate::tiktok::types::UserInfoView;
use crate::tiktok::types::VideoInfo;
use crate::tiktok::types::VideoInfoView;

verus! {

/// The member named `key` of a part that may be missing.
pub open spec fn member(part: Option<JsonView>, key: Seq<char>) -> Option<JsonView> {
    match part {
        Some(j) => j.get(key),
        None => None,
    }
}

/// The first of two readings that is there.
pub open spec fn or_else<T>(first: Option<T>, second: Option<T>) -> Option<T> {
    match first {
        Some(_) => first,
        None => second,
    }
}

/// A text field: empty where the data lacks it.
pub open spec fn text_or_empty(field: Option<Seq<char>>) -> Seq<char> {
    match field {
        Some(s) => s,
        None => Seq::empty(),
    }
}

/// A counter: zero where the data lacks it.
pub open spec fn count_or_zero(field: Option<u64>) -> u64 {
    match field {
        Some(n) => n,
        None => 0,
    }
}

/// The text of a part that may be missing, where it is a string.
pub open spec fn text_of(part: Option<JsonView>) -> Option<Seq<char>> {
    match part {
        Some(j) => j.as_str(),
        None => None,
    }
}

/// The feature-keyed root that the newer shapes hang from.
pub open spec fn scope(doc: JsonView, feature: Seq<char>) -> Option<JsonView> {
    member(doc.get("__DEFAULT_SCOPE__"@), feature)
}

/// A user, from the object that describes the account and the one that
/// counts. The avatar is the larger one, else the medium one; the likes are
/// `heartCount`, else `heart`.
pub open spec fn user_entity(user: JsonView, stats: JsonView) -> UserInfoView {
    UserInfoView {
        id: text_or_empty(user.text("id"@)),
        username: text_or_empty(user.text("uniqueId"@)),
        nickname: text_or_empty(user.text("nickname"@)),
        bio: text_or_empty(user.text("signature"@)),
        avatar_url: text_or_empty(or_else(user.text("avatarLarger"@), user.text("avatarMedium"@))),
        follower_count: count_or_zero(stats.count("followerCount"@)),
        following_count: count_or_zero(stats.count("followingCount"@)),
        like_count: count_or_zero(or_else(stats.count("heartCount"@), stats.count("heart"@))),
        video_count: count_or_zero(stats.count("videoCount"@)),
        videos: Seq::empty(),
    }
}

/// The newer shape of a user, from its `userInfo` object: `user` is needed,
/// `stats` beside it may be missing.
pub open spec fn user_from_info(info: JsonView) -> Option<UserInfoView> {
    match info.get("user"@) {
        Some(user) => Some(user_entity(user, info.get_or_null("stats"@))),
        None => None,
    }
}

/// The older shape of a user, from its entry in `users`: the entry in
/// `stats` of `UserModule` under the same handle is needed too.
pub open spec fn user_from_module(user: JsonView, username: Seq<char>, doc: JsonView) -> Option<
    UserInfoView,
> {
    match member(member(doc.get("UserModule"@), "stats"@), username) {
        Some(stats) => Some(user_entity(user, stats)),
        None => None,
    }
}

/// The newer shape of a user: `userInfo` under the user-detail feature.
pub open spec fn user_by_feature(doc: JsonView) -> Option<UserInfoView> {
    match member(scope(doc, "webapp.user-detail"@), "userInfo"@) {
        Some(info) => user_from_info(info),
        None => None,
    }
}

/// The older shape of a user: `UserModule` with `users` and `stats`, each
/// keyed by the handle that was asked for.
pub open spec fn user_by_module(doc: JsonView, username: Seq<char>) -> Option<UserInfoView> {
    match member(member(doc.get("UserModule"@), "users"@), username) {
        Some(user) => user_from_module(user, username, doc),
        None => None,
    }
}

/// The user that a document describes: by the newer shape, else by the older.
pub open spec fn resolved_user(doc: JsonView, username: Seq<char>) -> Option<UserInfoView> {
    or_else(user_by_feature(doc), user_by_module(doc, username))
}

/// A video, from the object that describes it. The media address is the
/// first of `playAddr` and `downloadAddr` that is there, the thumbnail the
/// first of `cover`, `originCover` and `dynamicCover`; either is empty where
/// that member is no string. Without `music` the two music fields are absent.
pub open spec fn video_entity(item: JsonView) -> VideoInfoView {
    let author = item.get_or_null("author"@);
    let stats = item.get_or_null("stats"@);
    let video = item.get_or_null("video"@);
    let music = item.get("music"@);
    VideoInfoView {
        id: text_or_empty(item.text("id"@)),
        description: text_or_empty(item.text("desc"@)),
        author_username: text_or_empty(author.text("uniqueId"@)),
        author_nickname: text_or_empty(author.text("nickname"@)),
        author_avatar: text_or_empty(author.text("avatarMedium"@)),
        video_url: text_or_empty(
            text_of(or_else(video.get("playAddr"@), video.get("downloadAddr"@))),
        ),
        thumbnail_url: text_or_empty(
            text_of(
                or_else(
                    video.get("cover"@),
                    or_else(video.get("originCover"@), video.get("dynamicCover"@)),
                ),
            ),
        ),
        like_count: count_or_zero(stats.count("diggCount"@)),
        comment_count: count_or_zero(stats.count("commentCount"@)),
        share_count: count_or_zero(stats.count("shareCount"@)),
        view_count: count_or_zero(stats.count("playCount"@)),
        create_time: match item.get("createTime"@) {
            Some(t) => match t.as_i64() {
                Some(seconds) => seconds,
                None => 0,
            },
            None => 0,
        },
        music_title: text_of(member(music, "title"@)),
        music_author: text_of(member(music, "authorName"@)),
    }
}

/// The newer shape of a video: `itemStruct` in `itemInfo` under the
/// video-detail feature.
pub open spec fn video_by_feature(doc: JsonView) -> Option<VideoInfoView> {
    match member(member(scope(doc, "webapp.video-detail"@), "itemInfo"@), "itemStruct"@) {
        Some(item) => Some(video_entity(item)),
        None => None,
    }
}

/// The older shape of a video: `ItemModule`, keyed by video id. Where the
/// id that was asked for is no key and the module holds one item only, that
/// item is taken: the platform at times keys a single item otherwise than it
/// was asked for.
pub open spec fn video_by_module(doc: JsonView, video_id: Seq<char>) -> Option<VideoInfoView> {
    match doc.get("ItemModule"@) {
        Some(module) => match or_else(module.get(video_id), module.sole_member()) {
            Some(item) => Some(video_entity(item)),
            None => None,
        },
        None => None,
    }
}

/// The video that a document describes: by the newer shape, else by the older.
pub open spec fn resolved_video(doc: JsonView, video_id: Seq<char>) -> Option<VideoInfoView> {
    or_else(video_by_feature(doc), video_by_module(doc, video_id))
}

/// A tag, from the object `challengeInfo`: `challenge` is needed, `stats`
/// beside it may be missing.
pub open spec fn tag_entity(info: Option<JsonView>) -> Option<TagInfoView> {
    match (info, member(info, "challenge"@)) {
        (Some(info), Some(challenge)) => Some(
            TagInfoView {
                name: text_or_empty(challenge.text("title"@)),
                view_count: count_or_zero(info.get_or_null("stats"@).count("viewCount"@)),
                videos: Seq::empty(),
            },
        ),
        _ => None,
    }
}

/// The tag that a document describes: `challengeInfo` under the
/// challenge-detail feature, else under `ChallengePage`.
pub open spec fn resolved_tag(doc: JsonView) -> Option<TagInfoView> {
    or_else(
        tag_entity(member(scope(doc, "webapp.challenge-detail"@), "challengeInfo"@)),
        tag_entity(member(doc.get("ChallengePage"@), "challengeInfo"@)),
    )
}

/// The placeholder for a user: the handle, and nothing else.
pub open spec fn fallback_user_view(username: Seq<char>) -> UserInfoView {
    UserInfoView {
        id: Seq::empty(),
        username: username,
        nickname: Seq::empty(),
        bio: Seq::empty(),
        avatar_url: Seq::empty(),
        follower_count: 0,
        following_count: 0,
        like_count: 0,
        video_count: 0,
        videos: Seq::empty(),
    }
}

/// The placeholder for a video: the id, and nothing else.
pub open spec fn fallback_video_view(video_id: Seq<char>) -> VideoInfoView {
    VideoInfoView {
        id: video_id,
        description: Seq::empty(),
        author_username: Seq::empty(),
        author_nickname: Seq::empty(),
        author_avatar: Seq::empty(),
        video_url: Seq::empty(),
        thumbnail_url: Seq::empty(),
        like_count: 0,
        comment_count: 0,
        share_count: 0,
        view_count: 0,
        create_time: 0,
        music_title: None,
        music_author: None,
    }
}

/// The placeholder for a tag: the name, and nothing else.
pub open spec fn fallback_tag_view(tag_name: Seq<char>) -> TagInfoView {
    TagInfoView { name: tag_name, view_count: 0, videos: Seq::empty() }
}

/// The note that goes with a placeholder: what kind of entity was asked
/// for, and under which key.
pub open spec fn fallback_note(kind: Seq<char>, key: Seq<char>) -> Seq<char> {
    "Could not parse TikTok JSON, using fallback for "@ + kind + ": "@ + key
}

/// The user that a page's state resolves to, where the page has a state
/// and the state a shape of a user.
pub open spec fn user_of_page(html: Seq<char>, username: Seq<char>) -> Option<UserInfoView> {
    match sigi_state(html) {
        Some(doc) => resolved_user(doc, username),
        None => None,
    }
}

/// The video that a page's state resolves to.
pub open spec fn video_of_page(html: Seq<char>, video_id: Seq<char>) -> Option<VideoInfoView> {
    match sigi_state(html) {
        Some(doc) => resolved_video(doc, video_id),
        None => None,
    }
}

/// The tag that a page's state resolves to.
pub open spec fn tag_of_page(html: Seq<char>) -> Option<TagInfoView> {
    match sigi_state(html) {
        Some(doc) => resolved_tag(doc),
        None => None,
    }
}

/// The user that a page shows: the one resolved from its state, else the
/// placeholder.
pub open spec fn user_page(html: Seq<char>, username: Seq<char>) -> UserInfoView {
    match user_of_page(html, username) {
        Some(user) => user,
        None => fallback_user_view(username),
    }
}

/// The video that a page shows: the one resolved from its state, else the
/// placeholder.
pub open spec fn video_page(html: Seq<char>, video_id: Seq<char>) -> VideoInfoView {
    match video_of_page(html, video_id) {
        Some(video) => video,
        None => fallback_video_view(video_id),
    }
}

/// The tag that a page shows: the one resolved from its state, else the
/// placeholder.
pub open spec fn tag_page(html: Seq<char>, tag_name: Seq<char>) -> TagInfoView {
    match tag_of_page(html) {
        Some(tag) => tag,
        None => fallback_tag_view(tag_name),
    }
}

/// The note that goes with what a page shows: none where the entity was
/// resolved, the placeholder's note where it was not.
pub open spec fn page_note<T>(resolved: Option<T>, kind: Seq<char>, key: Seq<char>) -> Option<
    Seq<char>,
> {
    match resolved {
        Some(_) => None,
        None => Some(fallback_note(kind, key)),
    }
}

/// The member named `key` of a part that may be missing.
fn part<'a>(of: Option<&'a Json>, key: &str) -> (r: Option<&'a Json>)
    ensures
        r.deep_view() == member(of.deep_view(), key@),
{
    match of {
        Some(j) => j.get(key),
        None => None,
    }
}

/// The text of a part that may be missing, where it is a string.
fn part_text<'a>(of: Option<&'a Json>) -> (r: Option<&'a str>)
    ensures
        r.deep_view() == text_of(of.deep_view()),
{
    match of {
        Some(j) => j.as_str(),
        None => None,
    }
}

/// A text field: empty where the data lacks it.
fn owned_or_empty(field: Option<&str>) -> (r: String)
    ensures
        r@ == text_or_empty(field.deep_view()),
{
    match field {
        Some(s) => s.to_owned(),
        None => String::new(),
    }
}

/// An optional text field.
fn owned(field: Option<&str>) -> (r: Option<String>)
    ensures
        r.deep_view() == field.deep_view(),
{
    match field {
        Some(s) => Some(s.to_owned()),
        None => None,
    }
}

/// No videos: resolution never fills the list.
fn no_videos() -> (r: Vec<VideoInfo>)
    ensures
        r.deep_view() == Seq::<VideoInfoView>::empty(),
{
    let r: Vec<VideoInfo> = Vec::new();
    assert(r.deep_view() =~= Seq::<VideoInfoView>::empty());
    r
}

/// A user, from the object that describes the account and the one that
/// counts.
fn parse_user_object(user: &Json, stats: &Json) -> (r: UserInfo)
    ensures
        r@ == user_entity(user@, stats@),
{
    let avatar = match user.text("avatarLarger") {
        Some(larger) => Some(larger),
        None => user.text("avatarMedium"),
    };
    let likes = match stats.count("heartCount") {
        Some(n) => Some(n),
        None => stats.count("heart"),
    };
    UserInfo {
        id: owned_or_empty(user.text("id")),
        username: owned_or_empty(user.text("uniqueId")),
        nickname: owned_or_empty(user.text("nickname")),
        bio: owned_or_empty(user.text("signature")),
        avatar_url: owned_or_empty(avatar),
        follower_count: stats.count("followerCount").unwrap_or(0),
        following_count: stats.count("followingCount").unwrap_or(0),
        like_count: likes.unwrap_or(0),
        video_count: stats.count("videoCount").unwrap_or(0),
        videos: no_videos(),
    }
}

/// The newer shape of a user, from its `userInfo` object.
pub fn parse_user_info_object(user_info: &Json) -> (r: Option<UserInfo>)
    ensures
        r.deep_view() == user_from_info(user_info@),
{
    let null = Json::Null;
    match user_info.get("user") {
        Some(user) => {
            let stats = match user_info.get("stats") {
                Some(stats) => stats,
                None => &null,
            };
            Some(parse_user_object(user, stats))
        },
        None => None,
    }
}

/// The older shape of a user, from its entry in `users`.
pub fn parse_legacy_user_object(user: &Json, username: &str, json: &Json) -> (r: Option<UserInfo>)
    ensures
        r.deep_view() == user_from_module(user@, username@, json@),
{
    match part(part(json.get("UserModule"), "stats"), username) {
        Some(stats) => Some(parse_user_object(user, stats)),
        None => None,
    }
}

/// The user that a document describes, or `None` where it has neither
/// shape of one.
pub fn parse_user_from_json(json: &Json, username: &str) -> (r: Option<UserInfo>)
    ensures
        r.deep_view() == resolved_user(json@, username@),
{
    let detail = part(json.get("__DEFAULT_SCOPE__"), "webapp.user-detail");
    let newer = match part(detail, "userInfo") {
        Some(user_info) => parse_user_info_object(user_info),
        None => None,
    };
    match newer {
        Some(user) => Some(user),
        None => match part(part(json.get("UserModule"), "users"), username) {
            Some(user) => parse_legacy_user_object(user, username, json),
            None => None,
        },
    }
}

/// A video, from the object that describes it.
pub fn parse_video_item(item: &Json) -> (r: VideoInfo)
    ensures
        r@ == video_entity(item@),
{
    let null = Json::Null;
    let author = match item.get("author") {
        Some(author) => author,
        None => &null,
    };
    let stats = match item.get("stats") {
        Some(stats) => stats,
        None => &null,
    };
    let video = match item.get("video") {
        Some(video) => video,
        None => &null,
    };
    let music = item.get("music");
    let media = match video.get("playAddr") {
        Some(address) => Some(address),
        None => video.get("downloadAddr"),
    };
    let thumbnail = match video.get("cover") {
        Some(cover) => Some(cover),
        None => match video.get("originCover") {
            Some(cover) => Some(cover),
            None => video.get("dynamicCover"),
        },
    };
    let created = match item.get("createTime") {
        Some(t) => t.as_i64().unwrap_or(0),
        None => 0,
    };
    VideoInfo {
        id: owned_or_empty(item.text("id")),
        description: owned_or_empty(item.text("desc")),
        author_username: owned_or_empty(author.text("uniqueId")),
        author_nickname: owned_or_empty(author.text("nickname")),
        author_avatar: owned_or_empty(author.text("avatarMedium")),
        video_url: owned_or_empty(part_text(media)),
        thumbnail_url: owned_or_empty(part_text(thumbnail)),
        like_count: stats.count("diggCount").unwrap_or(0),
        comment_count: stats.count("commentCount").unwrap_or(0),
        share_count: stats.count("shareCount").unwrap_or(0),
        view_count: stats.count("playCount").unwrap_or(0),
        create_time: created,
        music_title: owned(part_text(part(music, "title"))),
        music_author: owned(part_text(part(music, "authorName"))),
    }
}

/// The video that a document describes, or `None` where it has neither
/// shape of one.
pub fn parse_video_from_json(json: &Json, video_id: &str) -> (r: Option<VideoInfo>)
    ensures
        r.deep_view() == resolved_video(json@, video_id@),
{
    let detail = part(json.get("__DEFAULT_SCOPE__"), "webapp.video-detail");
    match part(part(detail, "itemInfo"), "itemStruct") {
        Some(item) => Some(parse_video_item(item)),
        None => match json.get("ItemModule") {
            Some(module) => {
                let item = match module.get(video_id) {
                    Some(item) => Some(item),
                    None => module.sole_member(),
                };
                match item {
                    Some(item) => Some(parse_video_item(item)),
                    None => None,
                }
            },
            None => None,
        },
    }
}

/// A tag, from the object `challengeInfo`.
fn parse_challenge_info(info: Option<&Json>) -> (r: Option<TagInfo>)
    ensures
        r.deep_view() == tag_entity(info.deep_view()),
{
    let null = Json::Null;
    match (info, part(info, "challenge")) {
        (Some(info), Some(challenge)) => {
            let stats = match info.get("stats") {
                Some(stats) => stats,
                None => &null,
            };
            Some(
                TagInfo {
                    name: owned_or_empty(challenge.text("title")),
                    view_count: stats.count("viewCount").unwrap_or(0),
                    videos: no_videos(),
                },
            )
        },
        _ => None,
    }
}

/// The tag that a document describes, or `None` where it has neither shape
/// of one.
pub fn parse_tag_from_json(json: &Json) -> (r: Option<TagInfo>)
    ensures
        r.deep_view() == resolved_tag(json@),
{
    let detail = part(json.get("__DEFAULT_SCOPE__"), "webapp.challenge-detail");
    match parse_challenge_info(part(detail, "challengeInfo")) {
        Some(tag) => Some(tag),
        None => parse_challenge_info(part(json.get("ChallengePage"), "challengeInfo")),
    }
}

/// The note that goes with a placeholder.
fn note(kind: &str, key: &str) -> (r: String)
    ensures
        r@ == fallback_note(kind@, key@),
{
    "Could not parse TikTok JSON, using fallback for ".to_owned().concat(kind).concat(": ").concat(
        key,
    )
}

/// The placeholder for a user whose page could not be resolved, and the
/// note that says so.
pub fn fallback_user(username: &str) -> (r: (UserInfo, String))
    ensures
        r.0@ == fallback_user_view(username@),
        r.1@ == fallback_note("user"@, username@),
{
    (
        UserInfo {
            id: String::new(),
            username: username.to_owned(),
            nickname: String::new(),
            bio: String::new(),
            avatar_url: String::new(),
            follower_count: 0,
            following_count: 0,
            like_count: 0,
            video_count: 0,
            videos: no_videos(),
        },
        note("user", username),
    )
}

/// The placeholder for a video whose page could not be resolved, and the
/// note that says so.
pub fn fallback_video(video_id: &str) -> (r: (VideoInfo, String))
    ensures
        r.0@ == fallback_video_view(video_id@),
        r.1@ == fallback_note("video"@, video_id@),
{
    (
        VideoInfo {
            id: video_id.to_owned(),
            description: String::new(),
            author_username: String::new(),
            author_nickname: String::new(),
            author_avatar: String::new(),
            video_url: String::new(),
            thumbnail_url: String::new(),
            like_count: 0,
            comment_count: 0,
            share_count: 0,
            view_count: 0,
            create_time: 0,
            music_title: None,
            music_author: None,
        },
        note("video", video_id),
    )
}

/// The placeholder for a tag whose page could not be resolved, and the note
/// that says so.
pub fn fallback_tag(tag_name: &str) -> (r: (TagInfo, String))
    ensures
        r.0@ == fallback_tag_view(tag_name@),
        r.1@ == fallback_note("tag"@, tag_name@),
{
    (
        TagInfo { name: tag_name.to_owned(), view_count: 0, videos: no_videos() },
        note("tag", tag_name),
    )
}

/// The user that a page shows, with the note that says so where it is the
/// placeholder: the caller's to log.
pub fn parse_user_page_with_note(html: &str, username: &str) -> (r: (UserInfo, Option<String>))
    ensures
        r.0@ == user_page(html@, username@),
        r.1.deep_view() == page_note(user_of_page(html@, username@), "user"@, username@),
{
    let resolved = match extract_sigi_state(html) {
        Some(doc) => parse_user_from_json(&doc, username),
        None => None,
    };
    match resolved {
        Some(user) => (user, None),
        None => {
            let (user, note) = fallback_user(username);
            (user, Some(note))
        },
    }
}

/// The video that a page shows, with the note that says so where it is the
/// placeholder: the caller's to log.
pub fn parse_video_page_with_note(html: &str, video_id: &str) -> (r: (VideoInfo, Option<String>))
    ensures
        r.0@ == video_page(html@, video_id@),
        r.1.deep_view() == page_note(video_of_page(html@, video_id@), "video"@, video_id@),
{
    let resolved = match extract_sigi_state(html) {
        Some(doc) => parse_video_from_json(&doc, video_id),
        None => None,
    };
    match resolved {
        Some(video) => (video, None),
        None => {
            let (video, note) = fallback_video(video_id);
            (video, Some(note))
        },
    }
}

/// The tag that a page shows, with the note that says so where it is the
/// placeholder: the caller's to log.
pub fn parse_tag_page_with_note(html: &str, tag_name: &str) -> (r: (TagInfo, Option<String>))
    ensures
        r.0@ == tag_page(html@, tag_name@),
        r.1.deep_view() == page_note(tag_of_page(html@), "tag"@, tag_name@),
{
    let resolved = match extract_sigi_state(html) {
        Some(doc) => parse_tag_from_json(&doc),
        None => None,
    };
    match resolved {
        Some(tag) => (tag, None),
        None => {
            let (tag, note) = fallback_tag(tag_name);
            (tag, Some(note))
        },
    }
}

/// The user that a page shows. A page without recognisable state is no
/// failure: the answer is then the placeholder.
pub fn parse_user_page(html: &str, username: &str) -> (r: Result<UserInfo, AppError>)
    ensures
        r matches Ok(user) && user@ == user_page(html@, username@),
{
    Ok(parse_user_page_with_note(html, username).0)
}

/// The video that a page shows. A page without recognisable state is no
/// failure: the answer is then the placeholder.
pub fn parse_video_page(html: &str, video_id: &str) -> (r: Result<VideoInfo, AppError>)
    ensures
        r matches Ok(video) && video@ == video_page(html@, video_id@),
{
    Ok(parse_video_page_with_note(html, video_id).0)
}

/// The tag that a page shows. A page without recognisable state is no
/// failure: the answer is then the placeholder.
pub fn parse_tag_page(html: &str, tag_name: &str) -> (r: Result<TagInfo, AppError>)
    ensures
        r matches Ok(tag) && tag@ == tag_page(html@, tag_name@),
{
    Ok(parse_tag_page_with_note(html, tag_name).0)
}

/// A document that has the older shape of a user and not the newer one
/// resolves to the user that the older shape's two entries describe.
pub proof fn lemma_user_of_older_shape(
    doc: JsonView,
    username: Seq<char>,
    user: JsonView,
    stats: JsonView,
)
    requires
        user_by_feature(doc) is None,
        member(member(doc.get("UserModule"@), "users"@), username) == Some(user),
        member(member(doc.get("UserModule"@), "stats"@), username) == Some(stats),
    ensures
        resolved_user(doc, username) == Some(user_entity(user, stats)),
{
}

/// What the data lacks is empty or zero, field by field, and the list of
/// videos is never filled.
pub proof fn lemma_absent_fields_are_empty(user: JsonView, stats: JsonView)
    ensures
        ({
            let entity = user_entity(user, stats);
            &&& user.get("id"@) is None ==> entity.id.len() == 0
            &&& user.get("uniqueId"@) is None ==> entity.username.len() == 0
            &&& user.get("nickname"@) is None ==> entity.nickname.len() == 0
            &&& user.get("signature"@) is None ==> entity.bio.len() == 0
            &&& user.get("avatarLarger"@) is None && user.get("avatarMedium"@) is None
                ==> entity.avatar_url.len() == 0
            &&& stats.get("followerCount"@) is None ==> entity.follower_count == 0
            &&& stats.get("followingCount"@) is None ==> entity.following_count == 0
            &&& stats.get("heartCount"@) is None && stats.get("heart"@) is None
                ==> entity.like_count == 0
            &&& stats.get("videoCount"@) is None ==> entity.video_count == 0
            &&& entity.videos.len() == 0
        }),
{
}

/// A page in which no script element opens shows the placeholder, whatever
/// was asked for.
pub proof fn lemma_page_without_script(html: Seq<char>, key: Seq<char>)
    requires
        !occurs(html, script_open()),
    ensures
        user_page(html, key) == fallback_user_view(key),
        video_page(html, key) == fallback_video_view(key),
        tag_page(html, key) == fallback_tag_view(key),
        page_note(user_of_page(html, key), "user"@, key) == Some(fallback_note("user"@, key)),
        page_note(video_of_page(html, key), "video"@, key) == Some(fallback_note("video"@, key)),
        page_note(tag_of_page(html), "tag"@, key) == Some(fallback_note("tag"@, key)),
{
    lemma_no_script_no_state(html);
}

} // verus!
