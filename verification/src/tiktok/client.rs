//! Fetching an entity's page.
//!
//! The transport is not part of the library. The library says which address
//! to ask for and what to make of the reply; the server performs the request
//! in between.

use vstd::prelude::*;
use vstd::string::StringExecFns;
use crate::error::outcome;
use crate::error::AppError;
use crate::error::ErrorView;
use crate::text::occurs;
use crate::tiktok::extract::script_open;
use crate::tiktok::parser::fallback_video_view;
use crate::tiktok::parser::lemma_page_without_script;
use crate::tiktok::parser::fallback_note;
use crate::tiktok::parser::page_note;
use crate::tiktok::parser::parse_tag_page_with_note;
use crate::tiktok::parser::parse_user_page_with_note;
use crate::tiktok::parser::parse_video_page_with_note;
use crate::tiktok::parser::tag_of_page;
use crate::tiktok::parser::user_of_page;
use crate::tiktok::parser::video_of_page;
use crate::tiktok::parser::tag_page;
use crate::tiktok::parser::user_page;
use crate::tiktok::parser::video_page;
use crate::tiktok::types::TagInfo;
use crate::tiktok::types::TagInfoView;
use crate::tiktok::types::UserInfo;
use crate::tiktok::types::UserInfoView;
use crate::tiktok::types::VideoInfo;
use crate::tiktok::types::VideoInfoView;

verus! {

/// What the transport reported for a page request.
#[derive(Debug, PartialEq, Eq)]
pub enum Reply {
    /// No answer; the text says what went wrong.
    Failed(String),
    /// An answer: its status code, the status as the transport prints it,
    /// and the body's text, or what went wrong while reading it.
    Answered { status: u16, status_text: String, body: Result<String, String> },
}

/// The page that a reply holds. A 404 means that the platform has no such
/// resource; any other status without success, and a body that could not be
/// read, is a failed fetch, reported with its detail.
pub open spec fn page(reply: Reply) -> Result<Seq<char>, ErrorView> {
    match reply {
        Reply::Failed(detail) => Err(ErrorView::FetchError(detail@)),
        Reply::Answered { status, status_text, body } => if status == 404 {
            Err(ErrorView::NotFound)
        } else if !(200 <= status <= 299) {
            Err(ErrorView::FetchError("Status: "@ + status_text@))
        } else {
            match body {
                Ok(html) => Ok(html@),
                Err(detail) => Err(ErrorView::FetchError(detail@)),
            }
        },
    }
}

/// What a fetch of a user's page comes to: the user that the page shows,
/// and the note where that is the placeholder.
pub open spec fn fetched_user_with_note(username: Seq<char>, reply: Reply) -> Result<
    (UserInfoView, Option<Seq<char>>),
    ErrorView,
> {
    match page(reply) {
        Ok(html) => Ok(
            (
                user_page(html, username),
                page_note(user_of_page(html, username), "user"@, username),
            ),
        ),
        Err(e) => Err(e),
    }
}

/// What a fetch of a video's page comes to: the video that the page shows,
/// and the note where that is the placeholder.
pub open spec fn fetched_video_with_note(video_id: Seq<char>, reply: Reply) -> Result<
    (VideoInfoView, Option<Seq<char>>),
    ErrorView,
> {
    match page(reply) {
        Ok(html) => Ok(
            (
                video_page(html, video_id),
                page_note(video_of_page(html, video_id), "video"@, video_id),
            ),
        ),
        Err(e) => Err(e),
    }
}

/// What a fetch of a tag's page comes to: the tag that the page shows, and
/// the note where that is the placeholder.
pub open spec fn fetched_tag_with_note(tag_name: Seq<char>, reply: Reply) -> Result<
    (TagInfoView, Option<Seq<char>>),
    ErrorView,
> {
    match page(reply) {
        Ok(html) => Ok((tag_page(html, tag_name), page_note(tag_of_page(html), "tag"@, tag_name))),
        Err(e) => Err(e),
    }
}

/// What a fetch of a user's page comes to, the note left out.
pub open spec fn fetched_user(username: Seq<char>, reply: Reply) -> Result<
    UserInfoView,
    ErrorView,
> {
    match page(reply) {
        Ok(html) => Ok(user_page(html, username)),
        Err(e) => Err(e),
    }
}

/// What a fetch of a video's page comes to, the note left out.
pub open spec fn fetched_video(video_id: Seq<char>, reply: Reply) -> Result<
    VideoInfoView,
    ErrorView,
> {
    match page(reply) {
        Ok(html) => Ok(video_page(html, video_id)),
        Err(e) => Err(e),
    }
}

/// What a fetch of a tag's page comes to, the note left out.
pub open spec fn fetched_tag(tag_name: Seq<char>, reply: Reply) -> Result<TagInfoView, ErrorView> {
    match page(reply) {
        Ok(html) => Ok(tag_page(html, tag_name)),
        Err(e) => Err(e),
    }
}

/// The address of a user's page.
pub fn user_page_url(username: &str) -> (url: String)
    ensures
        url@ == "https://www.tiktok.com/@"@ + username@,
{
    "https://www.tiktok.com/@".to_owned().concat(username)
}

/// The address of a video's page.
pub fn video_page_url(video_id: &str) -> (url: String)
    ensures
        url@ == "https://www.tiktok.com/video/"@ + video_id@,
{
    "https://www.tiktok.com/video/".to_owned().concat(video_id)
}

/// The address of a tag's page.
pub fn tag_page_url(tag_name: &str) -> (url: String)
    ensures
        url@ == "https://www.tiktok.com/tag/"@ + tag_name@,
{
    "https://www.tiktok.com/tag/".to_owned().concat(tag_name)
}

/// The page that a reply holds, or the failure that it stands for.
pub fn page_text(reply: &Reply) -> (r: Result<&str, AppError>)
    ensures
        outcome(r) == page(*reply),
{
    match reply {
        Reply::Failed(detail) => Err(AppError::FetchError(detail.clone())),
        Reply::Answered { status, status_text, body } => if *status == 404 {
            Err(AppError::NotFound)
        } else if !(200 <= *status && *status <= 299) {
            Err(AppError::FetchError("Status: ".to_owned().concat(status_text.as_str())))
        } else {
            match body {
                Ok(html) => Ok(html.as_str()),
                Err(detail) => Err(AppError::FetchError(detail.clone())),
            }
        },
    }
}

/// The user whose page was asked for, from the transport's reply, with
/// the note to log where the page could not be resolved.
pub fn fetch_user_with_note(username: &str, reply: &Reply) -> (r: Result<
    (UserInfo, Option<String>),
    AppError,
>)
    ensures
        outcome(r) == fetched_user_with_note(username@, *reply),
{
    match page_text(reply) {
        Ok(html) => Ok(parse_user_page_with_note(html, username)),
        Err(e) => Err(e),
    }
}

/// The video whose page was asked for, from the transport's reply, with
/// the note to log where the page could not be resolved.
pub fn fetch_video_with_note(video_id: &str, reply: &Reply) -> (r: Result<
    (VideoInfo, Option<String>),
    AppError,
>)
    ensures
        outcome(r) == fetched_video_with_note(video_id@, *reply),
{
    match page_text(reply) {
        Ok(html) => Ok(parse_video_page_with_note(html, video_id)),
        Err(e) => Err(e),
    }
}

/// The tag whose page was asked for, from the transport's reply, with the
/// note to log where the page could not be resolved.
pub fn fetch_tag_with_note(tag_name: &str, reply: &Reply) -> (r: Result<
    (TagInfo, Option<String>),
    AppError,
>)
    ensures
        outcome(r) == fetched_tag_with_note(tag_name@, *reply),
{
    match page_text(reply) {
        Ok(html) => Ok(parse_tag_page_with_note(html, tag_name)),
        Err(e) => Err(e),
    }
}

/// The user whose page was asked for, from the transport's reply.
pub fn fetch_user(username: &str, reply: &Reply) -> (r: Result<UserInfo, AppError>)
    ensures
        outcome(r) == fetched_user(username@, *reply),
{
    match fetch_user_with_note(username, reply) {
        Ok(found) => Ok(found.0),
        Err(e) => Err(e),
    }
}

/// The video whose page was asked for, from the transport's reply.
pub fn fetch_video(video_id: &str, reply: &Reply) -> (r: Result<VideoInfo, AppError>)
    ensures
        outcome(r) == fetched_video(video_id@, *reply),
{
    match fetch_video_with_note(video_id, reply) {
        Ok(found) => Ok(found.0),
        Err(e) => Err(e),
    }
}

/// The tag whose page was asked for, from the transport's reply.
pub fn fetch_tag(tag_name: &str, reply: &Reply) -> (r: Result<TagInfo, AppError>)
    ensures
        outcome(r) == fetched_tag(tag_name@, *reply),
{
    match fetch_tag_with_note(tag_name, reply) {
        Ok(found) => Ok(found.0),
        Err(e) => Err(e),
    }
}

/// A page that the platform does not have is reported as not found,
/// whatever was asked for and whatever the reply's body holds: no
/// placeholder stands in for it.
pub proof fn lemma_missing_page_is_not_found(key: Seq<char>, reply: Reply)
    requires
        reply matches Reply::Answered { status, .. } && status == 404,
    ensures
        fetched_user(key, reply) == Err::<UserInfoView, ErrorView>(ErrorView::NotFound),
        fetched_video(key, reply) == Err::<VideoInfoView, ErrorView>(ErrorView::NotFound),
        fetched_tag(key, reply) == Err::<TagInfoView, ErrorView>(ErrorView::NotFound),
{
}

/// A page that was fetched and in which no script element opens yields the
/// placeholder: the video with the id that was asked for and nothing else.
pub proof fn lemma_fetched_page_without_script(video_id: Seq<char>, reply: Reply)
    requires
        reply matches Reply::Answered { status, body, .. } && 200 <= status <= 299 && body is Ok
            && !occurs(body->Ok_0@, script_open()),
    ensures
        fetched_video(video_id, reply) == Ok::<VideoInfoView, ErrorView>(
            fallback_video_view(video_id),
        ),
        fetched_video_with_note(video_id, reply) == Ok::<
            (VideoInfoView, Option<Seq<char>>),
            ErrorView,
        >((fallback_video_view(video_id), Some(fallback_note("video"@, video_id)))),
{
    lemma_page_without_script(reply->body->Ok_0@, video_id);
}

} // verus!
