//! Guarding the media proxy.
//!
//! The proxy streams media from the platform's content hosts so that the
//! visitor's browser never asks them itself. It serves an address only if
//! the address names one of those hosts. The check looks for the host's
//! domain anywhere in the address; it does not take the address apart, so an
//! address that merely carries an allowed domain somewhere passes too. That
//! is a known limit of the guard.

use vstd::prelude::*;
use crate::error::outcome;
use crate::error::AppError;
use crate::error::ErrorView;
use crate::percent::decode;
use crate::percent::percent_decoded;
use crate::text::contains;
use crate::text::occurs;
use crate::text::occurs_at;
use crate::text::to_chars;

verus! {

/// The query of a proxy request.
#[derive(Debug, Clone, PartialEq, Eq)]
pub struct ProxyQuery {
    /// The media's address, percent-encoded.
    pub url: String,
}

/// What the transport reported for a media request.
#[derive(Debug, Clone, PartialEq, Eq)]
pub enum MediaReply {
    /// No answer; the text says what went wrong.
    Failed(String),
    /// An answer, with its status and its content type where it named one.
    Answered { status: u16, content_type: Option<String> },
}

/// The headers under which media is passed on.
#[derive(Debug, Clone, PartialEq, Eq)]
pub struct MediaHead {
    pub content_type: String,
    pub cache_control: String,
}

/// The mathematical value of a `MediaHead`.
pub ghost struct MediaHeadView {
    pub content_type: Seq<char>,
    pub cache_control: Seq<char>,
}

impl View for MediaHead {
    type V = MediaHeadView;

    open spec fn view(&self) -> MediaHeadView {
        MediaHeadView { content_type: self.content_type@, cache_control: self.cache_control@ }
    }
}

impl DeepView for MediaHead {
    type V = MediaHeadView;

    open spec fn deep_view(&self) -> MediaHeadView {
        self@
    }
}

/// The domains of the platform's content hosts.
pub open spec fn allowed_domains() -> Seq<Seq<char>> {
    seq![
        "tiktokcdn.com"@,
        "tiktokcdn-us.com"@,
        "tiktokv.com"@,
        "muscdn.com"@,
        "byteoversea.com"@,
        "ibytedtos.com"@,
        "tiktokcdn-in.com"@,
    ]
}

/// Whether an address carries one of the allowed domains, wherever in it.
pub open spec fn is_allowed(url: Seq<char>) -> bool {
    exists|k: int| 0 <= k < allowed_domains().len() && occurs(url, #[trigger] allowed_domains()[k])
}

/// Whether a status says that the request succeeded.
pub open spec fn is_success(status: u16) -> bool {
    200 <= status <= 299
}

/// The address that a proxy request is served from, given what its `url`
/// parameter decodes to: the decoded address where there is one and it is
/// allowed; in every other case the request is refused as invalid.
pub open spec fn target(decoded: Option<Seq<char>>) -> Result<Seq<char>, ErrorView> {
    match decoded {
        Some(url) => if is_allowed(url) {
            Ok(url)
        } else {
            Err(ErrorView::InvalidUrl)
        },
        None => Err(ErrorView::InvalidUrl),
    }
}

/// The headers for the media that the transport found: the content type
/// that was named, or that of plain bytes, cacheable for a day. An answer
/// without success means that the media is not there.
pub open spec fn head(reply: MediaReply) -> Result<MediaHeadView, ErrorView> {
    match reply {
        MediaReply::Failed(detail) => Err(ErrorView::FetchError(detail@)),
        MediaReply::Answered { status, content_type } => if is_success(status) {
            Ok(
                MediaHeadView {
                    content_type: match content_type {
                        Some(named) => named@,
                        None => "application/octet-stream"@,
                    },
                    cache_control: "public, max-age=86400"@,
                },
            )
        } else {
            Err(ErrorView::NotFound)
        },
    }
}

/// Whether an address carries one of the allowed domains.
pub fn is_allowed_url(url: &str) -> (b: bool)
    ensures
        b == is_allowed(url@),
{
    let chars = to_chars(url);
    let found = contains(&chars, &to_chars("tiktokcdn.com")) || contains(
        &chars,
        &to_chars("tiktokcdn-us.com"),
    ) || contains(&chars, &to_chars("tiktokv.com")) || contains(&chars, &to_chars("muscdn.com"))
        || contains(&chars, &to_chars("byteoversea.com")) || contains(
        &chars,
        &to_chars("ibytedtos.com"),
    ) || contains(&chars, &to_chars("tiktokcdn-in.com"));
    proof {
        let domains = allowed_domains();
        if found {
            assert(occurs(url@, domains[0]) || occurs(url@, domains[1]) || occurs(url@, domains[2])
                || occurs(url@, domains[3]) || occurs(url@, domains[4]) || occurs(
                url@,
                domains[5],
            ) || occurs(url@, domains[6]));
        }
    }
    found
}

/// The address to serve, given what the `url` parameter decoded to.
pub fn authorize(decoded: Option<String>) -> (r: Result<String, AppError>)
    ensures
        outcome(r) == target(decoded.deep_view()),
{
    match decoded {
        Some(url) => if is_allowed_url(url.as_str()) {
            Ok(url)
        } else {
            Err(AppError::InvalidUrl)
        },
        None => Err(AppError::InvalidUrl),
    }
}

/// The address that a proxy request is served from, or `InvalidUrl` where
/// the parameter does not decode or the address is not allowed. Nothing is
/// fetched before this has answered.
pub fn proxy_target(query: &ProxyQuery) -> (r: Result<String, AppError>)
    ensures
        outcome(r) == target(percent_decoded(query.url@)),
{
    authorize(decode(query.url.as_str()))
}

/// The headers to pass the media on with, or the failure to report.
pub fn media_head(reply: &MediaReply) -> (r: Result<MediaHead, AppError>)
    ensures
        outcome(r) == head(*reply),
{
    match reply {
        MediaReply::Failed(detail) => Err(AppError::FetchError(detail.clone())),
        MediaReply::Answered { status, content_type } => if 200 <= *status && *status <= 299 {
            let named = match content_type {
                Some(named) => named.clone(),
                None => "application/octet-stream".to_owned(),
            };
            Ok(MediaHead { content_type: named, cache_control: "public, max-age=86400".to_owned() })
        } else {
            Err(AppError::NotFound)
        },
    }
}

/// An address is allowed as soon as an allowed domain stands in it,
/// whatever stands before and behind: the guard does not ask whether the
/// domain is the address's host.
pub proof fn lemma_allowed_wherever(before: Seq<char>, k: int, after: Seq<char>)
    requires
        0 <= k < allowed_domains().len(),
    ensures
        is_allowed(before + allowed_domains()[k] + after),
{
    let domain = allowed_domains()[k];
    let url = before + domain + after;
    let at = before.len() as int;
    assert(url.subrange(at, at + domain.len()) =~= domain);
    assert(occurs_at(url, domain, at));
}

} // verus!
