//! The entities that pages are resolved into.

use vstd::prelude::*;
use vstd::string::StringExecFns;
use vstd::utf8::encode_utf8;
use crate::percent::encode;
use crate::percent::percent_encoded;

verus! {

/// A video.
#[derive(Debug, Clone, PartialEq, Eq)]
pub struct VideoInfo {
    pub id: String,
    pub description: String,
    pub author_username: String,
    pub author_nickname: String,
    pub author_avatar: String,
    pub video_url: String,
    pub thumbnail_url: String,
    pub like_count: u64,
    pub comment_count: u64,
    pub share_count: u64,
    pub view_count: u64,
    /// Seconds since the epoch; 0 where unknown.
    pub create_time: i64,
    pub music_title: Option<String>,
    pub music_author: Option<String>,
}

/// A user's profile.
#[derive(Debug, Clone, PartialEq, Eq)]
pub struct UserInfo {
    pub id: String,
    pub username: String,
    pub nickname: String,
    pub bio: String,
    pub avatar_url: String,
    pub follower_count: u64,
    pub following_count: u64,
    pub like_count: u64,
    pub video_count: u64,
    pub videos: Vec<VideoInfo>,
}

/// A hashtag.
#[derive(Debug, Clone, PartialEq, Eq)]
pub struct TagInfo {
    /// The tag's name, without a leading `#`.
    pub name: String,
    pub view_count: u64,
    pub videos: Vec<VideoInfo>,
}

/// The mathematical value of a `VideoInfo`.
pub ghost struct VideoInfoView {
    pub id: Seq<char>,
    pub description: Seq<char>,
    pub author_username: Seq<char>,
    pub author_nickname: Seq<char>,
    pub author_avatar: Seq<char>,
    pub video_url: Seq<char>,
    pub thumbnail_url: Seq<char>,
    pub like_count: u64,
    pub comment_count: u64,
    pub share_count: u64,
    pub view_count: u64,
    pub create_time: i64,
    pub music_title: Option<Seq<char>>,
    pub music_author: Option<Seq<char>>,
}

/// The mathematical value of a `UserInfo`.
pub ghost struct UserInfoView {
    pub id: Seq<char>,
    pub username: Seq<char>,
    pub nickname: Seq<char>,
    pub bio: Seq<char>,
    pub avatar_url: Seq<char>,
    pub follower_count: u64,
    pub following_count: u64,
    pub like_count: u64,
    pub video_count: u64,
    pub videos: Seq<VideoInfoView>,
}

/// The mathematical value of a `TagInfo`.
pub ghost struct TagInfoView {
    pub name: Seq<char>,
    pub view_count: u64,
    pub videos: Seq<VideoInfoView>,
}

impl View for VideoInfo {
    type V = VideoInfoView;

    open spec fn view(&self) -> VideoInfoView {
        VideoInfoView {
            id: self.id@,
            description: self.description@,
            author_username: self.author_username@,
            author_nickname: self.author_nickname@,
            author_avatar: self.author_avatar@,
            video_url: self.video_url@,
            thumbnail_url: self.thumbnail_url@,
            like_count: self.like_count,
            comment_count: self.comment_count,
            share_count: self.share_count,
            view_count: self.view_count,
            create_time: self.create_time,
            music_title: self.music_title.deep_view(),
            music_author: self.music_author.deep_view(),
        }
    }
}

impl DeepView for VideoInfo {
    type V = VideoInfoView;

    open spec fn deep_view(&self) -> VideoInfoView {
        self@
    }
}

impl View for UserInfo {
    type V = UserInfoView;

    open spec fn view(&self) -> UserInfoView {
        UserInfoView {
            id: self.id@,
            username: self.username@,
            nickname: self.nickname@,
            bio: self.bio@,
            avatar_url: self.avatar_url@,
            follower_count: self.follower_count,
            following_count: self.following_count,
            like_count: self.like_count,
            video_count: self.video_count,
            videos: self.videos.deep_view(),
        }
    }
}

impl DeepView for UserInfo {
    type V = UserInfoView;

    open spec fn deep_view(&self) -> UserInfoView {
        self@
    }
}

impl View for TagInfo {
    type V = TagInfoView;

    open spec fn view(&self) -> TagInfoView {
        TagInfoView {
            name: self.name@,
            view_count: self.view_count,
            videos: self.videos.deep_view(),
        }
    }
}

impl DeepView for TagInfo {
    type V = TagInfoView;

    open spec fn deep_view(&self) -> TagInfoView {
        self@
    }
}

/// The address under which this server proxies `url`: the proxy's path with
/// the percent-encoded address as its `url` parameter.
pub open spec fn proxied(url: Seq<char>) -> Seq<char> {
    "/proxy?url="@ + percent_encoded(encode_utf8(url))
}

/// The address under which this server proxies `url`.
pub fn proxy_path(url: &str) -> (r: String)
    ensures
        r@ == proxied(url@),
{
    let encoded = encode(url);
    "/proxy?url=".to_owned().concat(encoded.as_str())
}

impl VideoInfo {
    /// The video's media, by way of the proxy.
    pub fn proxied_video_url(&self) -> (r: String)
        ensures
            r@ == proxied(self.video_url@),
    {
        proxy_path(self.video_url.as_str())
    }

    /// The video's thumbnail, by way of the proxy.
    pub fn proxied_thumbnail_url(&self) -> (r: String)
        ensures
            r@ == proxied(self.thumbnail_url@),
    {
        proxy_path(self.thumbnail_url.as_str())
    }
}

impl UserInfo {
    /// The user's avatar, by way of the proxy.
    pub fn proxied_avatar_url(&self) -> (r: String)
        ensures
            r@ == proxied(self.avatar_url@),
    {
        proxy_path(self.avatar_url.as_str())
    }
}

} // verus!
