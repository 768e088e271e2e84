//! Classifying what a visitor typed into the search box.
//!
//! The text may be a handle with or without `@`, a hashtag, a video id, or
//! an address copied from the platform. Each is turned into one canonical
//! route of this server.

use vstd::prelude::*;
use vstd::string::StrSliceExecFns;
use vstd::string::StringExecFns;
use vstd::utf8::encode_utf8;
use crate::percent::encode;
use crate::percent::percent_encoded;
use crate::text::all_digits;
use crate::text::contains;
use crate::text::field;
use crate::text::find;
use crate::text::find_stop;
use crate::text::first;
use crate::text::is_all_digits;
use crate::text::lemma_first_at;
use crate::text::lemma_first_from;
use crate::text::lemma_occurs_first;
use crate::text::lemma_stop;
use crate::text::lemma_stop_at;
use crate::text::occurs;
use crate::text::occurs_at;
use crate::text::slice;
use crate::text::to_chars;
use crate::text::trim;
use crate::text::trimmed;

verus! {

/// What a visitor asked for.
#[derive(Debug, Clone, PartialEq, Eq)]
pub enum CanonicalRoute {
    /// A user's profile, by handle without the leading `@`.
    UserRoute(String),
    /// A video, by id. An address that names the video under its author's
    /// path keeps the author's handle, so that the route leads to the same
    /// path.
    VideoRoute { owner: Option<String>, id: String },
    /// A hashtag, by name without the leading `#`.
    TagRoute(String),
    /// A short link, carried as it was given: where it leads is known only
    /// once it has been fetched.
    ShortLinkRoute(String),
}

/// The mathematical value of a `CanonicalRoute`.
pub ghost enum RouteView {
    User(Seq<char>),
    Video { owner: Option<Seq<char>>, id: Seq<char> },
    Tag(Seq<char>),
    ShortLink(Seq<char>),
}

impl View for CanonicalRoute {
    type V = RouteView;

    open spec fn view(&self) -> RouteView {
        match self {
            CanonicalRoute::UserRoute(handle) => RouteView::User(handle@),
            CanonicalRoute::VideoRoute { owner, id } => RouteView::Video {
                owner: owner.deep_view(),
                id: id@,
            },
            CanonicalRoute::TagRoute(name) => RouteView::Tag(name@),
            CanonicalRoute::ShortLinkRoute(url) => RouteView::ShortLink(url@),
        }
    }
}

impl DeepView for CanonicalRoute {
    type V = RouteView;

    open spec fn deep_view(&self) -> RouteView {
        self@
    }
}

/// The query of the search form.
#[derive(Debug, Clone, PartialEq, Eq)]
pub struct SearchQuery {
    /// What was typed, if the form was sent.
    pub q: Option<String>,
}

/// The domain by which an address of the platform is known.
pub open spec fn platform() -> Seq<char> {
    "tiktok.com"@
}

/// How the path of a user starts.
pub open spec fn user_mark() -> Seq<char> {
    "/@"@
}

/// What stands before a video's id.
pub open spec fn video_mark() -> Seq<char> {
    "/video/"@
}

/// The host of short links.
pub open spec fn short_host() -> Seq<char> {
    "vm.tiktok.com"@
}

/// What stands before a short link's code on the main host.
pub open spec fn short_mark() -> Seq<char> {
    "/t/"@
}

/// What stands before a tag's name.
pub open spec fn tag_mark() -> Seq<char> {
    "/tag/"@
}

/// How the path of the discover pages starts.
pub open spec fn discover_mark() -> Seq<char> {
    "/discover/"@
}

/// The route of an address under a user's path, which starts at `at`. The
/// path runs up to the first `?`. Where a video marker stands in it, the
/// address is a video's: what stands between `/@` and the marker is its
/// author, and all that follows the marker is its id. Else the path behind
/// `/@` is the handle. Either way the route leads to the path as it was
/// given.
pub open spec fn user_path_route(url: Seq<char>, at: int) -> RouteView {
    let path = field(url, at, '?');
    match first(path, video_mark()) {
        Some(v) => RouteView::Video {
            owner: Some(path.subrange(user_mark().len() as int, v)),
            id: path.skip(v + video_mark().len()),
        },
        None => RouteView::User(path.skip(user_mark().len() as int)),
    }
}

/// The tag that an address names: what follows its first tag marker, or,
/// where it has none, its first discover marker, up to the first `?`.
pub open spec fn tag_route(url: Seq<char>) -> Option<RouteView> {
    match first(url, tag_mark()) {
        Some(t) => Some(RouteView::Tag(field(url, t + tag_mark().len(), '?'))),
        None => match first(url, discover_mark()) {
            Some(d) => Some(RouteView::Tag(field(url, d + discover_mark().len(), '?'))),
            None => None,
        },
    }
}

/// The route of an address of the platform, where its form is known. The
/// forms are tried in this order: a user's path, which may lead on to a
/// video; a video marker, whose id runs up to the first `?` or `/`; a short
/// link; a tag or discover marker, whose name runs up to the first `?`.
pub open spec fn url_route(url: Seq<char>) -> Option<RouteView> {
    match first(url, user_mark()) {
        Some(at) => Some(user_path_route(url, at)),
        None => match first(url, video_mark()) {
            Some(v) => Some(
                RouteView::Video {
                    owner: None,
                    id: field(field(url, v + video_mark().len(), '?'), 0, '/'),
                },
            ),
            None => if occurs(url, short_host()) || occurs(url, short_mark()) {
                Some(RouteView::ShortLink(url))
            } else {
                tag_route(url)
            },
        },
    }
}

/// The route of a search text, which is taken as it is: a handle behind
/// `@`; a tag behind `#`; an address of the platform whose form is known; a
/// video id where every character is a digit; in every other case a handle.
pub open spec fn route(text: Seq<char>) -> RouteView {
    if text.len() > 0 && text[0] == '@' {
        RouteView::User(text.skip(1))
    } else if text.len() > 0 && text[0] == '#' {
        RouteView::Tag(text.skip(1))
    } else if occurs(text, platform()) {
        match url_route(text) {
            Some(r) => r,
            None => RouteView::User(text),
        }
    } else if all_digits(text) {
        RouteView::Video { owner: None, id: text }
    } else {
        RouteView::User(text)
    }
}

/// The path of this server that a route stands for.
pub open spec fn route_path(r: RouteView) -> Seq<char> {
    match r {
        RouteView::User(handle) => "/@"@ + handle,
        RouteView::Video { owner: Some(handle), id } => "/@"@ + handle + "/video/"@ + id,
        RouteView::Video { owner: None, id } => "/video/"@ + id,
        RouteView::Tag(name) => "/tag/"@ + name,
        RouteView::ShortLink(url) => "/redirect?url="@ + percent_encoded(encode_utf8(url)),
    }
}

/// The route of an address under a user's path, which starts at `at`.
fn parse_user_path(url: &str, chars: &Vec<char>, at: usize) -> (r: CanonicalRoute)
    requires
        chars@ == url@,
        first(url@, user_mark()) == Some(at as int),
    ensures
        r@ == user_path_route(url@, at as int),
{
    proof {
        reveal_strlit("/@");
        reveal_strlit("/video/");
        lemma_first_from(url@, user_mark(), 0);
        lemma_stop(url@, '?', at as int);
        assert(url@.subrange(at as int, at + 2)[0] == '/');
        assert(url@.subrange(at as int, at + 2)[1] == '@');
    }
    let end = find_stop(chars, '?', at);
    let path = slice(chars, at, end);
    let video = to_chars("/video/");
    match find(&path, &video) {
        Some(v) => {
            proof {
                lemma_first_from(path@, video_mark(), 0);
                assert(path@.subrange(v as int, v + 7)[0] == '/');
                assert(path@.subrange(v as int, v + 7)[1] == 'v');
                assert(path@[0] == '/' && path@[1] == '@');
            }
            let id = v + video.len();
            assert(url@.subrange(at + 2, at + v) =~= path@.subrange(2, v as int));
            assert(url@.subrange(at + id, end as int) =~= path@.skip(id as int));
            CanonicalRoute::VideoRoute {
                owner: Some(url.substring_char(at + 2, at + v).to_owned()),
                id: url.substring_char(at + id, end).to_owned(),
            }
        },
        None => {
            assert(url@.subrange(at + 2, end as int) =~= path@.skip(2));
            CanonicalRoute::UserRoute(url.substring_char(at + 2, end).to_owned())
        },
    }
}

/// The route of an address of the platform, or `None` where its form is
/// not one of those known.
pub fn parse_tiktok_url(url: &str) -> (r: Option<CanonicalRoute>)
    ensures
        r.deep_view() == url_route(url@),
{
    let chars = to_chars(url);
    let user = to_chars("/@");
    let video = to_chars("/video/");
    if let Some(at) = find(&chars, &user) {
        return Some(parse_user_path(url, &chars, at));
    }
    if let Some(v) = find(&chars, &video) {
        proof {
            lemma_first_from(url@, video_mark(), 0);
            assert(v + video.len() <= chars.len());
        }
        let id = v + video.len();
        let rest = slice(&chars, id, find_stop(&chars, '?', id));
        let id_len = find_stop(&rest, '/', 0);
        assert(url@.subrange(id as int, id + id_len) =~= rest@.subrange(0, id_len as int));
        return Some(
            CanonicalRoute::VideoRoute {
                owner: None,
                id: url.substring_char(id, id + id_len).to_owned(),
            },
        );
    }
    let short_host = to_chars("vm.tiktok.com");
    let short_mark = to_chars("/t/");
    if contains(&chars, &short_host) || contains(&chars, &short_mark) {
        return Some(CanonicalRoute::ShortLinkRoute(url.to_owned()));
    }
    let tag = to_chars("/tag/");
    let discover = to_chars("/discover/");
    let name = match find(&chars, &tag) {
        Some(t) => {
            proof {
                lemma_first_from(url@, tag_mark(), 0);
                assert(t + tag.len() <= chars.len());
            }
            t + tag.len()
        },
        None => match find(&chars, &discover) {
            Some(d) => {
                proof {
                    lemma_first_from(url@, discover_mark(), 0);
                    assert(d + discover.len() <= chars.len());
                }
                d + discover.len()
            },
            None => {
                return None;
            },
        },
    };
    let name_end = find_stop(&chars, '?', name);
    Some(CanonicalRoute::TagRoute(url.substring_char(name, name_end).to_owned()))
}

/// The route of a search text, which is taken as it is; white space around
/// it is the caller's to remove.
pub fn classify(text: &str) -> (r: CanonicalRoute)
    ensures
        r@ == route(text@),
{
    let chars = to_chars(text);
    let len = chars.len();
    if len > 0 && chars[0] == '@' {
        assert(text@.subrange(1, len as int) =~= text@.skip(1));
        return CanonicalRoute::UserRoute(text.substring_char(1, len).to_owned());
    }
    if len > 0 && chars[0] == '#' {
        assert(text@.subrange(1, len as int) =~= text@.skip(1));
        return CanonicalRoute::TagRoute(text.substring_char(1, len).to_owned());
    }
    let domain = to_chars("tiktok.com");
    if contains(&chars, &domain) {
        return match parse_tiktok_url(text) {
            Some(r) => r,
            None => CanonicalRoute::UserRoute(text.to_owned()),
        };
    }
    if is_all_digits(&chars) {
        CanonicalRoute::VideoRoute { owner: None, id: text.to_owned() }
    } else {
        CanonicalRoute::UserRoute(text.to_owned())
    }
}

impl CanonicalRoute {
    /// The path of this server to redirect to.
    pub fn path(&self) -> (r: String)
        ensures
            r@ == route_path(self@),
    {
        match self {
            CanonicalRoute::UserRoute(handle) => "/@".to_owned().concat(handle.as_str()),
            CanonicalRoute::VideoRoute { owner: Some(handle), id } => "/@".to_owned().concat(
                handle.as_str(),
            ).concat("/video/").concat(id.as_str()),
            CanonicalRoute::VideoRoute { owner: None, id } => "/video/".to_owned().concat(
                id.as_str(),
            ),
            CanonicalRoute::TagRoute(name) => "/tag/".to_owned().concat(name.as_str()),
            CanonicalRoute::ShortLinkRoute(url) => {
                let encoded = encode(url.as_str());
                "/redirect?url=".to_owned().concat(encoded.as_str())
            },
        }
    }
}

impl SearchQuery {
    /// The route of what was typed, white space around it removed, or `None`
    /// where the form was not sent.
    pub open spec fn spec_route(self) -> Option<RouteView> {
        match self.q {
            Some(q) => Some(route(trimmed(q@))),
            None => None,
        }
    }

    /// The route to redirect to, or `None` where there is no search text and
    /// the search form is to be shown.
    pub fn route(&self) -> (r: Option<CanonicalRoute>)
        ensures
            r.deep_view() == self.spec_route(),
    {
        match &self.q {
            Some(q) => {
                let chars = to_chars(q.as_str());
                let (start, end) = trim(&chars);
                Some(classify(q.as_str().substring_char(start, end)))
            },
            None => None,
        }
    }
}

/// A handle is the same user with `@` before it and without: the route of
/// `@h` is the user `h`, and so is the route of `h` itself, unless `h` reads
/// as something else: it starts with `@` or `#`, is an address of the
/// platform whose form is known, or has no character that is not a digit.
pub proof fn lemma_handle_with_or_without_at(h: Seq<char>)
    requires
        h.len() > 0 ==> h[0] != '@' && h[0] != '#',
        !(occurs(h, platform()) && url_route(h) is Some),
        !all_digits(h),
    ensures
        route(seq!['@'] + h) == RouteView::User(h),
        route(h) == RouteView::User(h),
{
    assert((seq!['@'] + h).skip(1) =~= h);
}

/// The path for a text that starts with `@` is the text itself behind a
/// `/`: the `@` that the route leaves out is the one that the path puts in.
pub proof fn lemma_path_of_a_handle(text: Seq<char>)
    requires
        text.len() > 0,
        text[0] == '@',
    ensures
        route_path(route(text)) == seq!['/'] + text,
{
    reveal_strlit("/@");
    assert("/@"@ + text.skip(1) =~= seq!['/'] + text);
}

/// An address under a user's path leads to that path as it was given, up to
/// the first `?`, whether it names the user or one of the user's videos.
pub proof fn lemma_user_path_is_kept(url: Seq<char>, at: int)
    requires
        first(url, user_mark()) == Some(at),
    ensures
        url_route(url) == Some(user_path_route(url, at)),
        route_path(user_path_route(url, at)) == field(url, at, '?'),
{
    reveal_strlit("/@");
    reveal_strlit("/video/");
    lemma_first_from(url, user_mark(), 0);
    lemma_stop(url, '?', at);
    assert(url.subrange(at, at + 2)[0] == '/');
    assert(url.subrange(at, at + 2)[1] == '@');
    let path = field(url, at, '?');
    assert(path[0] == '/' && path[1] == '@');
    lemma_first_from(path, video_mark(), 0);
    match first(path, video_mark()) {
        Some(v) => {
            assert(path.subrange(v, v + 7)[0] == '/');
            assert(path.subrange(v, v + 7)[1] == 'v');
            assert("/@"@ + path.subrange(2, v) + "/video/"@ + path.skip(v + 7) =~= path) by {
                assert(path.subrange(v, v + 7) == "/video/"@);
                assert forall|k: int| 0 <= k < 7 implies path[v + k] == "/video/"@[k] by {
                    assert(path.subrange(v, v + 7)[k] == path[v + k]);
                }
            }
        },
        None => {
            assert("/@"@ + path.skip(2) =~= path);
        },
    }
}

/// A text of digits only is a video id.
pub proof fn lemma_digits_are_a_video(d: Seq<char>)
    requires
        all_digits(d),
    ensures
        route(d) == (RouteView::Video { owner: None, id: d }),
{
    reveal_strlit("tiktok.com");
    if occurs(d, platform()) {
        let i = choose|i: int| occurs_at(d, platform(), i);
        assert(d.subrange(i, i + platform().len())[0] == 't');
        assert(d[i] == 't');
    }
}

/// An address with a tag marker names the tag up to the `?`, and nothing of
/// the query: where no earlier form is present and the marker before `tag`
/// is the first one, the route of `before` + `/tag/` + `tag` + `?` + `query`
/// is the tag `tag`. So is the route of that address as a search text, where
/// `before` names the platform.
pub proof fn lemma_tag_url(before: Seq<char>, tag: Seq<char>, query: Seq<char>)
    requires
        !occurs(before + tag_mark() + tag + seq!['?'] + query, user_mark()),
        !occurs(before + tag_mark() + tag + seq!['?'] + query, video_mark()),
        !occurs(before + tag_mark() + tag + seq!['?'] + query, short_host()),
        !occurs(before + tag_mark() + tag + seq!['?'] + query, short_mark()),
        forall|i: int|
            0 <= i < before.len() ==> !occurs_at(
                before + tag_mark() + tag + seq!['?'] + query,
                tag_mark(),
                i,
            ),
        !tag.contains('?'),
    ensures
        url_route(before + tag_mark() + tag + seq!['?'] + query) == Some(RouteView::Tag(tag)),
        occurs(before, platform()) && before.len() > 0 && before[0] != '@' && before[0] != '#'
            ==> route(
            before + tag_mark() + tag + seq!['?'] + query,
        ) == RouteView::Tag(tag),
{
    let url = before + tag_mark() + tag + seq!['?'] + query;
    if occurs(before, platform()) && before.len() > 0 {
        let i = choose|i: int| occurs_at(before, platform(), i);
        assert(url.subrange(i, i + platform().len()) =~= before.subrange(i, i + platform().len()));
        assert(occurs_at(url, platform(), i));
        assert(url[0] == before[0]);
    }
    let t = before.len() as int;
    let start = t + tag_mark().len();
    lemma_occurs_first(url, user_mark());
    lemma_occurs_first(url, video_mark());
    assert(url.subrange(t, t + tag_mark().len()) =~= tag_mark());
    assert(occurs_at(url, tag_mark(), t));
    lemma_first_at(url, tag_mark(), 0, t);
    assert(forall|j: int| start <= j < start + tag.len() ==> url[j] == tag[j - start]);
    assert forall|j: int| start <= j < start + tag.len() implies !occurs_at(url, seq!['?'], j) by {
        if occurs_at(url, seq!['?'], j) {
            assert(url.subrange(j, j + 1)[0] == url[j]);
            assert(tag[j - start] == '?');
        }
    }
    assert(url.subrange(start + tag.len(), start + tag.len() + 1) =~= seq!['?']);
    lemma_first_at(url, seq!['?'], start, start + tag.len());
    assert(url.subrange(start, start + tag.len()) =~= tag);
}

/// An address with a discover marker and no tag marker names the tag
/// behind the discover marker up to the `?`: where no earlier form is
/// present and the marker before `tag` is the first one, the route of
/// `before` + `/discover/` + `tag` + `?` + `query` is the tag `tag`.
pub proof fn lemma_discover_url(before: Seq<char>, tag: Seq<char>, query: Seq<char>)
    requires
        !occurs(before + discover_mark() + tag + seq!['?'] + query, user_mark()),
        !occurs(before + discover_mark() + tag + seq!['?'] + query, video_mark()),
        !occurs(before + discover_mark() + tag + seq!['?'] + query, short_host()),
        !occurs(before + discover_mark() + tag + seq!['?'] + query, short_mark()),
        !occurs(before + discover_mark() + tag + seq!['?'] + query, tag_mark()),
        forall|i: int|
            0 <= i < before.len() ==> !occurs_at(
                before + discover_mark() + tag + seq!['?'] + query,
                discover_mark(),
                i,
            ),
        !tag.contains('?'),
    ensures
        url_route(before + discover_mark() + tag + seq!['?'] + query) == Some(RouteView::Tag(tag)),
{
    let url = before + discover_mark() + tag + seq!['?'] + query;
    let d = before.len() as int;
    let start = d + discover_mark().len();
    lemma_occurs_first(url, user_mark());
    lemma_occurs_first(url, video_mark());
    lemma_occurs_first(url, tag_mark());
    assert(url.subrange(d, d + discover_mark().len()) =~= discover_mark());
    assert(occurs_at(url, discover_mark(), d));
    lemma_first_at(url, discover_mark(), 0, d);
    assert forall|j: int| start <= j < start + tag.len() implies url[j] != '?' by {
        assert(url[j] == tag[j - start]);
    }
    assert(url[start + tag.len()] == '?');
    lemma_stop_at(url, '?', start, start + tag.len());
    assert(url.subrange(start, start + tag.len()) =~= tag);
}

} // verus!
