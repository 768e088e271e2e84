use rustytok::routes::home::classify;
use rustytok::routes::home::parse_tiktok_url;
use rustytok::routes::home::CanonicalRoute;
use rustytok::routes::home::SearchQuery;
use rustytok::routes::tag::requested_tag;
use rustytok::routes::user::requested_handle;

fn user(h: &str) -> CanonicalRoute {
    CanonicalRoute::UserRoute(h.to_string())
}

fn video(id: &str) -> CanonicalRoute {
    CanonicalRoute::VideoRoute { owner: None, id: id.to_string() }
}

fn video_of(owner: &str, id: &str) -> CanonicalRoute {
    CanonicalRoute::VideoRoute { owner: Some(owner.to_string()), id: id.to_string() }
}

fn tag(name: &str) -> CanonicalRoute {
    CanonicalRoute::TagRoute(name.to_string())
}

fn short(url: &str) -> CanonicalRoute {
    CanonicalRoute::ShortLinkRoute(url.to_string())
}

#[test]
fn handle_with_and_without_at_is_one_user() {
    for h in ["alice", "a.b_c", "user123", "x", "日本語", "al ice"] {
        assert_eq!(classify(&format!("@{h}")), user(h));
        assert_eq!(classify(h), user(h));
    }
}

#[test]
fn at_alone_is_the_empty_handle() {
    assert_eq!(classify("@"), user(""));
    assert_eq!(classify("@@alice"), user("@alice"));
}

#[test]
fn at_wins_over_every_other_reading() {
    assert_eq!(classify("@123"), user("123"));
    assert_eq!(classify("@#tag"), user("#tag"));
    assert_eq!(classify("@https://www.tiktok.com/tag/x"), user("https://www.tiktok.com/tag/x"));
}

#[test]
fn hash_is_a_tag() {
    assert_eq!(classify("#cats"), tag("cats"));
    assert_eq!(classify("#"), tag(""));
    assert_eq!(classify("#123"), tag("123"));
    assert_eq!(classify("##x"), tag("#x"));
}

#[test]
fn digits_are_a_video_id() {
    for d in ["0", "7", "1234567890", "00012", "7300000000000000000000000000"] {
        assert_eq!(classify(d), video(d));
    }
}

#[test]
fn empty_text_is_the_empty_video_id() {
    assert_eq!(classify(""), video(""));
}

#[test]
fn other_text_is_a_handle() {
    assert_eq!(classify("12a"), user("12a"));
    assert_eq!(classify("１２３"), user("１２３"));
    assert_eq!(classify("hello world"), user("hello world"));
    assert_eq!(classify(" 123"), user(" 123"));
}

#[test]
fn tag_url_gives_the_tag_without_the_query() {
    assert_eq!(classify("https://www.tiktok.com/tag/cats?x=y"), tag("cats"));
    assert_eq!(classify("https://www.tiktok.com/tag/cats"), tag("cats"));
    assert_eq!(classify("tiktok.com/tag/a-b_c?lang=en&x=1"), tag("a-b_c"));
    assert_eq!(classify("https://www.tiktok.com/tag/a/b?c"), tag("a/b"));
    assert_eq!(classify("https://www.tiktok.com/tag/?x"), tag(""));
    assert_eq!(parse_tiktok_url("https://www.tiktok.com/tag/T?x=y"), Some(tag("T")));
}

#[test]
fn first_tag_marker_counts() {
    assert_eq!(parse_tiktok_url("https://www.tiktok.com/tag/a/tag/b?x"), Some(tag("a/tag/b")));
}

#[test]
fn user_url_gives_the_handle() {
    assert_eq!(classify("https://www.tiktok.com/@alice"), user("alice"));
    assert_eq!(classify("https://www.tiktok.com/@alice?lang=en"), user("alice"));
    assert_eq!(classify("www.tiktok.com/@a.b"), user("a.b"));
    assert_eq!(parse_tiktok_url("https://www.tiktok.com/@alice/likes?x"), Some(user("alice/likes")));
    assert_eq!(parse_tiktok_url("https://www.tiktok.com/@"), Some(user("")));
}

#[test]
fn video_under_a_user_path_is_a_video() {
    assert_eq!(
        classify("https://www.tiktok.com/@alice/video/7301234567890"),
        video_of("alice", "7301234567890")
    );
    assert_eq!(
        classify("https://www.tiktok.com/@alice/video/7301234567890?is_from_webapp=1"),
        video_of("alice", "7301234567890")
    );
    assert_eq!(
        parse_tiktok_url("https://www.tiktok.com/@alice/video/12/extra"),
        Some(video_of("alice", "12/extra"))
    );
    assert_eq!(parse_tiktok_url("https://www.tiktok.com/@alice/video/"), Some(video_of("alice", "")));
    assert_eq!(parse_tiktok_url("https://www.tiktok.com/@/video/1"), Some(video_of("", "1")));
    assert_eq!(
        parse_tiktok_url("https://www.tiktok.com/@a/b/video/1/video/2"),
        Some(video_of("a/b", "1/video/2"))
    );
}

#[test]
fn address_under_a_user_path_leads_to_that_path() {
    let path = |url: &str| parse_tiktok_url(url).map(|route| route.path());
    assert_eq!(
        path("https://www.tiktok.com/@alice/video/7234567890?is_copy_url=1"),
        Some("/@alice/video/7234567890".to_string())
    );
    assert_eq!(
        path("https://www.tiktok.com/@alice/video/12/extra?x"),
        Some("/@alice/video/12/extra".to_string())
    );
    assert_eq!(path("https://www.tiktok.com/@/video/1"), Some("/@/video/1".to_string()));
    assert_eq!(path("https://www.tiktok.com/@alice?lang=en"), Some("/@alice".to_string()));
    assert_eq!(path("https://www.tiktok.com/@alice/likes"), Some("/@alice/likes".to_string()));
}

#[test]
fn video_marker_behind_the_query_does_not_count() {
    assert_eq!(parse_tiktok_url("https://www.tiktok.com/@alice?next=/video/12"), Some(user("alice")));
}

#[test]
fn direct_video_url_gives_the_id() {
    assert_eq!(classify("https://www.tiktok.com/video/123"), video("123"));
    assert_eq!(classify("https://www.tiktok.com/video/123?x=1"), video("123"));
    assert_eq!(classify("https://www.tiktok.com/video/123/more"), video("123"));
    assert_eq!(classify("https://www.tiktok.com/video/123/more?x"), video("123"));
    assert_eq!(classify("https://www.tiktok.com/video/123?x=/y"), video("123"));
    assert_eq!(classify("https://m.tiktok.com/v/video/abc"), video("abc"));
}

#[test]
fn user_marker_comes_before_the_video_marker() {
    assert_eq!(parse_tiktok_url("https://www.tiktok.com/video/9?from=/@bob"), Some(user("bob")));
}

#[test]
fn short_links_are_carried_as_given() {
    assert_eq!(classify("https://vm.tiktok.com/ZMabc123/"), short("https://vm.tiktok.com/ZMabc123/"));
    assert_eq!(
        classify("https://www.tiktok.com/t/ZTabc/?k=1"),
        short("https://www.tiktok.com/t/ZTabc/?k=1")
    );
    assert_eq!(parse_tiktok_url("vm.tiktok.com"), Some(short("vm.tiktok.com")));
}

#[test]
fn short_link_comes_before_the_tag_marker() {
    assert_eq!(
        parse_tiktok_url("https://vm.tiktok.com/tag/x"),
        Some(short("https://vm.tiktok.com/tag/x"))
    );
}

#[test]
fn discover_url_gives_the_tag_without_the_query() {
    assert_eq!(parse_tiktok_url("https://www.tiktok.com/discover/cats?lang=en"), Some(tag("cats")));
    assert_eq!(parse_tiktok_url("https://www.tiktok.com/discover/cats"), Some(tag("cats")));
    assert_eq!(classify("https://www.tiktok.com/discover/a-b?x=y"), tag("a-b"));
    assert_eq!(parse_tiktok_url("https://www.tiktok.com/discover/?x"), Some(tag("")));
    assert_eq!(
        parse_tiktok_url("https://www.tiktok.com/discover/cats?lang=en").map(|route| route.path()),
        Some("/tag/cats".to_string())
    );
}

#[test]
fn tag_marker_comes_before_the_discover_marker() {
    assert_eq!(parse_tiktok_url("https://www.tiktok.com/discover/x/tag/y?z"), Some(tag("y")));
    assert_eq!(parse_tiktok_url("https://www.tiktok.com/tag/y/discover/x?z"), Some(tag("y/discover/x")));
}

#[test]
fn first_discover_marker_counts() {
    assert_eq!(
        parse_tiktok_url("https://www.tiktok.com/discover/a/discover/b?x"),
        Some(tag("a/discover/b"))
    );
}

#[test]
fn unknown_address_names_no_route_and_reads_as_a_handle() {
    assert_eq!(parse_tiktok_url("https://www.tiktok.com/"), None);
    assert_eq!(parse_tiktok_url("https://www.tiktok.com/foryou"), None);
    assert_eq!(parse_tiktok_url(""), None);
    assert_eq!(classify("https://www.tiktok.com/foryou"), user("https://www.tiktok.com/foryou"));
    assert_eq!(classify("tiktok.com"), user("tiktok.com"));
}

#[test]
fn address_of_another_site_is_not_taken_apart() {
    assert_eq!(classify("https://example.com/tag/cats"), user("https://example.com/tag/cats"));
    assert_eq!(classify("example.com/@bob"), user("example.com/@bob"));
}

#[test]
fn route_paths() {
    assert_eq!(user("alice").path(), "/@alice");
    assert_eq!(user("").path(), "/@");
    assert_eq!(video("123").path(), "/video/123");
    assert_eq!(video_of("alice", "123").path(), "/@alice/video/123");
    assert_eq!(video_of("", "").path(), "/@/video/");
    assert_eq!(tag("cats").path(), "/tag/cats");
    assert_eq!(
        short("https://vm.tiktok.com/ZMabc/").path(),
        "/redirect?url=https%3A%2F%2Fvm.tiktok.com%2FZMabc%2F"
    );
}

#[test]
fn short_link_path_encodes_everything_but_unreserved() {
    assert_eq!(short("aZ09-._~").path(), "/redirect?url=aZ09-._~");
    assert_eq!(short(" +%é👾").path(), "/redirect?url=%20%2B%25%C3%A9%F0%9F%91%BE");
    assert_eq!(short("\u{0}\u{a}\u{7f}").path(), "/redirect?url=%00%0A%7F");
}

#[test]
fn search_without_a_text_has_no_route() {
    assert_eq!(SearchQuery { q: None }.route(), None);
}

#[test]
fn search_text_is_trimmed_before_it_is_classified() {
    let route = |q: &str| SearchQuery { q: Some(q.to_string()) }.route();
    assert_eq!(route("  @alice \n"), Some(user("alice")));
    assert_eq!(route("\t#cats"), Some(tag("cats")));
    assert_eq!(route(" 123 "), Some(video("123")));
    assert_eq!(route("   "), Some(video("")));
    assert_eq!(route(""), Some(video("")));
    assert_eq!(route(" bob smith "), Some(user("bob smith")));
    assert_eq!(route("\u{3000}https://www.tiktok.com/tag/x?y\u{a0}"), Some(tag("x")));
}

#[test]
fn path_parameters_lose_their_leading_signs() {
    assert_eq!(requested_handle("@alice"), "alice");
    assert_eq!(requested_handle("alice"), "alice");
    assert_eq!(requested_handle("@@@alice@"), "alice@");
    assert_eq!(requested_handle("@"), "");
    assert_eq!(requested_handle(""), "");
    assert_eq!(requested_tag("#cats"), "cats");
    assert_eq!(requested_tag("##cats#"), "cats#");
    assert_eq!(requested_tag("@cats"), "@cats");
}
