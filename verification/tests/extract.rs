use regex::Regex;
use rustytok::text::to_chars;
use rustytok::tiktok::extract::extract_sigi_state;
use rustytok::tiktok::extract::find_identified;
use rustytok::tiktok::extract::find_script;
use rustytok::tiktok::extract::first_parsed;
use rustytok::tiktok::extract::state_texts;
use rustytok::tiktok::json::parse_json;
use rustytok::tiktok::json::Json;
use rustytok::tiktok::json::JsonNumber;

const SIGI: &str = "<script id=\"SIGI_STATE\"";
const UNIVERSAL: &str = "<script id=\"__UNIVERSAL_DATA_FOR_REHYDRATION__\"";

fn cut(html: &str, range: (usize, usize)) -> String {
    html.chars().skip(range.0).take(range.1 - range.0).collect()
}

fn identified(html: &str, open: &str) -> Option<String> {
    find_identified(&to_chars(html), &to_chars(open)).map(|range| cut(html, range))
}

fn scripts(html: &str) -> Vec<String> {
    let chars = to_chars(html);
    let mut found = Vec::new();
    let mut from = 0;
    while let Some((start, end)) = find_script(&chars, from) {
        found.push(cut(html, (start, end)));
        from = end + "</script>".len();
    }
    found
}

fn object(members: Vec<(&str, Json)>) -> Json {
    Json::Object(members.into_iter().map(|(k, v)| (k.to_string(), v)).collect())
}

fn text(s: &str) -> Json {
    Json::Str(s.to_string())
}

fn number(n: u64) -> Json {
    Json::Number(JsonNumber::Unsigned(n))
}

#[test]
fn identified_element_gives_its_text() {
    let html = "<html><script id=\"SIGI_STATE\">{\"a\":1}</script></html>";
    assert_eq!(identified(html, SIGI), Some("{\"a\":1}".to_string()));
    assert_eq!(identified(html, UNIVERSAL), None);
}

#[test]
fn identified_element_may_carry_attributes() {
    let html = "<script id=\"SIGI_STATE\" type=\"application/json\"\n nonce='x'>text</script>";
    assert_eq!(identified(html, SIGI), Some("text".to_string()));
}

#[test]
fn identified_element_gives_character_positions() {
    let html = "日本語<script id=\"SIGI_STATE\" data-x=\"é\">{\"k\":\"👾\"}</script>語";
    let range = find_identified(&to_chars(html), &to_chars(SIGI)).unwrap();
    assert_eq!(range, (38, 47));
    assert_eq!(cut(html, range), "{\"k\":\"👾\"}");
}

#[test]
fn identified_element_needs_some_text() {
    assert_eq!(identified("<script id=\"SIGI_STATE\"></script>", SIGI), None);
}

#[test]
fn identified_element_holds_no_tag() {
    assert_eq!(identified("<script id=\"SIGI_STATE\">a<b>c</script>", SIGI), None);
    assert_eq!(identified("<script id=\"SIGI_STATE\">a<</script>", SIGI), None);
}

#[test]
fn identified_element_needs_its_closing_tag() {
    assert_eq!(identified("<script id=\"SIGI_STATE\">abc", SIGI), None);
    assert_eq!(identified("<script id=\"SIGI_STATE\">abc</script", SIGI), None);
    assert_eq!(identified("<script id=\"SIGI_STATE\" abc</script>", SIGI), None);
    assert_eq!(identified("<script id=\"SIGI_STATE\"", SIGI), None);
}

#[test]
fn later_identified_element_is_found_when_the_first_fails() {
    let html = "<script id=\"SIGI_STATE\"></script><script id=\"SIGI_STATE\">x</script>";
    assert_eq!(identified(html, SIGI), Some("x".to_string()));
    let html = "<script id=\"SIGI_STATE\" <script id=\"SIGI_STATE\">y</script>";
    assert_eq!(identified(html, SIGI), Some("y".to_string()));
}

#[test]
fn first_identified_element_wins() {
    let html = "<script id=\"SIGI_STATE\">1</script><script id=\"SIGI_STATE\">2</script>";
    assert_eq!(identified(html, SIGI), Some("1".to_string()));
}

#[test]
fn identifier_must_come_first_and_match_exactly() {
    assert_eq!(identified("<script type=\"x\" id=\"SIGI_STATE\">x</script>", SIGI), None);
    assert_eq!(identified("<script id='SIGI_STATE'>x</script>", SIGI), None);
    assert_eq!(identified("<SCRIPT id=\"SIGI_STATE\">x</SCRIPT>", SIGI), None);
    assert_eq!(identified("<script  id=\"SIGI_STATE\">x</script>", SIGI), None);
}

#[test]
fn script_elements_are_listed_in_order() {
    let html = "<script>a</script> <script src=\"x.js\"></script><p><script type=m>c d</script>";
    assert_eq!(scripts(html), vec!["a", "", "c d"]);
}

#[test]
fn script_text_ends_at_the_first_closing_tag() {
    assert_eq!(scripts("<script>a</script>b</script>"), vec!["a"]);
    assert_eq!(scripts("<script>a<b>c</script>"), vec!["a<b>c"]);
    assert_eq!(scripts("<script><script>x</script>"), vec!["<script>x"]);
}

#[test]
fn script_text_holds_no_line_feed() {
    assert_eq!(scripts("<script>a\nb</script>"), Vec::<String>::new());
    assert_eq!(scripts("<script>a\r b</script>"), vec!["a\r b"]);
    assert_eq!(scripts("<script\n>ab</script>"), vec!["ab"]);
    assert_eq!(scripts("<script>a\n<script>b</script>"), vec!["b"]);
}

#[test]
fn script_search_starts_where_it_is_told() {
    let chars = to_chars("<script>a</script><script>b</script>");
    assert_eq!(find_script(&chars, 0), Some((8, 9)));
    assert_eq!(find_script(&chars, 1), Some((26, 27)));
    assert_eq!(find_script(&chars, 18), Some((26, 27)));
    assert_eq!(find_script(&chars, 19), None);
    assert_eq!(find_script(&chars, 1000), None);
}

#[test]
fn page_without_a_script_has_no_state() {
    assert_eq!(extract_sigi_state(""), None);
    assert_eq!(extract_sigi_state("<html><body>nothing here</body></html>"), None);
    assert_eq!(extract_sigi_state("{\"UserModule\":{}}"), None);
}

#[test]
fn page_with_unmarked_scripts_has_no_state() {
    assert_eq!(extract_sigi_state("<script>{\"a\":1}</script>"), None);
    assert_eq!(extract_sigi_state("<script>var UserModule = 1;</script>"), None);
}

#[test]
fn state_round_trips_through_a_page() {
    let document = "{\"UserModule\":{\"users\":{\"alice\":{\"id\":\"1\"}}},\"n\":[1,true,null]}";
    let html = format!("<html><head><script id=\"SIGI_STATE\" type=\"application/json\">{document}</script></head></html>");
    let expected = object(vec![
        (
            "UserModule",
            object(vec![("users", object(vec![("alice", object(vec![("id", text("1"))]))]))]),
        ),
        ("n", Json::Array(vec![number(1), Json::Bool(true), Json::Null])),
    ]);
    assert_eq!(extract_sigi_state(&html), Some(expected));
    assert_eq!(extract_sigi_state(&html), parse_json(document));
}

#[test]
fn state_with_the_other_identifier_round_trips() {
    let document = "{\"__DEFAULT_SCOPE__\":{\"x\":\"y\"}}";
    let html = format!("<script id=\"__UNIVERSAL_DATA_FOR_REHYDRATION__\">{document}</script>");
    let expected = object(vec![("__DEFAULT_SCOPE__", object(vec![("x", text("y"))]))]);
    assert_eq!(extract_sigi_state(&html), Some(expected));
}

#[test]
fn current_identifier_comes_first() {
    let html = "<script id=\"__UNIVERSAL_DATA_FOR_REHYDRATION__\">{\"which\":2}</script>\
                <script id=\"SIGI_STATE\">{\"which\":1}</script>";
    assert_eq!(extract_sigi_state(html), Some(object(vec![("which", number(1))])));
}

#[test]
fn unreadable_state_hands_over_to_the_other_identifier() {
    let html = "<script id=\"SIGI_STATE\">{broken</script>\
                <script id=\"__UNIVERSAL_DATA_FOR_REHYDRATION__\">{\"which\":2}</script>";
    assert_eq!(extract_sigi_state(html), Some(object(vec![("which", number(2))])));
}

#[test]
fn only_the_first_element_of_an_identifier_is_read() {
    let html = "<script id=\"SIGI_STATE\">{broken</script><script id=\"SIGI_STATE\">{\"a\":1}</script>";
    assert_eq!(extract_sigi_state(html), None);
}

#[test]
fn marked_script_is_taken_when_no_identifier_is_found() {
    let html = "<script>var x = 1;</script><script>{\"ItemModule\":{\"7\":{}}}</script>";
    let expected = object(vec![("ItemModule", object(vec![("7", object(vec![]))]))]);
    assert_eq!(extract_sigi_state(html), Some(expected));
    let html = "<script type=\"application/json\">{\"UserModule\":1}</script>";
    assert_eq!(extract_sigi_state(html), Some(object(vec![("UserModule", number(1))])));
}

#[test]
fn marked_script_that_does_not_parse_is_passed_over() {
    let html = "<script>window.x = {\"UserModule\":1};</script>\
                <script>{\"unmarked\":1}</script>\
                <script>{\"UserModule\":2}</script>\
                <script>{\"UserModule\":3}</script>";
    assert_eq!(extract_sigi_state(html), Some(object(vec![("UserModule", number(2))])));
}

#[test]
fn identified_state_with_a_tag_inside_is_found_as_a_marked_script() {
    let html = "<script id=\"SIGI_STATE\">{\"UserModule\":\"<b>\"}</script>";
    assert_eq!(identified(html, SIGI), None);
    assert_eq!(extract_sigi_state(html), Some(object(vec![("UserModule", text("<b>"))])));
}

#[test]
fn marked_state_over_several_lines_is_not_found() {
    let html = "<script>{\"UserModule\":\n1}</script>";
    assert_eq!(extract_sigi_state(html), None);
    let html = "<script id=\"SIGI_STATE\">{\"UserModule\":\n1}</script>";
    assert_eq!(extract_sigi_state(html), Some(object(vec![("UserModule", number(1))])));
}

#[test]
fn candidates_come_in_the_order_in_which_they_are_tried() {
    let html = "<script>{\"UserModule\":0}</script>\
                <script id=\"__UNIVERSAL_DATA_FOR_REHYDRATION__\">two</script>\
                <script>plain</script>\
                <script id=\"SIGI_STATE\">one \"ItemModule\"</script>";
    assert_eq!(
        state_texts(html),
        vec!["one \"ItemModule\"", "two", "{\"UserModule\":0}", "one \"ItemModule\""]
    );
}

#[test]
fn candidates_of_a_page_without_scripts_are_none() {
    assert_eq!(state_texts(""), Vec::<String>::new());
    assert_eq!(state_texts("<p>\"UserModule\"</p>"), Vec::<String>::new());
    assert_eq!(state_texts("<script>x</script><script src=a></script>"), Vec::<String>::new());
}

#[test]
fn marked_candidates_name_a_module_in_quotes() {
    assert_eq!(state_texts("<script>UserModule</script>"), Vec::<String>::new());
    assert_eq!(state_texts("<script>'ItemModule'</script>"), Vec::<String>::new());
    assert_eq!(state_texts("<script>\"itemmodule\"</script>"), Vec::<String>::new());
    assert_eq!(state_texts("<script>a\"ItemModule\"b</script>"), vec!["a\"ItemModule\"b"]);
    assert_eq!(state_texts("<script>\"UserModule\"</script>"), vec!["\"UserModule\""]);
}

#[test]
fn first_text_that_parses_is_the_document() {
    let texts = |list: &[&str]| list.iter().map(|t| t.to_string()).collect::<Vec<String>>();
    assert_eq!(first_parsed(&texts(&[])), None);
    assert_eq!(first_parsed(&texts(&["x", "{", ""])), None);
    assert_eq!(first_parsed(&texts(&["1", "2"])), Some(number(1)));
    assert_eq!(first_parsed(&texts(&["x", "[", "2", "3"])), Some(number(2)));
}

fn pages(parts: &[&str], depth: usize) -> Vec<String> {
    let mut pages = vec![String::new()];
    let mut last = vec![String::new()];
    for _ in 0..depth {
        let mut next = Vec::new();
        for page in &last {
            for part in parts {
                next.push(format!("{page}{part}"));
            }
        }
        pages.extend(next.iter().cloned());
        last = next;
    }
    pages
}

const TAG_PARTS: [&str; 8] = [
    "<script",
    " id=\"SIGI_STATE\"",
    " id=\"__UNIVERSAL_DATA_FOR_REHYDRATION__\"",
    ">",
    "</script>",
    "<",
    "\n",
    "é{}",
];

const WHOLE_PARTS: [&str; 8] = [
    "<script>",
    "<script id=\"SIGI_STATE\">",
    "</script>",
    "<scr",
    "ipt",
    "\r\n",
    "a b",
    "/",
];

fn identified_by_pattern(page: &str, pattern: &Regex) -> Option<String> {
    pattern.captures(page).and_then(|c| c.get(1)).map(|m| m.as_str().to_string())
}

fn scripts_by_pattern(page: &str, pattern: &Regex) -> Vec<String> {
    pattern.captures_iter(page).filter_map(|c| c.get(1)).map(|m| m.as_str().to_string()).collect()
}

#[test]
fn identified_elements_are_those_of_the_pattern() {
    let current = Regex::new("<script id=\"SIGI_STATE\"[^>]*>([^<]+)</script>").unwrap();
    let other =
        Regex::new("<script id=\"__UNIVERSAL_DATA_FOR_REHYDRATION__\"[^>]*>([^<]+)</script>")
            .unwrap();
    for page in pages(&TAG_PARTS, 5) {
        assert_eq!(identified(&page, SIGI), identified_by_pattern(&page, &current), "{page:?}");
        assert_eq!(identified(&page, UNIVERSAL), identified_by_pattern(&page, &other), "{page:?}");
    }
}

#[test]
fn identified_elements_are_those_of_the_pattern_on_whole_tags() {
    let current = Regex::new("<script id=\"SIGI_STATE\"[^>]*>([^<]+)</script>").unwrap();
    for page in pages(&WHOLE_PARTS, 5) {
        assert_eq!(identified(&page, SIGI), identified_by_pattern(&page, &current), "{page:?}");
    }
}

#[test]
fn script_elements_are_those_of_the_pattern() {
    let pattern = Regex::new("<script[^>]*>(.*?)</script>").unwrap();
    for page in pages(&TAG_PARTS, 5) {
        assert_eq!(scripts(&page), scripts_by_pattern(&page, &pattern), "{page:?}");
    }
}

#[test]
fn script_elements_are_those_of_the_pattern_on_whole_tags() {
    let pattern = Regex::new("<script[^>]*>(.*?)</script>").unwrap();
    for page in pages(&WHOLE_PARTS, 5) {
        assert_eq!(scripts(&page), scripts_by_pattern(&page, &pattern), "{page:?}");
    }
}
