//! Finding the embedded state in a page.
//!
//! The platform inlines the data that its own client starts from in a script
//! element of the page. Over the years the element has carried one of two
//! identifiers; where neither is found, any script element whose text names
//! one of two known modules is taken. The page is searched as plain text: an
//! element is recognised by its opening marker, the `>` that ends the tag,
//! and the closing tag.

use vstd::prelude::*;
use vstd::string::StrSliceExecFns;
use crate::text::contains;
use crate::text::find_from;
use crate::text::find_stop;
use crate::text::first_from;
use crate::text::lemma_first_from;
use crate::text::lemma_stop;
use crate::text::lemma_stop_at;
use crate::text::matches_at;
use crate::text::occurs;
use crate::text::occurs_at;
use crate::text::slice;
use crate::text::stop;
use crate::text::to_chars;
use crate::tiktok::json::parse_json;
use crate::tiktok::json::text_model;
use crate::tiktok::json::Json;
use crate::tiktok::json::JsonView;

verus! {

/// How the element with the current identifier opens.
pub open spec fn sigi_open() -> Seq<char> {
    "<script id=\"SIGI_STATE\""@
}

/// How the element with the other identifier opens.
pub open spec fn universal_open() -> Seq<char> {
    "<script id=\"__UNIVERSAL_DATA_FOR_REHYDRATION__\""@
}

/// How any script element opens.
pub open spec fn script_open() -> Seq<char> {
    "<script"@
}

/// How a script element closes.
pub open spec fn script_close() -> Seq<char> {
    "</script>"@
}

/// The name of the module that holds users, as it stands in the state's text.
pub open spec fn user_marker() -> Seq<char> {
    "\"UserModule\""@
}

/// The name of the module that holds videos, as it stands in the state's text.
pub open spec fn item_marker() -> Seq<char> {
    "\"ItemModule\""@
}

/// Where the text of the identified element that opens at `p` starts and
/// ends, if one opens there: `open` stands at `p`; the tag ends at the next
/// `>`; the text runs from there up to the next `<`, is not empty, and is
/// followed by the closing tag.
pub open spec fn identified_at(html: Seq<char>, open: Seq<char>, p: int) -> Option<(int, int)> {
    let tag_end = stop(html, '>', p + open.len());
    let text_end = stop(html, '<', tag_end + 1);
    if occurs_at(html, open, p) && tag_end < html.len() && tag_end + 1 < text_end && occurs_at(
        html,
        script_close(),
        text_end,
    ) {
        Some((tag_end + 1, text_end))
    } else {
        None
    }
}

/// `p` is the least index at which an identified element opens.
pub open spec fn identified_first(html: Seq<char>, open: Seq<char>, p: int) -> bool {
    &&& identified_at(html, open, p) is Some
    &&& forall|q: int| 0 <= q < p ==> identified_at(html, open, q) is None
}

/// Where the text of the first identified element starts and ends.
pub open spec fn identified_range(html: Seq<char>, open: Seq<char>) -> Option<(int, int)> {
    if exists|p: int| identified_first(html, open, p) {
        identified_at(html, open, choose|p: int| identified_first(html, open, p))
    } else {
        None
    }
}

/// The text of the first identified element.
pub open spec fn identified(html: Seq<char>, open: Seq<char>) -> Option<Seq<char>> {
    match identified_range(html, open) {
        Some((start, end)) => Some(html.subrange(start, end)),
        None => None,
    }
}

/// Where the text of the script element that opens at `p` starts and ends,
/// if one opens there: `<script` stands at `p`; the tag ends at the next
/// `>`; the text runs from there up to the next closing tag and holds no
/// line feed.
pub open spec fn script_at(html: Seq<char>, p: int) -> Option<(int, int)> {
    let tag_end = stop(html, '>', p + script_open().len());
    match first_from(html, script_close(), tag_end + 1) {
        Some(text_end) => if occurs_at(html, script_open(), p) && tag_end < html.len() && text_end
            <= stop(html, '\n', tag_end + 1) {
            Some((tag_end + 1, text_end))
        } else {
            None
        },
        None => None,
    }
}

/// `p` is the least index not below `from` at which a script element opens.
pub open spec fn script_first(html: Seq<char>, from: int, p: int) -> bool {
    &&& from <= p
    &&& script_at(html, p) is Some
    &&& forall|q: int| from <= q < p ==> script_at(html, q) is None
}

/// Where the text of the first script element that opens at `from` or later
/// starts and ends.
pub open spec fn next_script(html: Seq<char>, from: int) -> Option<(int, int)> {
    if exists|p: int| script_first(html, from, p) {
        script_at(html, choose|p: int| script_first(html, from, p))
    } else {
        None
    }
}

/// The next script element's text lies behind `from` and inside the page,
/// and the closing tag behind it.
pub proof fn lemma_next_script(html: Seq<char>, from: int)
    ensures
        next_script(html, from) matches Some((start, end)) ==> from < start <= end && end
            + script_close().len() <= html.len(),
{
    if next_script(html, from) is Some {
        let p = choose|p: int| script_first(html, from, p);
        lemma_stop(html, '>', p + script_open().len());
        lemma_first_from(html, script_close(), stop(html, '>', p + script_open().len()) + 1);
    }
}

/// Whether a script's text names one of the two modules.
pub open spec fn names_module(text: Seq<char>) -> bool {
    occurs(text, user_marker()) || occurs(text, item_marker())
}

/// The texts of the script elements that open at `from` or later and name a
/// module, in the order of the page. Elements do not overlap: the search
/// goes on behind the closing tag of the element just seen.
pub open spec fn marked_texts(html: Seq<char>, from: int) -> Seq<Seq<char>>
    decreases html.len() - from,
{
    match next_script(html, from) {
        Some((start, end)) => {
            proof {
                lemma_next_script(html, from);
            }
            let text = html.subrange(start, end);
            let rest = marked_texts(html, end + script_close().len());
            if names_module(text) {
                seq![text] + rest
            } else {
                rest
            }
        },
        None => Seq::empty(),
    }
}

/// A text that may be missing, as a list of at most one.
pub open spec fn in_turn(text: Option<Seq<char>>) -> Seq<Seq<char>> {
    match text {
        Some(t) => seq![t],
        None => Seq::empty(),
    }
}

/// The texts in which a page's state is looked for, in the order in which
/// they are tried: that of the element with the current identifier, that of
/// the element with the other one, then those of the script elements that
/// name a module.
pub open spec fn state_candidates(html: Seq<char>) -> Seq<Seq<char>> {
    in_turn(identified(html, sigi_open())) + in_turn(identified(html, universal_open()))
        + marked_texts(html, 0)
}

/// The document of the first text that parses.
pub open spec fn first_document(texts: Seq<Seq<char>>) -> Option<JsonView>
    decreases texts.len(),
{
    if texts.len() == 0 {
        None
    } else if text_model(texts[0]) is Some {
        text_model(texts[0])
    } else {
        first_document(texts.drop_first())
    }
}

/// The state embedded in a page: the document of the first candidate that
/// parses.
pub open spec fn sigi_state(html: Seq<char>) -> Option<JsonView> {
    first_document(state_candidates(html))
}

/// What a list of texts holds.
pub open spec fn texts_view(texts: Seq<String>) -> Seq<Seq<char>> {
    Seq::new(texts.len(), |i: int| texts[i]@)
}

/// The first document of two lists in a row is that of the first list,
/// where it has one, else that of the second.
pub proof fn lemma_first_document_of_two(first: Seq<Seq<char>>, second: Seq<Seq<char>>)
    ensures
        first_document(first + second) == if first_document(first) is Some {
            first_document(first)
        } else {
            first_document(second)
        },
    decreases first.len(),
{
    if first.len() == 0 {
        assert(first + second =~= second);
    } else {
        assert((first + second)[0] == first[0]);
        assert((first + second).drop_first() =~= first.drop_first() + second);
        lemma_first_document_of_two(first.drop_first(), second);
    }
}

/// An identified element's text lies inside the page, behind its opening.
pub proof fn lemma_identified_at(html: Seq<char>, open: Seq<char>, p: int)
    requires
        identified_at(html, open, p) is Some,
    ensures
        0 <= p,
        identified_at(html, open, p) matches Some((start, end)) && p + open.len() < start < end
            && end + script_close().len() <= html.len(),
{
    lemma_stop(html, '>', p + open.len());
}

/// A script element's text lies inside the page, behind its opening, and the
/// closing tag behind it.
pub proof fn lemma_script_at(html: Seq<char>, p: int)
    requires
        script_at(html, p) is Some,
    ensures
        0 <= p,
        script_at(html, p) matches Some((start, end)) && p + script_open().len() < start <= end
            && end + script_close().len() <= html.len(),
{
    lemma_stop(html, '>', p + script_open().len());
    lemma_first_from(html, script_close(), stop(html, '>', p + script_open().len()) + 1);
}

/// The first identified element is the only first one.
pub proof fn lemma_identified_first(html: Seq<char>, open: Seq<char>, p: int)
    requires
        identified_first(html, open, p),
    ensures
        identified_range(html, open) == identified_at(html, open, p),
{
    let c = choose|k: int| identified_first(html, open, k);
    lemma_identified_at(html, open, p);
    lemma_identified_at(html, open, c);
    if c < p {
        assert(identified_at(html, open, c) is None);
    } else if p < c {
        assert(identified_at(html, open, p) is None);
    }
}

/// The first script element from `from` on is the only first one.
pub proof fn lemma_script_first(html: Seq<char>, from: int, p: int)
    requires
        script_first(html, from, p),
    ensures
        next_script(html, from) == script_at(html, p),
{
    let c = choose|k: int| script_first(html, from, k);
    if c < p {
        assert(script_at(html, c) is None);
    } else if p < c {
        assert(script_at(html, p) is None);
    }
}

/// A page that is put together from an identified element and what stands
/// around it holds that element's text: `open`, attributes without `>`, the
/// `>`, a text that is not empty and holds no `<`, and the closing tag, with
/// no element of that identifier opening before.
pub proof fn lemma_identified(
    before: Seq<char>,
    open: Seq<char>,
    attributes: Seq<char>,
    text: Seq<char>,
    after: Seq<char>,
)
    requires
        forall|q: int|
            0 <= q < before.len() ==> identified_at(
                before + open + attributes + seq!['>'] + text + script_close() + after,
                open,
                q,
            ) is None,
        !attributes.contains('>'),
        text.len() > 0,
        !text.contains('<'),
    ensures
        identified(before + open + attributes + seq!['>'] + text + script_close() + after, open)
            == Some(text),
{
    reveal_strlit("</script>");
    let html = before + open + attributes + seq!['>'] + text + script_close() + after;
    let p = before.len() as int;
    let tag_end = p + open.len() + attributes.len();
    let text_end = tag_end + 1 + text.len();
    assert(html.subrange(p, p + open.len()) =~= open);
    assert forall|j: int| p + open.len() <= j < tag_end implies html[j] != '>' by {
        assert(html[j] == attributes[j - p - open.len()]);
    }
    lemma_stop_at(html, '>', p + open.len(), tag_end);
    assert forall|j: int| tag_end + 1 <= j < text_end implies html[j] != '<' by {
        assert(html[j] == text[j - tag_end - 1]);
    }
    assert(html[text_end] == script_close()[0]);
    lemma_stop_at(html, '<', tag_end + 1, text_end);
    assert(html.subrange(text_end, text_end + script_close().len()) =~= script_close());
    assert(identified_at(html, open, p) == Some((tag_end + 1, text_end)));
    lemma_identified_first(html, open, p);
    assert(html.subrange(tag_end + 1, text_end) =~= text);
}

/// The state of a page that holds an element with the current identifier
/// is the document that the element's text parses to, whatever stands around
/// the element.
pub proof fn lemma_state_of_current_script(
    before: Seq<char>,
    attributes: Seq<char>,
    text: Seq<char>,
    after: Seq<char>,
)
    requires
        forall|q: int|
            0 <= q < before.len() ==> identified_at(
                before + sigi_open() + attributes + seq!['>'] + text + script_close() + after,
                sigi_open(),
                q,
            ) is None,
        !attributes.contains('>'),
        text.len() > 0,
        !text.contains('<'),
        text_model(text) is Some,
    ensures
        sigi_state(before + sigi_open() + attributes + seq!['>'] + text + script_close() + after)
            == text_model(text),
{
    let html = before + sigi_open() + attributes + seq!['>'] + text + script_close() + after;
    lemma_identified(before, sigi_open(), attributes, text, after);
    assert(state_candidates(html)[0] == text);
}

/// The state of a page that holds an element with the other identifier, and
/// none with the current one that parses, is the document that the element's
/// text parses to.
pub proof fn lemma_state_of_other_script(
    before: Seq<char>,
    attributes: Seq<char>,
    text: Seq<char>,
    after: Seq<char>,
)
    requires
        forall|q: int|
            0 <= q < before.len() ==> identified_at(
                before + universal_open() + attributes + seq!['>'] + text + script_close() + after,
                universal_open(),
                q,
            ) is None,
        identified(
            before + universal_open() + attributes + seq!['>'] + text + script_close() + after,
            sigi_open(),
        ) matches Some(current) ==> text_model(current) is None,
        !attributes.contains('>'),
        text.len() > 0,
        !text.contains('<'),
        text_model(text) is Some,
    ensures
        sigi_state(
            before + universal_open() + attributes + seq!['>'] + text + script_close() + after,
        ) == text_model(text),
{
    let html = before + universal_open() + attributes + seq!['>'] + text + script_close() + after;
    lemma_identified(before, universal_open(), attributes, text, after);
    let current = in_turn(identified(html, sigi_open()));
    let rest = in_turn(identified(html, universal_open())) + marked_texts(html, 0);
    assert(state_candidates(html) =~= current + rest);
    lemma_first_document_of_two(current, rest);
    assert(first_document(current) is None) by {
        if current.len() > 0 {
            assert(current.drop_first().len() == 0);
            assert(first_document(current.drop_first()) is None);
        }
    }
    assert(rest[0] == text);
}

/// A page in which no script element opens has nothing to look for its
/// state in, and so no state.
pub proof fn lemma_no_script_no_state(html: Seq<char>)
    requires
        !occurs(html, script_open()),
    ensures
        state_candidates(html) == Seq::<Seq<char>>::empty(),
        sigi_state(html) is None,
{
    reveal_strlit("<script");
    reveal_strlit("<script id=\"SIGI_STATE\"");
    reveal_strlit("<script id=\"__UNIVERSAL_DATA_FOR_REHYDRATION__\"");
    assert forall|p: int| identified_at(html, sigi_open(), p) is None by {
        if occurs_at(html, sigi_open(), p) {
            assert(html.subrange(p, p + sigi_open().len()).subrange(0, 7) =~= script_open());
            assert(html.subrange(p, p + 7) =~= html.subrange(p, p + sigi_open().len()).subrange(
                0,
                7,
            ));
            assert(occurs_at(html, script_open(), p));
        }
    }
    assert forall|p: int| identified_at(html, universal_open(), p) is None by {
        if occurs_at(html, universal_open(), p) {
            assert(html.subrange(p, p + universal_open().len()).subrange(0, 7) =~= script_open());
            assert(html.subrange(p, p + 7) =~= html.subrange(
                p,
                p + universal_open().len(),
            ).subrange(0, 7));
            assert(occurs_at(html, script_open(), p));
        }
    }
    assert forall|p: int| script_at(html, p) is None by {
        if occurs_at(html, script_open(), p) {
            assert(occurs(html, script_open()));
        }
    }
    assert(state_candidates(html) =~= Seq::<Seq<char>>::empty());
}

/// Whether an identified element opens at `p`, and where its text lies.
fn identified_here(html: &Vec<char>, open: &Vec<char>, close: &Vec<char>, p: usize) -> (r: Option<
    (usize, usize),
>)
    requires
        occurs_at(html@, open@, p as int),
        close@ == script_close(),
    ensures
        match r {
            Some((start, end)) => identified_at(html@, open@, p as int) == Some(
                (start as int, end as int),
            ),
            None => identified_at(html@, open@, p as int) is None,
        },
{
    assert(p + open.len() <= html.len());
    let tag_end = find_stop(html, '>', p + open.len());
    if tag_end >= html.len() {
        return None;
    }
    let text_end = find_stop(html, '<', tag_end + 1);
    if tag_end + 1 < text_end && matches_at(html, close, text_end) {
        Some((tag_end + 1, text_end))
    } else {
        None
    }
}

/// Where the text of the first element that `open` identifies starts and ends.
pub fn find_identified(html: &Vec<char>, open: &Vec<char>) -> (r: Option<(usize, usize)>)
    ensures
        match r {
            Some((start, end)) => {
                &&& identified_range(html@, open@) == Some((start as int, end as int))
                &&& start < end <= html.len()
            },
            None => identified_range(html@, open@) is None,
        },
{
    let close = to_chars("</script>");
    let mut from: usize = 0;
    loop
        invariant
            close@ == script_close(),
            forall|q: int| 0 <= q < from ==> identified_at(html@, open@, q) is None,
        decreases html.len() - from,
    {
        match find_from(html, open, from) {
            Some(p) => {
                proof {
                    lemma_first_from(html@, open@, from as int);
                }
                match identified_here(html, open, &close, p) {
                    Some(range) => {
                        proof {
                            lemma_identified_first(html@, open@, p as int);
                            lemma_identified_at(html@, open@, p as int);
                        }
                        return Some(range);
                    },
                    None => {
                        if p >= html.len() {
                            return None;
                        }
                        from = p + 1;
                    },
                }
            },
            None => {
                proof {
                    lemma_first_from(html@, open@, from as int);
                }
                return None;
            },
        }
    }
}

/// Whether a script element opens at `p`, and where its text lies.
fn script_here(html: &Vec<char>, open: &Vec<char>, close: &Vec<char>, p: usize) -> (r: Option<
    (usize, usize),
>)
    requires
        occurs_at(html@, open@, p as int),
        open@ == script_open(),
        close@ == script_close(),
    ensures
        match r {
            Some((start, end)) => script_at(html@, p as int) == Some((start as int, end as int)),
            None => script_at(html@, p as int) is None,
        },
{
    assert(p + open.len() <= html.len());
    let tag_end = find_stop(html, '>', p + open.len());
    if tag_end >= html.len() {
        proof {
            lemma_first_from(html@, close@, tag_end + 1);
        }
        return None;
    }
    match find_from(html, close, tag_end + 1) {
        Some(text_end) => {
            let line_end = find_stop(html, '\n', tag_end + 1);
            if text_end <= line_end {
                Some((tag_end + 1, text_end))
            } else {
                None
            }
        },
        None => None,
    }
}

/// Where the text of the first script element that opens at `from` or later
/// starts and ends.
pub fn find_script(html: &Vec<char>, from: usize) -> (r: Option<(usize, usize)>)
    ensures
        match r {
            Some((start, end)) => {
                &&& next_script(html@, from as int) == Some((start as int, end as int))
                &&& from < start <= end
                &&& end + script_close().len() <= html.len()
            },
            None => next_script(html@, from as int) is None,
        },
{
    let open = to_chars("<script");
    let close = to_chars("</script>");
    let mut at: usize = from;
    loop
        invariant
            open@ == script_open(),
            close@ == script_close(),
            from <= at,
            forall|q: int| from <= q < at ==> script_at(html@, q) is None,
        decreases html.len() - at,
    {
        match find_from(html, &open, at) {
            Some(p) => {
                proof {
                    lemma_first_from(html@, open@, at as int);
                    assert forall|q: int| at <= q < p implies script_at(html@, q) is None by {}
                }
                match script_here(html, &open, &close, p) {
                    Some(range) => {
                        proof {
                            lemma_script_first(html@, from as int, p as int);
                            lemma_script_at(html@, p as int);
                        }
                        return Some(range);
                    },
                    None => {
                        if p >= html.len() {
                            return None;
                        }
                        at = p + 1;
                    },
                }
            },
            None => {
                proof {
                    lemma_first_from(html@, open@, at as int);
                }
                return None;
            },
        }
    }
}

/// The texts in which a page's state is looked for, in the order in which
/// they are tried.
pub fn state_texts(html: &str) -> (texts: Vec<String>)
    ensures
        texts_view(texts@) == state_candidates(html@),
{
    let chars = to_chars(html);
    let close = to_chars("</script>");
    let user = to_chars("\"UserModule\"");
    let item = to_chars("\"ItemModule\"");
    let mut texts: Vec<String> = Vec::new();
    if let Some((start, end)) = find_identified(&chars, &to_chars("<script id=\"SIGI_STATE\"")) {
        texts.push(html.substring_char(start, end).to_owned());
    }
    if let Some((start, end)) = find_identified(
        &chars,
        &to_chars("<script id=\"__UNIVERSAL_DATA_FOR_REHYDRATION__\""),
    ) {
        texts.push(html.substring_char(start, end).to_owned());
    }
    assert(texts_view(texts@) =~= in_turn(identified(html@, sigi_open())) + in_turn(
        identified(html@, universal_open()),
    ));
    let mut from: usize = 0;
    loop
        invariant
            chars@ == html@,
            close@ == script_close(),
            user@ == user_marker(),
            item@ == item_marker(),
            texts_view(texts@) + marked_texts(html@, from as int) == state_candidates(html@),
        decreases chars.len() - from,
    {
        match find_script(&chars, from) {
            Some((start, end)) => {
                let text = slice(&chars, start, end);
                let ghost found = texts_view(texts@);
                let ghost rest = marked_texts(html@, end + close@.len());
                if contains(&text, &user) || contains(&text, &item) {
                    texts.push(html.substring_char(start, end).to_owned());
                    assert(texts_view(texts@) =~= found.push(text@));
                    assert(found.push(text@) + rest =~= found + (seq![text@] + rest));
                }
                assert(end + close.len() <= chars.len());
                from = end + close.len();
            },
            None => {
                assert(texts_view(texts@) + Seq::<Seq<char>>::empty() =~= texts_view(texts@));
                return texts;
            },
        }
    }
}

/// The document of the first text that parses.
pub fn first_parsed(texts: &Vec<String>) -> (r: Option<Json>)
    ensures
        r.deep_view() == first_document(texts_view(texts@)),
{
    let ghost all = texts_view(texts@);
    assert(all.skip(0) =~= all);
    let mut i: usize = 0;
    while i < texts.len()
        invariant
            i <= texts.len(),
            all == texts_view(texts@),
            first_document(all) == first_document(all.skip(i as int)),
        decreases texts.len() - i,
    {
        assert(all.skip(i as int)[0] == texts@[i as int]@);
        let parsed = parse_json(texts[i].as_str());
        if parsed.is_some() {
            return parsed;
        }
        assert(all.skip(i as int).drop_first() =~= all.skip(i + 1));
        i += 1;
    }
    None
}

/// The state embedded in a page, or `None` where the page holds none that
/// is recognised: that is an expected outcome and no failure.
pub fn extract_sigi_state(html: &str) -> (r: Option<Json>)
    ensures
        r.deep_view() == sigi_state(html@),
{
    first_parsed(&state_texts(html))
}

} // verus!
