//! The hypermedia links of a page: the relations that a `Link` header names
//! and the URL each one points to.

use regex::Regex;
use vstd::prelude::*;
use crate::text::{
    contains_text, find_char, has_char, index_of, lemma_index_of, occurs, split, split_chars,
    texts, to_chars, to_string,
};

verus! {

/// The relations that a link can have to the page it comes with.
#[derive(Clone, Copy, Debug, PartialEq, Eq, Structural)]
pub enum Relation {
    Next,
    Prev,
    First,
    Last,
}

impl Relation {
    /// The attribute by which an entry names this relation, quotes
    /// included. Relation names are matched case-sensitively.
    pub open spec fn attribute(self) -> Seq<char> {
        match self {
            Relation::Next => "rel=\"next\""@,
            Relation::Prev => "rel=\"prev\""@,
            Relation::First => "rel=\"first\""@,
            Relation::Last => "rel=\"last\""@,
        }
    }

    /// The attribute by which an entry names this relation.
    pub fn attribute_text(self) -> (text: &'static str)
        ensures
            text@ == self.attribute(),
    {
        match self {
            Relation::Next => "rel=\"next\"",
            Relation::Prev => "rel=\"prev\"",
            Relation::First => "rel=\"first\"",
            Relation::Last => "rel=\"last\"",
        }
    }
}

/// Mathematical value of a set of pagination links: for each relation the
/// URL it points to, if the header named it.
pub struct LinkSet {
    pub next: Option<Seq<char>>,
    pub prev: Option<Seq<char>>,
    pub first: Option<Seq<char>>,
    pub last: Option<Seq<char>>,
}

/// The text of an optional string.
pub open spec fn text_of(value: Option<String>) -> Option<Seq<char>> {
    match value {
        Some(s) => Some(s@),
        None => None,
    }
}

/// The links of one page. A page without a `next` link is the last one.
pub struct PaginationLinks {
    pub next_link: Option<String>,
    pub prev_link: Option<String>,
    pub first_link: Option<String>,
    pub last_link: Option<String>,
}

impl View for PaginationLinks {
    type V = LinkSet;

    open spec fn view(&self) -> LinkSet {
        LinkSet {
            next: text_of(self.next_link),
            prev: text_of(self.prev_link),
            first: text_of(self.first_link),
            last: text_of(self.last_link),
        }
    }
}

impl LinkSet {
    /// The set that names no relation.
    pub open spec fn empty() -> LinkSet {
        LinkSet { next: None, prev: None, first: None, last: None }
    }
}

impl PaginationLinks {
    /// The links of a page whose answer carried no `Link` header: no
    /// relation is set.
    pub fn none() -> (links: PaginationLinks)
        ensures
            links@ == LinkSet::empty(),
    {
        PaginationLinks { next_link: None, prev_link: None, first_link: None, last_link: None }
    }
}

/// Whether `c` is a space or a tab.
pub open spec fn is_blank(c: char) -> bool {
    c == ' ' || c == '\t'
}

/// The number of blanks that `s` begins with.
pub open spec fn blanks(s: Seq<char>) -> int
    decreases s.len(),
{
    if s.len() > 0 && is_blank(s[0]) {
        1 + blanks(s.drop_first())
    } else {
        0
    }
}

/// The URL of an entry: the text between `<`, which opens the entry after
/// any blanks, and the first `>` after it. An entry that does not open with
/// `<`, has no closing `>`, or has a second `<` inside the brackets has no
/// URL.
pub open spec fn target(entry: Seq<char>) -> Option<Seq<char>> {
    let open = blanks(entry);
    if 0 <= open < entry.len() && entry[open] == '<' {
        let inner = entry.skip(open + 1);
        let close = index_of(inner, '>');
        if 0 <= close < inner.len() && !has_char(inner.take(close), '<') {
            Some(inner.take(close))
        } else {
            None
        }
    } else {
        None
    }
}

/// The text of an entry after the `>` that closes its URL.
pub open spec fn parameters(entry: Seq<char>) -> Seq<char> {
    let inner = entry.skip(blanks(entry) + 1);
    inner.skip(index_of(inner, '>') + 1)
}

/// The URL that `entry` gives for `relation`: its URL, if it has one and
/// its parameters hold the attribute of `relation`. An entry that gives no
/// URL for any relation is malformed.
pub open spec fn link_of(entry: Seq<char>, relation: Relation) -> Option<Seq<char>> {
    if target(entry) is Some && occurs(parameters(entry), relation.attribute()) {
        target(entry)
    } else {
        None
    }
}

/// The URL for `relation` among `entries`: that of the last entry that
/// gives one.
pub open spec fn last_link(entries: Seq<Seq<char>>, relation: Relation) -> Option<Seq<char>>
    decreases entries.len(),
{
    if entries.len() == 0 {
        None
    } else if link_of(entries.last(), relation) is Some {
        link_of(entries.last(), relation)
    } else {
        last_link(entries.drop_last(), relation)
    }
}

/// The links that a list of entries gives.
pub open spec fn links_among(entries: Seq<Seq<char>>) -> LinkSet {
    LinkSet {
        next: last_link(entries, Relation::Next),
        prev: last_link(entries, Relation::Prev),
        first: last_link(entries, Relation::First),
        last: last_link(entries, Relation::Last),
    }
}

/// The links that the value of a `Link` header gives: those of its
/// comma-separated entries.
pub open spec fn parse(header: Seq<char>) -> LinkSet {
    links_among(split(header, ','))
}

/// The links of an answer: those of its `Link` header, or none when it
/// carried no such header.
pub open spec fn links_of(header: Option<Seq<char>>) -> LinkSet {
    match header {
        Some(value) => parse(value),
        None => LinkSet::empty(),
    }
}

/// Whether `c` is `<` or `>`.
pub open spec fn is_angle_bracket(c: char) -> bool {
    c == '<' || c == '>'
}

/// `s` without its angle brackets.
pub open spec fn without_angle_brackets(s: Seq<char>) -> Seq<char> {
    s.filter(|c: char| !is_angle_bracket(c))
}

/// The regular expression that matches one angle bracket.
pub const ANGLE_BRACKET: &'static str = "[<>]";

/// Calls `regex::Regex::new` on `pattern` and `regex::Regex::replace_all`
/// on the outcome, with `text` and the replacement `with`.
///
/// Trusted: for the pattern `[<>]`, which is a valid regular expression
/// that matches exactly one `<` or one `>`, and an empty replacement, the
/// result is `text` with each of those characters left out and every other
/// character kept in place.
#[verifier::external_body]
fn replace_all(pattern: &str, text: &str, with: &str) -> (replaced: String)
    requires
        pattern@ == ANGLE_BRACKET@,
        with@.len() == 0,
    ensures
        replaced@ == without_angle_brackets(text@),
{
    Regex::new(pattern).unwrap().replace_all(text, with).into_owned()
}

/// A text without angle brackets loses nothing when they are taken out.
proof fn lemma_nothing_to_take_out(s: Seq<char>)
    requires
        forall|i: int| 0 <= i < s.len() ==> !is_angle_bracket(s[i]),
    ensures
        without_angle_brackets(s) == s,
    decreases s.len(),
{
    reveal(Seq::filter);
    if s.len() > 0 {
        lemma_nothing_to_take_out(s.drop_last());
        assert(s.drop_last().push(s.last()) =~= s);
    }
}

/// Taking the angle brackets out of `<inner>` leaves `inner`, where `inner`
/// has none of its own.
proof fn lemma_unwrap_brackets(inner: Seq<char>)
    requires
        forall|i: int| 0 <= i < inner.len() ==> !is_angle_bracket(inner[i]),
    ensures
        without_angle_brackets((seq!['<'] + inner).push('>')) == inner,
{
    let keep = |c: char| !is_angle_bracket(c);
    lemma_nothing_to_take_out(inner);
    Seq::<char>::empty().lemma_filter_push('<', keep);
    assert(Seq::<char>::empty().filter(keep) =~= Seq::<char>::empty()) by {
        reveal(Seq::filter);
    }
    assert(Seq::<char>::empty().push('<') =~= seq!['<']);
    Seq::filter_distributes_over_add(seq!['<'], inner, keep);
    (seq!['<'] + inner).lemma_filter_push('>', keep);
    assert(Seq::<char>::empty() + inner =~= inner);
}

/// Whether `c` occurs among the first `n` characters of `s` is told by
/// where it occurs first.
proof fn lemma_has_char_before(s: Seq<char>, c: char, n: int)
    requires
        0 <= n <= s.len(),
    ensures
        has_char(s.take(n), c) <==> index_of(s, c) < n,
{
    lemma_index_of(s, c);
    let at = index_of(s, c);
    if at < n {
        assert(s.take(n)[at] == c);
    }
    if has_char(s.take(n), c) {
        let i = choose|i: int| 0 <= i < s.take(n).len() && s.take(n)[i] == c;
        assert(s[i] == c);
    }
}

/// The number of blanks that `entry` begins with.
fn skip_blanks(entry: &Vec<char>) -> (open: usize)
    ensures
        open == blanks(entry@),
        open <= entry.len(),
{
    let mut open: usize = 0;
    assert(entry@.skip(0) =~= entry@);
    while open < entry.len() && (entry[open] == ' ' || entry[open] == '\t')
        invariant
            open <= entry.len(),
            blanks(entry@) == open + blanks(entry@.skip(open as int)),
        decreases entry.len() - open,
    {
        assert(entry@.skip(open as int).drop_first() =~= entry@.skip(open + 1));
        open += 1;
    }
    open
}

/// The span from a `<` to a `>` is the text between them, bracketed.
proof fn lemma_span_shape(entry: Seq<char>, open: int, close: int)
    requires
        0 <= open < close < entry.len(),
        entry[open] == '<',
        entry[close] == '>',
    ensures
        entry.subrange(open, close + 1) == (seq!['<'] + entry.subrange(open + 1, close)).push('>'),
{
    let left = entry.subrange(open, close + 1);
    let right = (seq!['<'] + entry.subrange(open + 1, close)).push('>');
    assert(left.len() == right.len());
    assert forall|i: int| 0 <= i < left.len() implies left[i] == right[i] by {
        if i == 0 {
        } else if i < close - open {
            assert(right[i] == entry.subrange(open + 1, close)[i - 1]);
        } else {
        }
    }
    assert(left =~= right);
}

/// Taking the angle brackets out of the span from a `<` to a `>` with
/// none between them leaves the text between them.
proof fn lemma_span_unwrapped(entry: Seq<char>, open: int, close: int)
    requires
        0 <= open < close < entry.len(),
        entry[open] == '<',
        entry[close] == '>',
        forall|i: int| open < i < close ==> !is_angle_bracket(#[trigger] entry[i]),
    ensures
        without_angle_brackets(entry.subrange(open, close + 1)) == entry.subrange(open + 1, close),
{
    let url = entry.subrange(open + 1, close);
    assert forall|i: int| 0 <= i < url.len() implies !is_angle_bracket(#[trigger] url[i]) by {
        assert(url[i] == entry[open + 1 + i]);
    }
    lemma_unwrap_brackets(url);
    lemma_span_shape(entry, open, close);
}

/// What the positions of the brackets of an entry say of it: `open` is
/// where its `<` stands, `close` where the first `>` after it stands, and
/// `second` where the first `<` after it stands.
proof fn lemma_bracketed(entry: Seq<char>, open: int, close: int, second: int)
    requires
        open == blanks(entry),
        0 <= open < entry.len(),
        entry[open] == '<',
        close == open + 1 + index_of(entry.skip(open + 1), '>'),
        second == open + 1 + index_of(entry.skip(open + 1), '<'),
        close < entry.len(),
    ensures
        open < close,
        entry[close] == '>',
        parameters(entry) == entry.skip(close + 1),
        second < close ==> target(entry) is None,
        second >= close ==> target(entry) == Some(entry.subrange(open + 1, close)),
        second >= close ==> forall|i: int| open < i < close ==> !is_angle_bracket(entry[i]),
{
    let inner = entry.skip(open + 1);
    let n = close - open - 1;
    lemma_index_of(inner, '>');
    lemma_index_of(inner, '<');
    lemma_has_char_before(inner, '<', n);
    assert(inner.skip(n + 1) =~= entry.skip(close + 1));
    assert(inner.take(n) =~= entry.subrange(open + 1, close));
    assert(entry[close] == inner[n]);
    if second >= close {
        assert forall|i: int| open < i < close implies !is_angle_bracket(entry[i]) by {
            assert(entry[i] == inner[i - open - 1]);
        }
    }
}

/// The URL of `entry` and the position where its parameters begin, or
/// `None` for an entry without a URL.
fn parse_target(entry: &Vec<char>) -> (found: Option<(String, usize)>)
    ensures
        match found {
            Some((url, rest)) => target(entry@) == Some(url@) && rest <= entry.len()
                && entry@.skip(rest as int) == parameters(entry@),
            None => target(entry@) is None,
        },
{
    let open = skip_blanks(entry);
    if open >= entry.len() || entry[open] != '<' {
        return None;
    }
    let close = find_char(entry, open + 1, '>');
    if close >= entry.len() {
        return None;
    }
    let second = find_char(entry, open + 1, '<');
    proof {
        lemma_bracketed(entry@, open as int, close as int, second as int);
        reveal_strlit("");
    }
    if second < close {
        return None;
    }
    proof {
        lemma_span_unwrapped(entry@, open as int, close as int);
    }
    let span = to_string(entry, open, close + 1);
    let url = replace_all(ANGLE_BRACKET, span.as_str(), "");
    Some((url, close + 1))
}

impl PaginationLinks {
    /// Reads the value of a `Link` header: a comma-separated list of
    /// entries of the form `<url>; rel="name"`. For each relation the URL of
    /// the last entry that names it is kept; malformed entries are skipped.
    pub fn new(input: &str) -> (links: PaginationLinks)
        ensures
            links@ == parse(input@),
    {
        let chars = to_chars(input);
        let entries = split_chars(&chars, ',');
        let next = to_chars(Relation::Next.attribute_text());
        let prev = to_chars(Relation::Prev.attribute_text());
        let first = to_chars(Relation::First.attribute_text());
        let last = to_chars(Relation::Last.attribute_text());
        let mut links = PaginationLinks::none();
        let mut i: usize = 0;
        while i < entries.len()
            invariant
                i <= entries.len(),
                texts(entries@) == split(input@, ','),
                next@ == Relation::Next.attribute(),
                prev@ == Relation::Prev.attribute(),
                first@ == Relation::First.attribute(),
                last@ == Relation::Last.attribute(),
                links@ == links_among(texts(entries@).take(i as int)),
            decreases entries.len() - i,
        {
            let entry = &entries[i];
            proof {
                let seen = texts(entries@).take(i + 1);
                assert(seen.drop_last() =~= texts(entries@).take(i as int));
                assert(seen.last() == entry@);
            }
            match parse_target(entry) {
                None => {},
                Some((url, rest)) => {
                    if contains_text(entry, rest, &next) {
                        links.next_link = Some(url.clone());
                    }
                    if contains_text(entry, rest, &prev) {
                        links.prev_link = Some(url.clone());
                    }
                    if contains_text(entry, rest, &first) {
                        links.first_link = Some(url.clone());
                    }
                    if contains_text(entry, rest, &last) {
                        links.last_link = Some(url);
                    }
                },
            }
            i += 1;
        }
        assert(texts(entries@).take(entries.len() as int) =~= texts(entries@));
        links
    }

    /// Reads the `Link` header of an answer, if it carried one.
    pub fn from_header(header: &Option<String>) -> (links: PaginationLinks)
        ensures
            links@ == links_of(text_of(*header)),
    {
        match header {
            Some(value) => PaginationLinks::new(value.as_str()),
            None => PaginationLinks::none(),
        }
    }
}

} // verus!
