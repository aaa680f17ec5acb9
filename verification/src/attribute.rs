//! Attributes in markup, found by their shape: a lead, an opening quote, and a value that runs
//! up to the first quote on the same line.
//!
//! Matches are taken from left to right and do not overlap: the search for the next one begins
//! behind the quote that closed the last.

use crate::text::{chars_of, occurs_at, occurs_in, stands_at, texts};
use vstd::prelude::*;

verus! {

/// Whether `c` delimits a value: the double quote, and the single quote where `single` admits it.
pub open spec fn is_quote(c: char, single: bool) -> bool {
    c == '"' || (single && c == '\'')
}

/// The value that begins at `from` ends before `end`: a quote stands at `end`, and between
/// `from` and `end` there is neither a quote nor a line break.
pub open spec fn closes_at(text: Seq<char>, from: int, end: int, single: bool) -> bool {
    &&& 0 <= from <= end < text.len()
    &&& is_quote(text[end], single)
    &&& forall|k: int| from <= k < end ==> !is_quote(#[trigger] text[k], single) && text[k] != '\n'
}

/// Where the value that begins at `from` ends, if it ends on its line.
pub open spec fn value_end(text: Seq<char>, from: int, single: bool) -> Option<int>
    decreases text.len() - from,
{
    if from < 0 || from >= text.len() {
        None
    } else if is_quote(text[from], single) {
        Some(from)
    } else if text[from] == '\n' {
        None
    } else {
        value_end(text, from + 1, single)
    }
}

/// One match of a shape: it begins at `at`, and the quote that closes its value stands at `end`.
pub struct Span {
    pub at: int,
    pub end: int,
}

/// The shape of an attribute: `lead`, then an opening quote, then a value that begins with
/// `stem` and runs up to the closing quote. Where `single` holds, a single quote opens and
/// closes a value as a double quote does.
pub struct Shape {
    pub lead: Seq<char>,
    pub stem: Seq<char>,
    pub single: bool,
}

impl Shape {
    /// Where the value of a match that begins at `at` begins.
    pub open spec fn value_start(self, at: int) -> int {
        at + self.lead.len() + 1
    }

    /// Where the part of the value behind the stem begins.
    pub open spec fn rest_start(self, at: int) -> int {
        self.value_start(at) + self.stem.len()
    }

    /// The lead, an opening quote and the stem stand at `at`.
    pub open spec fn opens_at(self, text: Seq<char>, at: int) -> bool {
        &&& occurs_at(text, at, self.lead)
        &&& at + self.lead.len() < text.len()
        &&& is_quote(text[at + self.lead.len()], self.single)
        &&& occurs_at(text, self.value_start(at), self.stem)
    }

    /// The shape matches `text` from `span.at` up to the closing quote at `span.end`.
    pub open spec fn is_match(self, text: Seq<char>, span: Span) -> bool {
        &&& self.opens_at(text, span.at)
        &&& closes_at(text, self.rest_start(span.at), span.end, self.single)
    }

    /// Where the match that begins at `at` ends, if one begins there.
    pub open spec fn match_end(self, text: Seq<char>, at: int) -> Option<int> {
        if self.opens_at(text, at) {
            value_end(text, self.rest_start(at), self.single)
        } else {
            None
        }
    }

    /// The first match in `text` that begins at `from` or behind it.
    pub open spec fn next_match(self, text: Seq<char>, from: int) -> Option<Span>
        decreases text.len() - from,
    {
        if from < 0 || from >= text.len() {
            None
        } else {
            match self.match_end(text, from) {
                Some(end) => Some(Span { at: from, end }),
                None => self.next_match(text, from + 1),
            }
        }
    }

    /// The matches in `text` from index `from` on, from left to right: the first one, then
    /// those behind its closing quote.
    pub open spec fn matches_from(self, text: Seq<char>, from: int) -> Seq<Span>
        decreases text.len() - from,
    {
        let next = self.next_match(text, from);
        if next is Some && from <= next->0.end < text.len() {
            seq![next->0] + self.matches_from(text, next->0.end + 1)
        } else {
            Seq::empty()
        }
    }

    /// The matches in `text`, from left to right.
    pub open spec fn matches(self, text: Seq<char>) -> Seq<Span> {
        self.matches_from(text, 0)
    }

    /// The value of a match: what stands between its quotes.
    pub open spec fn value(self, text: Seq<char>, span: Span) -> Seq<char> {
        text.subrange(self.value_start(span.at), span.end)
    }

    /// The values of the matches in `text`, from left to right.
    pub open spec fn values(self, text: Seq<char>) -> Seq<Seq<char>> {
        self.matches(text).map_values(|span: Span| self.value(text, span))
    }

    /// The value of the first match in `text`, if there is a match.
    pub open spec fn first_value(self, text: Seq<char>) -> Option<Seq<char>> {
        match self.next_match(text, 0) {
            Some(span) => Some(self.value(text, span)),
            None => None,
        }
    }

    /// A match begins at `at`.
    pub open spec fn begins_at(self, text: Seq<char>, at: int) -> bool {
        self.match_end(text, at) is Some
    }

    /// `spans` are matches in `text` that begin at `from` or behind it and stand from left to
    /// right without overlap, and wherever else a match begins from `from` on, it begins
    /// inside one of them.
    pub open spec fn covers(self, text: Seq<char>, from: int, spans: Seq<Span>) -> bool {
        &&& forall|i: int|
            0 <= i < spans.len() ==> from <= (#[trigger] spans[i]).at && self.is_match(
                text,
                spans[i],
            )
        &&& forall|i: int, j: int|
            0 <= i < j < spans.len() ==> (#[trigger] spans[i]).end < (#[trigger] spans[j]).at
        &&& forall|at: int| from <= at && #[trigger] self.begins_at(text, at) ==> within(spans, at)
    }
}

/// Index `at` lies inside one of `spans`.
pub open spec fn within(spans: Seq<Span>, at: int) -> bool {
    exists|i: int| 0 <= i < spans.len() && (#[trigger] spans[i]).at <= at <= spans[i].end
}

/// A value ends where `value_end` says, and nowhere where it says none.
pub proof fn lemma_value_end(text: Seq<char>, from: int, single: bool)
    ensures
        match value_end(text, from, single) {
            Some(end) => closes_at(text, from, end, single),
            None => forall|end: int| !closes_at(text, from, end, single),
        },
    decreases text.len() - from,
{
    if 0 <= from < text.len() && !is_quote(text[from], single) && text[from] != '\n' {
        lemma_value_end(text, from + 1, single);
        match value_end(text, from + 1, single) {
            Some(end) => {},
            None => {
                assert forall|end: int| !closes_at(text, from, end, single) by {
                    if closes_at(text, from, end, single) {
                        assert(closes_at(text, from + 1, end, single));
                    }
                }
            },
        }
    } else if 0 <= from < text.len() && text[from] == '\n' && !is_quote(text[from], single) {
        assert forall|end: int| !closes_at(text, from, end, single) by {
            if closes_at(text, from, end, single) {
                assert(!is_quote(text[from], single) && text[from] != '\n');
            }
        }
    }
}

/// A value closes at one index at most.
pub proof fn lemma_closes_once(text: Seq<char>, from: int, a: int, b: int, single: bool)
    requires
        closes_at(text, from, a, single),
        closes_at(text, from, b, single),
    ensures
        a == b,
{
    if a < b {
        assert(!is_quote(text[a], single));
    } else if b < a {
        assert(!is_quote(text[b], single));
    }
}

impl Shape {
    /// A match that begins at `at` ends where `match_end` says, and none begins there where
    /// it says none.
    pub proof fn lemma_match_end(self, text: Seq<char>, at: int)
        ensures
            match self.match_end(text, at) {
                Some(end) => self.is_match(text, Span { at, end }),
                None => forall|end: int| !self.is_match(text, Span { at, end }),
            },
    {
        lemma_value_end(text, self.rest_start(at), self.single);
    }

    /// `next_match` gives the leftmost match from `from` on, and none where there is none.
    pub proof fn lemma_next_match(self, text: Seq<char>, from: int)
        requires
            0 <= from,
        ensures
            match self.next_match(text, from) {
                Some(first) => {
                    &&& from <= first.at
                    &&& self.is_match(text, first)
                    &&& forall|at: int| from <= at < first.at ==> !#[trigger] self.begins_at(text, at)
                },
                None => forall|at: int| from <= at ==> !#[trigger] self.begins_at(text, at),
            },
        decreases text.len() - from,
    {
        if from < text.len() {
            self.lemma_match_end(text, from);
            if self.match_end(text, from) is None {
                self.lemma_next_match(text, from + 1);
            }
        }
    }

    /// The matches that `matches_from` lists are the leftmost matches without overlap.
    pub proof fn lemma_matches_cover(self, text: Seq<char>, from: int)
        requires
            0 <= from,
        ensures
            self.covers(text, from, self.matches_from(text, from)),
        decreases text.len() - from,
    {
        self.lemma_next_match(text, from);
        let next = self.next_match(text, from);
        if next is Some {
            let first = next->0;
            let rest = self.matches_from(text, first.end + 1);
            let all = self.matches_from(text, from);
            self.lemma_matches_cover(text, first.end + 1);
            assert(all == seq![first] + rest);
            assert forall|i: int| 0 <= i < all.len() implies from <= (#[trigger] all[i]).at
                && self.is_match(text, all[i]) by {
                if i > 0 {
                    assert(all[i] == rest[i - 1]);
                }
            }
            assert forall|i: int, j: int| 0 <= i < j < all.len() implies (#[trigger] all[i]).end
                < (#[trigger] all[j]).at by {
                assert(all[j] == rest[j - 1]);
                if i > 0 {
                    assert(all[i] == rest[i - 1]);
                }
            }
            assert forall|at: int| from <= at && #[trigger] self.begins_at(text, at) implies within(
                all,
                at,
            ) by {
                if at <= first.end {
                    assert(all[0] == first);
                } else {
                    assert(within(rest, at));
                    let i = choose|i: int|
                        0 <= i < rest.len() && (#[trigger] rest[i]).at <= at <= rest[i].end;
                    assert(all[i + 1] == rest[i]);
                }
            }
        }
    }
}

/// A span, moved to the right by `by`.
pub open spec fn shifted(span: Span, by: int) -> Span {
    Span { at: span.at + by, end: span.end + by }
}

/// A literal stands in the text behind index `by` where it stands in the whole text, `by`
/// places further to the right.
pub proof fn lemma_occurs_shift(text: Seq<char>, by: int, at: int, lit: Seq<char>)
    requires
        0 <= by <= text.len(),
        0 <= at,
    ensures
        occurs_at(text, by + at, lit) == occurs_at(text.skip(by), at, lit),
{
    let tail = text.skip(by);
    if at + lit.len() <= tail.len() {
        assert(tail.subrange(at, at + lit.len()) =~= text.subrange(by + at, by + at + lit.len()));
    }
}

/// A value ends in the text behind index `by` where it ends in the whole text.
pub proof fn lemma_value_end_shift(text: Seq<char>, by: int, from: int, single: bool)
    requires
        0 <= by <= text.len(),
        0 <= from,
    ensures
        value_end(text, by + from, single) == match value_end(text.skip(by), from, single) {
            Some(end) => Some(end + by),
            None => None,
        },
    decreases text.len() - by - from,
{
    let tail = text.skip(by);
    if from < tail.len() {
        assert(tail[from] == text[by + from]);
        if !is_quote(tail[from], single) && tail[from] != '\n' {
            lemma_value_end_shift(text, by, from + 1, single);
        }
    }
}

impl Shape {
    /// A text that can stand between the quotes as a value: it begins with the stem, and
    /// behind the stem it holds neither a quote nor a line break.
    pub open spec fn admits(self, value: Seq<char>) -> bool {
        &&& occurs_at(value, 0, self.stem)
        &&& forall|k: int|
            self.stem.len() <= k < value.len() ==> !is_quote(#[trigger] value[k], self.single)
                && value[k] != '\n'
    }

    /// The attribute as it is written in a page, with `value` between the quotes.
    pub open spec fn written(self, open: char, value: Seq<char>, close: char) -> Seq<char> {
        self.lead + seq![open] + value + seq![close]
    }

    /// No match begins where the lead does not stand.
    pub proof fn lemma_begins_with_lead(self, text: Seq<char>, at: int)
        ensures
            self.begins_at(text, at) ==> occurs_at(text, at, self.lead),
    {
    }

    /// A match ends in the text behind index `by` where it ends in the whole text.
    pub proof fn lemma_match_end_shift(self, text: Seq<char>, by: int, at: int)
        requires
            0 <= by <= text.len(),
            0 <= at,
        ensures
            self.match_end(text, by + at) == match self.match_end(text.skip(by), at) {
                Some(end) => Some(end + by),
                None => None,
            },
    {
        let tail = text.skip(by);
        lemma_occurs_shift(text, by, at, self.lead);
        lemma_occurs_shift(text, by, self.value_start(at), self.stem);
        lemma_value_end_shift(text, by, self.rest_start(at), self.single);
        if at + self.lead.len() < tail.len() {
            assert(tail[at + self.lead.len()] == text[by + at + self.lead.len()]);
        }
    }

    /// The next match in the text behind index `by` is the next match in the whole text.
    pub proof fn lemma_next_match_shift(self, text: Seq<char>, by: int, from: int)
        requires
            0 <= by <= text.len(),
            0 <= from,
        ensures
            self.next_match(text, by + from) == match self.next_match(text.skip(by), from) {
                Some(span) => Some(shifted(span, by)),
                None => None,
            },
        decreases text.len() - by - from,
    {
        if from < text.skip(by).len() {
            self.lemma_match_end_shift(text, by, from);
            if self.match_end(text.skip(by), from) is None {
                self.lemma_next_match_shift(text, by, from + 1);
            }
        }
    }

    /// The matches in the text behind index `by` are the matches of the whole text from
    /// `by` on.
    pub proof fn lemma_matches_shift(self, text: Seq<char>, by: int, from: int)
        requires
            0 <= by <= text.len(),
            0 <= from,
        ensures
            self.matches_from(text, by + from) == self.matches_from(
                text.skip(by),
                from,
            ).map_values(|span: Span| shifted(span, by)),
        decreases text.len() - by - from,
    {
        let tail = text.skip(by);
        let moved = |span: Span| shifted(span, by);
        self.lemma_next_match_shift(text, by, from);
        let next = self.next_match(tail, from);
        if next is Some && from <= next->0.end < tail.len() {
            let behind = next->0.end + 1;
            self.lemma_matches_shift(text, by, behind);
            assert(self.matches_from(text, by + from) == seq![shifted(next->0, by)]
                + self.matches_from(text, by + behind));
            assert(self.matches_from(tail, from).map_values(moved) =~= seq![
                shifted(next->0, by),
            ] + self.matches_from(tail, behind).map_values(moved));
        } else {
            assert(self.matches_from(tail, from).map_values(moved) =~= Seq::<Span>::empty());
        }
    }

    /// The values of a text are the value of its first match and the values of what stands
    /// behind that match; a text without a match has no values.
    pub proof fn lemma_values_unfold(self, text: Seq<char>)
        ensures
            self.values(text) == match self.next_match(text, 0) {
                Some(first) => seq![self.value(text, first)] + self.values(
                    text.skip(first.end + 1),
                ),
                None => Seq::empty(),
            },
    {
        self.lemma_next_match(text, 0);
        match self.next_match(text, 0) {
            Some(first) => {
                let by = first.end + 1;
                let tail = text.skip(by);
                self.lemma_matches_shift(text, by, 0);
                self.lemma_matches_cover(tail, 0);
                let rest = self.matches(tail);
                assert(self.matches(text) == seq![first] + rest.map_values(
                    |span: Span| shifted(span, by),
                ));
                assert forall|i: int| 0 <= i < rest.len() implies self.value(
                    text,
                    shifted(rest[i], by),
                ) == self.value(tail, rest[i]) by {
                    assert(self.is_match(tail, rest[i]));
                    assert(tail.subrange(self.value_start(rest[i].at), rest[i].end)
                        =~= text.subrange(
                        self.value_start(rest[i].at + by),
                        rest[i].end + by,
                    ));
                }
                assert(self.values(text) =~= seq![self.value(text, first)] + self.values(tail));
            },
            None => {
                assert(self.values(text) =~= Seq::<Seq<char>>::empty());
            },
        }
    }

    /// A text in which the lead stands nowhere has no match and no value.
    pub proof fn lemma_no_lead_no_value(self, text: Seq<char>)
        requires
            !occurs_in(text, self.lead),
        ensures
            self.matches(text) == Seq::<Span>::empty(),
            self.values(text) == Seq::<Seq<char>>::empty(),
            self.first_value(text) is None,
    {
        self.lemma_next_match(text, 0);
        if self.next_match(text, 0) is Some {
            let first = self.next_match(text, 0)->0;
            assert(occurs_at(text, first.at, self.lead));
        }
        self.lemma_values_unfold(text);
    }

    /// Where an attribute is written into a text and no match begins before it, it is the
    /// first match: its value is the first value of the text, and the other values are
    /// those of what stands behind its closing quote.
    pub proof fn lemma_first_written(
        self,
        before: Seq<char>,
        open: char,
        value: Seq<char>,
        close: char,
        after: Seq<char>,
    )
        requires
            is_quote(open, self.single),
            is_quote(close, self.single),
            self.admits(value),
            forall|at: int|
                0 <= at < before.len() ==> !#[trigger] self.begins_at(
                    before + self.written(open, value, close) + after,
                    at,
                ),
        ensures
            self.first_value(before + self.written(open, value, close) + after) == Some(value),
            self.values(before + self.written(open, value, close) + after) == seq![value]
                + self.values(after),
    {
        let text = before + self.written(open, value, close) + after;
        let at = before.len() as int;
        let quote_at = at + self.lead.len();
        let end = quote_at + 1 + value.len();
        let found = Span { at, end };
        assert(text.subrange(at, quote_at) =~= self.lead);
        assert(text[quote_at] == open);
        assert(text.subrange(quote_at + 1, quote_at + 1 + self.stem.len()) =~= value.subrange(
            0,
            self.stem.len() as int,
        ));
        assert(text[end] == close);
        assert forall|k: int| self.rest_start(at) <= k < end implies !is_quote(
            #[trigger] text[k],
            self.single,
        ) && text[k] != '\n' by {
            assert(text[k] == value[k - quote_at - 1]);
        }
        assert(self.is_match(text, found));
        self.lemma_match_end(text, at);
        assert(self.begins_at(text, at));
        self.lemma_next_match(text, 0);
        let first = self.next_match(text, 0)->0;
        self.lemma_match_end(text, first.at);
        assert(self.begins_at(text, first.at));
        assert(first.at == at);
        lemma_closes_once(text, self.rest_start(at), first.end, end, self.single);
        assert(first == found);
        assert(self.value(text, found) =~= value);
        assert(text.skip(end + 1) =~= after);
        self.lemma_values_unfold(text);
    }
}

/// An index, or none, as a number.
pub open spec fn index_of(at: Option<usize>) -> Option<int> {
    match at {
        Some(at) => Some(at as int),
        None => None,
    }
}

/// Where the value that begins at `from` ends, if it ends on its line.
pub fn find_value_end(text: &Vec<char>, from: usize, single: bool) -> (end: Option<usize>)
    ensures
        index_of(end) == value_end(text@, from as int, single),
{
    let mut at: usize = from;
    while at < text.len()
        invariant
            from <= at,
            value_end(text@, from as int, single) == value_end(text@, at as int, single),
        decreases text.len() - at,
    {
        let c = text[at];
        if c == '"' || (single && c == '\'') {
            return Some(at);
        }
        if c == '\n' {
            return None;
        }
        at += 1;
    }
    None
}

/// An attribute to look for, by its shape.
pub struct Attribute {
    pub lead: Vec<char>,
    pub stem: Vec<char>,
    pub single: bool,
}

impl View for Attribute {
    type V = Shape;

    open spec fn view(&self) -> Shape {
        Shape { lead: self.lead@, stem: self.stem@, single: self.single }
    }
}

/// One match in a text: where it begins, and where the quote stands that closes its value.
#[derive(Clone, Copy, Debug, PartialEq, Eq)]
pub struct Found {
    pub at: usize,
    pub end: usize,
}

impl View for Found {
    type V = Span;

    open spec fn view(&self) -> Span {
        Span { at: self.at as int, end: self.end as int }
    }
}

/// The spans of `found`, one for one.
pub open spec fn spans(found: Seq<Found>) -> Seq<Span> {
    found.map_values(|f: Found| f@)
}

/// A match, or none, as a span.
pub open spec fn span_of(found: Option<Found>) -> Option<Span> {
    match found {
        Some(f) => Some(f@),
        None => None,
    }
}

impl Attribute {
    /// The attribute with the given lead and stem.
    pub fn new(lead: &str, stem: &str, single: bool) -> (attribute: Attribute)
        ensures
            attribute@ == (Shape { lead: lead@, stem: stem@, single }),
    {
        Attribute { lead: chars_of(lead), stem: chars_of(stem), single }
    }

    /// Where the match that begins at `at` ends, if one begins there.
    pub fn match_end(&self, text: &Vec<char>, at: usize) -> (end: Option<usize>)
        ensures
            index_of(end) == self@.match_end(text@, at as int),
    {
        if !stands_at(text, at, &self.lead) {
            return None;
        }
        assert(at + self.lead.len() <= text.len());
        let quote_at: usize = at + self.lead.len();
        if quote_at >= text.len() {
            return None;
        }
        let quote = text[quote_at];
        if !(quote == '"' || (self.single && quote == '\'')) {
            return None;
        }
        let value_at: usize = quote_at + 1;
        if !stands_at(text, value_at, &self.stem) {
            return None;
        }
        find_value_end(text, value_at + self.stem.len(), self.single)
    }

    /// The first match in `text` that begins at `from` or behind it.
    pub fn next_match(&self, text: &Vec<char>, from: usize) -> (found: Option<Found>)
        ensures
            span_of(found) == self@.next_match(text@, from as int),
    {
        let mut at: usize = from;
        while at < text.len()
            invariant
                from <= at,
                self@.next_match(text@, from as int) == self@.next_match(text@, at as int),
            decreases text.len() - at,
        {
            match self.match_end(text, at) {
                Some(end) => {
                    return Some(Found { at, end });
                },
                None => {
                    at += 1;
                },
            }
        }
        None
    }

    /// The matches in `text`, from left to right.
    pub fn matches(&self, text: &Vec<char>) -> (found: Vec<Found>)
        ensures
            spans(found@) == self@.matches(text@),
    {
        let mut found: Vec<Found> = Vec::new();
        let mut from: usize = 0;
        loop
            invariant
                self@.matches(text@) == spans(found@) + self@.matches_from(text@, from as int),
            decreases text.len() - from,
        {
            proof {
                self@.lemma_next_match(text@, from as int);
            }
            match self.next_match(text, from) {
                Some(next) => {
                    proof {
                        assert(spans(found@.push(next)) =~= spans(found@).push(next@));
                        assert(spans(found@) + (seq![next@] + self@.matches_from(
                            text@,
                            next.end + 1,
                        )) =~= spans(found@).push(next@) + self@.matches_from(text@, next.end + 1));
                    }
                    found.push(next);
                    from = next.end + 1;
                },
                None => {
                    assert(spans(found@) + Seq::<Span>::empty() =~= spans(found@));
                    return found;
                },
            }
        }
    }

    /// The values of the matches in `html`, from left to right.
    pub fn values(&self, html: &str) -> (values: Vec<String>)
        ensures
            texts(values@) == self@.values(html@),
    {
        let text = chars_of(html);
        let found = self.matches(&text);
        proof {
            self@.lemma_matches_cover(text@, 0);
        }
        let mut values: Vec<String> = Vec::new();
        for i in 0..found.len()
            invariant
                text@ == html@,
                spans(found@) == self@.matches(html@),
                self@.covers(html@, 0, self@.matches(html@)),
                texts(values@) == self@.values(html@).take(i as int),
        {
            let span = found[i];
            assert(spans(found@)[i as int] == span@);
            assert(self@.is_match(html@, span@));
            let value = html.substring_char(span.at + self.lead.len() + 1, span.end).to_owned();
            proof {
                assert(texts(values@.push(value)) =~= texts(values@).push(value@));
                assert(self@.values(html@).take(i + 1) =~= self@.values(html@).take(i as int).push(
                    value@,
                ));
            }
            values.push(value);
        }
        values
    }

    /// The value of the first match in `html`, if there is a match.
    pub fn first_value(&self, html: &str) -> (value: Option<String>)
        ensures
            match value {
                Some(v) => self@.first_value(html@) == Some(v@),
                None => self@.first_value(html@) is None,
            },
    {
        let text = chars_of(html);
        proof {
            self@.lemma_next_match(text@, 0);
        }
        match self.next_match(&text, 0) {
            Some(span) => {
                let value = html.substring_char(span.at + self.lead.len() + 1, span.end);
                Some(value.to_owned())
            },
            None => None,
        }
    }
}

} // verus!
