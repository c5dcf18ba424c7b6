//! Marking what was searched for.

use crate::style::{colored, push_owned, spans_view, Color, Span, Style};
use crate::text::{
    chars_of, has_text, is_at, lower_char, lower_letter, lower_letters, lowercase,
    occurs_at, texts, to_lowercase,
};
use vstd::prelude::*;

verus! {

/// A place in the lower case of a text is part of a match. Matches of a term
/// are found from `from` on, each behind the one before.
pub open spec fn in_match(lower: Seq<char>, term: Seq<char>, from: int, p: int) -> bool
    decreases lower.len() - from,
{
    let end = from + term.len();
    if term.len() == 0 || end > lower.len() {
        false
    } else if occurs_at(lower, term, from) {
        from <= p < end || in_match(lower, term, end, p)
    } else {
        in_match(lower, term, from + 1, p)
    }
}

/// A place in the lower case of a text is part of a match of one of the terms.
pub open spec fn is_match(lower: Seq<char>, terms: Seq<Seq<char>>, p: int) -> bool {
    exists|t: int| 0 <= t < terms.len() && in_match(lower, #[trigger] terms[t], 0, p)
}

/// Where the lower case of a character starts in that of the text, if `lowers`
/// is the lower case of each character.
pub open spec fn own_start(lowers: Seq<Seq<char>>, i: int) -> int
    decreases i,
{
    if i <= 0 {
        0
    } else {
        own_start(lowers, i - 1) + lowers[i - 1].len()
    }
}

/// Some of the lower case of a character is part of a match.
pub open spec fn is_marked(
    lower: Seq<char>,
    lowers: Seq<Seq<char>>,
    terms: Seq<Seq<char>>,
    i: int,
) -> bool {
    exists|p: int|
        own_start(lowers, i) <= p < own_start(lowers, i + 1) && #[trigger] is_match(lower, terms, p)
}

/// A text in pieces, of which each is as long as the flag stays the same.
pub open spec fn runs(text: Seq<char>, flags: Seq<bool>) -> Seq<(Seq<char>, bool)>
    decreases text.len(),
{
    if text.len() == 0 {
        Seq::empty()
    } else {
        let before = runs(text.drop_last(), flags);
        let flag = flags[text.len() - 1];
        if before.len() > 0 && before.last().1 == flag {
            before.update(before.len() - 1, (before.last().0.push(text.last()), flag))
        } else {
            before.push((seq![text.last()], flag))
        }
    }
}

/// Which characters of a text are part of a match.
pub open spec fn match_flags(
    n: nat,
    lower: Seq<char>,
    lowers: Seq<Seq<char>>,
    terms: Seq<Seq<char>>,
) -> Seq<bool> {
    Seq::new(n, |i: int| is_marked(lower, lowers, terms, i))
}

/// A text in pieces that are matches and pieces that are not. `lower` is its
/// lower case, and `lowers` that of each of its characters.
pub open spec fn segments(
    text: Seq<char>,
    lower: Seq<char>,
    lowers: Seq<Seq<char>>,
    terms: Seq<Seq<char>>,
) -> Seq<(Seq<char>, bool)> {
    if text.len() == 0 {
        seq![(text, false)]
    } else {
        runs(text, match_flags(text.len(), lower, lowers, terms))
    }
}

pub open spec fn segments_view(segments: Seq<(String, bool)>) -> Seq<(Seq<char>, bool)> {
    Seq::new(segments.len(), |i: int| (segments[i].0@, segments[i].1))
}

/// Marks the places that are part of a match of a term.
fn mark_term(marks: &mut Vec<bool>, lower: &[char], term: &[char])
    requires
        old(marks)@.len() == lower@.len(),
    ensures
        final(marks)@.len() == old(marks)@.len(),
        forall|p: int|
            0 <= p < final(marks)@.len() ==> #[trigger] final(marks)@[p] == (old(marks)@[p]
                || in_match(lower@, term@, 0, p)),
{
    if term.len() == 0 {
        return;
    }
    let ghost before = marks@;
    let n = lower.len();
    let mut from: usize = 0;
    while from <= n && n - from >= term.len()
        invariant
            n == lower@.len() == marks@.len() == before.len(),
            term@.len() > 0,
            from <= n,
            forall|p: int|
                0 <= p < n ==> (#[trigger] marks@[p] || in_match(
                    lower@,
                    term@,
                    from as int,
                    p,
                )) == (before[p] || in_match(lower@, term@, 0, p)),
        decreases n - from,
    {
        let ghost start = from as int;
        let ghost held = marks@;
        if is_at(lower, term, from) {
            let end = from + term.len();
            let mut k: usize = from;
            while k < end
                invariant
                    from <= k <= end <= n,
                    n == marks@.len() == held.len(),
                    forall|p: int|
                        0 <= p < n ==> #[trigger] marks@[p] == (held[p] || from <= p < k),
                decreases end - k,
            {
                marks.set(k, true);
                k += 1;
            }
            from = end;
        } else {
            from += 1;
        }
        assert forall|p: int| 0 <= p < n implies (#[trigger] marks@[p] || in_match(
            lower@,
            term@,
            from as int,
            p,
        )) == (before[p] || in_match(lower@, term@, 0, p)) by {
            assert((held[p] || in_match(lower@, term@, start, p)) == (before[p] || in_match(
                lower@,
                term@,
                0,
                p,
            )));
        }
    }
}

/// Marks the places that are part of a match of any term.
fn mark_terms(lower: &[char], terms: &Vec<String>) -> (marks: Vec<bool>)
    ensures
        marks@ == Seq::new(lower@.len(), |p: int| is_match(lower@, texts(terms@), p)),
{
    let n = lower.len();
    let mut marks: Vec<bool> = Vec::new();
    while marks.len() < n
        invariant
            marks@.len() <= n,
            forall|p: int| 0 <= p < marks@.len() ==> !(#[trigger] marks@[p]),
        decreases n - marks.len(),
    {
        marks.push(false);
    }
    let mut t: usize = 0;
    while t < terms.len()
        invariant
            t <= terms.len(),
            marks@.len() == n == lower@.len(),
            forall|p: int|
                0 <= p < n ==> #[trigger] marks@[p] == is_match(
                    lower@,
                    texts(terms@).take(t as int),
                    p,
                ),
        decreases terms.len() - t,
    {
        let ghost all = texts(terms@);
        let ghost held = marks@;
        let term = chars_of(terms[t].as_str());
        mark_term(&mut marks, lower, term.as_slice());
        proof {
            let here = all.take(t as int);
            let more = all.take(t + 1);
            assert forall|p: int| 0 <= p < n implies #[trigger] marks@[p] == is_match(
                lower@,
                more,
                p,
            ) by {
                assert(marks@[p] == (held[p] || in_match(lower@, all[t as int], 0, p)));
                if is_match(lower@, here, p) {
                    let u = choose|u: int|
                        0 <= u < here.len() && in_match(lower@, #[trigger] here[u], 0, p);
                    assert(more[u] == here[u]);
                }
                if in_match(lower@, all[t as int], 0, p) {
                    assert(more[t as int] == all[t as int]);
                }
                if is_match(lower@, more, p) {
                    let u = choose|u: int|
                        0 <= u < more.len() && in_match(lower@, #[trigger] more[u], 0, p);
                    if u < t {
                        assert(here[u] == more[u]);
                    }
                }
            }
        }
        t += 1;
    }
    assert(texts(terms@).take(t as int) =~= texts(terms@));
    assert(marks@ =~= Seq::new(lower@.len(), |p: int| is_match(lower@, texts(terms@), p)));
    marks
}

proof fn matches_lie_inside(lower: Seq<char>, term: Seq<char>, from: int, p: int)
    requires
        in_match(lower, term, from, p),
    ensures
        from <= p < lower.len(),
    decreases lower.len() - from,
{
    let end = from + term.len();
    if occurs_at(lower, term, from) {
        if !(from <= p < end) {
            matches_lie_inside(lower, term, end, p);
        }
    } else {
        matches_lie_inside(lower, term, from + 1, p);
    }
}

/// Marks the characters of which some lower case is part of a match.
fn mark_letters(lower: &[char], lowers: &Vec<String>, terms: &Vec<String>) -> (flags: Vec<bool>)
    ensures
        flags@ == match_flags(lowers@.len(), lower@, texts(lowers@), texts(terms@)),
{
    let ghost own = texts(lowers@);
    let ghost all = texts(terms@);
    let marks = mark_terms(lower, terms);
    let n = lower.len();
    let mut flags: Vec<bool> = Vec::new();
    let mut p: usize = 0;
    let mut i: usize = 0;
    while i < lowers.len()
        invariant
            i <= lowers@.len(),
            n == lower@.len(),
            own == texts(lowers@),
            all == texts(terms@),
            marks@ == Seq::new(lower@.len(), |p: int| is_match(lower@, all, p)),
            p == if own_start(own, i as int) <= n {
                own_start(own, i as int)
            } else {
                n as int
            },
            flags@.len() == i,
            forall|k: int|
                0 <= k < i ==> #[trigger] flags@[k] == is_marked(lower@, own, all, k),
        decreases lowers.len() - i,
    {
        let width = chars_of(lowers[i].as_str()).len();
        assert(own[i as int] == lowers@[i as int]@);
        let end: usize = if width <= n - p {
            p + width
        } else {
            n
        };
        let ghost start = p;
        let mut flag = false;
        while p < end
            invariant
                start <= p <= end <= n,
                n == lower@.len(),
                marks@ == Seq::new(lower@.len(), |p: int| is_match(lower@, all, p)),
                flag == exists|q: int| start <= q < p && #[trigger] is_match(lower@, all, q),
            decreases end - p,
        {
            assert(marks@[p as int] == is_match(lower@, all, p as int));
            if marks[p] {
                flag = true;
            }
            p += 1;
        }
        assert(flag == is_marked(lower@, own, all, i as int)) by {
            if is_marked(lower@, own, all, i as int) {
                let q = choose|q: int|
                    own_start(own, i as int) <= q < own_start(own, i + 1) && #[trigger] is_match(
                        lower@,
                        all,
                        q,
                    );
                let t = choose|t: int|
                    0 <= t < all.len() && in_match(lower@, #[trigger] all[t], 0, q);
                matches_lie_inside(lower@, all[t], 0, q);
            }
        }
        flags.push(flag);
        i += 1;
    }
    assert(flags@ =~= match_flags(lowers@.len(), lower@, own, all));
    flags
}

/// Splits a text into pieces in which the flag stays the same.
fn split_runs(text: &[char], flags: &Vec<bool>) -> (pieces: Vec<(String, bool)>)
    requires
        flags@.len() == text@.len(),
    ensures
        segments_view(pieces@) == runs(text@, flags@),
{
    let mut pieces: Vec<(String, bool)> = Vec::new();
    let mut i: usize = 0;
    assert(segments_view(pieces@) =~= runs(text@.take(0), flags@));
    while i < text.len()
        invariant
            i <= text.len(),
            flags@.len() == text@.len(),
            segments_view(pieces@) == runs(text@.take(i as int), flags@),
        decreases text.len() - i,
    {
        let ghost before = pieces@;
        let c = text[i];
        let flag = flags[i];
        assert(text@.take(i + 1).drop_last() =~= text@.take(i as int));
        let n = pieces.len();
        assert(n > 0 ==> segments_view(before).last() == (before.last().0@, before.last().1));
        if n > 0 && pieces[n - 1].1 == flag {
            let mut piece = pieces[n - 1].0.clone();
            piece.push(c);
            pieces.set(n - 1, (piece, flag));
        } else {
            let mut piece = String::new();
            piece.push(c);
            assert(piece@ =~= seq![c]);
            pieces.push((piece, flag));
        }
        assert(segments_view(pieces@) =~= runs(text@.take(i + 1), flags@));
        i += 1;
    }
    assert(text@.take(i as int) =~= text@);
    pieces
}

/// Splits a text into pieces that are matches and pieces that are not, where
/// its lower case is known, and that of each of its characters.
pub fn segments_of(text: &str, lower: &str, lowers: &Vec<String>, terms: &Vec<String>) -> (pieces:
    Vec<(String, bool)>)
    requires
        lowers@.len() == text@.len(),
    ensures
        segments_view(pieces@) == segments(text@, lower@, texts(lowers@), texts(terms@)),
{
    let chars = chars_of(text);
    if chars.len() == 0 {
        let mut pieces: Vec<(String, bool)> = Vec::new();
        pieces.push((text.to_owned(), false));
        assert(segments_view(pieces@) =~= seq![(text@, false)]);
        return pieces;
    }
    let lower = chars_of(lower);
    let flags = mark_letters(lower.as_slice(), lowers, terms);
    split_runs(chars.as_slice(), &flags)
}

/// The lower case of each character of a text.
pub open spec fn each_lower(text: Seq<char>) -> Seq<Seq<char>> {
    Seq::new(text.len(), |i: int| lower_letter(text[i]))
}

fn lower_each(text: &str) -> (lowers: Vec<String>)
    ensures
        texts(lowers@) == each_lower(text@),
{
    let chars = chars_of(text);
    let mut lowers: Vec<String> = Vec::new();
    while lowers.len() < chars.len()
        invariant
            lowers@.len() <= chars@.len(),
            forall|i: int|
                0 <= i < lowers@.len() ==> (#[trigger] lowers@[i])@ == lower_letter(chars@[i]),
        decreases chars.len() - lowers.len(),
    {
        lowers.push(lower_char(chars[lowers.len()]));
    }
    assert(texts(lowers@) =~= each_lower(text@));
    lowers
}

/// Split `text` into segments of (substring, is_match) for case-insensitive
/// highlighting of terms (already lowercased). A character is highlighted if any
/// of its lower case is part of a match, so it is safe for non-ASCII content.
pub fn highlight_segments(text: &str, terms: &Vec<String>) -> (pieces: Vec<(String, bool)>)
    ensures
        segments_view(pieces@) == segments(
            text@,
            lowercase(text@),
            each_lower(text@),
            texts(terms@),
        ),
        own_start(each_lower(text@), text@.len() as int) == lowercase(text@).len(),
{
    let lower = to_lowercase(text);
    let lowers = lower_each(text);
    assert(texts(lowers@).len() == lowers@.len());
    proof {
        letters_fill_the_text(text@);
    }
    segments_of(text, lower.as_str(), &lowers, terms)
}

proof fn letters_fill_the_text(text: Seq<char>)
    ensures
        own_start(each_lower(text), text.len() as int) == lower_letters(text).len(),
    decreases text.len(),
{
    if text.len() > 0 {
        let start = text.drop_last();
        letters_fill_the_text(start);
        same_starts(each_lower(start), each_lower(text), start.len() as int);
    }
}

proof fn same_starts(a: Seq<Seq<char>>, b: Seq<Seq<char>>, i: int)
    requires
        i <= a.len(),
        i <= b.len(),
        forall|k: int| 0 <= k < i ==> #[trigger] a[k] == b[k],
    ensures
        own_start(a, i) == own_start(b, i),
    decreases i,
{
    if i > 0 {
        same_starts(a, b, i - 1);
    }
}

/// The pieces of a text put together.
pub open spec fn put_together(pieces: Seq<(Seq<char>, bool)>) -> Seq<char>
    decreases pieces.len(),
{
    if pieces.len() == 0 {
        Seq::empty()
    } else {
        put_together(pieces.drop_last()) + pieces.last().0
    }
}

proof fn runs_hold_everything(text: Seq<char>, flags: Seq<bool>)
    ensures
        put_together(runs(text, flags)) == text,
        text.len() > 0 ==> runs(text, flags).len() > 0 && runs(text, flags).last().1
            == flags[text.len() - 1],
        forall|k: int| 0 <= k < runs(text, flags).len() ==> (#[trigger] runs(text, flags)[k]).0.len()
            > 0,
        forall|k: int|
            0 < k < runs(text, flags).len() ==> (#[trigger] runs(text, flags)[k]).1 != runs(
                text,
                flags,
            )[k - 1].1,
    decreases text.len(),
{
    if text.len() > 0 {
        let start = text.drop_last();
        runs_hold_everything(start, flags);
        let before = runs(start, flags);
        let after = runs(text, flags);
        if before.len() > 0 && before.last().1 == flags[text.len() - 1] {
            assert(after.drop_last() =~= before.drop_last());
            assert(put_together(after) =~= put_together(before).push(text.last()));
        } else {
            assert(after.drop_last() =~= before);
            assert(put_together(after) =~= start.push(text.last()));
        }
        assert(start.push(text.last()) =~= text);
    }
}

/// Highlighting loses nothing: the segments put together are the text. There is
/// always a segment, and matches and other text take turns.
pub proof fn highlighting_keeps_the_text(
    text: Seq<char>,
    lower: Seq<char>,
    lowers: Seq<Seq<char>>,
    terms: Seq<Seq<char>>,
)
    ensures
        ({
            let pieces = segments(text, lower, lowers, terms);
            &&& pieces.len() > 0
            &&& put_together(pieces) == text
            &&& forall|k: int|
                0 < k < pieces.len() ==> (#[trigger] pieces[k]).1 != pieces[k - 1].1
        }),
{
    runs_hold_everything(text, match_flags(text.len(), lower, lowers, terms));
    if text.len() == 0 {
        let pieces = segments(text, lower, lowers, terms);
        assert(pieces.drop_last() =~= Seq::empty());
        assert(put_together(pieces) =~= text);
    }
}

/// What is found is highlighted: where a term stands in the lower case of a text,
/// which that of its characters makes up, a character of it is marked.
pub proof fn what_is_found_is_highlighted(
    n: nat,
    lower: Seq<char>,
    lowers: Seq<Seq<char>>,
    terms: Seq<Seq<char>>,
    t: int,
)
    requires
        own_start(lowers, n as int) == lower.len(),
        0 <= t < terms.len(),
        terms[t].len() > 0,
        has_text(lower, terms[t]),
    ensures
        exists|i: int| 0 <= i < n && #[trigger] match_flags(n, lower, lowers, terms)[i],
{
    let at = choose|i: int| occurs_at(lower, terms[t], i);
    let p = first_match(lower, terms[t], 0, at);
    assert(is_match(lower, terms, p));
    matches_lie_inside(lower, terms[t], 0, p);
    let i = owner(lowers, n as int, p);
    assert(is_marked(lower, lowers, terms, i));
    assert(match_flags(n, lower, lowers, terms)[i]);
}

proof fn first_match(lower: Seq<char>, term: Seq<char>, from: int, at: int) -> (p: int)
    requires
        term.len() > 0,
        0 <= from <= at,
        occurs_at(lower, term, at),
    ensures
        in_match(lower, term, from, p),
    decreases at - from,
{
    if occurs_at(lower, term, from) {
        from
    } else {
        first_match(lower, term, from + 1, at)
    }
}

/// The character whose lower case holds a place.
proof fn owner(lowers: Seq<Seq<char>>, n: int, p: int) -> (i: int)
    requires
        0 <= p < own_start(lowers, n),
    ensures
        0 <= i < n,
        own_start(lowers, i) <= p < own_start(lowers, i + 1),
    decreases n,
{
    if own_start(lowers, n - 1) <= p {
        n - 1
    } else {
        owner(lowers, n - 1, p)
    }
}

/// Without terms nothing is highlighted.
pub proof fn nothing_is_highlighted_without_terms(
    text: Seq<char>,
    lower: Seq<char>,
    lowers: Seq<Seq<char>>,
)
    ensures
        segments(text, lower, lowers, Seq::empty()) == seq![(text, false)],
{
    let flags = match_flags(text.len(), lower, lowers, Seq::empty());
    let pieces = segments(text, lower, lowers, Seq::empty());
    runs_hold_everything(text, flags);
    if text.len() > 0 {
        all_false(text, flags);
        assert(pieces.len() == 1);
        assert(pieces.drop_last() =~= Seq::empty());
        assert(put_together(pieces.drop_last()) =~= Seq::<char>::empty());
        assert(put_together(pieces) =~= pieces[0].0);
        assert(pieces =~= seq![(text, false)]);
    }
}

proof fn all_false(text: Seq<char>, flags: Seq<bool>)
    requires
        text.len() <= flags.len(),
        forall|i: int| 0 <= i < text.len() ==> !(#[trigger] flags[i]),
    ensures
        text.len() > 0 ==> runs(text, flags).len() == 1 && !runs(text, flags)[0].1,
    decreases text.len(),
{
    if text.len() > 0 {
        all_false(text.drop_last(), flags);
        let before = runs(text.drop_last(), flags);
        assert(text.len() == 1 ==> before.len() == 0);
        assert(text.len() > 1 ==> before.last() == before[0]);
    }
}

/// The style of a piece of text.
#[verifier::allow_in_spec]
pub fn match_style(is_match: bool) -> Style
    returns
        (if is_match {
            colored(Color::Yellow).bold()
        } else {
            colored(Color::White)
        }),
{
    if is_match {
        colored(Color::Yellow).bold()
    } else {
        colored(Color::White)
    }
}

/// Pieces of text, of which the matches stand out.
pub open spec fn highlighted(pieces: Seq<(Seq<char>, bool)>) -> Seq<(Seq<char>, Style)> {
    Seq::new(pieces.len(), |i: int| (pieces[i].0, match_style(pieces[i].1)))
}

/// Adds pieces of text to a line that is being built.
pub fn push_highlighted(spans: &mut Vec<Span>, pieces: Vec<(String, bool)>)
    ensures
        spans_view(final(spans)@) == spans_view(old(spans)@) + highlighted(segments_view(pieces@)),
{
    let ghost before = spans_view(spans@);
    let ghost all = highlighted(segments_view(pieces@));
    assert(spans_view(spans@) =~= before + all.take(0));
    for piece in it: pieces
        invariant
            all == highlighted(segments_view(it.seq())),
            spans_view(spans@) == before + all.take(it.index()),
    {
        push_owned(spans, piece.0, match_style(piece.1));
        assert(spans_view(spans@) =~= before + all.take(it.index() + 1));
    }
    assert(all.take(all.len() as int) =~= all);
}

/// Nothing is marked that is not part of a place where a term stands.
pub proof fn only_what_is_found_is_marked(lower: Seq<char>, terms: Seq<Seq<char>>, p: int)
    requires
        is_match(lower, terms, p),
    ensures
        exists|t: int, at: int|
            0 <= t < terms.len() && #[trigger] occurs_at(lower, #[trigger] terms[t], at) && at <= p
                < at + terms[t].len(),
{
    let t = choose|t: int| 0 <= t < terms.len() && in_match(lower, #[trigger] terms[t], 0, p);
    let at = place_of_match(lower, terms[t], 0, p);
    assert(occurs_at(lower, terms[t], at));
}

proof fn place_of_match(lower: Seq<char>, term: Seq<char>, from: int, p: int) -> (at: int)
    requires
        in_match(lower, term, from, p),
    ensures
        occurs_at(lower, term, at),
        at <= p < at + term.len(),
    decreases lower.len() - from,
{
    let end = from + term.len();
    if occurs_at(lower, term, from) {
        if from <= p < end {
            from
        } else {
            place_of_match(lower, term, end, p)
        }
    } else {
        place_of_match(lower, term, from + 1, p)
    }
}

/// The first place where a term stands is marked whole.
pub proof fn the_first_match_is_marked_whole(
    lower: Seq<char>,
    terms: Seq<Seq<char>>,
    t: int,
    at: int,
    p: int,
)
    requires
        0 <= t < terms.len(),
        terms[t].len() > 0,
        occurs_at(lower, terms[t], at),
        forall|i: int| 0 <= i < at ==> !occurs_at(lower, terms[t], i),
        at <= p < at + terms[t].len(),
    ensures
        is_match(lower, terms, p),
{
    match_from_the_start(lower, terms[t], 0, at, p);
}

proof fn match_from_the_start(lower: Seq<char>, term: Seq<char>, from: int, at: int, p: int)
    requires
        term.len() > 0,
        0 <= from <= at,
        occurs_at(lower, term, at),
        forall|i: int| 0 <= i < at ==> !occurs_at(lower, term, i),
        at <= p < at + term.len(),
    ensures
        in_match(lower, term, from, p),
    decreases at - from,
{
    if from < at {
        match_from_the_start(lower, term, from + 1, at, p);
    }
}

/// Matches stand out in bold yellow, and the rest is white.
pub proof fn matches_stand_out(pieces: Seq<(Seq<char>, bool)>, i: int)
    requires
        0 <= i < pieces.len(),
    ensures
        highlighted(pieces).len() == pieces.len(),
        highlighted(pieces)[i].0 == pieces[i].0,
        pieces[i].1 ==> highlighted(pieces)[i].1.fg == Some(Color::Yellow) && highlighted(
            pieces,
        )[i].1.bold,
        !pieces[i].1 ==> highlighted(pieces)[i].1.fg == Some(Color::White) && !highlighted(
            pieces,
        )[i].1.bold,
{
}

} // verus!
