//! Sequences of characters: splitting, joining and the views of strings.

use vstd::prelude::*;

verus! {

/// The character sequences of a sequence of strings.
pub open spec fn texts(strings: Seq<String>) -> Seq<Seq<char>> {
    Seq::new(strings.len(), |i: int| strings[i]@)
}

/// The pieces of `s` between occurrences of `sep`; never empty.
pub open spec fn split_on(s: Seq<char>, sep: char) -> Seq<Seq<char>>
    decreases s.len(),
{
    if s.len() == 0 {
        seq![Seq::empty()]
    } else {
        let rest = split_on(s.drop_last(), sep);
        if s.last() == sep {
            rest.push(Seq::empty())
        } else {
            rest.update(rest.len() - 1, rest.last().push(s.last()))
        }
    }
}

/// The parts joined with `sep` between neighbours.
pub open spec fn join_with(parts: Seq<Seq<char>>, sep: char) -> Seq<char>
    decreases parts.len(),
{
    if parts.len() == 0 {
        Seq::empty()
    } else if parts.len() == 1 {
        parts[0]
    } else {
        join_with(parts.drop_last(), sep).push(sep) + parts.last()
    }
}

/// `s` without one carriage return at its end.
pub open spec fn without_cr(s: Seq<char>) -> Seq<char> {
    if s.len() > 0 && s.last() == '\r' {
        s.drop_last()
    } else {
        s
    }
}

/// `String::push` appends the character.
pub assume_specification[ String::push ](s: &mut String, c: char)
    ensures
        final(s)@ == old(s)@.push(c),
;

/// The characters of a string.
pub fn chars_of(s: &str) -> (chars: Vec<char>)
    ensures
        chars@ == s@,
{
    let mut chars: Vec<char> = Vec::new();
    for c in it: s.chars()
        invariant
            chars@ == it.seq().take(it.index()),
            it.seq() == s@,
    {
        chars.push(c);
    }
    chars
}

/// The string of some characters.
pub fn string_of(chars: &[char]) -> (s: String)
    ensures
        s@ == chars@,
{
    let mut s = String::new();
    let mut i: usize = 0;
    while i < chars.len()
        invariant
            i <= chars.len(),
            s@ == chars@.take(i as int),
        decreases chars.len() - i,
    {
        s.push(chars[i]);
        i += 1;
    }
    s
}

/// Whether two strings hold the same characters.
pub fn same_text(a: &str, b: &str) -> (same: bool)
    ensures
        same == (a@ == b@),
{
    a.to_owned() == b.to_owned()
}

pub proof fn split_on_nonempty(s: Seq<char>, sep: char)
    ensures
        split_on(s, sep).len() >= 1,
    decreases s.len(),
{
    if s.len() > 0 {
        split_on_nonempty(s.drop_last(), sep);
    }
}

/// No piece of a split holds the separator.
pub proof fn split_on_pieces(s: Seq<char>, sep: char, i: int)
    requires
        0 <= i < split_on(s, sep).len(),
    ensures
        !split_on(s, sep)[i].contains(sep),
    decreases s.len(),
{
    if s.len() > 0 {
        split_on_nonempty(s.drop_last(), sep);
        let rest = split_on(s.drop_last(), sep);
        if i < rest.len() {
            split_on_pieces(s.drop_last(), sep, i);
        }
        if s.last() != sep && i == rest.len() - 1 {
            let piece = split_on(s, sep)[i];
            assert(piece == rest[i].push(s.last()));
            assert forall|k: int| 0 <= k < piece.len() implies piece[k] != sep by {
                if k < rest[i].len() {
                    assert(rest[i].contains(rest[i][k]));
                }
            }
        }
    }
}

/// Joining the pieces of a split gives the whole back.
pub proof fn join_split(s: Seq<char>, sep: char)
    ensures
        join_with(split_on(s, sep), sep) == s,
    decreases s.len(),
{
    if s.len() > 0 {
        let init = s.drop_last();
        let rest = split_on(init, sep);
        let pieces = split_on(s, sep);
        join_split(init, sep);
        split_on_nonempty(init, sep);
        if s.last() == sep {
            assert(pieces.drop_last() == rest);
            assert(join_with(pieces, sep) == s);
        } else {
            assert(pieces.drop_last() == rest.drop_last());
            assert(pieces.last() == rest.last().push(s.last()));
            assert(join_with(rest, sep) == init);
            if rest.len() > 1 {
                let front = join_with(rest.drop_last(), sep).push(sep);
                assert(join_with(pieces, sep) == front + pieces.last());
                assert(front + rest.last().push(s.last()) == (front + rest.last()).push(s.last()));
            }
            assert(init.push(s.last()) == s);
        }
    }
}

/// The pieces of a string between occurrences of a character.
pub fn split_string(s: &str, sep: char) -> (pieces: Vec<String>)
    ensures
        texts(pieces@) == split_on(s@, sep),
{
    let mut done: Vec<String> = Vec::new();
    let mut piece = String::new();
    let chars = chars_of(s);
    let mut i: usize = 0;
    while i < chars.len()
        invariant
            i <= chars.len(),
            chars@ == s@,
            split_on(chars@.take(i as int), sep) == texts(done@).push(piece@),
        decreases chars.len() - i,
    {
        let c = chars[i];
        assert(chars@.take(i + 1).drop_last() == chars@.take(i as int));
        let ghost before = texts(done@).push(piece@);
        if c == sep {
            done.push(piece);
            piece = String::new();
            assert(texts(done@).push(piece@) == before.push(Seq::empty()));
        } else {
            piece.push(c);
            assert(texts(done@).push(piece@) == before.update(
                before.len() - 1,
                before.last().push(c),
            ));
        }
        i += 1;
    }
    assert(chars@.take(i as int) == s@);
    let ghost all = texts(done@).push(piece@);
    done.push(piece);
    assert(texts(done@) == all);
    done
}

/// The lines of a text: a line break ends a line, with a carriage return before
/// it, and what follows the last line break is a line where it is not empty.
pub open spec fn lines_of_text(s: Seq<char>) -> Seq<Seq<char>> {
    let pieces = split_on(s, '\n');
    let ended = Seq::new((pieces.len() - 1) as nat, |i: int| without_cr(pieces[i]));
    if pieces.last().len() == 0 {
        ended
    } else {
        ended.push(pieces.last())
    }
}

/// A string without one carriage return at its end.
pub fn strip_cr(s: &str) -> (r: String)
    ensures
        r@ == without_cr(s@),
{
    let mut chars = chars_of(s);
    let n = chars.len();
    if n > 0 && chars[n - 1] == '\r' {
        chars.pop();
    }
    string_of(chars.as_slice())
}

/// The lines of a text.
pub fn split_lines(s: &str) -> (lines: Vec<String>)
    ensures
        texts(lines@) == lines_of_text(s@),
        forall|i: int| 0 <= i < lines.len() ==> !(#[trigger] lines@[i])@.contains('\n'),
{
    let mut pieces = split_string(s, '\n');
    proof {
        split_on_nonempty(s@, '\n');
        assert forall|i: int| 0 <= i < pieces.len() implies !(#[trigger] pieces@[i])@.contains(
            '\n',
        ) by {
            split_on_pieces(s@, '\n', i);
            assert(texts(pieces@)[i] == pieces@[i]@);
        }
    }
    let ghost all = texts(pieces@);
    let ghost held = pieces@;
    assert(all.len() == pieces.len());
    let last = match pieces.pop() {
        Some(last) => last,
        None => String::new(),
    };
    assert(all.last() == last@);
    let mut lines: Vec<String> = Vec::new();
    let mut i: usize = 0;
    while i < pieces.len()
        invariant
            i <= pieces.len(),
            lines.len() == i,
            pieces.len() == all.len() - 1,
            pieces@ == held.drop_last(),
            held.len() == all.len(),
            forall|k: int| 0 <= k < pieces.len() ==> (#[trigger] pieces@[k])@ == all[k],
            forall|k: int| 0 <= k < held.len() ==> !(#[trigger] held[k])@.contains('\n'),
            forall|k: int| 0 <= k < i ==> (#[trigger] lines@[k])@ == without_cr(all[k]),
            forall|k: int| 0 <= k < i ==> !(#[trigger] lines@[k])@.contains('\n'),
        decreases pieces.len() - i,
    {
        let line = strip_cr(pieces[i].as_str());
        proof {
            assert(held[i as int] == pieces@[i as int]);
            assert forall|k: int| 0 <= k < line@.len() implies line@[k] != '\n' by {
                assert(line@[k] == held[i as int]@[k]);
                assert(held[i as int]@.contains(held[i as int]@[k]));
            }
        }
        lines.push(line);
        i += 1;
    }
    if !last.as_str().is_empty() {
        assert(held[held.len() - 1] == last);
        lines.push(last);
    }
    assert(texts(lines@) == lines_of_text(s@));
    lines
}

/// The strings joined with a character between neighbours.
pub fn join_strings(parts: &[String], sep: char) -> (s: String)
    ensures
        s@ == join_with(texts(parts@), sep),
{
    let mut s = String::new();
    let mut i: usize = 0;
    while i < parts.len()
        invariant
            i <= parts.len(),
            s@ == join_with(texts(parts@).take(i as int), sep),
        decreases parts.len() - i,
    {
        assert(texts(parts@).take(i + 1).drop_last() == texts(parts@).take(i as int));
        if i > 0 {
            s.push(sep);
        }
        s.append(parts[i].as_str());
        i += 1;
    }
    assert(texts(parts@).take(i as int) == texts(parts@));
    s
}

/// The characters that Unicode counts as white space.
pub open spec fn is_space(c: char) -> bool {
    ||| '\u{9}' <= c <= '\u{d}' || c == ' ' || c == '\u{85}' || c == '\u{a0}'
    ||| c == '\u{1680}' || '\u{2000}' <= c <= '\u{200a}'
    ||| c == '\u{2028}' || c == '\u{2029}' || c == '\u{202f}'
    ||| c == '\u{205f}' || c == '\u{3000}'
}

/// Calls `char::is_whitespace`, which tells the characters that have the
/// property `White_Space`. It is claimed that these are the ones listed.
#[verifier::external_body]
fn is_whitespace(c: char) -> (space: bool)
    ensures
        space == is_space(c),
{
    c.is_whitespace()
}

/// What Unicode maps a character to in lower case.
pub uninterp spec fn case_mapping(c: char) -> Seq<char>;

/// The lower case of a character by itself: one or more characters. White
/// space has no case.
pub open spec fn lower_letter(c: char) -> Seq<char> {
    if is_space(c) {
        seq![c]
    } else {
        case_mapping(c)
    }
}

/// Calls `char::to_lowercase`. The result is named; of white space, which has no
/// lower case, it is claimed that it stays as it is.
#[verifier::external_body]
pub(crate) fn lower_char(c: char) -> (lower: String)
    ensures
        lower@ == if is_space(c) {
            seq![c]
        } else {
            case_mapping(c)
        },
{
    c.to_lowercase().collect()
}

/// The lower case of each character by itself, one after the other.
pub open spec fn lower_letters(s: Seq<char>) -> Seq<char>
    decreases s.len(),
{
    if s.len() == 0 {
        Seq::empty()
    } else {
        lower_letters(s.drop_last()) + lower_letter(s.last())
    }
}

/// Two texts are the same, but that the first may have the final form of a
/// sigma where the second has the other.
pub open spec fn same_but_sigma(a: Seq<char>, b: Seq<char>) -> bool {
    &&& a.len() == b.len()
    &&& forall|i: int|
        0 <= i < a.len() ==> #[trigger] a[i] == b[i] || (a[i] == '\u{3c2}' && b[i] == '\u{3c3}')
}

/// The lower case of a text.
pub uninterp spec fn lowercase(s: Seq<char>) -> Seq<char>;

/// Calls `str::to_lowercase`. The result is named. It is claimed that it is the
/// lower case of the characters one after the other, but for a sigma, which has
/// another form at the end of a word.
#[verifier::external_body]
pub(crate) fn to_lowercase(s: &str) -> (lower: String)
    ensures
        lower@ == lowercase(s@),
        same_but_sigma(lower@, lower_letters(s@)),
{
    s.to_lowercase()
}

/// `s` without the white space at its start.
pub open spec fn trim_start(s: Seq<char>) -> Seq<char>
    decreases s.len(),
{
    if s.len() > 0 && is_space(s[0]) {
        trim_start(s.drop_first())
    } else {
        s
    }
}

/// `s` without the white space at its end.
pub open spec fn trim_end(s: Seq<char>) -> Seq<char>
    decreases s.len(),
{
    if s.len() > 0 && is_space(s.last()) {
        trim_end(s.drop_last())
    } else {
        s
    }
}

/// `s` without the white space at both ends.
pub open spec fn trimmed(s: Seq<char>) -> Seq<char> {
    trim_end(trim_start(s))
}

/// `sub` stands in `s` at `i`.
pub open spec fn occurs_at(s: Seq<char>, sub: Seq<char>, i: int) -> bool {
    0 <= i && i + sub.len() <= s.len() && s.subrange(i, i + sub.len()) == sub
}

/// `sub` stands somewhere in `s`.
pub open spec fn has_text(s: Seq<char>, sub: Seq<char>) -> bool {
    exists|i: int| occurs_at(s, sub, i)
}

pub open spec fn has_prefix(s: Seq<char>, prefix: Seq<char>) -> bool {
    occurs_at(s, prefix, 0)
}

pub open spec fn has_suffix(s: Seq<char>, suffix: Seq<char>) -> bool {
    occurs_at(s, suffix, s.len() - suffix.len())
}

/// `i` is the first place where `sub` stands in `s`.
pub open spec fn first_at(s: Seq<char>, sub: Seq<char>, i: int) -> bool {
    occurs_at(s, sub, i) && forall|j: int| 0 <= j < i ==> !occurs_at(s, sub, j)
}

/// The characters from `from` up to `to`.
pub fn slice_of(chars: &[char], from: usize, to: usize) -> (s: String)
    requires
        from <= to <= chars@.len(),
    ensures
        s@ == chars@.subrange(from as int, to as int),
{
    let mut s = String::new();
    let mut i: usize = from;
    while i < to
        invariant
            from <= i <= to <= chars@.len(),
            s@ == chars@.subrange(from as int, i as int),
        decreases to - i,
    {
        s.push(chars[i]);
        i += 1;
        assert(chars@.subrange(from as int, i as int) == chars@.subrange(
            from as int,
            i - 1,
        ).push(chars@[i - 1]));
    }
    s
}

/// Whether `sub` stands in `s` at `i`.
pub fn is_at(s: &[char], sub: &[char], i: usize) -> (found: bool)
    ensures
        found == occurs_at(s@, sub@, i as int),
{
    if i > s.len() || s.len() - i < sub.len() {
        return false;
    }
    let mut k: usize = 0;
    while k < sub.len()
        invariant
            k <= sub@.len(),
            i + sub.len() <= s.len(),
            forall|j: int| 0 <= j < k ==> s@[i + j] == sub@[j],
        decreases sub.len() - k,
    {
        if s[i + k] != sub[k] {
            assert(s@.subrange(i as int, i + sub@.len())[k as int] != sub@[k as int]);
            return false;
        }
        k += 1;
    }
    assert(s@.subrange(i as int, i + sub@.len()) == sub@);
    true
}

/// The first place from `from` on where `sub` stands in `s`.
pub fn find_from(s: &[char], sub: &[char], from: usize) -> (at: Option<usize>)
    ensures
        match at {
            Some(i) => from <= i && occurs_at(s@, sub@, i as int) && forall|j: int|
                from <= j < i ==> !occurs_at(s@, sub@, j),
            None => forall|j: int| from <= j ==> !occurs_at(s@, sub@, j),
        },
{
    let mut i: usize = from;
    while i < s.len() && s.len() - i >= sub.len()
        invariant
            from <= i,
            forall|j: int| from <= j < i ==> !occurs_at(s@, sub@, j),
        decreases s.len() - i,
    {
        if is_at(s, sub, i) {
            return Some(i);
        }
        i += 1;
    }
    if i <= s.len() && is_at(s, sub, i) {
        return Some(i);
    }
    assert forall|j: int| from <= j implies !occurs_at(s@, sub@, j) by {
        if occurs_at(s@, sub@, j) && j >= i {
            assert(i <= s.len());
        }
    }
    None
}

/// Whether `sub` stands somewhere in `s`.
pub fn contains_text(s: &str, sub: &str) -> (found: bool)
    ensures
        found == has_text(s@, sub@),
{
    let chars = chars_of(s);
    let wanted = chars_of(sub);
    match find_from(chars.as_slice(), wanted.as_slice(), 0) {
        Some(i) => {
            assert(occurs_at(s@, sub@, i as int));
            true
        },
        None => false,
    }
}

pub fn starts_with(s: &str, prefix: &str) -> (found: bool)
    ensures
        found == has_prefix(s@, prefix@),
{
    is_at(chars_of(s).as_slice(), chars_of(prefix).as_slice(), 0)
}

pub fn ends_with(s: &str, suffix: &str) -> (found: bool)
    ensures
        found == has_suffix(s@, suffix@),
{
    let chars = chars_of(s);
    let wanted = chars_of(suffix);
    chars.len() >= wanted.len() && is_at(
        chars.as_slice(),
        wanted.as_slice(),
        chars.len() - wanted.len(),
    )
}

/// A string without the white space at both ends.
pub fn trim(s: &str) -> (t: String)
    ensures
        t@ == trimmed(s@),
{
    let chars = chars_of(s);
    let mut from: usize = 0;
    assert(chars@.skip(0) == s@);
    while from < chars.len() && is_whitespace(chars[from])
        invariant
            from <= chars.len(),
            chars@ == s@,
            trim_start(chars@.skip(from as int)) == trim_start(s@),
        decreases chars.len() - from,
    {
        assert(chars@.skip(from as int).drop_first() == chars@.skip(from + 1));
        from += 1;
    }
    assert(trim_start(s@) == chars@.skip(from as int));
    let mut to: usize = chars.len();
    assert(chars@.subrange(from as int, to as int) == chars@.skip(from as int));
    while to > from && is_whitespace(chars[to - 1])
        invariant
            from <= to <= chars.len(),
            chars@ == s@,
            trim_end(chars@.subrange(from as int, to as int)) == trimmed(s@),
        decreases to - from,
    {
        assert(chars@.subrange(from as int, to as int).drop_last() == chars@.subrange(
            from as int,
            to - 1,
        ));
        to -= 1;
    }
    slice_of(chars.as_slice(), from, to)
}

/// Every character is white space.
pub open spec fn all_space(s: Seq<char>) -> bool {
    forall|i: int| 0 <= i < s.len() ==> is_space(#[trigger] s[i])
}

/// A text is what stands in it between white space, without which it neither
/// starts nor ends.
pub proof fn trimming_takes_off_space(s: Seq<char>) -> (ends: (Seq<char>, Seq<char>))
    ensures
        s == ends.0 + trimmed(s) + ends.1,
        all_space(ends.0),
        all_space(ends.1),
        trimmed(s).len() > 0 ==> !is_space(trimmed(s)[0]) && !is_space(trimmed(s).last()),
        trimmed(trimmed(s)) == trimmed(s),
{
    let (start, rest) = (start_space(s), trim_start(s));
    let end = end_space(rest);
    let t = trimmed(s);
    assert(s =~= start + t + end);
    if t.len() > 0 {
        assert(t[0] == rest[0]);
        assert(trim_start(t) == t);
        assert(trim_end(t) == t);
    }
    (start, end)
}

proof fn start_space(s: Seq<char>) -> (start: Seq<char>)
    ensures
        s == start + trim_start(s),
        all_space(start),
        trim_start(s).len() > 0 ==> !is_space(trim_start(s)[0]),
    decreases s.len(),
{
    if s.len() > 0 && is_space(s[0]) {
        let more = start_space(s.drop_first());
        let start = seq![s[0]] + more;
        let rest = trim_start(s);
        assert(s =~= seq![s[0]] + s.drop_first());
        assert(seq![s[0]] + (more + rest) =~= start + rest);
        start
    } else {
        assert(s =~= Seq::<char>::empty() + s);
        Seq::empty()
    }
}

proof fn end_space(s: Seq<char>) -> (end: Seq<char>)
    ensures
        s == trim_end(s) + end,
        all_space(end),
        trim_end(s).len() > 0 ==> !is_space(trim_end(s).last()),
    decreases s.len(),
{
    if s.len() > 0 && is_space(s.last()) {
        let more = end_space(s.drop_last());
        let end = more.push(s.last());
        let rest = trim_end(s);
        assert(s =~= s.drop_last().push(s.last()));
        assert((rest + more).push(s.last()) =~= rest + end);
        end
    } else {
        assert(s =~= s + Seq::<char>::empty());
        Seq::empty()
    }
}

proof fn letters_of_both(a: Seq<char>, b: Seq<char>)
    ensures
        lower_letters(a + b) == lower_letters(a) + lower_letters(b),
    decreases b.len(),
{
    if b.len() == 0 {
        assert(a + b =~= a);
        assert(lower_letters(a) + lower_letters(b) =~= lower_letters(a));
    } else {
        letters_of_both(a, b.drop_last());
        assert((a + b).drop_last() =~= a + b.drop_last());
        assert(lower_letters(a + b) =~= lower_letters(a) + lower_letters(b));
    }
}

proof fn space_has_no_case(s: Seq<char>)
    requires
        all_space(s),
    ensures
        lower_letters(s) == s,
    decreases s.len(),
{
    if s.len() > 0 {
        assert(is_space(s[s.len() - 1]));
        assert(all_space(s.drop_last()));
        space_has_no_case(s.drop_last());
    }
    assert(lower_letters(s) =~= s);
}

/// A word without white space stands in the lower case of a text if and only if
/// it stands in that of the trimmed text.
pub proof fn trimming_keeps_words(s: Seq<char>, word: Seq<char>)
    requires
        word.len() > 0,
        forall|i: int| 0 <= i < word.len() ==> !is_space(#[trigger] word[i]),
    ensures
        has_text(lower_letters(s), word) == has_text(lower_letters(trimmed(s)), word),
{
    let t = trimmed(s);
    let (start, end) = trimming_takes_off_space(s);
    letters_of_both(start + t, end);
    letters_of_both(start, t);
    space_has_no_case(start);
    space_has_no_case(end);
    let inner = lower_letters(t);
    let all = lower_letters(s);
    assert(all =~= start + inner + end);
    if has_text(inner, word) {
        let i = choose|i: int| occurs_at(inner, word, i);
        assert(all.subrange(start.len() + i, start.len() + i + word.len()) =~= inner.subrange(
            i,
            i + word.len(),
        ));
        assert(occurs_at(all, word, start.len() + i));
    }
    if has_text(all, word) {
        let i = choose|i: int| occurs_at(all, word, i);
        let last = i + word.len() - 1;
        assert(all[i] == word[0] && all[last] == word[word.len() - 1]) by {
            assert(all.subrange(i, i + word.len())[0] == all[i]);
            assert(all.subrange(i, i + word.len())[word.len() - 1] == all[last]);
        }
        if i < start.len() {
            assert(all[i] == start[i]);
        }
        if last >= start.len() + inner.len() {
            assert(all[last] == end[last - start.len() - inner.len()]);
        }
        assert(inner.subrange(i - start.len(), i - start.len() + word.len()) =~= all.subrange(
            i,
            i + word.len(),
        ));
        assert(occurs_at(inner, word, i - start.len()));
    }
}

/// A word without a sigma stands in both of two texts that differ in the forms
/// of sigmas, or in neither.
pub proof fn sigma_is_in_no_word(a: Seq<char>, b: Seq<char>, word: Seq<char>)
    requires
        same_but_sigma(a, b),
        forall|i: int|
            0 <= i < word.len() ==> #[trigger] word[i] != '\u{3c2}' && word[i] != '\u{3c3}',
    ensures
        has_text(a, word) == has_text(b, word),
{
    assert forall|i: int| occurs_at(a, word, i) == occurs_at(b, word, i) by {
        if 0 <= i && i + word.len() <= a.len() {
            let (x, y) = (a.subrange(i, i + word.len()), b.subrange(i, i + word.len()));
            if x == word {
                assert forall|k: int| 0 <= k < word.len() implies y[k] == word[k] by {
                    assert(x[k] == a[i + k]);
                }
                assert(y =~= word);
            }
            if y == word {
                assert forall|k: int| 0 <= k < word.len() implies x[k] == word[k] by {
                    assert(y[k] == b[i + k]);
                    assert(x[k] == a[i + k]);
                }
                assert(x =~= word);
            }
        }
    }
    if has_text(a, word) {
        let i = choose|i: int| occurs_at(a, word, i);
        assert(occurs_at(b, word, i));
    }
    if has_text(b, word) {
        let i = choose|i: int| occurs_at(b, word, i);
        assert(occurs_at(a, word, i));
    }
}

/// The decimal digits of a number.
pub open spec fn decimal(n: nat) -> Seq<char>
    decreases n,
{
    if n < 10 {
        seq![digit(n)]
    } else {
        decimal(n / 10).push(digit(n % 10))
    }
}

pub open spec fn digit(n: nat) -> char {
    ((48 + n) as u8) as char
}

/// A number in decimal.
pub fn number(n: u64) -> (s: String)
    ensures
        s@ == decimal(n as nat),
    decreases n,
{
    let mut s = if n < 10 { String::new() } else { number(n / 10) };
    let d: u8 = (n % 10) as u8;
    s.push((48 + d) as char);
    s
}

/// A character `n` times.
pub open spec fn repeated(c: char, n: nat) -> Seq<char> {
    Seq::new(n, |i: int| c)
}

pub fn repeat_char(c: char, n: usize) -> (s: String)
    ensures
        s@ == repeated(c, n as nat),
{
    let mut s = String::new();
    let mut i: usize = 0;
    while i < n
        invariant
            i <= n,
            s@ == repeated(c, i as nat),
        decreases n - i,
    {
        s.push(c);
        i += 1;
    }
    s
}

/// Two strings one after the other.
pub fn concat(a: &str, b: &str) -> (s: String)
    ensures
        s@ == a@ + b@,
{
    let mut s = a.to_owned();
    s.append(b);
    s
}

/// The pieces of `s` between white space, with empty ones where there is more.
pub open spec fn split_spaces(s: Seq<char>) -> Seq<Seq<char>>
    decreases s.len(),
{
    if s.len() == 0 {
        seq![Seq::empty()]
    } else {
        let rest = split_spaces(s.drop_last());
        if is_space(s.last()) {
            rest.push(Seq::empty())
        } else {
            rest.update(rest.len() - 1, rest.last().push(s.last()))
        }
    }
}

/// The words of a text: what stands between white space.
pub open spec fn words(s: Seq<char>) -> Seq<Seq<char>> {
    split_spaces(s).filter(|w: Seq<char>| w.len() > 0)
}

/// The words of a text.
pub fn split_words(s: &str) -> (list: Vec<String>)
    ensures
        texts(list@) == words(s@),
{
    let chars = chars_of(s);
    let mut done: Vec<String> = Vec::new();
    let mut word = String::new();
    let ghost nonempty = |w: Seq<char>| w.len() > 0;
    let ghost mut pieces: Seq<Seq<char>> = Seq::empty();
    let mut i: usize = 0;
    assert(pieces.filter(nonempty).len() <= 0) by {
        pieces.lemma_filter_len(nonempty);
    }
    assert(texts(done@) == pieces.filter(nonempty));
    while i < chars.len()
        invariant
            i <= chars.len(),
            chars@ == s@,
            nonempty == (|w: Seq<char>| w.len() > 0),
            split_spaces(chars@.take(i as int)) == pieces.push(word@),
            texts(done@) == pieces.filter(nonempty),
        decreases chars.len() - i,
    {
        let c = chars[i];
        assert(chars@.take(i + 1).drop_last() == chars@.take(i as int));
        let ghost before = pieces.push(word@);
        let ghost kept = texts(done@);
        if is_whitespace(c) {
            proof {
                pieces.lemma_filter_push(word@, nonempty);
                pieces = before;
            }
            if !word.as_str().is_empty() {
                done.push(word);
                assert(texts(done@) == kept.push(word@));
            }
            word = String::new();
            assert(pieces.push(word@) == before.push(Seq::empty()));
        } else {
            word.push(c);
            assert(pieces.push(word@) == before.update(before.len() - 1, before.last().push(c)));
        }
        i += 1;
    }
    assert(chars@.take(i as int) == s@);
    proof {
        pieces.lemma_filter_push(word@, nonempty);
    }
    let ghost kept = texts(done@);
    if !word.as_str().is_empty() {
        done.push(word);
        assert(texts(done@) == kept.push(word@));
    }
    done
}

/// Numbers that are written the same are the same.
pub proof fn decimals_differ(a: nat, b: nat)
    requires
        decimal(a) == decimal(b),
    ensures
        a == b,
{
    numbers_are_read_back(a);
    numbers_are_read_back(b);
}

/// What was put between two texts stands behind the first.
pub proof fn middle_stands(a: Seq<char>, b: Seq<char>, c: Seq<char>)
    ensures
        occurs_at(a + b + c, b, a.len() as int),
        has_text(a + b + c, b),
        (a + b + c).subrange(a.len() as int, (a.len() + b.len()) as int) == b,
{
    assert((a + b + c).subrange(a.len() as int, (a.len() + b.len()) as int) =~= b);
    assert(occurs_at(a + b + c, b, a.len() as int));
}

/// The number that digits stand for.
pub open spec fn value_of(digits: Seq<char>) -> int
    decreases digits.len(),
{
    if digits.len() == 0 {
        0
    } else {
        10 * value_of(digits.drop_last()) + (digits.last() as int - '0' as int)
    }
}

/// A number is written with the digits from 0 to 9, the first of which is not 0
/// unless it is the only one, and read back it is the same.
pub proof fn numbers_are_read_back(n: nat)
    ensures
        value_of(decimal(n)) == n,
        forall|i: int| 0 <= i < decimal(n).len() ==> '0' <= #[trigger] decimal(n)[i] <= '9',
        n > 0 ==> decimal(n)[0] != '0',
        n == 0 ==> decimal(n) == seq!['0'],
        decimal(n).len() > 0,
    decreases n,
{
    let d = decimal(n);
    assert(digit(n % 10) as int == 48 + n % 10);
    if n < 10 {
        assert(d.drop_last() =~= Seq::empty());
        assert(value_of(d.drop_last()) == 0);
        assert(d.last() == digit(n));
        if n == 0 {
            assert(d =~= seq!['0']);
        }
    } else {
        numbers_are_read_back(n / 10);
        assert(d.drop_last() =~= decimal(n / 10));
        assert(d[0] == decimal(n / 10)[0]);
    }
}

/// A text starts with what it was begun with and ends with what was put at its
/// end.
pub proof fn ends_are_recognised(a: Seq<char>, b: Seq<char>)
    ensures
        has_prefix(a + b, a),
        has_suffix(a + b, b),
        has_text(a + b, a),
        has_text(a + b, b),
{
    assert((a + b).subrange(0, a.len() as int) =~= a);
    assert((a + b).subrange(a.len() as int, (a + b).len() as int) =~= b);
    assert(occurs_at(a + b, a, 0));
    assert(occurs_at(a + b, b, a.len() as int));
}

/// Words hold no white space and are not empty, and a text without white space
/// is one word.
pub proof fn words_are_without_space(s: Seq<char>)
    ensures
        forall|i: int|
            0 <= i < words(s).len() ==> (#[trigger] words(s)[i]).len() > 0 && no_space(words(s)[i]),
        s.len() > 0 && no_space(s) ==> words(s) == seq![s],
        all_space(s) ==> words(s).len() == 0,
{
    let pieces = split_spaces(s);
    let nonempty = |w: Seq<char>| w.len() > 0;
    pieces_are_without_space(s);
    assert forall|i: int| 0 <= i < words(s).len() implies (#[trigger] words(s)[i]).len() > 0
        && no_space(words(s)[i]) by {
        crate::order::kept_elements(pieces, nonempty, words(s)[i]);
        let k = choose|k: int| 0 <= k < pieces.len() && pieces[k] == words(s)[i];
        assert(no_space(pieces[k]));
    }
    if s.len() > 0 && no_space(s) {
        reveal(Seq::filter);
        assert(pieces == seq![s]);
        assert(pieces.drop_last() =~= Seq::empty());
        assert(pieces.drop_last().filter(nonempty) =~= Seq::empty());
        assert(words(s) =~= seq![s]);
    }
    if all_space(s) {
        if words(s).len() > 0 {
            crate::order::kept_elements(pieces, nonempty, words(s)[0]);
            let k = choose|k: int| 0 <= k < pieces.len() && pieces[k] == words(s)[0];
            assert(pieces[k].len() == 0);
        }
    }
}

/// No character is white space.
pub open spec fn no_space(s: Seq<char>) -> bool {
    forall|i: int| 0 <= i < s.len() ==> !is_space(#[trigger] s[i])
}

proof fn pieces_are_without_space(s: Seq<char>)
    ensures
        split_spaces(s).len() > 0,
        forall|k: int| 0 <= k < split_spaces(s).len() ==> no_space(#[trigger] split_spaces(s)[k]),
        no_space(s) ==> split_spaces(s) == seq![s],
        all_space(s) ==> forall|k: int|
            0 <= k < split_spaces(s).len() ==> (#[trigger] split_spaces(s)[k]).len() == 0,
    decreases s.len(),
{
    if s.len() > 0 {
        let start = s.drop_last();
        pieces_are_without_space(start);
        let rest = split_spaces(start);
        let all = split_spaces(s);
        if no_space(s) {
            assert(no_space(start)) by {
                assert forall|i: int| 0 <= i < start.len() implies !is_space(
                    #[trigger] start[i],
                ) by {
                    assert(start[i] == s[i]);
                }
            }
            assert(s[s.len() - 1] == s.last());
            assert(start.push(s.last()) =~= s);
            assert(all =~= seq![s]);
        }
        if all_space(s) {
            assert(all_space(start)) by {
                assert forall|i: int| 0 <= i < start.len() implies is_space(#[trigger] start[i]) by {
                    assert(start[i] == s[i]);
                }
            }
            assert(is_space(s[s.len() - 1]));
        }
    } else {
        assert(s =~= Seq::<char>::empty());
    }
}

/// White space between two texts parts their words.
pub proof fn space_parts_words(a: Seq<char>, c: char, b: Seq<char>)
    requires
        is_space(c),
    ensures
        words(a.push(c) + b) == words(a) + words(b),
{
    let nonempty = |w: Seq<char>| w.len() > 0;
    space_parts_pieces(a, c, b);
    Seq::filter_distributes_over_add(split_spaces(a), split_spaces(b), nonempty);
}

proof fn space_parts_pieces(a: Seq<char>, c: char, b: Seq<char>)
    requires
        is_space(c),
    ensures
        split_spaces(a.push(c) + b) == split_spaces(a) + split_spaces(b),
    decreases b.len(),
{
    let all = a.push(c) + b;
    pieces_are_without_space(a);
    if b.len() == 0 {
        assert(all =~= a.push(c));
        assert(all.drop_last() =~= a);
        assert(split_spaces(all) =~= split_spaces(a) + split_spaces(b));
    } else {
        let less = b.drop_last();
        pieces_are_without_space(less);
        space_parts_pieces(a, c, less);
        assert(all.drop_last() =~= a.push(c) + less);
        assert(all.last() == b.last());
        assert(split_spaces(all) =~= split_spaces(a) + split_spaces(b));
    }
}

/// A text is its lines, each ended by a line break: the break parts the lines,
/// a carriage return before it is dropped, and a break at the end adds no line.
pub proof fn lines_are_parted_by_breaks(a: Seq<char>, b: Seq<char>)
    requires
        !a.contains('\n'),
    ensures
        lines_of_text(a.push('\n') + b) == seq![without_cr(a)] + lines_of_text(b),
        a.len() > 0 ==> lines_of_text(a) == seq![a],
        lines_of_text(Seq::empty()).len() == 0,
{
    unbroken_text_is_one_piece(a);
    break_parts_pieces(a, b);
    let all = a.push('\n') + b;
    let pieces = split_on(all, '\n');
    let rest = split_on(b, '\n');
    assert(pieces == seq![a] + rest);
    assert(rest.len() > 0) by {
        split_is_not_empty(b);
    }
    assert(pieces.last() == rest.last());
    assert(lines_of_text(all) =~= seq![without_cr(a)] + lines_of_text(b));
    if a.len() > 0 {
        assert(lines_of_text(a) =~= seq![a]);
    }
    assert(split_on(Seq::empty(), '\n').last().len() == 0);
}

proof fn split_is_not_empty(s: Seq<char>)
    ensures
        split_on(s, '\n').len() > 0,
    decreases s.len(),
{
    if s.len() > 0 {
        split_is_not_empty(s.drop_last());
    }
}

/// A text without a line break is one piece.
pub proof fn unbroken_text_is_one_piece(s: Seq<char>)
    requires
        !s.contains('\n'),
    ensures
        split_on(s, '\n') == seq![s],
    decreases s.len(),
{
    if s.len() > 0 {
        let start = s.drop_last();
        assert(!start.contains('\n')) by {
            if start.contains('\n') {
                let i = choose|i: int| 0 <= i < start.len() && start[i] == '\n';
                assert(s[i] == '\n');
            }
        }
        unbroken_text_is_one_piece(start);
        assert(s[s.len() - 1] != '\n');
        assert(start.push(s.last()) =~= s);
        assert(split_on(s, '\n') =~= seq![s]);
    } else {
        assert(s =~= Seq::<char>::empty());
    }
}

proof fn break_parts_pieces(a: Seq<char>, b: Seq<char>)
    requires
        !a.contains('\n'),
    ensures
        split_on(a.push('\n') + b, '\n') == seq![a] + split_on(b, '\n'),
    decreases b.len(),
{
    let all = a.push('\n') + b;
    if b.len() == 0 {
        unbroken_text_is_one_piece(a);
        assert(all =~= a.push('\n'));
        assert(all.drop_last() =~= a);
        assert(split_on(all, '\n') =~= seq![a] + split_on(b, '\n'));
    } else {
        let less = b.drop_last();
        break_parts_pieces(a, less);
        split_is_not_empty(less);
        assert(all.drop_last() =~= a.push('\n') + less);
        assert(all.last() == b.last());
        assert(split_on(all, '\n') =~= seq![a] + split_on(b, '\n'));
    }
}

} // verus!
