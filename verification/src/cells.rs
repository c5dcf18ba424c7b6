//! Text that is fitted into columns.

use crate::style::{colored, plain, push_owned, spans_view, Color, Span, Style};
use crate::text::{chars_of, concat, decimal, number, repeat_char, repeated, slice_of};
use vstd::prelude::*;
use vstd::utf8::{
    decode_utf8, decode_utf8_split, encode_utf8, encode_utf8_decode_utf8, encode_utf8_valid_utf8,
    is_char_boundary, valid_utf8_split,
};

verus! {

/// How long a text is in bytes.
pub open spec fn byte_len(s: Seq<char>) -> nat {
    encode_utf8(s).len()
}

/// How long a text is in bytes.
pub fn len_in_bytes(s: &str) -> (n: usize)
    ensures
        n == byte_len(s@),
{
    s.as_bytes().len()
}

/// A text padded with spaces behind it.
pub open spec fn left_aligned(s: Seq<char>, width: int) -> Seq<char> {
    if s.len() < width {
        s + repeated(' ', (width - s.len()) as nat)
    } else {
        s
    }
}

/// A text padded with spaces behind it.
pub fn pad_right(s: &str, width: usize) -> (padded: String)
    ensures
        padded@ == left_aligned(s@, width as int),
{
    let n = chars_of(s).len();
    let mut padded = s.to_owned();
    if n < width {
        padded.append(repeat_char(' ', width - n).as_str());
    }
    padded
}

/// A text padded with spaces before it.
pub open spec fn right_aligned(s: Seq<char>, width: int) -> Seq<char> {
    if s.len() < width {
        repeated(' ', (width - s.len()) as nat) + s
    } else {
        s
    }
}

/// A text padded with spaces before it.
pub fn pad_left(s: &str, width: usize) -> (padded: String)
    ensures
        padded@ == right_aligned(s@, width as int),
{
    let n = chars_of(s).len();
    if n < width {
        let mut padded = repeat_char(' ', width - n);
        padded.append(s);
        padded
    } else {
        s.to_owned()
    }
}

/// A text that is cut off, and ends in an ellipsis, where it has more
/// characters than there is room for.
pub open spec fn shortened(s: Seq<char>, width: int) -> Seq<char> {
    if width <= 0 {
        Seq::empty()
    } else if s.len() <= width {
        s
    } else {
        s.take(width - 1).push('…')
    }
}

/// Cuts a text off where it has more characters than there is room for.
pub fn truncate_with_ellipsis(value: &str, width: usize) -> (truncated: String)
    ensures
        truncated@ == shortened(value@, width as int),
{
    if width == 0 {
        return String::new();
    }
    let chars = chars_of(value);
    if chars.len() <= width {
        return value.to_owned();
    }
    let mut truncated = slice_of(chars.as_slice(), 0, width - 1);
    assert(truncated@ =~= value@.take(width - 1));
    truncated.push('…');
    truncated
}

/// The start of a text that is so many bytes long.
pub open spec fn byte_prefix(s: Seq<char>, n: int) -> Seq<char> {
    decode_utf8(encode_utf8(s).subrange(0, n))
}

/// A text that is cut off, and ends in an ellipsis, where it has more bytes
/// than there is room for.
pub open spec fn cut_off(s: Seq<char>, width: int) -> Seq<char> {
    if width <= 0 {
        Seq::empty()
    } else if byte_len(s) > width {
        byte_prefix(s, width - 1).push('…')
    } else {
        s
    }
}

/// Where a text is to be cut off, no character is split.
pub open spec fn can_cut(s: Seq<char>, width: int) -> bool {
    width <= 0 || byte_len(s) <= width || is_char_boundary(encode_utf8(s), width - 1)
}

/// Whether a text can be cut off without splitting a character.
pub fn can_truncate(value: &str, width: usize) -> (can: bool)
    ensures
        can == can_cut(value@, width as int),
{
    width == 0 || len_in_bytes(value) <= width || value.is_char_boundary(width - 1)
}

/// Cuts a text off where it has more bytes than there is room for.
pub fn truncate_to_width(value: &str, width: usize) -> (truncated: String)
    requires
        can_cut(value@, width as int),
    ensures
        truncated@ == cut_off(value@, width as int),
{
    if width == 0 {
        return String::new();
    }
    if len_in_bytes(value) > width {
        let (start, rest) = value.split_at(width - 1);
        proof {
            encode_utf8_decode_utf8(start@);
        }
        let mut truncated = start.to_owned();
        truncated.push('…');
        truncated
    } else {
        value.to_owned()
    }
}

/// What is cut off is the end of the text: what stays is as long as there is
/// room for, the ellipsis aside.
pub proof fn cutting_keeps_the_start(s: Seq<char>, width: int)
    requires
        can_cut(s, width),
        byte_len(s) > width > 0,
    ensures
        byte_prefix(s, width - 1).is_prefix_of(s),
        byte_len(byte_prefix(s, width - 1)) == width - 1,
{
    let bytes = encode_utf8(s);
    encode_utf8_valid_utf8(s);
    encode_utf8_decode_utf8(s);
    decode_utf8_split(bytes, width - 1);
    valid_utf8_split(bytes, width - 1);
    vstd::utf8::decode_utf8_encode_utf8(bytes.subrange(0, width - 1));
    let start = byte_prefix(s, width - 1);
    assert(s.subrange(0, start.len() as int) =~= start);
}

/// Text that is cut off by characters fits.
pub proof fn shortened_text_fits(s: Seq<char>, width: int)
    requires
        width >= 0,
    ensures
        shortened(s, width).len() <= width,
        s.len() <= width ==> shortened(s, width) == s,
        s.len() > width > 0 ==> shortened(s, width).len() == width && shortened(s, width).drop_last()
            == s.take(width - 1),
{
    if s.len() > width && width > 0 {
        assert(shortened(s, width).drop_last() =~= s.take(width - 1));
    }
    assert(s.len() == 0 ==> s =~= Seq::empty());
}

/// The style of a count that needs no attention.
#[verifier::allow_in_spec]
pub fn dim_count_style() -> Style
    returns
        colored(Color::DarkGray),
{
    colored(Color::DarkGray)
}

/// The style of a count of what is active.
#[verifier::allow_in_spec]
pub fn active_count_style(active: usize) -> Style
    returns
        (if active > 0 {
            colored(Color::LightGreen)
        } else {
            dim_count_style()
        }),
{
    if active > 0 {
        colored(Color::LightGreen)
    } else {
        dim_count_style()
    }
}

/// A count of what is active among all, at the right end of its column.
pub open spec fn count_cell(active: usize, total: usize, width: usize) -> Seq<
    (Seq<char>, Style),
> {
    let active_text = decimal(active as nat);
    let total_text = "/"@ + decimal(total as nat);
    let len = active_text.len() + total_text.len();
    (if width > len {
        seq![(repeated(' ', (width - len) as nat), plain())]
    } else {
        seq![]
    }) + seq![(active_text, active_count_style(active)), (total_text, dim_count_style())]
}

/// Adds a count of what is active among all to a line that is being built.
pub fn push_project_count_cell(spans: &mut Vec<Span>, active: usize, total: usize, width: usize)
    ensures
        spans_view(final(spans)@) == spans_view(old(spans)@) + count_cell(active, total, width),
{
    let ghost before = spans_view(spans@);
    let active_text = number(active as u64);
    let total_text = concat("/", number(total as u64).as_str());
    let active_len = chars_of(active_text.as_str()).len();
    let total_len = chars_of(total_text.as_str()).len();
    if width > total_len && width - total_len > active_len {
        push_owned(spans, repeat_char(' ', width - total_len - active_len), plain());
    }
    push_owned(spans, active_text, active_count_style(active));
    push_owned(spans, total_text, dim_count_style());
    assert(spans_view(spans@) =~= before + count_cell(active, total, width));
}

/// Adds an empty column to a line that is being built.
pub fn push_project_blank_cell(spans: &mut Vec<Span>, width: usize)
    ensures
        spans_view(final(spans)@) == spans_view(old(spans)@).push(
            (repeated(' ', width as nat), dim_count_style()),
        ),
{
    push_owned(spans, repeat_char(' ', width), dim_count_style());
}

/// Padding fills a text up to the width with spaces, behind it or before it, and
/// leaves one that is as wide alone.
pub proof fn padding_fills_up_with_spaces(s: Seq<char>, width: int, i: int)
    requires
        0 <= i,
    ensures
        s.len() >= width ==> left_aligned(s, width) == s && right_aligned(s, width) == s,
        s.len() < width ==> left_aligned(s, width).len() == width && right_aligned(s, width).len()
            == width && left_aligned(s, width).take(s.len() as int) == s && right_aligned(
            s,
            width,
        ).skip(width - s.len()) == s,
        s.len() <= i < width ==> left_aligned(s, width)[i] == ' ',
        i < width - s.len() ==> right_aligned(s, width)[i] == ' ',
{
    if s.len() < width {
        assert(left_aligned(s, width).take(s.len() as int) =~= s);
        assert(right_aligned(s, width).skip(width - s.len()) =~= s);
    }
}

/// What was cut off ends in an ellipsis, and so does what was shortened.
pub proof fn what_was_cut_off_shows_it(s: Seq<char>, width: int)
    requires
        width > 0,
    ensures
        byte_len(s) > width ==> cut_off(s, width).last() == '…',
        byte_len(s) <= width ==> cut_off(s, width) == s,
        s.len() > width ==> shortened(s, width).last() == '…',
{
}

/// A count tells how many are active among all, aligned to the right.
pub proof fn counts_tell_the_active_among_all(active: usize, total: usize, width: usize)
    ensures
        ({
            let cell = count_cell(active, total, width);
            let n = cell.len() as int;
            &&& n >= 2
            &&& cell[n - 2].0 == decimal(active as nat)
            &&& cell[n - 1].0 == "/"@ + decimal(total as nat)
            &&& n == 3 ==> cell[0].0.len() + cell[1].0.len() + cell[2].0.len() == width
            &&& n == 2 ==> cell[0].0.len() + cell[1].0.len() >= width
        }),
{
}

} // verus!
