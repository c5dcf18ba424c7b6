//! Hints on keys, as the status bar and dialogs show them.

use crate::style::{colored, push_owned, push_span, spans_view, Color, Span, Style};
use vstd::prelude::*;

verus! {

/// A key and what it does.
pub struct Hint {
    pub key: &'static str,
    pub color: Color,
    pub text: String,
}

/// A key, the colour it is shown in, and what it does.
pub type HintView = (Seq<char>, Color, Seq<char>);

pub open spec fn hints_view(hints: Seq<Hint>) -> Seq<HintView> {
    Seq::new(hints.len(), |i: int| (hints[i].key@, hints[i].color, hints[i].text@))
}

/// The hints of a table.
pub open spec fn table_view(table: Seq<(&'static str, Color, &'static str)>) -> Seq<HintView> {
    Seq::new(table.len(), |i: int| (table[i].0@, table[i].1, table[i].2@))
}

/// A hint.
pub open spec fn hint(key: &'static str, color: Color, text: &'static str) -> HintView {
    (key@, color, text@)
}

/// The text of a line, in which each key stands in its colour before what it
/// does.
pub open spec fn hint_line(hints: Seq<HintView>) -> Seq<(Seq<char>, Style)> {
    Seq::new(
        2 * hints.len(),
        |i: int|
            if i % 2 == 0 {
                (hints[i / 2].0, colored(hints[i / 2].1))
            } else {
                (hints[i / 2].2, colored(Color::DarkGray))
            },
    )
}

/// No hints.
pub fn no_hints() -> (hints: Vec<Hint>)
    ensures
        hints_view(hints@) == Seq::<HintView>::empty(),
{
    let hints: Vec<Hint> = Vec::new();
    assert(hints_view(hints@) =~= Seq::<HintView>::empty());
    hints
}

/// Adds the hints of a table.
pub fn push_hints(hints: &mut Vec<Hint>, table: &[(&'static str, Color, &'static str)])
    ensures
        hints_view(final(hints)@) == hints_view(old(hints)@) + table_view(table@),
{
    let ghost before = hints_view(hints@);
    let mut i: usize = 0;
    assert(hints_view(hints@) =~= before + table_view(table@).take(0));
    while i < table.len()
        invariant
            i <= table.len(),
            hints_view(hints@) == before + table_view(table@).take(i as int),
        decreases table.len() - i,
    {
        push_hint(hints, table[i].0, table[i].1, table[i].2.to_owned());
        assert(hints_view(hints@) =~= before + table_view(table@).take(i + 1));
        i += 1;
    }
    assert(table_view(table@).take(i as int) =~= table_view(table@));
}

/// Adds a hint.
pub fn push_hint(hints: &mut Vec<Hint>, key: &'static str, color: Color, text: String)
    ensures
        hints_view(final(hints)@) == hints_view(old(hints)@).push((key@, color, text@)),
{
    let ghost before = hints_view(hints@);
    hints.push(Hint { key, color, text });
    assert(hints_view(hints@) =~= before.push((key@, color, text@)));
}

/// The hints of a table.
pub fn hints_of(table: &[(&'static str, Color, &'static str)]) -> (hints: Vec<Hint>)
    ensures
        hints_view(hints@) == table_view(table@),
{
    let mut hints = no_hints();
    push_hints(&mut hints, table);
    assert(Seq::<HintView>::empty() + table_view(table@) =~= table_view(table@));
    hints
}

/// Adds hints to a line that is being built.
pub fn push_hint_line(spans: &mut Vec<Span>, hints: Vec<Hint>)
    ensures
        spans_view(final(spans)@) == spans_view(old(spans)@) + hint_line(hints_view(hints@)),
{
    let ghost before = spans_view(spans@);
    let ghost all = hints_view(hints@);
    assert(spans_view(spans@) =~= before + hint_line(all.take(0)));
    for h in it: hints
        invariant
            all == hints_view(it.seq()),
            spans_view(spans@) == before + hint_line(all.take(it.index())),
    {
        push_span(spans, h.key, colored(h.color));
        push_owned(spans, h.text, colored(Color::DarkGray));
        proof {
            let i = it.index();
            assert(all[i] == (h.key@, h.color, h.text@));
            assert forall|j: int| 0 <= j < 2 * i implies #[trigger] hint_line(all.take(i + 1))[j]
                == hint_line(all.take(i))[j] by {
                assert(all.take(i + 1)[j / 2] == all.take(i)[j / 2]);
            }
            assert(spans_view(spans@) =~= before + hint_line(all.take(i + 1)));
        }
    }
    assert(all.take(all.len() as int) =~= all);
}

} // verus!
