//! Styled text: colours, spans and lines.

use vstd::prelude::*;

verus! {

#[derive(Clone, Copy, Debug, PartialEq, Eq, Structural)]
pub enum Color {
    Black,
    Gray,
    DarkGray,
    White,
    Yellow,
    Cyan,
    LightRed,
    LightGreen,
    LightYellow,
    LightBlue,
    LightMagenta,
    LightCyan,
    Rgb(u8, u8, u8),
}

/// How a piece of text is drawn.
#[derive(Clone, Copy, Debug, PartialEq, Eq, Structural)]
pub struct Style {
    pub fg: Option<Color>,
    pub bg: Option<Color>,
    pub bold: bool,
    pub italic: bool,
}

/// The style that changes nothing.
#[verifier::allow_in_spec]
pub fn plain() -> Style
    returns
        (Style { fg: None, bg: None, bold: false, italic: false }),
{
    Style { fg: None, bg: None, bold: false, italic: false }
}

impl Style {
    #[verifier::allow_in_spec]
    pub fn fg(self, color: Color) -> Style
        returns
            (Style { fg: Some(color), ..self }),
    {
        Style { fg: Some(color), ..self }
    }

    #[verifier::allow_in_spec]
    pub fn bg(self, color: Color) -> Style
        returns
            (Style { bg: Some(color), ..self }),
    {
        Style { bg: Some(color), ..self }
    }

    #[verifier::allow_in_spec]
    pub fn bold(self) -> Style
        returns
            (Style { bold: true, ..self }),
    {
        Style { bold: true, ..self }
    }

    #[verifier::allow_in_spec]
    pub fn italic(self) -> Style
        returns
            (Style { italic: true, ..self }),
    {
        Style { italic: true, ..self }
    }
}

/// The style of text in one colour.
#[verifier::allow_in_spec]
pub fn colored(color: Color) -> Style
    returns
        plain().fg(color),
{
    plain().fg(color)
}

/// A piece of text in one style.
pub struct Span {
    pub content: String,
    pub style: Style,
}

impl View for Span {
    type V = (Seq<char>, Style);

    open spec fn view(&self) -> (Seq<char>, Style) {
        (self.content@, self.style)
    }
}

/// The pieces of a line.
pub struct Line {
    pub spans: Vec<Span>,
}

impl View for Line {
    type V = Seq<(Seq<char>, Style)>;

    open spec fn view(&self) -> Seq<(Seq<char>, Style)> {
        spans_view(self.spans@)
    }
}

pub open spec fn spans_view(spans: Seq<Span>) -> Seq<(Seq<char>, Style)> {
    Seq::new(spans.len(), |i: int| spans[i]@)
}

pub open spec fn lines_view(lines: Seq<Line>) -> Seq<Seq<(Seq<char>, Style)>> {
    Seq::new(lines.len(), |i: int| lines[i]@)
}

/// The text of a line without its styles.
pub open spec fn plain_text(line: Seq<(Seq<char>, Style)>) -> Seq<char>
    decreases line.len(),
{
    if line.len() == 0 {
        Seq::empty()
    } else {
        plain_text(line.drop_last()) + line.last().0
    }
}

/// A span of a string.
pub fn span(content: &str, style: Style) -> (s: Span)
    ensures
        s@ == (content@, style),
{
    Span { content: content.to_owned(), style }
}

/// Adds a span to a line that is being built.
pub fn push_span(spans: &mut Vec<Span>, content: &str, style: Style)
    ensures
        spans_view(final(spans)@) == spans_view(old(spans)@).push((content@, style)),
{
    spans.push(span(content, style));
    assert(spans_view(spans@) == spans_view(old(spans)@).push((content@, style)));
}

/// Adds a span whose text was built to a line that is being built.
pub fn push_owned(spans: &mut Vec<Span>, content: String, style: Style)
    ensures
        spans_view(final(spans)@) == spans_view(old(spans)@).push((content@, style)),
{
    spans.push(Span { content, style });
    assert(spans_view(spans@) == spans_view(old(spans)@).push((content@, style)));
}

/// Nothing, of which a line is to be built.
pub fn no_spans() -> (spans: Vec<Span>)
    ensures
        spans_view(spans@) == Seq::<(Seq<char>, Style)>::empty(),
{
    let spans: Vec<Span> = Vec::new();
    assert(spans_view(spans@) =~= Seq::<(Seq<char>, Style)>::empty());
    spans
}

/// Moves spans to the end of a line that is being built.
pub fn append_spans(spans: &mut Vec<Span>, more: Vec<Span>)
    ensures
        spans_view(final(spans)@) == spans_view(old(spans)@) + spans_view(more@),
{
    let ghost before = spans@;
    let ghost all = more@;
    let mut more = more;
    spans.append(&mut more);
    assert(spans_view(spans@) =~= spans_view(before) + spans_view(all));
}

/// Adds a finished line.
pub fn push_line(lines: &mut Vec<Line>, spans: Vec<Span>)
    ensures
        lines_view(final(lines)@) == lines_view(old(lines)@).push(spans_view(spans@)),
{
    lines.push(Line { spans });
    assert(lines_view(lines@) == lines_view(old(lines)@).push(spans_view(spans@)));
}

/// An entry of a list: some lines, on a background.
pub struct Item {
    pub lines: Vec<Line>,
    pub style: Style,
}

/// An entry of a list as contracts see it.
pub struct ItemView {
    pub lines: Seq<Seq<(Seq<char>, Style)>>,
    pub style: Style,
}

impl View for Item {
    type V = ItemView;

    open spec fn view(&self) -> ItemView {
        ItemView { lines: lines_view(self.lines@), style: self.style }
    }
}

pub open spec fn items_view(items: Seq<Item>) -> Seq<ItemView> {
    Seq::new(items.len(), |i: int| items[i]@)
}

/// No entries, of which a list is to be built.
pub fn no_items() -> (items: Vec<Item>)
    ensures
        items_view(items@) == Seq::<ItemView>::empty(),
{
    let items: Vec<Item> = Vec::new();
    assert(items_view(items@) =~= Seq::<ItemView>::empty());
    items
}

/// No lines, of which a text is to be built.
pub fn no_lines() -> (lines: Vec<Line>)
    ensures
        lines_view(lines@) == Seq::<Seq<(Seq<char>, Style)>>::empty(),
{
    let lines: Vec<Line> = Vec::new();
    assert(lines_view(lines@) =~= Seq::<Seq<(Seq<char>, Style)>>::empty());
    lines
}

/// Adds an entry to a list that is being built.
pub fn push_item(items: &mut Vec<Item>, lines: Vec<Line>, style: Style)
    ensures
        items_view(final(items)@) == items_view(old(items)@).push(
            (ItemView { lines: lines_view(lines@), style }),
        ),
{
    let ghost before = items@;
    let ghost entry = ItemView { lines: lines_view(lines@), style };
    items.push(Item { lines, style });
    assert(items_view(items@) =~= items_view(before).push(entry));
}

/// An entry of one line.
pub open spec fn one_line(line: Seq<(Seq<char>, Style)>, style: Style) -> ItemView {
    ItemView { lines: seq![line], style }
}

/// Adds an entry of one line to a list that is being built.
pub fn push_one_line(items: &mut Vec<Item>, spans: Vec<Span>, style: Style)
    ensures
        items_view(final(items)@) == items_view(old(items)@).push(
            one_line(spans_view(spans@), style),
        ),
{
    let mut lines = no_lines();
    push_line(&mut lines, spans);
    push_item(items, lines, style);
}

} // verus!
