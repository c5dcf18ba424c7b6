//! Markdown as a stream of events, and its rendering as styled lines.

use crate::markdown::MdEvent::{
    CodeBlockEnds, CodeBlockStarts, CodeSpan, EmphasisEnds, EmphasisStarts, HardLineBreak,
    HeadingEnds, HeadingStarts, ItemEnds, ItemStarts, ListEnds, ListStarts, Other, ParagraphEnds,
    ParagraphStarts, Separator, SoftLineBreak, StrongEnds, StrongStarts, Words,
};
use crate::style::{
    colored, lines_view, push_line, push_owned, spans_view, Color, Line, Span, Style,
};
use crate::text::{
    concat, decimal, number, lines_of_text, repeat_char, repeated, split_lines, split_on,
    split_string, texts,
};
use pulldown_cmark::Event::{Code, End, HardBreak, Rule, SoftBreak, Start, Text};
use pulldown_cmark::Tag::{CodeBlock, Emphasis, Heading, Item, List, Paragraph, Strong};
use pulldown_cmark::TagEnd::{
    CodeBlock as CodeBlockEnd, Emphasis as EmphasisEnd, Heading as HeadingEnd, Item as ItemEnd,
    List as ListEnd, Paragraph as ParagraphEnd, Strong as StrongEnd,
};
use pulldown_cmark::{Options, Parser};
use vstd::prelude::*;

verus! {

/// One step through a markdown document. The text is a `String` in running
/// code and a sequence of characters in contracts.
pub enum MdEvent<T> {
    HeadingStarts(u8),
    HeadingEnds,
    CodeBlockStarts,
    CodeBlockEnds,
    EmphasisStarts,
    EmphasisEnds,
    StrongStarts,
    StrongEnds,
    ListStarts(Option<u64>),
    ListEnds,
    ItemStarts,
    ItemEnds,
    ParagraphStarts,
    ParagraphEnds,
    Words(T),
    CodeSpan(T),
    SoftLineBreak,
    HardLineBreak,
    Separator,
    Other,
}

/// An event with its text as a sequence of characters.
pub open spec fn event_view(event: MdEvent<String>) -> MdEvent<Seq<char>> {
    match event {
        MdEvent::HeadingStarts(level) => MdEvent::HeadingStarts(level),
        MdEvent::HeadingEnds => MdEvent::HeadingEnds,
        MdEvent::CodeBlockStarts => MdEvent::CodeBlockStarts,
        MdEvent::CodeBlockEnds => MdEvent::CodeBlockEnds,
        MdEvent::EmphasisStarts => MdEvent::EmphasisStarts,
        MdEvent::EmphasisEnds => MdEvent::EmphasisEnds,
        MdEvent::StrongStarts => MdEvent::StrongStarts,
        MdEvent::StrongEnds => MdEvent::StrongEnds,
        MdEvent::ListStarts(first) => MdEvent::ListStarts(first),
        MdEvent::ListEnds => MdEvent::ListEnds,
        MdEvent::ItemStarts => MdEvent::ItemStarts,
        MdEvent::ItemEnds => MdEvent::ItemEnds,
        MdEvent::ParagraphStarts => MdEvent::ParagraphStarts,
        MdEvent::ParagraphEnds => MdEvent::ParagraphEnds,
        MdEvent::Words(text) => MdEvent::Words(text@),
        MdEvent::CodeSpan(text) => MdEvent::CodeSpan(text@),
        MdEvent::SoftLineBreak => MdEvent::SoftLineBreak,
        MdEvent::HardLineBreak => MdEvent::HardLineBreak,
        MdEvent::Separator => MdEvent::Separator,
        MdEvent::Other => MdEvent::Other,
    }
}

pub open spec fn events_view(events: Seq<MdEvent<String>>) -> Seq<MdEvent<Seq<char>>> {
    Seq::new(events.len(), |i: int| event_view(events[i]))
}

/// The events of a markdown text without extensions.
pub uninterp spec fn markdown_events(text: Seq<char>) -> Seq<MdEvent<Seq<char>>>;

/// `pulldown_cmark::Parser::new_ext` with no options, and its events in order.
/// The events that rendering does not look at are all `Other`.
#[verifier::external_body]
fn parse_markdown(text: &str) -> (events: Vec<MdEvent<String>>)
    ensures
        events_view(events@) == markdown_events(text@),
{
    Parser::new_ext(text, Options::empty()).map(|event| match event {
        Start(Heading { level, .. }) => HeadingStarts(level as u8),
        End(HeadingEnd(_)) => HeadingEnds,
        Start(CodeBlock(_)) => CodeBlockStarts, End(CodeBlockEnd) => CodeBlockEnds,
        Start(Emphasis) => EmphasisStarts, End(EmphasisEnd) => EmphasisEnds,
        Start(Strong) => StrongStarts, End(StrongEnd) => StrongEnds,
        Start(List(first)) => ListStarts(first), End(ListEnd(_)) => ListEnds,
        Start(Item) => ItemStarts, End(ItemEnd) => ItemEnds,
        Start(Paragraph) => ParagraphStarts,
        End(ParagraphEnd) => ParagraphEnds, Rule => Separator,
        Text(t) => Words(t.to_string()), Code(t) => CodeSpan(t.to_string()),
        SoftBreak => SoftLineBreak, HardBreak => HardLineBreak,
        _ => Other,
    }).collect()
}

/// How far a rendering has come.
#[verifier::ext_equal]
pub struct MdState {
    pub lines: Seq<Seq<(Seq<char>, Style)>>,
    pub current: Seq<(Seq<char>, Style)>,
    pub bold: bool,
    pub italic: bool,
    pub in_code_block: bool,
    pub heading: Option<u8>,
    pub list_depth: nat,
    pub ordered_index: Option<u64>,
}

#[verifier::allow_in_spec]
pub fn code_style() -> Style
    returns
        colored(Color::Rgb(180, 180, 200)),
{
    colored(Color::Rgb(180, 180, 200))
}

/// The style of a heading's text.
#[verifier::allow_in_spec]
pub fn heading_style(level: u8) -> Style
    returns
        (if level == 1 {
            colored(Color::LightCyan).bold()
        } else if level == 2 {
            colored(Color::LightBlue).bold()
        } else {
            colored(Color::Gray).bold()
        }),
{
    if level == 1 {
        colored(Color::LightCyan).bold()
    } else if level == 2 {
        colored(Color::LightBlue).bold()
    } else {
        colored(Color::Gray).bold()
    }
}

/// The style of running text.
#[verifier::allow_in_spec]
pub fn words_style(bold: bool, italic: bool) -> Style
    returns
        (Style { bold, italic, ..colored(Color::Gray) }),
{
    Style { bold, italic, ..colored(Color::Gray) }
}

/// The number after `n`, as 64-bit arithmetic has it.
pub open spec fn next_index(n: u64) -> u64 {
    if n == u64::MAX {
        0
    } else {
        (n + 1) as u64
    }
}

impl MdState {
    pub open spec fn start() -> MdState {
        MdState {
            lines: Seq::empty(),
            current: Seq::empty(),
            bold: false,
            italic: false,
            in_code_block: false,
            heading: None,
            list_depth: 0,
            ordered_index: None,
        }
    }

    /// With the current line ended, where it holds anything.
    pub open spec fn flushed(self) -> MdState {
        if self.current.len() == 0 {
            self
        } else {
            MdState { lines: self.lines.push(self.current), current: Seq::empty(), ..self }
        }
    }

    pub open spec fn with_span(self, text: Seq<char>, style: Style) -> MdState {
        MdState { current: self.current.push((text, style)), ..self }
    }

    /// Lines of a code block, each on a line of its own.
    pub open spec fn with_code(self, pieces: Seq<Seq<char>>) -> MdState
        decreases pieces.len(),
    {
        if pieces.len() == 0 {
            self
        } else {
            self.with_code(pieces.drop_last()).flushed().with_span(
                "  "@ + pieces.last(),
                code_style(),
            )
        }
    }

    /// What a list item starts with.
    pub open spec fn bullet(self) -> Seq<char> {
        let depth = if self.list_depth > 0 { (self.list_depth - 1) as nat } else { 0 };
        let indent = repeated(' ', 2 * depth);
        match self.ordered_index {
            Some(n) => indent + decimal(n as nat) + ". "@,
            None => indent + "\u{2022} "@,
        }
    }

    pub open spec fn with_words(self, text: Seq<char>) -> MdState {
        if self.in_code_block {
            self.with_code(split_on(text, '\n'))
        } else {
            match self.heading {
                Some(level) => self.with_span(
                    repeated('#', level as nat) + " "@ + text,
                    heading_style(level),
                ),
                None => self.with_span(text, words_style(self.bold, self.italic)),
            }
        }
    }

    /// The rendering after one more event.
    pub open spec fn after(self, event: MdEvent<Seq<char>>) -> MdState {
        match event {
            MdEvent::HeadingStarts(level) => MdState { heading: Some(level), ..self.flushed() },
            MdEvent::HeadingEnds => MdState { heading: None, ..self.flushed() },
            MdEvent::CodeBlockStarts => MdState { in_code_block: true, ..self.flushed() },
            MdEvent::CodeBlockEnds => MdState { in_code_block: false, ..self.flushed() },
            MdEvent::EmphasisStarts => MdState { italic: true, ..self },
            MdEvent::EmphasisEnds => MdState { italic: false, ..self },
            MdEvent::StrongStarts => MdState { bold: true, ..self },
            MdEvent::StrongEnds => MdState { bold: false, ..self },
            MdEvent::ListStarts(first) => MdState {
                list_depth: self.list_depth + 1,
                ordered_index: first,
                ..self.flushed()
            },
            MdEvent::ListEnds => {
                let depth = if self.list_depth > 0 { (self.list_depth - 1) as nat } else { 0 };
                MdState {
                    list_depth: depth,
                    ordered_index: if depth == 0 { None } else { self.ordered_index },
                    ..self
                }
            },
            MdEvent::ItemStarts => MdState {
                ordered_index: match self.ordered_index {
                    Some(n) => Some(next_index(n)),
                    None => None,
                },
                ..self.flushed().with_span(self.bullet(), colored(Color::DarkGray))
            },
            MdEvent::ItemEnds | MdEvent::ParagraphStarts | MdEvent::ParagraphEnds
            | MdEvent::SoftLineBreak | MdEvent::HardLineBreak => self.flushed(),
            MdEvent::Words(text) => self.with_words(text),
            MdEvent::CodeSpan(text) => self.with_span("`"@ + text + "`"@, code_style()),
            MdEvent::Separator => MdState {
                lines: self.flushed().lines.push(
                    seq![(repeated('\u{2500}', 40), colored(Color::DarkGray))],
                ),
                ..self.flushed()
            },
            MdEvent::Other => self,
        }
    }
}

/// The rendering after all the events.
pub open spec fn after_events(events: Seq<MdEvent<Seq<char>>>) -> MdState
    decreases events.len(),
{
    if events.len() == 0 {
        MdState::start()
    } else {
        after_events(events.drop_last()).after(events.last())
    }
}

/// One plain line for each line of a text.
pub open spec fn plain_lines(text: Seq<char>) -> Seq<Seq<(Seq<char>, Style)>> {
    Seq::new(
        lines_of_text(text).len(),
        |i: int| seq![(lines_of_text(text)[i], colored(Color::Gray))],
    )
}

/// The lines that a text with the given events is drawn as; a text that
/// renders to nothing is drawn as it stands.
pub open spec fn rendered(
    text: Seq<char>,
    events: Seq<MdEvent<Seq<char>>>,
) -> Seq<Seq<(Seq<char>, Style)>> {
    let lines = after_events(events).flushed().lines;
    if lines.len() == 0 {
        plain_lines(text)
    } else {
        lines
    }
}

/// A rendering under way.
struct Writer {
    lines: Vec<Line>,
    current: Vec<Span>,
    bold: bool,
    italic: bool,
    in_code_block: bool,
    heading: Option<u8>,
    list_depth: usize,
    ordered_index: Option<u64>,
}

impl Writer {
    spec fn state(self) -> MdState {
        MdState {
            lines: lines_view(self.lines@),
            current: spans_view(self.current@),
            bold: self.bold,
            italic: self.italic,
            in_code_block: self.in_code_block,
            heading: self.heading,
            list_depth: self.list_depth as nat,
            ordered_index: self.ordered_index,
        }
    }

    fn flush(&mut self)
        ensures
            final(self).state() == old(self).state().flushed(),
    {
        if self.current.len() > 0 {
            let mut spans: Vec<Span> = Vec::new();
            std::mem::swap(&mut spans, &mut self.current);
            push_line(&mut self.lines, spans);
            assert(spans_view(self.current@) == Seq::<(Seq<char>, Style)>::empty());
        }
    }

    fn push_code(&mut self, text: &str)
        ensures
            final(self).state() == old(self).state().with_code(split_on(text@, '\n')),
    {
        let pieces = split_string(text, '\n');
        let ghost all = split_on(text@, '\n');
        let mut i: usize = 0;
        assert(all.take(0) == Seq::<Seq<char>>::empty());
        while i < pieces.len()
            invariant
                i <= pieces.len(),
                texts(pieces@) == all,
                self.state() == old(self).state().with_code(all.take(i as int)),
            decreases pieces.len() - i,
        {
            assert(all.take(i + 1).drop_last() == all.take(i as int));
            assert(all.take(i + 1).last() == pieces@[i as int]@);
            self.flush();
            push_owned(&mut self.current, concat("  ", pieces[i].as_str()), code_style());
            i += 1;
        }
        assert(all.take(i as int) == all);
    }

    fn push_words(&mut self, text: String)
        ensures
            final(self).state() == old(self).state().with_words(text@),
    {
        if self.in_code_block {
            self.push_code(text.as_str());
        } else {
            match self.heading {
                Some(level) => {
                    let mut content = repeat_char('#', level as usize);
                    content.append(" ");
                    content.append(text.as_str());
                    push_owned(&mut self.current, content, heading_style(level));
                },
                None => {
                    let style = words_style(self.bold, self.italic);
                    push_owned(&mut self.current, text, style);
                },
            }
        }
    }

    fn push_bullet(&mut self)
        ensures
            final(self).state() == old(self).state().after(MdEvent::ItemStarts),
    {
        self.flush();
        let depth: usize = if self.list_depth > 0 { self.list_depth - 1 } else { 0 };
        let mut bullet = String::new();
        let mut i: usize = 0;
        while i < depth
            invariant
                i <= depth,
                bullet@ == repeated(' ', (2 * i) as nat),
            decreases depth - i,
        {
            bullet.push(' ');
            bullet.push(' ');
            i += 1;
            assert(bullet@ == repeated(' ', (2 * i) as nat));
        }
        match self.ordered_index {
            Some(n) => {
                bullet.append(number(n).as_str());
                bullet.append(". ");
                self.ordered_index = Some(n.wrapping_add(1));
            },
            None => {
                bullet.append("\u{2022} ");
            },
        }
        push_owned(&mut self.current, bullet, colored(Color::DarkGray));
    }

    fn push_separator(&mut self)
        ensures
            final(self).state() == old(self).state().after(MdEvent::Separator),
    {
        self.flush();
        let mut spans: Vec<Span> = Vec::new();
        push_owned(&mut spans, repeat_char('\u{2500}', 40), colored(Color::DarkGray));
        push_line(&mut self.lines, spans);
        assert(spans_view(spans@) == seq![(repeated('\u{2500}', 40), colored(Color::DarkGray))]);
    }

    fn handle(&mut self, event: MdEvent<String>)
        requires
            old(self).list_depth < usize::MAX,
        ensures
            final(self).state() == old(self).state().after(event_view(event)),
    {
        match event {
            MdEvent::HeadingStarts(level) => {
                self.flush();
                self.heading = Some(level);
            },
            MdEvent::HeadingEnds => {
                self.flush();
                self.heading = None;
            },
            MdEvent::CodeBlockStarts => {
                self.flush();
                self.in_code_block = true;
            },
            MdEvent::CodeBlockEnds => {
                self.flush();
                self.in_code_block = false;
            },
            MdEvent::EmphasisStarts => {
                self.italic = true;
            },
            MdEvent::EmphasisEnds => {
                self.italic = false;
            },
            MdEvent::StrongStarts => {
                self.bold = true;
            },
            MdEvent::StrongEnds => {
                self.bold = false;
            },
            MdEvent::CodeSpan(text) => {
                let mut content = concat("`", text.as_str());
                content.append("`");
                push_owned(&mut self.current, content, code_style());
            },
            MdEvent::ListStarts(first) => {
                self.flush();
                self.list_depth += 1;
                self.ordered_index = first;
            },
            MdEvent::ListEnds => {
                if self.list_depth > 0 {
                    self.list_depth -= 1;
                }
                if self.list_depth == 0 {
                    self.ordered_index = None;
                }
            },
            MdEvent::ItemStarts => self.push_bullet(),
            MdEvent::ItemEnds | MdEvent::ParagraphStarts | MdEvent::ParagraphEnds
            | MdEvent::SoftLineBreak | MdEvent::HardLineBreak => self.flush(),
            MdEvent::Words(text) => self.push_words(text),
            MdEvent::Separator => self.push_separator(),
            MdEvent::Other => {},
        }
    }
}

/// A list is no deeper than there were events.
proof fn depth_bounded(events: Seq<MdEvent<Seq<char>>>)
    ensures
        after_events(events).list_depth <= events.len(),
    decreases events.len(),
{
    if events.len() > 0 {
        let before = after_events(events.drop_last());
        depth_bounded(events.drop_last());
        match events.last() {
            MdEvent::Words(text) => {
                code_keeps_depth(before, split_on(text, '\n'));
            },
            _ => {},
        }
    }
}

proof fn code_keeps_depth(state: MdState, pieces: Seq<Seq<char>>)
    ensures
        state.with_code(pieces).list_depth == state.list_depth,
    decreases pieces.len(),
{
    if pieces.len() > 0 {
        code_keeps_depth(state, pieces.drop_last());
    }
}

/// The lines that a markdown text with the given events is drawn as.
pub fn render_events(text: &str, events: Vec<MdEvent<String>>) -> (lines: Vec<Line>)
    ensures
        lines_view(lines@) == rendered(text@, events_view(events@)),
{
    let ghost all = events_view(events@);
    let mut writer = Writer {
        lines: Vec::new(),
        current: Vec::new(),
        bold: false,
        italic: false,
        in_code_block: false,
        heading: None,
        list_depth: 0,
        ordered_index: None,
    };
    assert(writer.state() == MdState::start());
    assert(all.take(0) == Seq::<MdEvent<Seq<char>>>::empty());
    let ghost total = events.len();
    for event in it: events
        invariant
            it.seq().len() == total,
            total <= usize::MAX,
            all == events_view(it.seq()),
            writer.state() == after_events(all.take(it.index() as int)),
    {
        proof {
            depth_bounded(all.take(it.index() as int));
            assert(all.take(it.index() + 1).drop_last() == all.take(it.index() as int));
        }
        writer.handle(event);
    }
    assert(all.take(total as int) == all);
    writer.flush();
    let mut lines = writer.lines;
    if lines.len() == 0 {
        let plain = split_lines(text);
        let mut i: usize = 0;
        while i < plain.len()
            invariant
                i <= plain.len(),
                texts(plain@) == lines_of_text(text@),
                lines_view(lines@) == plain_lines(text@).take(i as int),
            decreases plain.len() - i,
        {
            let mut spans: Vec<Span> = Vec::new();
            push_owned(&mut spans, plain[i].clone(), colored(Color::Gray));
            assert(texts(plain@)[i as int] == plain@[i as int]@);
            assert(spans_view(spans@) == plain_lines(text@)[i as int]);
            push_line(&mut lines, spans);
            i += 1;
            assert(plain_lines(text@).take(i as int) == plain_lines(text@).take(i - 1).push(
                plain_lines(text@)[i - 1],
            ));
        }
        assert(plain_lines(text@).take(i as int) == plain_lines(text@));
    }
    lines
}

/// The lines that a markdown text is drawn as.
pub fn render_markdown_lines(text: &str) -> (lines: Vec<Line>)
    ensures
        lines_view(lines@) == rendered(text@, markdown_events(text@)),
{
    render_events(text, parse_markdown(text))
}

/// A heading is a line of its own: as many signs as its level, a space and its
/// text, in bold, in a colour of its own for the first two levels.
pub proof fn headings_are_lines_of_their_own(state: MdState, level: u8, text: Seq<char>)
    requires
        !state.in_code_block,
        state.current.len() == 0,
    ensures
        ({
            let after = state.after(MdEvent::HeadingStarts(level)).after(MdEvent::Words(text)).after(
                MdEvent::HeadingEnds,
            );
            let line = after.lines.last();
            &&& after.lines.drop_last() == state.lines
            &&& after.current.len() == 0
            &&& after.heading is None
            &&& line.len() == 1
            &&& line[0].0.len() == level + 1 + text.len()
            &&& line[0].0.skip(level + 1) == text
            &&& forall|i: int| 0 <= i < level ==> #[trigger] line[0].0[i] == '#'
            &&& line[0].0[level as int] == ' '
            &&& line[0].1.bold
            &&& line[0].1.fg == Some(
                if level == 1 {
                    Color::LightCyan
                } else if level == 2 {
                    Color::LightBlue
                } else {
                    Color::Gray
                },
            )
        }),
{
    reveal_strlit(" ");
    let after = state.after(MdEvent::HeadingStarts(level)).after(MdEvent::Words(text)).after(
        MdEvent::HeadingEnds,
    );
    assert(after.lines.drop_last() =~= state.lines);
    assert(after.lines.last()[0].0.skip(level + 1) =~= text);
}

/// Strong text is bold and emphasised text italic, from their start to their end
/// and no further; the text itself stays on its line.
pub proof fn emphasis_lasts_to_its_end(state: MdState, text: Seq<char>, more: Seq<char>, strong: bool)
    requires
        !state.in_code_block,
        state.heading is None,
        !state.bold,
        !state.italic,
    ensures
        ({
            let (start, end) = if strong {
                (MdEvent::<Seq<char>>::StrongStarts, MdEvent::<Seq<char>>::StrongEnds)
            } else {
                (MdEvent::<Seq<char>>::EmphasisStarts, MdEvent::<Seq<char>>::EmphasisEnds)
            };
            let after = state.after(start).after(MdEvent::Words(text)).after(end).after(
                MdEvent::Words(more),
            );
            let n = state.current.len() as int;
            &&& after.current.len() == n + 2
            &&& after.lines == state.lines
            &&& after.current[n].0 == text && after.current[n].1.bold == strong
                && after.current[n].1.italic == !strong
            &&& after.current[n + 1].0 == more && !after.current[n + 1].1.bold && !after.current[n
                + 1].1.italic
        }),
{
}

/// The items of a list are lines of their own: with a bullet, or numbered from
/// the number that the list starts with on, and indented by two spaces for each
/// list around theirs.
pub proof fn list_items_are_marked(state: MdState, first: Option<u64>, a: Seq<char>, b: Seq<char>)
    requires
        !state.in_code_block,
        state.heading is None,
        !state.bold && !state.italic,
        state.current.len() == 0,
        first matches Some(n) ==> n < u64::MAX,
    ensures
        ({
            let after = state.after(MdEvent::ListStarts(first)).after(MdEvent::ItemStarts).after(
                MdEvent::Words(a),
            ).after(MdEvent::ItemEnds).after(MdEvent::ItemStarts).after(MdEvent::Words(b)).after(
                MdEvent::ItemEnds,
            );
            let n = state.lines.len() as int;
            let indent = repeated(' ', 2 * state.list_depth);
            &&& after.lines.len() == n + 2
            &&& after.lines[n].len() == 2 && after.lines[n + 1].len() == 2
            &&& after.lines[n][1].0 == a && after.lines[n + 1][1].0 == b
            &&& first is None ==> after.lines[n][0].0 == indent + "\u{2022} "@ && after.lines[n
                + 1][0].0 == indent + "\u{2022} "@
            &&& first matches Some(k) ==> after.lines[n][0].0 == indent + decimal(k as nat) + ". "@
                && after.lines[n + 1][0].0 == indent + decimal((k + 1) as nat) + ". "@
            &&& after.current.len() == 0
        }),
{
}

/// A list that ends gives its depth back, and breaks and the ends of paragraphs
/// and items end the line.
pub proof fn lists_and_lines_end(state: MdState, first: Option<u64>)
    ensures
        state.after(MdEvent::ListStarts(first)).after(MdEvent::ListEnds).list_depth
            == state.list_depth,
        state.list_depth == 0 ==> state.after(MdEvent::ListStarts(first)).after(
            MdEvent::ListEnds,
        ).ordered_index is None,
        state.current.len() > 0 ==> state.after(MdEvent::SoftLineBreak).lines == state.lines.push(
            state.current,
        ) && state.after(MdEvent::HardLineBreak).lines == state.lines.push(state.current)
            && state.after(MdEvent::ParagraphEnds).lines == state.lines.push(state.current)
            && state.after(MdEvent::ItemEnds).lines == state.lines.push(state.current),
        state.after(MdEvent::SoftLineBreak).current.len() == 0,
        state.after(MdEvent::HardLineBreak).current.len() == 0,
        state.after(MdEvent::ParagraphEnds).current.len() == 0,
{
}

/// Code in a line stands between backticks, and a line of a code block is
/// indented, both in the colour of code; a rule is a line of forty dashes.
pub proof fn code_and_rules_are_set_off(state: MdState, text: Seq<char>)
    requires
        !text.contains('\n'),
        state.current.len() == 0,
    ensures
        ({
            let span = state.after(MdEvent::CodeSpan(text)).current;
            let block = state.after(MdEvent::CodeBlockStarts).after(MdEvent::Words(text)).after(
                MdEvent::CodeBlockEnds,
            );
            let rule = state.after(MdEvent::Separator);
            &&& span.len() == 1 && span[0].0 == "`"@ + text + "`"@ && span[0].1.fg == Some(
                Color::Rgb(180, 180, 200),
            )
            &&& block.lines.len() == state.lines.len() + 1
            &&& block.lines.last() == seq![("  "@ + text, colored(Color::Rgb(180, 180, 200)))]
            &&& !block.in_code_block
            &&& rule.lines.len() == state.lines.len() + 1 && rule.lines.last()[0].0 == repeated(
                '\u{2500}',
                40,
            )
        }),
{
    crate::text::unbroken_text_is_one_piece(text);
    let inside = state.after(MdEvent::CodeBlockStarts);
    let pieces = split_on(text, '\n');
    assert(pieces == seq![text]);
    assert(pieces.drop_last() =~= Seq::empty());
    assert(inside.with_code(pieces.drop_last()) == inside);
    assert(inside.with_code(pieces).current =~= seq![("  "@ + text, code_style())]);
}

/// A text that renders to nothing is drawn line by line as it stands.
pub proof fn nothing_rendered_is_drawn_as_it_stands(text: Seq<char>, i: int)
    requires
        0 <= i < lines_of_text(text).len(),
    ensures
        ({
            let lines = rendered(text, Seq::empty());
            &&& lines.len() == lines_of_text(text).len()
            &&& lines[i].len() == 1
            &&& lines[i][0].0 == lines_of_text(text)[i]
        }),
{
}

/// Text starts plain: nothing is emphasised, a heading, a list or code before it
/// was begun.
pub proof fn text_starts_plain()
    ensures
        !MdState::start().bold && !MdState::start().italic && !MdState::start().in_code_block,
        MdState::start().heading is None && MdState::start().ordered_index is None,
        MdState::start().list_depth == 0,
        MdState::start().lines.len() == 0 && MdState::start().current.len() == 0,
{
}

} // verus!
