//! The multi-line text area that editors are built on: a model of its state,
//! and the calls into `tui_textarea` that change it.

use crate::text::{join_with, repeated, split_on, texts, without_cr};
use ratatui::style::Style;
use tui_textarea::{CursorMove as AreaMove, Input as AreaInput, Key as AreaKey, Scrolling};
use vstd::prelude::*;

verus! {

/// A key on the keyboard or a virtual key of the mouse wheel.
#[derive(Clone, Copy, Debug, PartialEq, Eq, Structural)]
pub enum Key {
    Char(char),
    F(u8),
    Backspace,
    Enter,
    Left,
    Right,
    Up,
    Down,
    Tab,
    Delete,
    Home,
    End,
    PageUp,
    PageDown,
    Esc,
    MouseScrollDown,
    MouseScrollUp,
    Null,
}

/// A key together with the modifiers held down.
#[derive(Clone, Copy, Debug, PartialEq, Eq, Structural)]
pub struct Input {
    pub key: Key,
    pub ctrl: bool,
    pub alt: bool,
    pub shift: bool,
}

impl Default for Input {
    fn default() -> (input: Self)
        ensures
            input == (Input { key: Key::Null, ctrl: false, alt: false, shift: false }),
    {
        Input { key: Key::Null, ctrl: false, alt: false, shift: false }
    }
}

/// A cursor movement that depends on the text and the cursor alone.
#[derive(Clone, Copy, Debug, PartialEq, Eq, Structural)]
pub enum CursorMove {
    Forward,
    Back,
    Up,
    Down,
    Head,
    End,
    Top,
    Bottom,
    WordForward,
    WordEnd,
    WordBack,
    ParagraphForward,
    ParagraphBack,
    Jump(u16, u16),
}

/// A scroll of the visible part of the text.
#[derive(Clone, Copy, Debug, PartialEq, Eq, Structural)]
pub enum Scroll {
    LineDown,
    LineUp,
    HalfPageDown,
    HalfPageUp,
    PageDown,
    PageUp,
}

/// An edit that can be undone or redone: the text that this leads to, and the
/// cursor before and after the edit.
#[verifier::ext_equal]
pub struct Edit {
    pub text: Seq<Seq<char>>,
    pub before: (int, int),
    pub after: (int, int),
}

/// What a text area holds: its lines, the cursor, the other end of the
/// selection, the yanked pieces, and the edits that can be undone and redone
/// (the next one last).
#[verifier::ext_equal]
pub struct AreaState {
    pub lines: Seq<Seq<char>>,
    pub cursor: (int, int),
    pub selection: Option<(int, int)>,
    pub yank: Seq<Seq<char>>,
    pub undo: Seq<Edit>,
    pub redo: Seq<Edit>,
}

/// How many edits a text area remembers.
pub const HISTORY_LIMIT: usize = 50;

/// `pos` is the place before a character of the text or at the end of a line.
pub open spec fn valid_pos(lines: Seq<Seq<char>>, pos: (int, int)) -> bool {
    0 <= pos.0 < lines.len() && 0 <= pos.1 <= lines[pos.0].len()
}

/// No piece holds a line break.
pub open spec fn single_lines(pieces: Seq<Seq<char>>) -> bool {
    forall|i: int| 0 <= i < pieces.len() ==> !(#[trigger] pieces[i]).contains('\n')
}

pub open spec fn pos_before(a: (int, int), b: (int, int)) -> bool {
    a.0 < b.0 || (a.0 == b.0 && a.1 < b.1)
}

/// The text with everything from `start` up to `end` taken out.
pub open spec fn without_range(
    lines: Seq<Seq<char>>,
    start: (int, int),
    end: (int, int),
) -> Seq<Seq<char>> {
    lines.take(start.0).push(lines[start.0].take(start.1) + lines[end.0].skip(end.1)) + lines.skip(
        end.0 + 1,
    )
}

/// The text from `start` up to `end`, line by line.
pub open spec fn range_pieces(
    lines: Seq<Seq<char>>,
    start: (int, int),
    end: (int, int),
) -> Seq<Seq<char>> {
    if start.0 == end.0 {
        seq![lines[start.0].subrange(start.1, end.1)]
    } else {
        (seq![lines[start.0].skip(start.1)] + lines.subrange(start.0 + 1, end.0)).push(
            lines[end.0].take(end.1),
        )
    }
}

/// The text with `pieces` put in at `pos`, a line break between neighbours.
pub open spec fn with_pieces(
    lines: Seq<Seq<char>>,
    pos: (int, int),
    pieces: Seq<Seq<char>>,
) -> Seq<Seq<char>> {
    let head = lines[pos.0].take(pos.1);
    let tail = lines[pos.0].skip(pos.1);
    let middle = if pieces.len() == 1 {
        seq![head + pieces[0] + tail]
    } else {
        (seq![head + pieces[0]] + pieces.subrange(1, pieces.len() - 1)).push(pieces.last() + tail)
    };
    lines.take(pos.0) + middle + lines.skip(pos.0 + 1)
}

/// The place where `pieces` end once they were put in at `pos`.
pub open spec fn pieces_end(pos: (int, int), pieces: Seq<Seq<char>>) -> (int, int) {
    if pieces.len() == 1 {
        (pos.0, pos.1 + pieces[0].len())
    } else {
        (pos.0 + pieces.len() - 1, pieces.last().len() as int)
    }
}

/// The pieces that a pasted or inserted string is cut into.
pub open spec fn text_pieces(text: Seq<char>) -> Seq<Seq<char>> {
    Seq::new(split_on(text, '\n').len(), |i: int| without_cr(split_on(text, '\n')[i]))
}

pub open spec fn fit_col(lines: Seq<Seq<char>>, row: int, col: int) -> (int, int) {
    (row, if col <= lines[row].len() { col } else { lines[row].len() as int })
}

/// Where a cursor movement by words or paragraphs leads, if anywhere.
pub uninterp spec fn word_move(
    m: CursorMove,
    lines: Seq<Seq<char>>,
    cursor: (int, int),
) -> Option<(int, int)>;

/// Where the word before a column of a line starts, or else the line.
pub uninterp spec fn word_start(line: Seq<char>, col: int) -> int;

/// Where the word behind a column of a line ends, or else the line.
pub uninterp spec fn word_end(line: Seq<char>, col: int) -> int;

/// How many spaces lead from the end of a text to the next tab stop.
pub uninterp spec fn tab_spaces(before: Seq<char>) -> nat;

/// Where a cursor movement leads.
pub open spec fn moved(m: CursorMove, lines: Seq<Seq<char>>, cursor: (int, int)) -> (int, int) {
    let (row, col) = cursor;
    match m {
        CursorMove::Forward => if col < lines[row].len() {
            (row, col + 1)
        } else if row + 1 < lines.len() {
            (row + 1, 0)
        } else {
            cursor
        },
        CursorMove::Back => if col > 0 {
            (row, col - 1)
        } else if row > 0 {
            (row - 1, lines[row - 1].len() as int)
        } else {
            cursor
        },
        CursorMove::Up => if row > 0 { fit_col(lines, row - 1, col) } else { cursor },
        CursorMove::Down => if row + 1 < lines.len() {
            fit_col(lines, row + 1, col)
        } else {
            cursor
        },
        CursorMove::Head => (row, 0),
        CursorMove::End => (row, lines[row].len() as int),
        CursorMove::Top => fit_col(lines, 0, col),
        CursorMove::Bottom => fit_col(lines, lines.len() - 1, col),
        CursorMove::Jump(r, c) => if r < lines.len() {
            fit_col(lines, r as int, c as int)
        } else {
            fit_col(lines, lines.len() - 1, c as int)
        },
        _ => match word_move(m, lines, cursor) {
            Some(to) => to,
            None => cursor,
        },
    }
}

/// A cursor movement leads nowhere.
pub open spec fn stays(m: CursorMove, lines: Seq<Seq<char>>, cursor: (int, int)) -> bool {
    let (row, col) = cursor;
    match m {
        CursorMove::Forward => col == lines[row].len() && row + 1 == lines.len(),
        CursorMove::Back => col == 0 && row == 0,
        CursorMove::Up => row == 0,
        CursorMove::Down => row + 1 == lines.len(),
        CursorMove::Head
        | CursorMove::End
        | CursorMove::Top
        | CursorMove::Bottom
        | CursorMove::Jump(_, _) => false,
        _ => word_move(m, lines, cursor) is None,
    }
}

impl AreaState {
    /// What holds of every text area: there is a line, the cursor and the
    /// selection lie in the text, and nothing held as one line has a line break.
    pub open spec fn wf(self) -> bool {
        &&& self.lines.len() >= 1
        &&& valid_pos(self.lines, self.cursor)
        &&& (self.selection matches Some(s) ==> valid_pos(self.lines, s))
        &&& self.yank.len() >= 1
        &&& single_lines(self.lines)
        &&& single_lines(self.yank)
        &&& forall|i: int|
            0 <= i < self.undo.len() ==> single_lines((#[trigger] self.undo[i]).text) && valid_pos(
                self.undo[i].text,
                self.undo[i].before,
            )
        &&& forall|i: int|
            0 <= i < self.redo.len() ==> single_lines((#[trigger] self.redo[i]).text) && valid_pos(
                self.redo[i].text,
                self.redo[i].after,
            )
    }

    /// The selected range in text order, unless it is empty.
    pub open spec fn selected(self) -> Option<((int, int), (int, int))> {
        match self.selection {
            None => None,
            Some(s) => if s == self.cursor {
                None
            } else if pos_before(s, self.cursor) {
                Some((s, self.cursor))
            } else {
                Some((self.cursor, s))
            },
        }
    }

    /// The same area after an edit from `before` that leaves `lines` and
    /// `cursor`: it can be undone, and nothing can be redone.
    pub open spec fn edited(
        self,
        lines: Seq<Seq<char>>,
        before: (int, int),
        cursor: (int, int),
    ) -> AreaState {
        let kept = if self.undo.len() + self.redo.len() >= HISTORY_LIMIT && self.undo.len() > 0 {
            self.undo.drop_first()
        } else {
            self.undo
        };
        AreaState {
            lines,
            cursor,
            undo: kept.push(Edit { text: self.lines, before, after: cursor }),
            redo: Seq::empty(),
            ..self
        }
    }

    pub open spec fn deselected(self) -> AreaState {
        AreaState { selection: None, ..self }
    }

    pub open spec fn selecting(self) -> AreaState {
        AreaState { selection: Some(self.cursor), ..self }
    }

    pub open spec fn moved(self, m: CursorMove) -> AreaState {
        AreaState { cursor: moved(m, self.lines, self.cursor), ..self }
    }

    /// With the range from `start` to `end` taken out.
    pub open spec fn removed(self, start: (int, int), end: (int, int)) -> AreaState {
        self.edited(without_range(self.lines, start, end), end, start)
    }

    /// With the selected text taken out and the selection dropped.
    pub open spec fn unselected_text(self) -> AreaState {
        match self.selected() {
            None => self.deselected(),
            Some((start, end)) => self.deselected().removed(start, end),
        }
    }

    /// With `pieces` put in at the cursor.
    pub open spec fn inserted(self, pieces: Seq<Seq<char>>) -> AreaState {
        if pieces == seq![Seq::<char>::empty()] {
            self
        } else {
            self.edited(
                with_pieces(self.lines, self.cursor, pieces),
                self.cursor,
                pieces_end(self.cursor, pieces),
            )
        }
    }

    /// With `pieces` in place of the selected text.
    pub open spec fn replaced(self, pieces: Seq<Seq<char>>) -> AreaState {
        self.unselected_text().inserted(pieces)
    }

    pub open spec fn with_newline(self) -> AreaState {
        self.replaced(seq![Seq::empty(), Seq::empty()])
    }

    pub open spec fn pasted(self) -> AreaState {
        self.replaced(self.yank)
    }

    pub open spec fn copied(self) -> AreaState {
        match self.selected() {
            None => self.deselected(),
            Some((start, end)) => AreaState {
                yank: range_pieces(self.lines, start, end),
                ..self.deselected()
            },
        }
    }

    pub open spec fn cut(self) -> AreaState {
        AreaState { yank: self.copied().yank, ..self.unselected_text() }
    }

    /// The character after the cursor taken out, or else the line break there.
    pub open spec fn next_char_deleted(self) -> AreaState {
        let next = moved(CursorMove::Forward, self.lines, self.cursor);
        if self.selected() is Some {
            self.unselected_text()
        } else if next == self.cursor {
            self.deselected()
        } else {
            self.deselected().removed(self.cursor, next)
        }
    }

    /// The character before the cursor taken out, or else the line break there.
    pub open spec fn previous_char_deleted(self) -> AreaState {
        let previous = moved(CursorMove::Back, self.lines, self.cursor);
        if self.selected() is Some {
            self.unselected_text()
        } else if previous == self.cursor {
            self.deselected()
        } else {
            self.deselected().removed(previous, self.cursor)
        }
    }

    /// The rest of the line taken out and yanked; at its end, the line break.
    pub open spec fn line_end_deleted(self) -> AreaState {
        let end = moved(CursorMove::End, self.lines, self.cursor);
        if self.selected() is Some || end == self.cursor {
            self.next_char_deleted()
        } else {
            AreaState {
                yank: range_pieces(self.lines, self.cursor, end),
                ..self.deselected().removed(self.cursor, end)
            }
        }
    }

    /// `after` differs in no more than a cursor that lies in the text.
    pub open spec fn cursor_only(self, after: AreaState) -> bool {
        after == (AreaState { cursor: after.cursor, ..self }) && valid_pos(
            after.lines,
            after.cursor,
        )
    }

    /// The last edit taken back, if there is one.
    pub open spec fn undone(self) -> AreaState {
        if self.undo.len() == 0 {
            self
        } else {
            let edit = self.undo.last();
            AreaState {
                lines: edit.text,
                cursor: edit.before,
                undo: self.undo.drop_last(),
                redo: self.redo.push(Edit { text: self.lines, ..edit }),
                ..self.deselected()
            }
        }
    }

    /// The edit last taken back made again, if there is one.
    pub open spec fn redone(self) -> AreaState {
        if self.redo.len() == 0 {
            self
        } else {
            let edit = self.redo.last();
            AreaState {
                lines: edit.text,
                cursor: edit.after,
                redo: self.redo.drop_last(),
                undo: self.undo.push(Edit { text: self.lines, ..edit }),
                ..self.deselected()
            }
        }
    }

    /// A part of the cursor's line taken out and yanked.
    pub open spec fn piece_deleted(self, from: int, to: int) -> AreaState {
        let row = self.cursor.0;
        AreaState {
            yank: seq![self.lines[row].subrange(from, to)],
            ..self.deselected().removed((row, from), (row, to))
        }
    }

    /// The start of the line taken out and yanked; at its start, the line break.
    pub open spec fn line_start_deleted(self) -> AreaState {
        if self.selected() is Some || self.cursor.1 == 0 {
            self.previous_char_deleted()
        } else {
            self.piece_deleted(0, self.cursor.1)
        }
    }

    /// The word before the cursor taken out and yanked; at the start of the
    /// line, the line break.
    pub open spec fn previous_word_deleted(self) -> AreaState {
        let (row, col) = self.cursor;
        if self.selected() is Some || col == 0 {
            self.previous_char_deleted()
        } else {
            self.piece_deleted(word_start(self.lines[row], col), col)
        }
    }

    /// The word behind the cursor taken out and yanked; at the end of the line,
    /// the line break.
    pub open spec fn next_word_deleted(self) -> AreaState {
        let (row, col) = self.cursor;
        if self.selected() is Some || col == self.lines[row].len() {
            self.next_char_deleted()
        } else {
            self.piece_deleted(col, word_end(self.lines[row], col))
        }
    }

    /// With spaces up to the next tab stop in place of the selected text.
    pub open spec fn tabbed(self) -> AreaState {
        let cleared = self.unselected_text();
        let before = cleared.lines[cleared.cursor.0].take(cleared.cursor.1);
        cleared.inserted(seq![repeated(' ', tab_spaces(before))])
    }

    /// The selection for a movement of the cursor: with shift it starts here
    /// unless it has started, without shift it is dropped.
    pub open spec fn selection_for(self, shift: bool) -> Option<(int, int)> {
        if !shift {
            None
        } else if self.selection is Some {
            self.selection
        } else {
            Some(self.cursor)
        }
    }

    /// The cursor moved by a key; a movement that leads nowhere changes nothing.
    pub open spec fn stepped(self, m: CursorMove, shift: bool) -> AreaState {
        if stays(m, self.lines, self.cursor) {
            self
        } else {
            AreaState { selection: self.selection_for(shift), ..self.moved(m) }
        }
    }

    /// The text scrolled by a key, and the cursor moved to where it is shown.
    pub open spec fn scrolled(self, shift: bool, after: AreaState) -> bool {
        (AreaState { selection: self.selection_for(shift), ..self }).cursor_only(after)
    }

    /// What a character typed with control leads to.
    pub open spec fn control_typed(self, c: char, shift: bool, after: AreaState) -> bool {
        match c {
            'm' => after == self.with_newline(),
            'h' => after == self.previous_char_deleted(),
            'd' => after == self.next_char_deleted(),
            'k' => after == self.line_end_deleted(),
            'j' => after == self.line_start_deleted(),
            'w' => after == self.previous_word_deleted(),
            'n' => after == self.stepped(CursorMove::Down, shift),
            'p' => after == self.stepped(CursorMove::Up, shift),
            'f' => after == self.stepped(CursorMove::Forward, shift),
            'b' => after == self.stepped(CursorMove::Back, shift),
            'a' => after == self.stepped(CursorMove::Head, shift),
            'e' => after == self.stepped(CursorMove::End, shift),
            'u' => after == self.undone(),
            'r' => after == self.redone(),
            'y' => after == self.pasted(),
            'x' => after == self.cut(),
            'c' => after == self.copied(),
            'v' => self.scrolled(shift, after),
            _ => after == self,
        }
    }

    /// What a character typed with alt leads to.
    pub open spec fn alt_typed(self, c: char, shift: bool, after: AreaState) -> bool {
        match c {
            'h' => after == self.previous_word_deleted(),
            'd' => after == self.next_word_deleted(),
            '<' => after == self.stepped(CursorMove::Top, shift),
            '>' => after == self.stepped(CursorMove::Bottom, shift),
            'f' => after == self.stepped(CursorMove::WordForward, shift),
            'b' => after == self.stepped(CursorMove::WordBack, shift),
            ']' | 'n' => after == self.stepped(CursorMove::ParagraphForward, shift),
            '[' | 'p' => after == self.stepped(CursorMove::ParagraphBack, shift),
            'v' => self.scrolled(shift, after),
            _ => after == self,
        }
    }

    /// What a character leads to, with the modifiers held down.
    pub open spec fn char_typed(self, c: char, input: Input, after: AreaState) -> bool {
        match (input.ctrl, input.alt) {
            (false, false) => if c == '\n' || c == '\r' {
                after == self.with_newline()
            } else {
                after == self.replaced(seq![seq![c]])
            },
            (true, false) => self.control_typed(c, input.shift, after),
            (false, true) => self.alt_typed(c, input.shift, after),
            (true, true) => match c {
                'b' => after == self.stepped(CursorMove::Head, input.shift),
                'f' => after == self.stepped(CursorMove::End, input.shift),
                'p' => after == self.stepped(CursorMove::Top, input.shift),
                'n' => after == self.stepped(CursorMove::Bottom, input.shift),
                _ => after == self,
            },
        }
    }

    /// What an arrow key leads to: alone, with control, and with control and
    /// alt.
    pub open spec fn arrow_typed(
        self,
        input: Input,
        alone: CursorMove,
        control: CursorMove,
        both: CursorMove,
    ) -> AreaState {
        match (input.ctrl, input.alt) {
            (false, false) => self.stepped(alone, input.shift),
            (true, false) => self.stepped(control, input.shift),
            (true, true) => self.stepped(both, input.shift),
            (false, true) => self,
        }
    }

    /// What typing `input` leads to.
    pub open spec fn typed(self, input: Input, after: AreaState) -> bool {
        let plain = !input.ctrl && !input.alt;
        let alt = !input.ctrl && input.alt;
        &&& after.wf()
        &&& match input.key {
            Key::Enter => after == self.with_newline(),
            Key::Char(c) => self.char_typed(c, input, after),
            Key::Tab => after == if plain {
                self.tabbed()
            } else {
                self
            },
            Key::Backspace => after == if plain {
                self.previous_char_deleted()
            } else if alt {
                self.previous_word_deleted()
            } else {
                self
            },
            Key::Delete => after == if plain {
                self.next_char_deleted()
            } else if alt {
                self.next_word_deleted()
            } else {
                self
            },
            Key::Left => after == self.arrow_typed(
                input,
                CursorMove::Back,
                CursorMove::WordBack,
                CursorMove::Head,
            ),
            Key::Right => after == self.arrow_typed(
                input,
                CursorMove::Forward,
                CursorMove::WordForward,
                CursorMove::End,
            ),
            Key::Up => after == self.arrow_typed(
                input,
                CursorMove::Up,
                CursorMove::ParagraphBack,
                CursorMove::Top,
            ),
            Key::Down => after == self.arrow_typed(
                input,
                CursorMove::Down,
                CursorMove::ParagraphForward,
                CursorMove::Bottom,
            ),
            Key::Home => after == self.stepped(CursorMove::Head, input.shift),
            Key::End => after == self.stepped(CursorMove::End, input.shift),
            Key::PageUp | Key::PageDown | Key::MouseScrollDown | Key::MouseScrollUp => {
                self.scrolled(input.shift, after)
            },
            Key::Esc | Key::Null | Key::F(_) => after == self,
        }
    }
}

/// A text area of `tui_textarea`. The widget inside is what gets drawn.
#[verifier::external_body]
pub struct TextArea<'a> {
    pub widget: tui_textarea::TextArea<'a>,
}

/// The lines that a text area holds.
pub uninterp spec fn area_lines(area: TextArea<'_>) -> Seq<Seq<char>>;

/// The row and column, in characters, of a text area's cursor.
pub uninterp spec fn area_cursor(area: TextArea<'_>) -> (int, int);

/// Where a text area's selection started.
pub uninterp spec fn area_selection(area: TextArea<'_>) -> Option<(int, int)>;

/// The pieces that a text area would paste.
pub uninterp spec fn area_yank(area: TextArea<'_>) -> Seq<Seq<char>>;

/// The edits that can be undone, the next one last.
pub uninterp spec fn area_undo(area: TextArea<'_>) -> Seq<Edit>;

/// The edits that can be redone, the next one last.
pub uninterp spec fn area_redo(area: TextArea<'_>) -> Seq<Edit>;

/// Everything that the contracts say of a text area.
pub open spec fn area_state(area: TextArea<'_>) -> AreaState {
    AreaState {
        lines: area_lines(area),
        cursor: area_cursor(area),
        selection: area_selection(area),
        yank: area_yank(area),
        undo: area_undo(area),
        redo: area_redo(area),
    }
}

/// The state of a text area made of `lines`.
pub open spec fn fresh_state(lines: Seq<Seq<char>>) -> AreaState {
    AreaState {
        lines: if lines.len() == 0 { seq![Seq::empty()] } else { lines },
        cursor: (0, 0),
        selection: None,
        yank: seq![Seq::empty()],
        undo: Seq::empty(),
        redo: Seq::empty(),
    }
}

/// `TextArea::new`: the given lines, or one empty line where there are none,
/// with the cursor at the start, nothing selected, an empty yank and no history.
#[verifier::external_body]
pub(crate) fn new_area<'a>(lines: Vec<String>) -> (area: TextArea<'a>)
    requires
        single_lines(texts(lines@)),
    ensures
        area_state(area) == fresh_state(texts(lines@)),
        area_lines(area) == fresh_state(texts(lines@)).lines,
        area_cursor(area) == (0int, 0int),
        area_selection(area) is None,
        area_yank(area) == seq![Seq::<char>::empty()],
        area_undo(area).len() == 0,
        area_redo(area).len() == 0,
        area_state(area).wf(),
{
    TextArea { widget: tui_textarea::TextArea::new(lines) }
}

/// `TextArea::set_cursor_line_style` with the default style: changes how the
/// cursor's line is drawn, and nothing that the contracts speak of.
#[verifier::external_body]
pub(crate) fn plain_cursor_line(area: &mut TextArea<'_>)
    ensures
        area_state(*final(area)) == area_state(*old(area)),
{
    area.widget.set_cursor_line_style(Style::default())
}

/// `TextArea::lines`: the lines of the text.
#[verifier::external_body]
pub(crate) fn lines_of<'a>(area: &'a TextArea<'a>) -> (lines: &'a [String])
    ensures
        texts(lines@) == area_lines(*area),
{
    area.widget.lines()
}

/// `TextArea::cursor`: the row and the column of the cursor.
#[verifier::external_body]
pub(crate) fn cursor_of(area: &TextArea<'_>) -> (pos: (usize, usize))
    ensures
        (pos.0 as int, pos.1 as int) == area_cursor(*area),
{
    area.widget.cursor()
}

/// `TextArea::yank_text`: the yanked pieces joined by line breaks.
#[verifier::external_body]
pub(crate) fn yank_text_of(area: &TextArea<'_>) -> (text: String)
    ensures
        text@ == join_with(area_yank(*area), '\n'),
{
    area.widget.yank_text()
}

/// `TextArea::set_yank_text`: cuts the text at line breaks, takes one carriage
/// return off the end of each piece, and makes the pieces the yanked ones.
#[verifier::external_body]
pub(crate) fn set_yank_text(area: &mut TextArea<'_>, text: String)
    requires
        area_state(*old(area)).wf(),
    ensures
        area_state(*final(area)) == (AreaState {
            yank: text_pieces(text@),
            ..area_state(*old(area))
        }),
        area_state(*final(area)).wf(),
{
    area.widget.set_yank_text(text)
}

/// `TextArea::insert_str`: the text, cut at line breaks, in place of the selection.
#[verifier::external_body]
pub(crate) fn insert_str(area: &mut TextArea<'_>, text: &str)
    requires
        area_state(*old(area)).wf(),
    ensures
        area_state(*final(area)) == area_state(*old(area)).replaced(text_pieces(text@)),
        area_state(*final(area)).wf(),
{
    area.widget.insert_str(text);
}

/// `TextArea::start_selection`: the selection starts at the cursor.
#[verifier::external_body]
pub(crate) fn start_selection(area: &mut TextArea<'_>)
    requires
        area_state(*old(area)).wf(),
    ensures
        area_state(*final(area)) == area_state(*old(area)).selecting(),
{
    area.widget.start_selection()
}

/// `TextArea::cancel_selection`: nothing is selected any more.
#[verifier::external_body]
pub(crate) fn cancel_selection(area: &mut TextArea<'_>)
    ensures
        area_state(*final(area)) == area_state(*old(area)).deselected(),
{
    area.widget.cancel_selection()
}

/// `TextArea::move_cursor`: the cursor moves, the selection keeps its start.
/// Where movements by words and paragraphs lead, if anywhere, is a function of
/// the text and the cursor, and lies in the text.
#[verifier::external_body]
pub(crate) fn move_area_cursor(area: &mut TextArea<'_>, m: CursorMove)
    requires
        area_state(*old(area)).wf(),
    ensures
        area_state(*final(area)) == area_state(*old(area)).moved(m),
        m is WordForward || m is WordEnd || m is WordBack || m is ParagraphForward
            || m is ParagraphBack ==> match word_move(
            m,
            area_lines(*old(area)),
            area_cursor(*old(area)),
        ) {
            Some(to) => area_cursor(*final(area)) == to,
            None => area_cursor(*final(area)) == area_cursor(*old(area)),
        },
        area_state(*final(area)).wf(),
{
    area.widget.move_cursor(match m {
        CursorMove::Forward => AreaMove::Forward, CursorMove::Back => AreaMove::Back,
        CursorMove::Up => AreaMove::Up, CursorMove::Down => AreaMove::Down,
        CursorMove::Head => AreaMove::Head, CursorMove::End => AreaMove::End,
        CursorMove::Top => AreaMove::Top, CursorMove::Bottom => AreaMove::Bottom,
        CursorMove::WordForward => AreaMove::WordForward,
        CursorMove::WordEnd => AreaMove::WordEnd,
        CursorMove::WordBack => AreaMove::WordBack,
        CursorMove::ParagraphForward => AreaMove::ParagraphForward,
        CursorMove::ParagraphBack => AreaMove::ParagraphBack,
        CursorMove::Jump(row, col) => AreaMove::Jump(row, col),
    })
}

/// `TextArea::scroll`: moves the visible part of the text, and the cursor into
/// it; how far depends on the height last drawn, so that only what stays is said.
#[verifier::external_body]
pub(crate) fn scroll_area(area: &mut TextArea<'_>, scroll: Scroll)
    requires
        area_state(*old(area)).wf(),
    ensures
        area_state(*old(area)).cursor_only(area_state(*final(area))),
{
    area.widget.scroll(match scroll {
        Scroll::LineDown => Scrolling::Delta { rows: 1, cols: 0 },
        Scroll::LineUp => Scrolling::Delta { rows: -1, cols: 0 },
        Scroll::HalfPageDown => Scrolling::HalfPageDown,
        Scroll::HalfPageUp => Scrolling::HalfPageUp,
        Scroll::PageDown => Scrolling::PageDown,
        Scroll::PageUp => Scrolling::PageUp,
    })
}

/// `TextArea::delete_line_by_end`: the selected text goes, or else the rest of
/// the line into the yank, or else the line break.
#[verifier::external_body]
pub(crate) fn delete_line_by_end(area: &mut TextArea<'_>)
    requires
        area_state(*old(area)).wf(),
    ensures
        area_state(*final(area)) == area_state(*old(area)).line_end_deleted(),
        area_state(*final(area)).wf(),
{
    area.widget.delete_line_by_end();
}

/// `TextArea::delete_next_char`: the selected text goes, or else the character
/// or line break after the cursor.
#[verifier::external_body]
pub(crate) fn delete_next_char(area: &mut TextArea<'_>)
    requires
        area_state(*old(area)).wf(),
    ensures
        area_state(*final(area)) == area_state(*old(area)).next_char_deleted(),
        area_state(*final(area)).wf(),
{
    area.widget.delete_next_char();
}

/// `TextArea::insert_newline`: a line break in place of the selection.
#[verifier::external_body]
pub(crate) fn insert_newline(area: &mut TextArea<'_>)
    requires
        area_state(*old(area)).wf(),
    ensures
        area_state(*final(area)) == area_state(*old(area)).with_newline(),
        area_state(*final(area)).wf(),
{
    area.widget.insert_newline()
}

/// `TextArea::paste`: the yanked pieces in place of the selection.
#[verifier::external_body]
pub(crate) fn paste(area: &mut TextArea<'_>)
    requires
        area_state(*old(area)).wf(),
    ensures
        area_state(*final(area)) == area_state(*old(area)).pasted(),
        area_state(*final(area)).wf(),
{
    area.widget.paste();
}

/// `TextArea::copy`: the selected text, if any, becomes the yanked one; the
/// selection is dropped.
#[verifier::external_body]
pub(crate) fn copy(area: &mut TextArea<'_>)
    requires
        area_state(*old(area)).wf(),
    ensures
        area_state(*final(area)) == area_state(*old(area)).copied(),
        area_state(*final(area)).wf(),
{
    area.widget.copy()
}

/// `TextArea::cut`: like `copy`, and the selected text goes.
#[verifier::external_body]
pub(crate) fn cut(area: &mut TextArea<'_>)
    requires
        area_state(*old(area)).wf(),
    ensures
        area_state(*final(area)) == area_state(*old(area)).cut(),
        area_state(*final(area)).wf(),
{
    area.widget.cut();
}

/// `TextArea::undo`: back to the text and the cursor before the last edit, if
/// there is one.
#[verifier::external_body]
pub(crate) fn undo(area: &mut TextArea<'_>)
    requires
        area_state(*old(area)).wf(),
    ensures
        area_state(*final(area)) == area_state(*old(area)).undone(),
        area_state(*final(area)).wf(),
{
    area.widget.undo();
}

/// `TextArea::redo`: on to the text and the cursor after the edit that was last
/// undone, if there is one.
#[verifier::external_body]
pub(crate) fn redo(area: &mut TextArea<'_>)
    requires
        area_state(*old(area)).wf(),
    ensures
        area_state(*final(area)) == area_state(*old(area)).redone(),
        area_state(*final(area)).wf(),
{
    area.widget.redo();
}

/// `TextArea::input`: what [`AreaState::typed`] says of the key. Where words
/// start and end, and how many spaces a tab stands for, are functions of the line
/// and the column. Where the cursor is after a scroll depends on the height last
/// drawn, and is left unsaid.
#[verifier::external_body]
pub(crate) fn type_into(area: &mut TextArea<'_>, input: Input)
    requires
        area_state(*old(area)).wf(),
    ensures
        area_state(*old(area)).typed(input, area_state(*final(area))),
        area_selection(*old(area)) is None && input.key is Backspace && input.alt && !input.ctrl
            && area_cursor(*old(area)).1 > 0 ==> area_cursor(*final(area)).1 == word_start(
            area_lines(*old(area))[area_cursor(*old(area)).0],
            area_cursor(*old(area)).1,
        ),
        area_selection(*old(area)) is None && input.key is Delete && input.alt && !input.ctrl
            && area_cursor(*old(area)).1 < area_lines(*old(area))[area_cursor(*old(area)).0].len()
            ==> area_yank(*final(area))[0].len() == word_end(
            area_lines(*old(area))[area_cursor(*old(area)).0],
            area_cursor(*old(area)).1,
        ) - area_cursor(*old(area)).1,
        area_selection(*old(area)) is None && input.key is Tab && !input.alt && !input.ctrl
            ==> area_cursor(*final(area)).1 == area_cursor(*old(area)).1 + tab_spaces(
            area_lines(*old(area))[area_cursor(*old(area)).0].take(area_cursor(*old(area)).1),
        ),
{
    let key = match input.key {
        Key::Char(c) => AreaKey::Char(c), Key::F(n) => AreaKey::F(n),
        Key::Backspace => AreaKey::Backspace, Key::Enter => AreaKey::Enter,
        Key::Left => AreaKey::Left, Key::Right => AreaKey::Right,
        Key::Up => AreaKey::Up, Key::Down => AreaKey::Down,
        Key::Tab => AreaKey::Tab, Key::Delete => AreaKey::Delete,
        Key::Home => AreaKey::Home, Key::End => AreaKey::End,
        Key::PageUp => AreaKey::PageUp, Key::PageDown => AreaKey::PageDown,
        Key::MouseScrollDown => AreaKey::MouseScrollDown,
        Key::MouseScrollUp => AreaKey::MouseScrollUp,
        Key::Esc => AreaKey::Esc, Key::Null => AreaKey::Null,
    };
    area.widget.input(AreaInput { key, ctrl: input.ctrl, alt: input.alt, shift: input.shift });
}

} // verus!
