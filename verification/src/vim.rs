//! Modal editing in the manner of vi on top of a text area.

use crate::text::{join_strings, join_with, lines_of_text, split_lines, texts};
use crate::textarea::{
    area_state, cancel_selection, copy, cursor_of, cut, delete_line_by_end, delete_next_char,
    fresh_state, insert_newline, lines_of, move_area_cursor, new_area, paste, plain_cursor_line,
    redo, scroll_area, set_yank_text, single_lines, start_selection, text_pieces, type_into, undo,
    yank_text_of, AreaState, CursorMove, Input, Key, Scroll, TextArea,
};
use vstd::prelude::*;

verus! {

/// Vim editing mode
#[derive(Debug, Clone, Copy, PartialEq, Eq, Structural)]
pub enum VimMode {
    Normal,
    Insert,
    Visual,
    Operator(char),
}

impl VimMode {
    /// The word shown for a mode.
    pub open spec fn word(self) -> Seq<char> {
        match self {
            VimMode::Normal => "NORMAL"@,
            VimMode::Insert => "INSERT"@,
            VimMode::Visual => "VISUAL"@,
            VimMode::Operator(_) => "OPERATOR"@,
        }
    }

    /// Get a short string representation for the mode indicator
    pub fn indicator(&self) -> (word: &'static str)
        ensures
            word@ == self.word(),
    {
        match self {
            VimMode::Normal => "NORMAL",
            VimMode::Insert => "INSERT",
            VimMode::Visual => "VISUAL",
            VimMode::Operator(_) => "OPERATOR",
        }
    }

    /// The mode written out, an operator with its key.
    pub fn label(&self) -> (text: String)
        ensures
            text@ == match *self {
                VimMode::Operator(c) => "OPERATOR("@.push(c) + ")"@,
                _ => self.word(),
            },
    {
        match self {
            VimMode::Operator(c) => {
                let mut text = "OPERATOR(".to_owned();
                text.push(*c);
                text.append(")");
                text
            },
            _ => self.indicator().to_owned(),
        }
    }
}

/// Result of processing an input in vim mode
#[derive(Debug, Clone, Copy, PartialEq, Eq, Structural)]
pub enum VimTransition {
    /// No state change
    Nop,
    /// Mode changed
    Mode(VimMode),
    /// Input is pending (part of a multi-key sequence like "gg")
    Pending(Input),
}

/// A movement, which completes a waiting operator.
#[derive(Debug, Clone, Copy, PartialEq, Eq, Structural)]
pub enum Motion {
    /// One cursor movement.
    Move(CursorMove),
    /// To the end of a word; past it under an operator.
    WordEnd,
    /// A scroll, which takes the cursor along.
    Scroll(Scroll),
    /// Over the whole line: the operator's key typed twice.
    WholeLine,
}

/// What a key stands for outside of insert mode.
#[derive(Debug, Clone, Copy, PartialEq, Eq, Structural)]
pub enum Command {
    Go(Motion),
    DeleteToEnd,
    ChangeToEnd,
    Paste,
    Undo,
    Redo,
    DeleteChar,
    Insert,
    Append,
    AppendAtEnd,
    OpenBelow,
    OpenAbove,
    InsertAtHead,
    SelectChars,
    SelectLine,
    Leave,
    Operate(char),
    YankSelection,
    CutSelection,
    ChangeSelection,
    Wait,
}

/// The command of a character key typed outside of insert mode.
pub open spec fn char_command(mode: VimMode, pending: Input, c: char, ctrl: bool) -> Command {
    if c == 'h' {
        Command::Go(Motion::Move(CursorMove::Back))
    } else if c == 'j' {
        Command::Go(Motion::Move(CursorMove::Down))
    } else if c == 'k' {
        Command::Go(Motion::Move(CursorMove::Up))
    } else if c == 'l' {
        Command::Go(Motion::Move(CursorMove::Forward))
    } else if c == 'w' {
        Command::Go(Motion::Move(CursorMove::WordForward))
    } else if c == '^' || c == '0' {
        Command::Go(Motion::Move(CursorMove::Head))
    } else if c == '$' {
        Command::Go(Motion::Move(CursorMove::End))
    } else if c == 'D' {
        Command::DeleteToEnd
    } else if c == 'C' {
        Command::ChangeToEnd
    } else if c == 'p' {
        Command::Paste
    } else if c == 'x' {
        Command::DeleteChar
    } else if c == 'i' {
        Command::Insert
    } else if c == 'A' {
        Command::AppendAtEnd
    } else if c == 'o' {
        Command::OpenBelow
    } else if c == 'O' {
        Command::OpenAbove
    } else if c == 'I' {
        Command::InsertAtHead
    } else if ctrl {
        control_command(c)
    } else {
        plain_command(mode, pending, c)
    }
}

/// The command of a character key typed with control held, for the keys that
/// mean something else without it.
pub open spec fn control_command(c: char) -> Command {
    if c == 'r' {
        Command::Redo
    } else if c == 'e' {
        Command::Go(Motion::Scroll(Scroll::LineDown))
    } else if c == 'y' {
        Command::Go(Motion::Scroll(Scroll::LineUp))
    } else if c == 'd' {
        Command::Go(Motion::Scroll(Scroll::HalfPageDown))
    } else if c == 'u' {
        Command::Go(Motion::Scroll(Scroll::HalfPageUp))
    } else if c == 'f' {
        Command::Go(Motion::Scroll(Scroll::PageDown))
    } else if c == 'b' {
        Command::Go(Motion::Scroll(Scroll::PageUp))
    } else {
        Command::Wait
    }
}

/// The command of a character key typed without control, for the keys that
/// mean something else with it.
pub open spec fn plain_command(mode: VimMode, pending: Input, c: char) -> Command {
    if c == 'e' {
        Command::Go(Motion::WordEnd)
    } else if c == 'b' {
        Command::Go(Motion::Move(CursorMove::WordBack))
    } else if c == 'u' {
        Command::Undo
    } else if c == 'a' {
        Command::Append
    } else if c == 'v' && mode == VimMode::Normal {
        Command::SelectChars
    } else if c == 'V' && mode == VimMode::Normal {
        Command::SelectLine
    } else if c == 'v' && mode == VimMode::Visual {
        Command::Leave
    } else if c == 'g' && pending.key == Key::Char('g') && !pending.ctrl {
        Command::Go(Motion::Move(CursorMove::Top))
    } else if c == 'G' {
        Command::Go(Motion::Move(CursorMove::Bottom))
    } else if mode == VimMode::Operator(c) {
        Command::Go(Motion::WholeLine)
    } else if (c == 'y' || c == 'd' || c == 'c') && mode == VimMode::Normal {
        Command::Operate(c)
    } else if c == 'y' && mode == VimMode::Visual {
        Command::YankSelection
    } else if c == 'd' && mode == VimMode::Visual {
        Command::CutSelection
    } else if c == 'c' && mode == VimMode::Visual {
        Command::ChangeSelection
    } else {
        Command::Wait
    }
}

/// The command that an input stands for outside of insert mode.
pub open spec fn command_of(mode: VimMode, pending: Input, input: Input) -> Command {
    match input.key {
        Key::Char(c) => char_command(mode, pending, c, input.ctrl),
        Key::Esc => if mode == VimMode::Visual || mode is Operator {
            Command::Leave
        } else {
            Command::Wait
        },
        _ => Command::Wait,
    }
}

/// Whether a read-only editor ignores the input: every key that would edit, or
/// lead to a mode that does.
pub open spec fn blocked_in_read_only(mode: VimMode, input: Input) -> bool {
    match input.key {
        Key::Char(c) => {
            ||| c == 'i' || c == 'I' || c == 'o' || c == 'O' || c == 'A'
            ||| c == 'x' || c == 'D' || c == 'C' || c == 'p'
            ||| (c == 'a' || c == 'u') && !input.ctrl
            ||| c == 'r' && input.ctrl
            ||| (c == 'd' || c == 'c') && !input.ctrl && (mode == VimMode::Normal || mode
                == VimMode::Visual)
        },
        _ => false,
    }
}

/// `after` is where the motion leads from `before`.
pub open spec fn motion_leads(
    mode: VimMode,
    motion: Motion,
    before: AreaState,
    after: AreaState,
) -> bool {
    match motion {
        Motion::Move(m) => after == before.moved(m),
        Motion::WordEnd => after == if mode is Operator {
            before.moved(CursorMove::WordEnd).moved(CursorMove::Forward)
        } else {
            before.moved(CursorMove::WordEnd)
        },
        Motion::Scroll(_) => before.cursor_only(after),
        Motion::WholeLine => {
            let start = before.moved(CursorMove::Head).selecting();
            let down = start.moved(CursorMove::Down);
            after == if down.cursor == start.cursor {
                down.moved(CursorMove::End)
            } else {
                down
            }
        },
    }
}

/// What a waiting operator makes of the area once a motion was made.
pub open spec fn operated(mode: VimMode, area: AreaState) -> AreaState {
    match mode {
        VimMode::Operator(op) => if op == 'y' {
            area.copied()
        } else if op == 'd' || op == 'c' {
            area.cut()
        } else {
            area
        },
        _ => area,
    }
}

/// The transition after a motion: a waiting operator is done.
pub open spec fn operated_mode(mode: VimMode) -> VimTransition {
    match mode {
        VimMode::Operator(op) => if op == 'y' || op == 'd' {
            VimTransition::Mode(VimMode::Normal)
        } else if op == 'c' {
            VimTransition::Mode(VimMode::Insert)
        } else {
            VimTransition::Nop
        },
        _ => VimTransition::Nop,
    }
}

/// A motion, and then the waiting operator.
pub open spec fn motion_done(
    mode: VimMode,
    motion: Motion,
    before: AreaState,
    after: AreaState,
) -> bool {
    exists|reached: AreaState| #[trigger]
        motion_leads(mode, motion, before, reached) && after == operated(mode, reached)
}

/// What a command does to the text area.
pub open spec fn command_done(
    mode: VimMode,
    command: Command,
    before: AreaState,
    after: AreaState,
) -> bool {
    match command {
        Command::Go(motion) => motion_done(mode, motion, before, after),
        Command::DeleteToEnd => after == before.line_end_deleted(),
        Command::ChangeToEnd => after == before.line_end_deleted().deselected(),
        Command::Paste => after == before.pasted(),
        Command::Undo => after == before.undone(),
        Command::Redo => after == before.redone(),
        Command::DeleteChar => after == before.next_char_deleted(),
        Command::Insert | Command::Leave => after == before.deselected(),
        Command::Append => after == before.deselected().moved(CursorMove::Forward),
        Command::AppendAtEnd => after == before.deselected().moved(CursorMove::End),
        Command::InsertAtHead => after == before.deselected().moved(CursorMove::Head),
        Command::OpenBelow => after == before.moved(CursorMove::End).with_newline(),
        Command::OpenAbove => after == before.moved(CursorMove::Head).with_newline().moved(
            CursorMove::Up,
        ),
        Command::SelectChars | Command::Operate(_) => after == before.selecting(),
        Command::SelectLine => after == before.moved(CursorMove::Head).selecting().moved(
            CursorMove::End,
        ),
        Command::YankSelection => after == before.moved(CursorMove::Forward).copied(),
        Command::CutSelection | Command::ChangeSelection => after == before.moved(
            CursorMove::Forward,
        ).cut(),
        Command::Wait => after == before,
    }
}

/// The transition that a command ends in.
pub open spec fn command_transition(
    mode: VimMode,
    command: Command,
    input: Input,
) -> VimTransition {
    match command {
        Command::Go(_) => operated_mode(mode),
        Command::DeleteToEnd | Command::Paste | Command::Undo | Command::Redo
        | Command::DeleteChar | Command::Leave | Command::YankSelection
        | Command::CutSelection => VimTransition::Mode(VimMode::Normal),
        Command::ChangeToEnd | Command::Insert | Command::Append | Command::AppendAtEnd
        | Command::OpenBelow | Command::OpenAbove | Command::InsertAtHead
        | Command::ChangeSelection => VimTransition::Mode(VimMode::Insert),
        Command::SelectChars | Command::SelectLine => VimTransition::Mode(VimMode::Visual),
        Command::Operate(op) => VimTransition::Mode(VimMode::Operator(op)),
        Command::Wait => VimTransition::Pending(input),
    }
}

/// One input to the state machine: what becomes of the text area.
pub open spec fn area_step(vim: Vim, input: Input, before: AreaState, after: AreaState) -> bool {
    if vim.mode == VimMode::Insert {
        if leaves_insert(input) {
            after == before
        } else {
            before.typed(input, after)
        }
    } else if vim.read_only && blocked_in_read_only(vim.mode, input) {
        after == before
    } else {
        command_done(vim.mode, command_of(vim.mode, vim.pending, input), before, after)
    }
}

/// One input to the state machine: the transition.
pub open spec fn transition_of(vim: Vim, input: Input) -> VimTransition {
    if vim.mode == VimMode::Insert {
        if leaves_insert(input) {
            VimTransition::Mode(VimMode::Normal)
        } else {
            VimTransition::Mode(VimMode::Insert)
        }
    } else if vim.read_only && blocked_in_read_only(vim.mode, input) {
        VimTransition::Nop
    } else {
        command_transition(vim.mode, command_of(vim.mode, vim.pending, input), input)
    }
}

/// Escape and Ctrl-C end insert mode.
pub open spec fn leaves_insert(input: Input) -> bool {
    input.key == Key::Esc || (input.key == Key::Char('c') && input.ctrl)
}

pub open spec fn no_input() -> Input {
    Input { key: Key::Null, ctrl: false, alt: false, shift: false }
}

/// The state machine after a transition: a mode change or nothing forgets the
/// pending input, a pending one is kept for the next key.
pub open spec fn settled(vim: Vim, transition: VimTransition) -> Vim {
    match transition {
        VimTransition::Mode(mode) => Vim { mode, pending: no_input(), ..vim },
        VimTransition::Pending(input) => Vim { pending: input, ..vim },
        VimTransition::Nop => Vim { pending: no_input(), ..vim },
    }
}

/// The state machine and the text area after one input; the null key is ignored.
pub open spec fn step(
    vim: Vim,
    input: Input,
    before: AreaState,
    vim_after: Vim,
    after: AreaState,
) -> bool {
    if input.key == Key::Null {
        vim_after == vim && after == before
    } else {
        vim_after == settled(vim, transition_of(vim, input)) && area_step(vim, input, before, after)
    }
}

/// Vim emulation state machine
#[derive(Debug, Clone, Copy, PartialEq, Eq, Structural)]
pub struct Vim {
    pub mode: VimMode,
    pub read_only: bool,
    pub pending: Input,
}

/// A state in which no key is pending.
pub open spec fn fresh_vim(mode: VimMode, read_only: bool) -> Vim {
    Vim { mode, read_only, pending: no_input() }
}

impl Default for Vim {
    fn default() -> (vim: Self)
        ensures
            vim == fresh_vim(VimMode::Normal, false),
    {
        Vim::new(VimMode::Normal)
    }
}

impl Vim {
    pub fn new(mode: VimMode) -> (vim: Self)
        ensures
            vim == fresh_vim(mode, false),
    {
        Vim { mode, read_only: false, pending: Input::default() }
    }

    /// Process an input event and potentially modify the textarea
    ///
    /// Returns a VimTransition indicating what happened
    pub fn transition(&mut self, input: Input, textarea: &mut TextArea<'_>) -> (transition:
        VimTransition)
        requires
            area_state(*old(textarea)).wf(),
        ensures
            step(
                *old(self),
                input,
                area_state(*old(textarea)),
                *final(self),
                area_state(*final(textarea)),
            ),
            area_state(*final(textarea)).wf(),
            transition == if input.key == Key::Null {
                VimTransition::Nop
            } else {
                transition_of(*old(self), input)
            },
    {
        if input.key == Key::Null {
            return VimTransition::Nop;
        }
        let transition = self.transition_inner(input, textarea);
        match transition {
            VimTransition::Mode(mode) => {
                self.mode = mode;
                self.pending = Input::default();
            },
            VimTransition::Pending(input) => {
                self.pending = input;
            },
            VimTransition::Nop => {
                self.pending = Input::default();
            },
        }
        transition
    }

    /// Check if an input should be blocked in read-only mode
    fn is_blocked_in_read_only(&self, input: &Input) -> (blocked: bool)
        ensures
            blocked == blocked_in_read_only(self.mode, *input),
    {
        match input.key {
            Key::Char(c) => match c {
                'i' | 'I' | 'o' | 'O' | 'A' | 'x' | 'D' | 'C' | 'p' => true,
                'a' | 'u' => !input.ctrl,
                'r' => input.ctrl,
                'd' | 'c' => !input.ctrl && (self.mode == VimMode::Normal || self.mode
                    == VimMode::Visual),
                _ => false,
            },
            _ => false,
        }
    }

    /// The command that an input stands for outside of insert mode.
    fn command(&self, input: &Input) -> (command: Command)
        ensures
            command == command_of(self.mode, self.pending, *input),
    {
        let c = match input.key {
            Key::Char(c) => c,
            Key::Esc => {
                return match self.mode {
                    VimMode::Visual | VimMode::Operator(_) => Command::Leave,
                    _ => Command::Wait,
                };
            },
            _ => {
                return Command::Wait;
            },
        };
        match c {
            'h' => Command::Go(Motion::Move(CursorMove::Back)),
            'j' => Command::Go(Motion::Move(CursorMove::Down)),
            'k' => Command::Go(Motion::Move(CursorMove::Up)),
            'l' => Command::Go(Motion::Move(CursorMove::Forward)),
            'w' => Command::Go(Motion::Move(CursorMove::WordForward)),
            '^' | '0' => Command::Go(Motion::Move(CursorMove::Head)),
            '$' => Command::Go(Motion::Move(CursorMove::End)),
            'D' => Command::DeleteToEnd,
            'C' => Command::ChangeToEnd,
            'p' => Command::Paste,
            'x' => Command::DeleteChar,
            'i' => Command::Insert,
            'A' => Command::AppendAtEnd,
            'o' => Command::OpenBelow,
            'O' => Command::OpenAbove,
            'I' => Command::InsertAtHead,
            _ => if input.ctrl {
                match c {
                    'r' => Command::Redo,
                    'e' => Command::Go(Motion::Scroll(Scroll::LineDown)),
                    'y' => Command::Go(Motion::Scroll(Scroll::LineUp)),
                    'd' => Command::Go(Motion::Scroll(Scroll::HalfPageDown)),
                    'u' => Command::Go(Motion::Scroll(Scroll::HalfPageUp)),
                    'f' => Command::Go(Motion::Scroll(Scroll::PageDown)),
                    'b' => Command::Go(Motion::Scroll(Scroll::PageUp)),
                    _ => Command::Wait,
                }
            } else {
                self.command_without_control(c)
            },
        }
    }

    fn command_without_control(&self, c: char) -> (command: Command)
        ensures
            command == plain_command(self.mode, self.pending, c),
    {
        match c {
            'e' => Command::Go(Motion::WordEnd),
            'b' => Command::Go(Motion::Move(CursorMove::WordBack)),
            'u' => Command::Undo,
            'a' => Command::Append,
            'v' if self.mode == VimMode::Normal => Command::SelectChars,
            'V' if self.mode == VimMode::Normal => Command::SelectLine,
            'v' if self.mode == VimMode::Visual => Command::Leave,
            'g' if self.pending.key == Key::Char('g') && !self.pending.ctrl => {
                Command::Go(Motion::Move(CursorMove::Top))
            },
            'G' => Command::Go(Motion::Move(CursorMove::Bottom)),
            _ if self.mode == VimMode::Operator(c) => Command::Go(Motion::WholeLine),
            _ if (c == 'y' || c == 'd' || c == 'c') && self.mode == VimMode::Normal => {
                Command::Operate(c)
            },
            'y' if self.mode == VimMode::Visual => Command::YankSelection,
            'd' if self.mode == VimMode::Visual => Command::CutSelection,
            'c' if self.mode == VimMode::Visual => Command::ChangeSelection,
            _ => Command::Wait,
        }
    }

    /// Makes a motion and then completes a waiting operator.
    fn go(&self, motion: Motion, textarea: &mut TextArea<'_>) -> (transition: VimTransition)
        requires
            area_state(*old(textarea)).wf(),
        ensures
            motion_done(
                self.mode,
                motion,
                area_state(*old(textarea)),
                area_state(*final(textarea)),
            ),
            area_state(*final(textarea)).wf(),
            transition == operated_mode(self.mode),
    {
        match motion {
            Motion::Move(m) => move_area_cursor(textarea, m),
            Motion::WordEnd => {
                move_area_cursor(textarea, CursorMove::WordEnd);
                if matches!(self.mode, VimMode::Operator(_)) {
                    move_area_cursor(textarea, CursorMove::Forward);
                }
            },
            Motion::Scroll(scroll) => scroll_area(textarea, scroll),
            Motion::WholeLine => {
                move_area_cursor(textarea, CursorMove::Head);
                start_selection(textarea);
                let start = cursor_of(textarea);
                move_area_cursor(textarea, CursorMove::Down);
                let down = cursor_of(textarea);
                if start.0 == down.0 && start.1 == down.1 {
                    move_area_cursor(textarea, CursorMove::End);
                }
            },
        }
        assert(motion_leads(
            self.mode,
            motion,
            area_state(*old(textarea)),
            area_state(*textarea),
        ));
        match self.mode {
            VimMode::Operator('y') => {
                copy(textarea);
                VimTransition::Mode(VimMode::Normal)
            },
            VimMode::Operator('d') => {
                cut(textarea);
                VimTransition::Mode(VimMode::Normal)
            },
            VimMode::Operator('c') => {
                cut(textarea);
                VimTransition::Mode(VimMode::Insert)
            },
            _ => VimTransition::Nop,
        }
    }

    /// What one input does, and the transition it asks for.
    fn transition_inner(&self, input: Input, textarea: &mut TextArea<'_>) -> (transition:
        VimTransition)
        requires
            area_state(*old(textarea)).wf(),
        ensures
            area_step(
                *self,
                input,
                area_state(*old(textarea)),
                area_state(*final(textarea)),
            ),
            area_state(*final(textarea)).wf(),
            transition == transition_of(*self, input),
    {
        if self.mode == VimMode::Insert {
            return if input.key == Key::Esc || (input.key == Key::Char('c') && input.ctrl) {
                VimTransition::Mode(VimMode::Normal)
            } else {
                type_into(textarea, input);
                VimTransition::Mode(VimMode::Insert)
            };
        }
        if self.read_only && self.is_blocked_in_read_only(&input) {
            return VimTransition::Nop;
        }
        match self.command(&input) {
            Command::Go(motion) => self.go(motion, textarea),
            Command::DeleteToEnd => {
                delete_line_by_end(textarea);
                VimTransition::Mode(VimMode::Normal)
            },
            Command::ChangeToEnd => {
                delete_line_by_end(textarea);
                cancel_selection(textarea);
                VimTransition::Mode(VimMode::Insert)
            },
            Command::Paste => {
                paste(textarea);
                VimTransition::Mode(VimMode::Normal)
            },
            Command::Undo => {
                undo(textarea);
                VimTransition::Mode(VimMode::Normal)
            },
            Command::Redo => {
                redo(textarea);
                VimTransition::Mode(VimMode::Normal)
            },
            Command::DeleteChar => {
                delete_next_char(textarea);
                VimTransition::Mode(VimMode::Normal)
            },
            Command::Insert => {
                cancel_selection(textarea);
                VimTransition::Mode(VimMode::Insert)
            },
            Command::Append => {
                cancel_selection(textarea);
                move_area_cursor(textarea, CursorMove::Forward);
                VimTransition::Mode(VimMode::Insert)
            },
            Command::AppendAtEnd => {
                cancel_selection(textarea);
                move_area_cursor(textarea, CursorMove::End);
                VimTransition::Mode(VimMode::Insert)
            },
            Command::OpenBelow => {
                move_area_cursor(textarea, CursorMove::End);
                insert_newline(textarea);
                VimTransition::Mode(VimMode::Insert)
            },
            Command::OpenAbove => {
                move_area_cursor(textarea, CursorMove::Head);
                insert_newline(textarea);
                move_area_cursor(textarea, CursorMove::Up);
                VimTransition::Mode(VimMode::Insert)
            },
            Command::InsertAtHead => {
                cancel_selection(textarea);
                move_area_cursor(textarea, CursorMove::Head);
                VimTransition::Mode(VimMode::Insert)
            },
            Command::SelectChars => {
                start_selection(textarea);
                VimTransition::Mode(VimMode::Visual)
            },
            Command::SelectLine => {
                move_area_cursor(textarea, CursorMove::Head);
                start_selection(textarea);
                move_area_cursor(textarea, CursorMove::End);
                VimTransition::Mode(VimMode::Visual)
            },
            Command::Leave => {
                cancel_selection(textarea);
                VimTransition::Mode(VimMode::Normal)
            },
            Command::Operate(op) => {
                start_selection(textarea);
                VimTransition::Mode(VimMode::Operator(op))
            },
            Command::YankSelection => {
                move_area_cursor(textarea, CursorMove::Forward);
                copy(textarea);
                VimTransition::Mode(VimMode::Normal)
            },
            Command::CutSelection => {
                move_area_cursor(textarea, CursorMove::Forward);
                cut(textarea);
                VimTransition::Mode(VimMode::Normal)
            },
            Command::ChangeSelection => {
                move_area_cursor(textarea, CursorMove::Forward);
                cut(textarea);
                VimTransition::Mode(VimMode::Insert)
            },
            Command::Wait => VimTransition::Pending(input),
        }
    }
}

/// A TextArea with vim mode support
pub struct VimTextArea<'a> {
    pub textarea: TextArea<'a>,
    pub vim: Vim,
}

impl<'a> VimTextArea<'a> {
    /// What the text area holds.
    pub open spec fn area(self) -> AreaState {
        area_state(self.textarea)
    }

    /// The text area is well-formed.
    pub open spec fn wf(self) -> bool {
        self.area().wf()
    }

    /// The yanked text.
    pub open spec fn yanked(self) -> Seq<char> {
        join_with(self.area().yank, '\n')
    }

    pub fn new() -> (editor: Self)
        ensures
            editor.area() == fresh_state(Seq::empty()),
            editor.vim == fresh_vim(VimMode::Normal, false),
            editor.wf(),
    {
        let lines: Vec<String> = Vec::new();
        assert(texts(lines@) == Seq::<Seq<char>>::empty());
        VimTextArea::from_lines(lines)
    }

    /// An editor on the given lines, none of which holds a line break.
    pub fn from_lines(lines: Vec<String>) -> (editor: Self)
        requires
            single_lines(texts(lines@)),
        ensures
            editor.area() == fresh_state(texts(lines@)),
            editor.vim == fresh_vim(VimMode::Normal, false),
            editor.wf(),
    {
        let mut textarea = new_area(lines);
        plain_cursor_line(&mut textarea);
        VimTextArea { textarea, vim: Vim::default() }
    }

    /// Get the current vim mode
    pub fn mode(&self) -> (mode: VimMode)
        ensures
            mode == self.vim.mode,
    {
        self.vim.mode
    }

    /// Whether the system clipboard is to be read before this input: a plain
    /// `p` in normal mode.
    pub open spec fn pastes(self, input: Input) -> bool {
        input.key == Key::Char('p') && !input.ctrl && self.vim.mode == VimMode::Normal
    }

    /// Whether the system clipboard is to be read before this input.
    pub fn reads_clipboard(&self, input: &Input) -> (reads: bool)
        ensures
            reads == self.pastes(*input),
    {
        input.key == Key::Char('p') && !input.ctrl && self.vim.mode == VimMode::Normal
    }

    /// Process an input event. What was yanked or cut by it comes back, to be
    /// put on the system clipboard.
    pub fn input(&mut self, input: Input) -> (copied: Option<String>)
        requires
            old(self).wf(),
        ensures
            final(self).wf(),
            step(
                old(self).vim,
                input,
                old(self).area(),
                final(self).vim,
                final(self).area(),
            ),
            match copied {
                Some(text) => text@ == final(self).yanked() && text@ != old(self).yanked()
                    && text@.len() > 0,
                None => final(self).yanked() == old(self).yanked()
                    || final(self).yanked().len() == 0,
            },
    {
        let before = yank_text_of(&self.textarea);
        self.vim.transition(input, &mut self.textarea);
        let after = yank_text_of(&self.textarea);
        if after != before && !after.as_str().is_empty() {
            Some(after)
        } else {
            None
        }
    }

    /// The editor once the clipboard's text was taken over: a text that is not
    /// empty becomes the yanked one before a paste.
    pub open spec fn pulled(self, input: Input, clipboard: Option<Seq<char>>) -> AreaState {
        match clipboard {
            Some(text) => if self.pastes(input) && text.len() > 0 {
                AreaState { yank: text_pieces(text), ..self.area() }
            } else {
                self.area()
            },
            None => self.area(),
        }
    }

    /// Process an input event with what was read from the system clipboard.
    pub fn input_with_clipboard(&mut self, input: Input, clipboard: Option<String>) -> (copied:
        Option<String>)
        requires
            old(self).wf(),
        ensures
            final(self).wf(),
            ({
                let held = match clipboard {
                    Some(text) => Some(text@),
                    None => None,
                };
                let pulled = old(self).pulled(input, held);
                let yanked = join_with(pulled.yank, '\n');
                &&& step(old(self).vim, input, pulled, final(self).vim, final(self).area())
                &&& match copied {
                    Some(text) => text@ == final(self).yanked() && text@ != yanked && text@.len()
                        > 0,
                    None => final(self).yanked() == yanked || final(self).yanked().len() == 0,
                }
            }),
    {
        if self.reads_clipboard(&input) {
            if let Some(text) = clipboard {
                if !text.as_str().is_empty() {
                    set_yank_text(&mut self.textarea, text);
                }
            }
        }
        self.input(input)
    }

    /// Get all lines as a joined string
    pub fn lines_joined(&self) -> (text: String)
        ensures
            text@ == join_with(self.area().lines, '\n'),
    {
        join_strings(lines_of(&self.textarea), '\n')
    }

    /// Get lines
    pub fn lines(&self) -> (lines: &[String])
        ensures
            texts(lines@) == self.area().lines,
    {
        lines_of(&self.textarea)
    }

    /// Move cursor
    pub fn move_cursor(&mut self, cursor_move: CursorMove)
        requires
            old(self).wf(),
        ensures
            final(self).wf(),
            final(self).vim == old(self).vim,
            final(self).area() == old(self).area().moved(cursor_move),
    {
        move_area_cursor(&mut self.textarea, cursor_move);
    }

    /// Get cursor position
    pub fn cursor(&self) -> (pos: (usize, usize))
        ensures
            (pos.0 as int, pos.1 as int) == self.area().cursor,
    {
        cursor_of(&self.textarea)
    }

    /// Reset to insert mode (useful for starting fresh in insert mode)
    pub fn set_insert_mode(&mut self)
        ensures
            *final(self) == (VimTextArea {
                vim: Vim { mode: VimMode::Insert, ..old(self).vim },
                ..*old(self)
            }),
    {
        self.vim.mode = VimMode::Insert;
    }

    /// Reset to normal mode
    pub fn set_normal_mode(&mut self)
        ensures
            final(self).vim == (Vim { mode: VimMode::Normal, ..old(self).vim }),
            final(self).area() == old(self).area().deselected(),
    {
        self.vim.mode = VimMode::Normal;
        cancel_selection(&mut self.textarea);
    }

    /// Set read-only mode
    pub fn set_read_only(&mut self, read_only: bool)
        ensures
            *final(self) == (VimTextArea {
                vim: Vim { read_only, ..old(self).vim },
                ..*old(self)
            }),
    {
        self.vim.read_only = read_only;
    }

    /// Check if in read-only mode
    pub fn is_read_only(&self) -> (read_only: bool)
        ensures
            read_only == self.vim.read_only,
    {
        self.vim.read_only
    }

    /// Set content from string
    pub fn set_content(&mut self, content: &str)
        ensures
            final(self).vim == old(self).vim,
            final(self).area() == fresh_state(lines_of_text(content@)),
            final(self).wf(),
    {
        let lines = split_lines(content);
        self.textarea = new_area(lines);
        plain_cursor_line(&mut self.textarea);
    }
}

impl<'a> Default for VimTextArea<'a> {
    fn default() -> (editor: Self)
        ensures
            editor.area() == fresh_state(Seq::empty()),
            editor.vim == fresh_vim(VimMode::Normal, false),
            editor.wf(),
    {
        VimTextArea::new()
    }
}

/// The modes that a read-only editor never leaves: those without a way to edit.
pub open spec fn locked(mode: VimMode) -> bool {
    mode == VimMode::Normal || mode == VimMode::Visual || mode == VimMode::Operator('y')
}

/// An input to a read-only editor changes neither the text nor what can be
/// undone and redone, and leads to no mode that could.
pub proof fn read_only_keeps_text(
    vim: Vim,
    input: Input,
    before: AreaState,
    vim_after: Vim,
    after: AreaState,
)
    requires
        vim.read_only,
        locked(vim.mode),
        step(vim, input, before, vim_after, after),
    ensures
        after.lines == before.lines,
        after.undo == before.undo,
        after.redo == before.redo,
        vim_after.read_only,
        locked(vim_after.mode),
{
}

/// No sequence of inputs to a read-only editor changes the text.
pub proof fn read_only_run_keeps_text(
    vims: Seq<Vim>,
    areas: Seq<AreaState>,
    inputs: Seq<Input>,
    n: int,
)
    requires
        vims.len() == inputs.len() + 1,
        areas.len() == inputs.len() + 1,
        forall|i: int|
            #![trigger inputs[i]]
            0 <= i < inputs.len() ==> step(
                vims[i],
                inputs[i],
                areas[i],
                vims[i + 1],
                areas[i + 1],
            ),
        vims[0].read_only,
        locked(vims[0].mode),
        0 <= n <= inputs.len(),
    ensures
        areas[n].lines == areas[0].lines,
        vims[n].read_only,
        locked(vims[n].mode),
    decreases n,
{
    if n > 0 {
        read_only_run_keeps_text(vims, areas, inputs, n - 1);
        let input = inputs[n - 1];
        read_only_keeps_text(vims[n - 1], input, areas[n - 1], vims[n], areas[n]);
    }
}

/// Escape leads to normal mode from every mode and leaves the text as it is.
pub proof fn escape_leads_to_normal(
    vim: Vim,
    input: Input,
    before: AreaState,
    vim_after: Vim,
    after: AreaState,
)
    requires
        input.key == Key::Esc,
        step(vim, input, before, vim_after, after),
    ensures
        vim_after.mode == VimMode::Normal,
        after.lines == before.lines,
{
}

/// Typing `g` twice in normal mode goes to the first line.
pub proof fn double_g_goes_to_top(
    vims: Seq<Vim>,
    areas: Seq<AreaState>,
    first: Input,
    second: Input,
)
    requires
        vims.len() == 3,
        areas.len() == 3,
        vims[0].mode == VimMode::Normal,
        vims[0].pending == no_input(),
        first.key == Key::Char('g') && !first.ctrl,
        second.key == Key::Char('g') && !second.ctrl,
        step(vims[0], first, areas[0], vims[1], areas[1]),
        step(vims[1], second, areas[1], vims[2], areas[2]),
    ensures
        vims[2].mode == VimMode::Normal,
        vims[2].pending == no_input(),
        areas[2] == areas[0].moved(CursorMove::Top),
{
}

/// Undoing an edit made in normal mode with nothing selected gives back the
/// text before it, and redoing then gives the edited text and its cursor.
pub proof fn undo_takes_an_edit_back(
    edit: Command,
    before: AreaState,
    edited: AreaState,
    undone: AreaState,
    redone: AreaState,
)
    requires
        before.selection is None,
        edit is Paste || edit is DeleteChar || edit is DeleteToEnd,
        command_done(VimMode::Normal, edit, before, edited),
        edited.lines != before.lines,
        command_done(VimMode::Normal, Command::Undo, edited, undone),
        command_done(VimMode::Normal, Command::Redo, undone, redone),
    ensures
        undone.lines == before.lines,
        redone.lines == edited.lines,
        redone.cursor == edited.cursor,
{
}

/// Yanking a line with `yy` or a selection with `y` leaves the text as it is.
pub proof fn yank_keeps_text(
    vim: Vim,
    input: Input,
    before: AreaState,
    vim_after: Vim,
    after: AreaState,
)
    requires
        vim.mode == VimMode::Visual || vim.mode == VimMode::Operator('y'),
        input.key == Key::Char('y') && !input.ctrl,
        step(vim, input, before, vim_after, after),
    ensures
        after.lines == before.lines,
        after.selection is None,
        vim_after.mode == VimMode::Normal,
{
}

/// A character key typed in an editable editor in normal mode with nothing
/// selected.
pub open spec fn plain_key(vim: Vim, input: Input, before: AreaState, c: char) -> bool {
    &&& vim.mode == VimMode::Normal
    &&& !vim.read_only
    &&& input.key == Key::Char(c)
    &&& !input.ctrl
    &&& before.selection is None
    &&& before.wf()
}

/// `o` opens an empty line below the cursor's line, `O` one above it. All other
/// lines are kept whole, and text goes into the new line next.
pub proof fn opening_a_line_keeps_the_others(
    vim: Vim,
    input: Input,
    before: AreaState,
    vim_after: Vim,
    after: AreaState,
    below: bool,
)
    requires
        plain_key(vim, input, before, if below { 'o' } else { 'O' }),
        step(vim, input, before, vim_after, after),
    ensures
        ({
            let at = if below {
                before.cursor.0 + 1
            } else {
                before.cursor.0
            };
            &&& after.lines == before.lines.insert(at, Seq::empty())
            &&& after.cursor == (at, 0int)
        }),
        vim_after.mode == VimMode::Insert,
        after.yank == before.yank,
{
    let (row, col) = before.cursor;
    let at = if below {
        row + 1
    } else {
        row
    };
    let empty = Seq::<char>::empty();
    let line = before.lines[row];
    let moved = before.moved(
        if below {
            CursorMove::End
        } else {
            CursorMove::Head
        },
    );
    let opened = moved.with_newline();
    let pieces = seq![empty, empty];
    assert(pieces != seq![empty]) by {
        assert(pieces.len() != seq![empty].len());
    }
    assert(line.take(line.len() as int) + empty =~= line);
    assert(line.skip(line.len() as int) =~= empty);
    assert(line.take(0) + empty =~= empty);
    assert(empty + line.skip(0) =~= line);
    assert(empty + empty =~= empty);
    assert(opened.lines =~= before.lines.insert(at, empty));
}

/// `x` takes out the character under the cursor and nothing else. At the end of
/// a line it joins the next one, and at the end of the text it does nothing.
pub proof fn x_takes_out_one_character(
    vim: Vim,
    input: Input,
    before: AreaState,
    vim_after: Vim,
    after: AreaState,
)
    requires
        plain_key(vim, input, before, 'x'),
        step(vim, input, before, vim_after, after),
    ensures
        ({
            let (row, col) = before.cursor;
            let line = before.lines[row];
            &&& col < line.len() ==> after.lines == before.lines.update(row, line.remove(col))
            &&& col == line.len() && row + 1 < before.lines.len() ==> after.lines
                == before.lines.update(row, line + before.lines[row + 1]).remove(row + 1)
            &&& col == line.len() && row + 1 == before.lines.len() ==> after.lines == before.lines
        }),
        after.cursor == before.cursor,
        after.yank == before.yank,
        vim_after.mode == VimMode::Normal,
{
    let (row, col) = before.cursor;
    let line = before.lines[row];
    if col < line.len() {
        assert(line.take(col) + line.skip(col + 1) =~= line.remove(col));
        assert(after.lines =~= before.lines.update(row, line.remove(col)));
    } else if row + 1 < before.lines.len() {
        let next = before.lines[row + 1];
        assert(line.take(col) + next.skip(0) =~= line + next);
        assert(after.lines =~= before.lines.update(row, line + next).remove(row + 1));
    }
}

/// `D` and `C` take out the rest of the line and yank it; `C` goes on to insert
/// mode, `D` does not.
pub proof fn the_rest_of_a_line_is_taken_out(
    vim: Vim,
    input: Input,
    before: AreaState,
    vim_after: Vim,
    after: AreaState,
    change: bool,
)
    requires
        plain_key(vim, input, before, if change { 'C' } else { 'D' }),
        before.cursor.1 < before.lines[before.cursor.0].len(),
        step(vim, input, before, vim_after, after),
    ensures
        ({
            let (row, col) = before.cursor;
            let line = before.lines[row];
            &&& after.lines == before.lines.update(row, line.take(col))
            &&& after.yank == seq![line.skip(col)]
        }),
        after.cursor == before.cursor,
        vim_after.mode == if change {
            VimMode::Insert
        } else {
            VimMode::Normal
        },
{
    let (row, col) = before.cursor;
    let line = before.lines[row];
    assert(line.take(col) + line.skip(line.len() as int) =~= line.take(col));
    assert(after.lines =~= before.lines.update(row, line.take(col)));
    assert(line.subrange(col, line.len() as int) =~= line.skip(col));
}

/// `i`, `a`, `I` and `A` go to insert mode: before the cursor, behind it, at the
/// start and at the end of the line. The text stays as it is.
pub proof fn inserting_starts_where_the_key_says(
    vim: Vim,
    input: Input,
    before: AreaState,
    vim_after: Vim,
    after: AreaState,
    c: char,
)
    requires
        c == 'i' || c == 'a' || c == 'I' || c == 'A',
        plain_key(vim, input, before, c),
        step(vim, input, before, vim_after, after),
    ensures
        vim_after.mode == VimMode::Insert,
        after.lines == before.lines,
        after.yank == before.yank,
        c == 'i' ==> after.cursor == before.cursor,
        c == 'a' && before.cursor.1 < before.lines[before.cursor.0].len() ==> after.cursor == (
            before.cursor.0,
            before.cursor.1 + 1,
        ),
        c == 'I' ==> after.cursor == (before.cursor.0, 0int),
        c == 'A' ==> after.cursor == (
            before.cursor.0,
            before.lines[before.cursor.0].len() as int,
        ),
{
}

/// The keys that only move go where they say: `h` and `l` a character, `j` and
/// `k` a line, `0` and `^` to the start and `$` to the end of the line, `G` to
/// the last line. A column that a line does not have becomes its end.
pub proof fn movements_only_move(
    vim: Vim,
    input: Input,
    before: AreaState,
    vim_after: Vim,
    after: AreaState,
    c: char,
)
    requires
        plain_key(vim, input, before, c),
        c == 'h' || c == 'l' || c == 'j' || c == 'k' || c == '0' || c == '^' || c == '$' || c == 'G'
            || c == 'w' || c == 'b' || c == 'e',
        step(vim, input, before, vim_after, after),
    ensures
        after.lines == before.lines,
        after.yank == before.yank,
        after.selection is None,
        vim_after.mode == VimMode::Normal,
        ({
            let (row, col) = before.cursor;
            let last = before.lines.len() - 1;
            &&& c == 'h' && col > 0 ==> after.cursor == (row, col - 1)
            &&& c == 'l' && col < before.lines[row].len() ==> after.cursor == (row, col + 1)
            &&& c == 'j' && row < last ==> after.cursor.0 == row + 1
            &&& c == 'j' && row < last && col <= before.lines[row + 1].len() ==> after.cursor.1
                == col
            &&& c == 'j' && row < last && col > before.lines[row + 1].len() ==> after.cursor.1
                == before.lines[row + 1].len()
            &&& c == 'j' && row == last ==> after.cursor == before.cursor
            &&& c == 'k' && row > 0 ==> after.cursor.0 == row - 1
            &&& c == 'k' && row > 0 && col <= before.lines[row - 1].len() ==> after.cursor.1
                == col
            &&& c == 'k' && row > 0 && col > before.lines[row - 1].len() ==> after.cursor.1
                == before.lines[row - 1].len()
            &&& c == 'k' && row == 0 ==> after.cursor == before.cursor
            &&& c == '0' || c == '^' ==> after.cursor == (row, 0int)
            &&& c == '$' ==> after.cursor == (row, before.lines[row].len() as int)
            &&& c == 'G' ==> after.cursor.0 == last
            &&& c == 'w' ==> after.cursor == before.moved(CursorMove::WordForward).cursor
            &&& c == 'b' ==> after.cursor == before.moved(CursorMove::WordBack).cursor
            &&& c == 'e' ==> after.cursor == before.moved(CursorMove::WordEnd).cursor
        }),
{
}

/// `h` takes a step with `l` back within a line, and `k` one with `j` where the
/// lines are long enough.
pub proof fn movements_are_taken_back(
    vims: Seq<Vim>,
    areas: Seq<AreaState>,
    there: Input,
    back: Input,
    across: bool,
)
    requires
        vims.len() == 3,
        areas.len() == 3,
        plain_key(vims[0], there, areas[0], if across { 'l' } else { 'j' }),
        plain_key(vims[1], back, areas[1], if across { 'h' } else { 'k' }),
        across ==> areas[0].cursor.1 < areas[0].lines[areas[0].cursor.0].len(),
        !across ==> areas[0].cursor.0 + 1 < areas[0].lines.len() && areas[0].cursor.1
            <= areas[0].lines[areas[0].cursor.0 + 1].len(),
        step(vims[0], there, areas[0], vims[1], areas[1]),
        step(vims[1], back, areas[1], vims[2], areas[2]),
    ensures
        areas[2].cursor == areas[0].cursor,
        areas[2].lines == areas[0].lines,
        areas[1].cursor != areas[0].cursor,
{
}

/// The operators wait for what they are to work on, with the selection starting
/// at the cursor.
pub proof fn operators_wait_for_a_movement(
    vim: Vim,
    input: Input,
    before: AreaState,
    vim_after: Vim,
    after: AreaState,
    op: char,
)
    requires
        op == 'd' || op == 'y' || op == 'c',
        plain_key(vim, input, before, op),
        step(vim, input, before, vim_after, after),
    ensures
        vim_after.mode == VimMode::Operator(op),
        after.selection == Some(before.cursor),
        after.lines == before.lines,
        after.cursor == before.cursor,
{
}

/// What `dd`, `cc` or `yy` work on: two keys in a row.
pub open spec fn typed_twice(
    vims: Seq<Vim>,
    areas: Seq<AreaState>,
    inputs: Seq<Input>,
    op: char,
) -> bool {
    &&& vims.len() == 3
    &&& areas.len() == 3
    &&& inputs.len() == 2
    &&& plain_key(vims[0], inputs[0], areas[0], op)
    &&& inputs[1].key == Key::Char(op)
    &&& !inputs[1].ctrl
    &&& step(vims[0], inputs[0], areas[0], vims[1], areas[1])
    &&& step(vims[1], inputs[1], areas[1], vims[2], areas[2])
}

/// `dd` and `cc` take out the cursor's line, wherever in it the cursor is, and
/// yank it with its line break; the last line is only emptied. `cc` goes on to
/// insert mode.
pub proof fn whole_lines_are_taken_out(
    vims: Seq<Vim>,
    areas: Seq<AreaState>,
    inputs: Seq<Input>,
    op: char,
)
    requires
        op == 'd' || op == 'c',
        typed_twice(vims, areas, inputs, op),
    ensures
        ({
            let row = areas[0].cursor.0;
            let line = areas[0].lines[row];
            &&& row + 1 < areas[0].lines.len() ==> areas[2].lines == areas[0].lines.remove(row)
                && areas[2].yank == seq![line, Seq::<char>::empty()]
            &&& row + 1 == areas[0].lines.len() ==> areas[2].lines == areas[0].lines.update(
                row,
                Seq::<char>::empty(),
            )
            &&& row + 1 == areas[0].lines.len() && line.len() > 0 ==> areas[2].yank == seq![line]
            &&& areas[2].cursor == (row, 0int)
        }),
        vims[2].mode == if op == 'd' {
            VimMode::Normal
        } else {
            VimMode::Insert
        },
        areas[2].selection is None,
{
    let row = areas[0].cursor.0;
    let line = areas[0].lines[row];
    let empty = Seq::<char>::empty();
    let all = areas[0].lines;
    let start = areas[1].moved(CursorMove::Head).selecting();
    let down = start.moved(CursorMove::Down);
    assert(line.take(0) =~= empty);
    if row + 1 < all.len() {
        let next = all[row + 1];
        assert(empty + next.skip(0) =~= next);
        assert(areas[2].lines =~= all.remove(row));
        assert(line.skip(0) =~= line);
        assert(next.take(0) =~= empty);
        assert(areas[2].yank =~= seq![line, empty]);
    } else if line.len() > 0 {
        assert(empty + line.skip(line.len() as int) =~= empty);
        assert(areas[2].lines =~= all.update(row, empty));
        assert(line.subrange(0, line.len() as int) =~= line);
    } else {
        assert(line =~= empty);
        assert(areas[2].lines =~= all.update(row, empty));
    }
}

/// `yy` yanks the cursor's line with its line break and changes no text.
pub proof fn whole_lines_are_yanked(vims: Seq<Vim>, areas: Seq<AreaState>, inputs: Seq<Input>)
    requires
        typed_twice(vims, areas, inputs, 'y'),
    ensures
        ({
            let row = areas[0].cursor.0;
            let line = areas[0].lines[row];
            &&& areas[2].lines == areas[0].lines
            &&& row + 1 < areas[0].lines.len() ==> areas[2].yank == seq![line, Seq::<char>::empty()]
            &&& row + 1 == areas[0].lines.len() && line.len() > 0 ==> areas[2].yank == seq![line]
        }),
        vims[2].mode == VimMode::Normal,
        areas[2].selection is None,
{
    let row = areas[0].cursor.0;
    let line = areas[0].lines[row];
    let empty = Seq::<char>::empty();
    let all = areas[0].lines;
    if row + 1 < all.len() {
        assert(line.skip(0) =~= line);
        assert(all[row + 1].take(0) =~= empty);
        assert(areas[2].yank =~= seq![line, empty]);
    } else if line.len() > 0 {
        assert(line.subrange(0, line.len() as int) =~= line);
    }
}

/// `p` puts a yanked piece of a line in before the cursor, and a yanked line as
/// a line of its own where the cursor stands at the start of one.
pub proof fn pasting_puts_in_what_was_yanked(
    vim: Vim,
    input: Input,
    before: AreaState,
    vim_after: Vim,
    after: AreaState,
)
    requires
        plain_key(vim, input, before, 'p'),
        step(vim, input, before, vim_after, after),
    ensures
        ({
            let (row, col) = before.cursor;
            let line = before.lines[row];
            &&& before.yank.len() == 1 ==> after.lines == before.lines.update(
                row,
                line.take(col) + before.yank[0] + line.skip(col),
            ) && after.cursor == (row, col + before.yank[0].len())
            &&& before.yank.len() == 2 && before.yank[1].len() == 0 && col == 0 ==> after.lines
                == before.lines.insert(row, before.yank[0]) && after.cursor == (row + 1, 0int)
        }),
        after.yank == before.yank,
        vim_after.mode == VimMode::Normal,
{
    let (row, col) = before.cursor;
    let line = before.lines[row];
    let empty = Seq::<char>::empty();
    if before.yank.len() == 1 {
        if before.yank == seq![empty] {
            assert(line.take(col) + before.yank[0] + line.skip(col) =~= line);
            assert(after.lines =~= before.lines.update(row, line));
        } else {
            assert(after.lines =~= before.lines.update(
                row,
                line.take(col) + before.yank[0] + line.skip(col),
            ));
        }
    }
    if before.yank.len() == 2 && before.yank[1].len() == 0 && col == 0 {
        assert(before.yank != seq![empty]) by {
            assert(before.yank.len() != seq![empty].len());
        }
        assert(line.take(0) + before.yank[0] =~= before.yank[0]);
        assert(before.yank[1] + line.skip(0) =~= line);
        assert(after.lines =~= before.lines.insert(row, before.yank[0]));
    }
}

/// The place before another in the text comes first.
pub open spec fn in_order(a: (int, int), b: (int, int)) -> ((int, int), (int, int)) {
    if a.0 < b.0 || (a.0 == b.0 && a.1 < b.1) {
        (a, b)
    } else {
        (b, a)
    }
}

/// An operator works on what lies between the cursor and where a movement of
/// the cursor leads: `d` and `c` take it out and yank it, `y` only yanks it.
/// `c` ends in insert mode, the others in normal mode.
pub proof fn operators_work_up_to_where_the_movement_leads(
    vim: Vim,
    input: Input,
    before: AreaState,
    vim_after: Vim,
    after: AreaState,
    op: char,
    c: char,
)
    requires
        op == 'd' || op == 'y' || op == 'c',
        vim.mode == VimMode::Operator(op),
        !vim.read_only,
        input.key == Key::Char(c),
        !input.ctrl,
        c == 'h' || c == 'l' || c == 'j' || c == 'k' || c == '0' || c == '$' || c == 'G' || c == 'w'
            || c == 'b',
        before.selection == Some(before.cursor),
        step(vim, input, before, vim_after, after),
    ensures
        vim_after.mode == if op == 'c' {
            VimMode::Insert
        } else {
            VimMode::Normal
        },
        after.selection is None,
        ({
            let to = before.moved(
                if c == 'h' {
                    CursorMove::Back
                } else if c == 'l' {
                    CursorMove::Forward
                } else if c == 'j' {
                    CursorMove::Down
                } else if c == 'k' {
                    CursorMove::Up
                } else if c == '0' {
                    CursorMove::Head
                } else if c == '$' {
                    CursorMove::End
                } else if c == 'G' {
                    CursorMove::Bottom
                } else if c == 'w' {
                    CursorMove::WordForward
                } else {
                    CursorMove::WordBack
                },
            ).cursor;
            let (start, end) = in_order(before.cursor, to);
            &&& to == before.cursor ==> after.lines == before.lines && after.yank == before.yank
            &&& to != before.cursor ==> after.yank == crate::textarea::range_pieces(
                before.lines,
                start,
                end,
            )
            &&& op == 'y' ==> after.lines == before.lines
            &&& op != 'y' && to != before.cursor ==> after.cursor == start && after.lines
                == crate::textarea::without_range(before.lines, start, end)
        }),
{
}

/// Under an operator, `e` includes the last character of the word.
pub proof fn the_end_of_a_word_is_included(
    vim: Vim,
    input: Input,
    before: AreaState,
    vim_after: Vim,
    after: AreaState,
)
    requires
        vim.mode == VimMode::Operator('d'),
        !vim.read_only,
        input.key == Key::Char('e'),
        !input.ctrl,
        before.wf(),
        before.selection == Some(before.cursor),
        step(vim, input, before, vim_after, after),
        ({
            let to = before.moved(CursorMove::WordEnd).cursor;
            to.0 == before.cursor.0 && before.cursor.1 <= to.1 < before.lines[to.0].len()
        }),
    ensures
        ({
            let to = before.moved(CursorMove::WordEnd).cursor;
            let line = before.lines[to.0];
            after.lines == before.lines.update(
                to.0,
                line.take(before.cursor.1) + line.skip(to.1 + 1),
            )
        }),
{
    let to = before.moved(CursorMove::WordEnd).cursor;
    let line = before.lines[to.0];
    assert(after.lines =~= before.lines.update(
        to.0,
        line.take(before.cursor.1) + line.skip(to.1 + 1),
    ));
}

/// `v` starts a selection at the cursor, and `V` selects the cursor's line.
pub proof fn selections_start_at_the_cursor_or_cover_the_line(
    vim: Vim,
    input: Input,
    before: AreaState,
    vim_after: Vim,
    after: AreaState,
    line: bool,
)
    requires
        plain_key(vim, input, before, if line { 'V' } else { 'v' }),
        step(vim, input, before, vim_after, after),
    ensures
        vim_after.mode == VimMode::Visual,
        after.lines == before.lines,
        !line ==> after.selection == Some(before.cursor) && after.cursor == before.cursor,
        line ==> after.selection == Some((before.cursor.0, 0int)) && after.cursor == (
            before.cursor.0,
            before.lines[before.cursor.0].len() as int,
        ),
{
}

/// In visual mode, `d`, `c` and `y` work on the selection within a line up to and
/// with the character under the cursor: it is yanked, and `d` and `c` take it
/// out. `c` ends in insert mode, the others in normal mode.
pub proof fn selections_include_the_cursor(
    vim: Vim,
    input: Input,
    before: AreaState,
    vim_after: Vim,
    after: AreaState,
    op: char,
    from: int,
)
    requires
        op == 'd' || op == 'y' || op == 'c',
        vim.mode == VimMode::Visual,
        !vim.read_only,
        input.key == Key::Char(op),
        !input.ctrl,
        before.wf(),
        before.selection == Some((before.cursor.0, from)),
        0 <= from <= before.cursor.1 < before.lines[before.cursor.0].len(),
        step(vim, input, before, vim_after, after),
    ensures
        ({
            let (row, col) = before.cursor;
            let line = before.lines[row];
            &&& after.yank == seq![line.subrange(from, col + 1)]
            &&& op == 'y' ==> after.lines == before.lines
            &&& op != 'y' ==> after.cursor == (row, from) && after.lines == before.lines.update(
                row,
                line.take(from) + line.skip(col + 1),
            )
        }),
        after.selection is None,
        vim_after.mode == if op == 'c' {
            VimMode::Insert
        } else {
            VimMode::Normal
        },
{
    let (row, col) = before.cursor;
    let line = before.lines[row];
    if op != 'y' {
        assert(after.lines =~= before.lines.update(row, line.take(from) + line.skip(col + 1)));
    }
}

/// In visual mode the movements move the cursor and keep where the selection
/// started.
pub proof fn selections_grow_with_the_cursor(
    vim: Vim,
    input: Input,
    before: AreaState,
    vim_after: Vim,
    after: AreaState,
    c: char,
)
    requires
        vim.mode == VimMode::Visual,
        input.key == Key::Char(c),
        c == 'h' || c == 'j' || c == 'k' || c == 'l' || c == 'w' || c == '0' || c == '$',
        before.selection is Some,
        step(vim, input, before, vim_after, after),
    ensures
        vim_after.mode == VimMode::Visual,
        after.selection == before.selection,
        after.lines == before.lines,
        c == '0' ==> after.cursor == (before.cursor.0, 0int),
        c == '$' ==> after.cursor == (
            before.cursor.0,
            before.lines[before.cursor.0].len() as int,
        ),
{
}

/// In insert mode a character is put in before the cursor, and the cursor goes
/// behind it.
pub proof fn characters_are_put_in_at_the_cursor(
    vim: Vim,
    input: Input,
    before: AreaState,
    vim_after: Vim,
    after: AreaState,
    c: char,
)
    requires
        vim.mode == VimMode::Insert,
        input.key == Key::Char(c),
        c != '\n' && c != '\r',
        !input.ctrl && !input.alt,
        before.selection is None,
        before.wf(),
        step(vim, input, before, vim_after, after),
    ensures
        ({
            let (row, col) = before.cursor;
            &&& after.lines == before.lines.update(row, before.lines[row].insert(col, c))
            &&& after.cursor == (row, col + 1)
        }),
        vim_after.mode == VimMode::Insert,
{
    let (row, col) = before.cursor;
    let line = before.lines[row];
    let pieces = seq![seq![c]];
    assert(pieces != seq![Seq::<char>::empty()]) by {
        assert(pieces[0].len() == 1);
        assert(seq![Seq::<char>::empty()][0].len() == 0);
    }
    assert(line.take(col) + seq![c] + line.skip(col) =~= line.insert(col, c));
    assert(after.lines =~= before.lines.update(row, line.insert(col, c)));
}

/// In insert mode enter splits the line at the cursor, and backspace takes out
/// the character before the cursor.
pub proof fn enter_splits_and_backspace_takes_out(
    vim: Vim,
    input: Input,
    before: AreaState,
    vim_after: Vim,
    after: AreaState,
)
    requires
        vim.mode == VimMode::Insert,
        input.key is Enter || input.key is Backspace,
        !input.ctrl && !input.alt,
        before.selection is None,
        before.wf(),
        step(vim, input, before, vim_after, after),
    ensures
        ({
            let (row, col) = before.cursor;
            let line = before.lines[row];
            &&& input.key is Enter ==> after.lines == before.lines.update(
                row,
                line.take(col),
            ).insert(row + 1, line.skip(col)) && after.cursor == (row + 1, 0int)
            &&& input.key is Backspace && col > 0 ==> after.lines == before.lines.update(
                row,
                line.remove(col - 1),
            ) && after.cursor == (row, col - 1)
        }),
        vim_after.mode == VimMode::Insert,
{
    let (row, col) = before.cursor;
    let line = before.lines[row];
    let empty = Seq::<char>::empty();
    if input.key is Enter {
        let pieces = seq![empty, empty];
        assert(pieces != seq![empty]) by {
            assert(pieces.len() != seq![empty].len());
        }
        assert(line.take(col) + empty =~= line.take(col));
        assert(empty + line.skip(col) =~= line.skip(col));
        assert(after.lines =~= before.lines.update(row, line.take(col)).insert(
            row + 1,
            line.skip(col),
        ));
    } else if col > 0 {
        assert(line.take(col - 1) + line.skip(col) =~= line.remove(col - 1));
        assert(after.lines =~= before.lines.update(row, line.remove(col - 1)));
    }
}

/// `u` gives back the text and the cursor before the last edit, whichever key
/// made it, and Ctrl-R the text and the cursor after it.
pub proof fn edits_are_undone_and_redone(
    vims: Seq<Vim>,
    areas: Seq<AreaState>,
    edit: Input,
    undo: Input,
    redo: Input,
    c: char,
)
    requires
        vims.len() == 4,
        areas.len() == 4,
        plain_key(vims[0], edit, areas[0], c),
        c == 'x' || c == 'D' || c == 'p',
        step(vims[0], edit, areas[0], vims[1], areas[1]),
        areas[1].lines != areas[0].lines,
        undo.key == Key::Char('u') && !undo.ctrl,
        step(vims[1], undo, areas[1], vims[2], areas[2]),
        redo.key == Key::Char('r') && redo.ctrl,
        step(vims[2], redo, areas[2], vims[3], areas[3]),
    ensures
        areas[2].lines == areas[0].lines,
        areas[3].lines == areas[1].lines,
        areas[3].cursor == areas[1].cursor,
        vims[2].mode == VimMode::Normal,
        vims[3].mode == VimMode::Normal,
{
}

/// The keys that scroll change no text, no selection and nothing that is yanked,
/// and each asks for the scroll it stands for.
pub proof fn scrolling_changes_no_text(
    vim: Vim,
    input: Input,
    before: AreaState,
    vim_after: Vim,
    after: AreaState,
    c: char,
)
    requires
        vim.mode == VimMode::Normal,
        input.key == Key::Char(c),
        input.ctrl,
        c == 'e' || c == 'y' || c == 'd' || c == 'u' || c == 'f' || c == 'b',
        step(vim, input, before, vim_after, after),
    ensures
        after.lines == before.lines,
        after.selection == before.selection,
        after.yank == before.yank,
        vim_after.mode == VimMode::Normal,
        c == 'e' ==> command_of(vim.mode, vim.pending, input) == Command::Go(
            Motion::Scroll(Scroll::LineDown),
        ),
        c == 'y' ==> command_of(vim.mode, vim.pending, input) == Command::Go(
            Motion::Scroll(Scroll::LineUp),
        ),
        c == 'd' ==> command_of(vim.mode, vim.pending, input) == Command::Go(
            Motion::Scroll(Scroll::HalfPageDown),
        ),
        c == 'u' ==> command_of(vim.mode, vim.pending, input) == Command::Go(
            Motion::Scroll(Scroll::HalfPageUp),
        ),
        c == 'f' ==> command_of(vim.mode, vim.pending, input) == Command::Go(
            Motion::Scroll(Scroll::PageDown),
        ),
        c == 'b' ==> command_of(vim.mode, vim.pending, input) == Command::Go(
            Motion::Scroll(Scroll::PageUp),
        ),
{
}

/// Escape and Ctrl-C end insert mode and type nothing; in visual mode `v` and
/// escape give the selection up.
pub proof fn modes_are_left_without_an_edit(
    vim: Vim,
    input: Input,
    before: AreaState,
    vim_after: Vim,
    after: AreaState,
)
    requires
        step(vim, input, before, vim_after, after),
        vim.mode == VimMode::Insert && (input.key is Esc || (input.key == Key::Char('c')
            && input.ctrl)) || vim.mode == VimMode::Visual && (input.key is Esc || (input.key
            == Key::Char('v') && !input.ctrl)),
    ensures
        vim_after.mode == VimMode::Normal,
        after.lines == before.lines,
        after.cursor == before.cursor,
        vim.mode == VimMode::Visual ==> after.selection is None,
{
}

/// A `g` alone moves nothing, and any other key after it forgets it.
pub proof fn a_single_g_waits(
    vims: Seq<Vim>,
    areas: Seq<AreaState>,
    first: Input,
    second: Input,
    c: char,
)
    requires
        vims.len() == 3,
        areas.len() == 3,
        plain_key(vims[0], first, areas[0], 'g'),
        vims[0].pending == no_input(),
        step(vims[0], first, areas[0], vims[1], areas[1]),
        second.key == Key::Char(c) && !second.ctrl && (c == 'l' || c == 'h' || c == 'j' || c
            == 'k'),
        step(vims[1], second, areas[1], vims[2], areas[2]),
    ensures
        areas[1] == areas[0],
        vims[2].pending == no_input(),
        areas[2].lines == areas[0].lines,
{
}

/// What `p` puts in is what the system clipboard holds, if it holds a text of
/// one line, and else what was yanked last. No other key takes the clipboard
/// over.
pub proof fn the_clipboard_is_pasted(
    editor: VimTextArea<'static>,
    input: Input,
    clipboard: Option<Seq<char>>,
    vim_after: Vim,
    after: AreaState,
)
    requires
        step(editor.vim, input, editor.pulled(input, clipboard), vim_after, after),
    ensures
        plain_key(editor.vim, input, editor.area(), 'p') ==> ({
            let (row, col) = editor.area().cursor;
            let line = editor.area().lines[row];
            clipboard matches Some(text) ==> text.len() > 0 && text_pieces(text) == seq![text]
                ==> after.lines == editor.area().lines.update(
                row,
                line.take(col) + text + line.skip(col),
            )
        }),
        clipboard is None || clipboard == Some(Seq::<char>::empty()) ==> editor.pulled(
            input,
            clipboard,
        ) == editor.area(),
        !(input.key == Key::Char('p')) || input.ctrl || editor.vim.mode != VimMode::Normal
            ==> editor.pulled(input, clipboard) == editor.area(),
{
    if plain_key(editor.vim, input, editor.area(), 'p') {
        if let Some(text) = clipboard {
            if text.len() > 0 && text_pieces(text) == seq![text] {
                let (row, col) = editor.area().cursor;
                let line = editor.area().lines[row];
                assert(seq![text] != seq![Seq::<char>::empty()]) by {
                    assert(seq![text][0].len() > 0);
                    assert(seq![Seq::<char>::empty()][0].len() == 0);
                }
                assert(after.lines =~= editor.area().lines.update(
                    row,
                    line.take(col) + text + line.skip(col),
                ));
            }
        }
    }
}

} // verus!
