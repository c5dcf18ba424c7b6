//! The preview of a task: its log and its notes.

use crate::keys::{KeyCode, KeyPress};
use crate::task_wizard::{copied_from, edited, some_view};
use crate::text::{lines_of_text, split_lines};
use crate::textarea::{fresh_state, CursorMove, Key};
use crate::vim::{fresh_vim, locked, read_only_keeps_text, Vim, VimMode, VimTextArea};
use vstd::prelude::*;

verus! {

#[derive(Debug, Clone, Copy, PartialEq, Eq, Structural)]
pub enum PreviewPane {
    Logs,
    Notes,
}

impl PreviewPane {
    #[verifier::allow_in_spec]
    pub fn other(self) -> PreviewPane
        returns
            (match self {
                PreviewPane::Logs => PreviewPane::Notes,
                PreviewPane::Notes => PreviewPane::Logs,
            }),
    {
        match self {
            PreviewPane::Logs => PreviewPane::Notes,
            PreviewPane::Notes => PreviewPane::Logs,
        }
    }
}

pub struct Preview {
    pub content: String,
    pub logs_editor: VimTextArea<'static>,
    pub notes_content: String,
    pub notes_editor: VimTextArea<'static>,
    pub notes_editing: bool,
    pub pane: PreviewPane,
}

/// What a key does in the preview.
pub enum PreviewOutcome<T> {
    Nothing,
    Quit,
    Close,
    /// Attach to the sessions of the task.
    Attach,
    /// The notes are being edited from now on.
    Editing,
    /// Save the notes.
    Save,
    /// Open the pull request of the task.
    OpenPr,
    /// Launch the next step of the task.
    Restart,
    /// Text that was yanked.
    Copied(T),
}

impl Preview {
    /// The editors are well-formed, and the log cannot be edited.
    pub open spec fn wf(self) -> bool {
        &&& self.logs_editor.wf()
        &&& self.logs_editor.vim.read_only
        &&& locked(self.logs_editor.vim.mode)
        &&& self.notes_editor.wf()
    }

    /// The notes cannot be edited unless they are being edited, as it is once a
    /// task was loaded.
    pub open spec fn guards_notes(self) -> bool {
        !self.notes_editing ==> self.notes_editor.vim.read_only && locked(
            self.notes_editor.vim.mode,
        )
    }

    /// The editor that has the focus.
    pub open spec fn focused(self) -> VimTextArea<'static> {
        match self.pane {
            PreviewPane::Logs => self.logs_editor,
            PreviewPane::Notes => self.notes_editor,
        }
    }

    /// The preview with what was read of a task: the log at its last line, the
    /// notes at their end, both read-only.
    pub open spec fn loaded(self, before: Preview, log: Seq<char>, notes: Seq<char>) -> bool {
        let bottom = fresh_state(lines_of_text(log)).moved(CursorMove::Bottom);
        let end = fresh_state(lines_of_text(notes)).moved(CursorMove::Bottom).moved(
            CursorMove::End,
        );
        &&& self.content@ == log
        &&& self.notes_content@ == notes
        &&& self.logs_editor.area() == bottom
        &&& self.logs_editor.vim == fresh_vim(VimMode::Normal, true)
        &&& self.notes_editor.area() == end
        &&& self.notes_editor.vim == fresh_vim(VimMode::Normal, true)
        &&& !self.notes_editing
        &&& self.pane == before.pane
    }

    /// Shows the log and the notes of a task.
    pub fn load_preview(&mut self, log: String, notes: String)
        ensures
            final(self).wf(),
            final(self).guards_notes(),
            final(self).loaded(*old(self), log@, notes@),
    {
        self.logs_editor = VimTextArea::from_lines(split_lines(log.as_str()));
        self.logs_editor.set_read_only(true);
        self.logs_editor.set_normal_mode();
        self.logs_editor.move_cursor(CursorMove::Bottom);
        self.content = log;
        self.notes_editor = VimTextArea::from_lines(split_lines(notes.as_str()));
        self.notes_editor.set_read_only(true);
        self.notes_editor.set_normal_mode();
        self.notes_editor.move_cursor(CursorMove::Bottom);
        self.notes_editor.move_cursor(CursorMove::End);
        self.notes_content = notes;
        self.notes_editing = false;
    }

    /// The notes as they are being edited.
    pub open spec fn editing(self) -> Preview {
        Preview {
            notes_editing: true,
            notes_editor: VimTextArea {
                vim: Vim {
                    mode: VimMode::Insert,
                    read_only: false,
                    ..self.notes_editor.vim
                },
                ..self.notes_editor
            },
            ..self
        }
    }

    pub fn start_notes_editing(&mut self)
        requires
            old(self).wf(),
        ensures
            final(self).wf(),
            *final(self) == old(self).editing(),
    {
        self.notes_editing = true;
        self.notes_editor.set_read_only(false);
        self.notes_editor.set_insert_mode();
    }

    /// The editor that has the focus after a key was typed into it.
    pub open spec fn typed(self, key: KeyPress, clipboard: Option<Seq<char>>, after: Preview) -> bool {
        match self.pane {
            PreviewPane::Logs => {
                &&& after == (Preview { logs_editor: after.logs_editor, ..self })
                &&& edited(self.logs_editor, key, clipboard, after.logs_editor)
            },
            PreviewPane::Notes => {
                &&& after == (Preview { notes_editor: after.notes_editor, ..self })
                &&& edited(self.notes_editor, key, clipboard, after.notes_editor)
            },
        }
    }

    fn type_key(&mut self, key: KeyPress, clipboard: Option<String>) -> (copied: Option<String>)
        requires
            old(self).wf(),
            !old(self).notes_editing || old(self).pane is Logs,
        ensures
            final(self).wf(),
            old(self).typed(key, some_view(clipboard), *final(self)),
            some_view(copied) == copied_from(
                old(self).focused(),
                key,
                some_view(clipboard),
                final(self).focused(),
            ),
    {
        let ghost before = self.focused();
        let ghost pulled = before.pulled(key.input(), some_view(clipboard));
        let copied = match self.pane {
            PreviewPane::Logs => self.logs_editor.input_with_clipboard(key.input(), clipboard),
            PreviewPane::Notes => self.notes_editor.input_with_clipboard(key.input(), clipboard),
        };
        proof {
            if self.pane is Logs {
                read_only_keeps_text(
                    before.vim,
                    key.input(),
                    pulled,
                    self.focused().vim,
                    self.focused().area(),
                );
            }
        }
        copied
    }

    /// A key that ends the editing of the notes: Ctrl-S, and escape in a mode
    /// other than insert mode.
    pub open spec fn ends_editing(self, key: KeyPress) -> bool {
        key.is_ctrl('s') || (key.input().key is Esc && !(self.notes_editor.vim.mode is Insert))
    }

    /// The preview after a key while the notes are edited.
    pub open spec fn after_editing_key(
        self,
        key: KeyPress,
        clipboard: Option<Seq<char>>,
        after: Preview,
    ) -> bool {
        if key.is_ctrl('s') {
            &&& after == (Preview {
                notes_editing: false,
                notes_editor: after.notes_editor,
                ..self
            })
            &&& after.notes_editor.area() == self.notes_editor.area().deselected()
            &&& after.notes_editor.vim == (Vim {
                mode: VimMode::Normal,
                read_only: true,
                ..self.notes_editor.vim
            })
        } else if self.ends_editing(key) {
            &&& after == (Preview {
                notes_editing: false,
                notes_editor: after.notes_editor,
                ..self
            })
            &&& after.notes_editor.vim.read_only
            &&& exists|typed: VimTextArea<'static>| #[trigger]
                edited(self.notes_editor, key, clipboard, typed) && after.notes_editor
                    == (VimTextArea { vim: Vim { read_only: true, ..typed.vim }, ..typed })
        } else {
            self.typed(key, clipboard, after)
        }
    }

    fn handle_notes_editing(&mut self, key: KeyPress, clipboard: Option<String>) -> (outcome:
        PreviewOutcome<String>)
        requires
            old(self).wf(),
            old(self).notes_editing,
            old(self).pane is Notes,
        ensures
            final(self).wf(),
            old(self).after_editing_key(key, some_view(clipboard), *final(self)),
            match outcome {
                PreviewOutcome::Save => old(self).ends_editing(key),
                PreviewOutcome::Copied(text) => !old(self).ends_editing(key) && copied_from(
                    old(self).notes_editor,
                    key,
                    some_view(clipboard),
                    final(self).notes_editor,
                ) == Some(text@),
                PreviewOutcome::Nothing => !old(self).ends_editing(key) && copied_from(
                    old(self).notes_editor,
                    key,
                    some_view(clipboard),
                    final(self).notes_editor,
                ) is None,
                _ => false,
            },
    {
        if key.is_ctrl('s') {
            self.notes_editing = false;
            self.notes_editor.set_normal_mode();
            self.notes_editor.set_read_only(true);
            return PreviewOutcome::Save;
        }
        let input = key.input();
        let was_insert = self.notes_editor.mode() == VimMode::Insert;
        let copied = self.notes_editor.input_with_clipboard(input, clipboard);
        let is_normal_now = self.notes_editor.mode() == VimMode::Normal;
        if input.key == Key::Esc && !was_insert && is_normal_now {
            assert(edited(
                old(self).notes_editor,
                key,
                some_view(clipboard),
                self.notes_editor,
            ));
            self.notes_editing = false;
            self.notes_editor.set_read_only(true);
            return PreviewOutcome::Save;
        }
        match copied {
            Some(text) => PreviewOutcome::Copied(text),
            None => PreviewOutcome::Nothing,
        }
    }

    /// A key that leaves the preview: escape or `q` in normal mode.
    pub open spec fn closes(self, key: KeyPress) -> bool {
        self.focused().vim.mode is Normal && (key.code is Esc || (key.code == KeyCode::Char('q')
            && !key.ctrl))
    }

    /// A key that starts to edit the notes.
    pub open spec fn starts_editing(self, key: KeyPress) -> bool {
        self.pane is Notes && match key.code {
            KeyCode::Enter => true,
            KeyCode::Char(c) => {
                ||| c == 'i' || c == 'I' || c == 'o' || c == 'O' || c == 'A'
                ||| c == 'a' && !key.ctrl
            },
            _ => false,
        }
    }

    /// The keys of the preview that are not typed into an editor.
    pub open spec fn viewing_outcome(self, key: KeyPress) -> Option<PreviewOutcome<Seq<char>>> {
        if key.is_ctrl('c') {
            Some(PreviewOutcome::Quit)
        } else if key.code is Tab || key.code is BackTab {
            Some(PreviewOutcome::Nothing)
        } else if self.closes(key) {
            Some(PreviewOutcome::Close)
        } else if key.code is Enter && self.pane is Logs {
            Some(PreviewOutcome::Attach)
        } else if key.code == KeyCode::Char('p') {
            Some(PreviewOutcome::OpenPr)
        } else if key.code == KeyCode::Char('r') {
            Some(PreviewOutcome::Restart)
        } else if self.starts_editing(key) {
            Some(PreviewOutcome::Editing)
        } else {
            None
        }
    }

    /// The preview after a key while nothing is edited.
    pub open spec fn after_viewing_key(
        self,
        key: KeyPress,
        clipboard: Option<Seq<char>>,
        after: Preview,
    ) -> bool {
        match self.viewing_outcome(key) {
            Some(PreviewOutcome::Nothing) => after == (Preview { pane: self.pane.other(), ..self }),
            Some(PreviewOutcome::Close) => if key.code is Esc {
                self.typed(key, clipboard, after)
            } else {
                after == self
            },
            Some(PreviewOutcome::Editing) => after == self.editing(),
            Some(_) => after == self,
            None => self.typed(key, clipboard, after),
        }
    }

    fn handle_viewing_key(&mut self, key: KeyPress, clipboard: Option<String>) -> (outcome:
        PreviewOutcome<String>)
        requires
            old(self).wf(),
            !old(self).notes_editing || old(self).pane is Logs,
        ensures
            final(self).wf(),
            old(self).after_viewing_key(key, some_view(clipboard), *final(self)),
            outcome_view(outcome) == match old(self).viewing_outcome(key) {
                Some(o) => o,
                None => match copied_from(
                    old(self).focused(),
                    key,
                    some_view(clipboard),
                    final(self).focused(),
                ) {
                    Some(text) => PreviewOutcome::Copied(text),
                    None => PreviewOutcome::Nothing,
                },
            },
    {
        if key.is_ctrl('c') {
            return PreviewOutcome::Quit;
        }
        if matches!(key.code, KeyCode::Tab | KeyCode::BackTab) {
            self.pane = self.pane.other();
            return PreviewOutcome::Nothing;
        }
        let is_normal = match self.pane {
            PreviewPane::Logs => self.logs_editor.mode() == VimMode::Normal,
            PreviewPane::Notes => self.notes_editor.mode() == VimMode::Normal,
        };
        match key.code {
            KeyCode::Esc => {
                if is_normal {
                    self.type_key(key, clipboard);
                    return PreviewOutcome::Close;
                }
            },
            KeyCode::Char('q') => {
                if !key.ctrl && is_normal {
                    return PreviewOutcome::Close;
                }
            },
            KeyCode::Enter => {
                return match self.pane {
                    PreviewPane::Logs => PreviewOutcome::Attach,
                    PreviewPane::Notes => {
                        self.start_notes_editing();
                        PreviewOutcome::Editing
                    },
                };
            },
            KeyCode::Char('p') => {
                return PreviewOutcome::OpenPr;
            },
            KeyCode::Char('r') => {
                return PreviewOutcome::Restart;
            },
            KeyCode::Char('i') | KeyCode::Char('I') | KeyCode::Char('o') | KeyCode::Char('O')
            | KeyCode::Char('A') => {
                if matches!(self.pane, PreviewPane::Notes) {
                    self.start_notes_editing();
                    return PreviewOutcome::Editing;
                }
            },
            KeyCode::Char('a') => {
                if !key.ctrl && matches!(self.pane, PreviewPane::Notes) {
                    self.start_notes_editing();
                    return PreviewOutcome::Editing;
                }
            },
            _ => {},
        }
        match self.type_key(key, clipboard) {
            Some(text) => PreviewOutcome::Copied(text),
            None => PreviewOutcome::Nothing,
        }
    }

    /// Whether keys go to the notes that are being edited.
    pub open spec fn edits(self) -> bool {
        self.notes_editing && self.pane is Notes
    }

    /// The preview after a key.
    pub open spec fn after_key(
        self,
        key: KeyPress,
        clipboard: Option<Seq<char>>,
        after: Preview,
    ) -> bool {
        if self.edits() {
            self.after_editing_key(key, clipboard, after)
        } else {
            self.after_viewing_key(key, clipboard, after)
        }
    }

    /// What a key asks for.
    pub open spec fn outcome(
        self,
        key: KeyPress,
        clipboard: Option<Seq<char>>,
        after: Preview,
    ) -> PreviewOutcome<Seq<char>> {
        let fixed = if self.edits() {
            if self.ends_editing(key) {
                Some(PreviewOutcome::Save)
            } else {
                None
            }
        } else {
            self.viewing_outcome(key)
        };
        match fixed {
            Some(o) => o,
            None => match copied_from(self.focused(), key, clipboard, after.focused()) {
                Some(text) => PreviewOutcome::Copied(text),
                None => PreviewOutcome::Nothing,
            },
        }
    }

    /// A key in the preview.
    pub fn handle_key(&mut self, key: KeyPress, clipboard: Option<String>) -> (outcome:
        PreviewOutcome<String>)
        requires
            old(self).wf(),
        ensures
            final(self).wf(),
            old(self).after_key(key, some_view(clipboard), *final(self)),
            outcome_view(outcome) == old(self).outcome(key, some_view(clipboard), *final(self)),
    {
        if self.notes_editing && matches!(self.pane, PreviewPane::Notes) {
            self.handle_notes_editing(key, clipboard)
        } else {
            self.handle_viewing_key(key, clipboard)
        }
    }
}

pub open spec fn outcome_view(outcome: PreviewOutcome<String>) -> PreviewOutcome<Seq<char>> {
    match outcome {
        PreviewOutcome::Nothing => PreviewOutcome::Nothing,
        PreviewOutcome::Quit => PreviewOutcome::Quit,
        PreviewOutcome::Close => PreviewOutcome::Close,
        PreviewOutcome::Attach => PreviewOutcome::Attach,
        PreviewOutcome::Editing => PreviewOutcome::Editing,
        PreviewOutcome::Save => PreviewOutcome::Save,
        PreviewOutcome::OpenPr => PreviewOutcome::OpenPr,
        PreviewOutcome::Restart => PreviewOutcome::Restart,
        PreviewOutcome::Copied(text) => PreviewOutcome::Copied(text@),
    }
}

/// Once a task was loaded, no key changes the log, and none changes the notes
/// unless they are being edited.
pub proof fn viewing_changes_no_text(
    before: Preview,
    key: KeyPress,
    clipboard: Option<Seq<char>>,
    after: Preview,
)
    requires
        before.wf(),
        before.guards_notes(),
        before.after_key(key, clipboard, after),
    ensures
        after.guards_notes(),
        after.logs_editor.area().lines == before.logs_editor.area().lines,
        !before.notes_editing ==> after.notes_editor.area().lines
            == before.notes_editor.area().lines,
{
    if !before.edits() && !(before.notes_editing && before.pane is Notes) {
        let held = before.focused();
        let next = after.focused();
        if before.typed(key, clipboard, after) {
            read_only_keeps_text(
                held.vim,
                key.input(),
                held.pulled(key.input(), clipboard),
                next.vim,
                next.area(),
            );
        }
    }
}

/// Tab changes between the log and the notes; escape and `q` leave in normal
/// mode; enter attaches from the log and edits the notes; `p` and `r` are about
/// the task.
pub proof fn preview_keys_do_what_they_stand_for(
    before: Preview,
    key: KeyPress,
    clipboard: Option<Seq<char>>,
    after: Preview,
)
    requires
        !before.notes_editing,
        !key.ctrl,
        !key.released,
        before.after_key(key, clipboard, after),
    ensures
        ({
            let asked = before.outcome(key, clipboard, after);
            let normal = match before.pane {
                PreviewPane::Logs => before.logs_editor.vim.mode is Normal,
                PreviewPane::Notes => before.notes_editor.vim.mode is Normal,
            };
            let code = key.code;
            &&& code is Tab || code is BackTab ==> after.pane != before.pane && asked is Nothing
            &&& (code is Esc || code == KeyCode::Char('q')) && normal ==> asked is Close
            &&& code is Enter && before.pane is Logs ==> asked is Attach
            &&& code is Enter && before.pane is Notes ==> asked is Editing && after.notes_editing
                && after.notes_editor.vim.mode is Insert && !after.notes_editor.vim.read_only
            &&& code == KeyCode::Char('i') && before.pane is Notes ==> asked is Editing
                && after.notes_editing
            &&& code == KeyCode::Char('p') ==> asked is OpenPr
            &&& code == KeyCode::Char('r') ==> asked is Restart
            &&& !(code is Tab || code is BackTab) ==> after.pane == before.pane
            &&& after.notes_editing ==> before.pane is Notes
        }),
{
}

/// The notes that are edited are saved by Ctrl-S from every mode and by escape
/// outside of insert mode, and then they are no longer edited; escape in insert
/// mode only goes to normal mode.
pub proof fn edited_notes_are_saved(
    before: Preview,
    key: KeyPress,
    clipboard: Option<Seq<char>>,
    after: Preview,
)
    requires
        before.notes_editing,
        before.pane is Notes,
        !key.released,
        before.after_key(key, clipboard, after),
    ensures
        ({
            let asked = before.outcome(key, clipboard, after);
            let insert = before.notes_editor.vim.mode is Insert;
            let saves = key.ctrl && key.code == KeyCode::Char('s');
            &&& asked is Save <==> saves || (key.code is Esc && !insert)
            &&& asked is Save ==> !after.notes_editing && after.notes_editor.vim.read_only
                && after.notes_editor.area().lines == before.notes_editor.area().lines
            &&& !(asked is Save) ==> after.notes_editing
            &&& key.code is Esc && insert ==> after.notes_editor.vim.mode is Normal
                && after.notes_editing
        }),
{
}

/// In the notes the keys that start to insert start to edit them, and no other
/// key does.
pub proof fn these_keys_start_to_edit(
    before: Preview,
    key: KeyPress,
    clipboard: Option<Seq<char>>,
    after: Preview,
)
    requires
        !before.notes_editing,
        before.pane is Notes,
        !key.ctrl,
        !key.released,
        before.after_key(key, clipboard, after),
    ensures
        after.notes_editing <==> (key.code is Enter || key.code == KeyCode::Char('i') || key.code
            == KeyCode::Char('I') || key.code == KeyCode::Char('o') || key.code
            == KeyCode::Char('O') || key.code == KeyCode::Char('a') || key.code
            == KeyCode::Char('A')),
{
}

/// What was read of a task is shown as it is and cannot be changed: the log at its
/// last line, the notes at the end of theirs.
pub proof fn what_was_read_is_shown(before: Preview, log: Seq<char>, notes: Seq<char>, after: Preview)
    requires
        after.loaded(before, log, notes),
        lines_of_text(log).len() > 0,
        lines_of_text(notes).len() > 0,
    ensures
        after.content@ == log && after.notes_content@ == notes,
        after.logs_editor.area().lines == lines_of_text(log),
        after.notes_editor.area().lines == lines_of_text(notes),
        after.logs_editor.area().cursor.0 == lines_of_text(log).len() - 1,
        after.notes_editor.area().cursor.0 == lines_of_text(notes).len() - 1,
        after.notes_editor.area().cursor.1 == lines_of_text(notes).last().len(),
        after.logs_editor.vim.read_only && after.notes_editor.vim.read_only,
        after.logs_editor.vim.mode is Normal && after.notes_editor.vim.mode is Normal,
        !after.notes_editing,
        after.pane == before.pane,
{
}

} // verus!
