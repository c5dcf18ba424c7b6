//! The notes view: a tree of notes and an editor.

use crate::detail::first_of;
use crate::keys::{KeyCode, KeyPress};
use crate::model::NoteEntry;
use crate::picker::{
    file_name_of, join_path, joined_path, last_part, parent_of, parent_path, paths_equal, same_path,
};
use crate::select::{
    clamp, clamped, next_within, previous_within, step_next, step_previous,
};
use crate::task_wizard::{copied_from, edited, some_view};
use crate::text::{join_with, lines_of_text, split_lines, texts, trim, trimmed};
use crate::textarea::{
    area_lines, area_state, fresh_state, insert_str, lines_of, text_pieces, type_into, TextArea,
};
use crate::vim::{fresh_vim, VimMode, VimTextArea};
use crate::wizard::underlined_editor;
use vstd::prelude::*;

verus! {

#[derive(Debug, Clone, Copy, PartialEq, Eq, Structural)]
pub enum NotesFocus {
    Explorer,
    Editor,
}

pub struct NotesView {
    pub root_dir: String,
    pub current_dir: String,
    pub entries: Vec<NoteEntry>,
    pub selected_index: usize,
    pub focus: NotesFocus,
    pub editor: VimTextArea<'static>,
    pub open_file: Option<String>,
    pub modified: bool,
    pub rename_input: Option<TextArea<'static>>,
    /// (TextArea, is_dir) — inline input for creating a new note or directory.
    pub create_input: Option<(TextArea<'static>, bool)>,
    pub confirm_delete: bool,
    /// Cut state: `(source_dir, file_name)` of the entry being moved.
    pub cut_entry: Option<(String, String)>,
}

impl NotesView {
    /// The editors are well-formed.
    pub open spec fn wf(self) -> bool {
        &&& self.editor.wf()
        &&& (self.rename_input matches Some(area) ==> area_state(area).wf())
        &&& (self.create_input matches Some(input) ==> area_state(input.0).wf())
    }

    /// The view of a directory was just opened: nothing is edited, renamed,
    /// created, deleted or cut.
    pub open spec fn opens(self, root_dir: String, entries: Vec<NoteEntry>) -> bool {
        &&& self.root_dir == root_dir
        &&& self.current_dir == root_dir
        &&& self.entries == entries
        &&& self.selected_index == 0
        &&& self.focus == NotesFocus::Explorer
        &&& self.editor.area() == crate::textarea::fresh_state(Seq::empty())
        &&& self.editor.vim == fresh_vim(VimMode::Normal, false)
        &&& self.open_file is None
        &&& !self.modified
        &&& self.rename_input is None
        &&& self.create_input is None
        &&& !self.confirm_delete
        &&& self.cut_entry is None
    }

    /// The view of a directory of notes in which `entries` were found.
    pub fn new(root_dir: String, entries: Vec<NoteEntry>) -> (view: Self)
        ensures
            view.opens(root_dir, entries),
            view.wf(),
    {
        NotesView {
            current_dir: root_dir.clone(),
            root_dir,
            entries,
            selected_index: 0,
            focus: NotesFocus::Explorer,
            editor: VimTextArea::new(),
            open_file: None,
            modified: false,
            rename_input: None,
            create_input: None,
            confirm_delete: false,
            cut_entry: None,
        }
    }

    /// Shows what was found in the current directory, and keeps the selection
    /// inside; if listing failed, nothing changes.
    pub fn refresh(&mut self, entries: Option<Vec<NoteEntry>>)
        requires
            old(self).wf(),
        ensures
            final(self).wf(),
            match entries {
                Some(list) => *final(self) == (NotesView {
                    entries: list,
                    selected_index: clamped(
                        old(self).selected_index as int,
                        list@.len() as int,
                    ) as usize,
                    ..*old(self)
                }),
                None => *final(self) == *old(self),
            },
    {
        if let Some(list) = entries {
            self.selected_index = clamp(self.selected_index, list.len());
            self.entries = list;
        }
    }

    /// Shows a note whose content was read.
    pub fn open_file(&mut self, path: String, content: &str)
        requires
            old(self).wf(),
        ensures
            final(self).wf(),
            *final(self) == (NotesView {
                editor: final(self).editor,
                open_file: Some(path),
                modified: false,
                ..*old(self)
            }),
            final(self).editor.area() == crate::textarea::fresh_state(lines_of_text(content@)),
            final(self).editor.vim == fresh_vim(VimMode::Normal, false),
    {
        self.editor = VimTextArea::from_lines(split_lines(content));
        self.open_file = Some(path);
        self.modified = false;
    }

    /// What is to be saved: the open file and its text, where it was changed.
    pub open spec fn unsaved(self) -> bool {
        self.modified && self.open_file is Some
    }

    /// The open file and its text, where it was changed.
    pub fn save_current(&self) -> (save: Option<(String, String)>)
        ensures
            match save {
                Some(s) => self.unsaved() && s.0 == self.open_file->0 && s.1@
                    == crate::text::join_with(self.editor.area().lines, '\n'),
                None => !self.unsaved(),
            },
    {
        if self.modified {
            if let Some(path) = &self.open_file {
                return Some((path.clone(), self.editor.lines_joined()));
            }
        }
        None
    }

    /// The open file was saved.
    pub fn saved(&mut self)
        ensures
            *final(self) == (NotesView { modified: false, ..*old(self) }),
    {
        self.modified = false;
    }

    /// The path of the selected entry.
    pub open spec fn spec_selected_path(self) -> Option<Seq<char>> {
        if self.selected_index < self.entries@.len() {
            Some(
                joined_path(
                    self.current_dir@,
                    self.entries@[self.selected_index as int].file_name@,
                ),
            )
        } else {
            None
        }
    }

    /// The path of the selected entry.
    pub fn selected_path(&self) -> (path: Option<String>)
        ensures
            match path {
                Some(p) => self.spec_selected_path() == Some(p@),
                None => self.spec_selected_path() is None,
            },
    {
        if self.selected_index < self.entries.len() {
            Some(
                join_path(
                    self.current_dir.as_str(),
                    self.entries[self.selected_index].file_name.as_str(),
                ),
            )
        } else {
            None
        }
    }
}

/// What a key does in the notes.
#[allow(inconsistent_fields)]
pub enum NotesOutcome<T> {
    Nothing,
    /// List the current directory again.
    Refresh,
    /// List the current directory after going up, and select the one left.
    GoneUp(Option<T>),
    /// Delete a note, and then list the directory again.
    Delete(T),
    /// Create a directory of notes, and then list the directory again.
    CreateDir(T),
    /// Create a note, list the directory again, and open the note.
    CreateNote(T),
    /// Rename a note, and then list the directory again.
    Rename { path: T, new_name: T },
    /// Save what was changed, and open a note.
    Open(T),
    /// Move the selected note within its directory.
    Move { file_name: T, down: bool },
    /// A note was cut.
    Cut(T),
    CutCancelled,
    /// Move the note that was cut to the current directory.
    Paste { from_dir: T, file_name: T },
    /// Save what was changed.
    Save,
    /// Save what was changed, and say so.
    SaveAndSay,
    /// Save what was changed, and leave the notes.
    Close,
    /// Text that was yanked.
    Copied(T),
}

pub open spec fn notes_outcome_view(outcome: NotesOutcome<String>) -> NotesOutcome<Seq<char>> {
    match outcome {
        NotesOutcome::Nothing => NotesOutcome::Nothing,
        NotesOutcome::Refresh => NotesOutcome::Refresh,
        NotesOutcome::GoneUp(child) => NotesOutcome::GoneUp(some_view(child)),
        NotesOutcome::Delete(path) => NotesOutcome::Delete(path@),
        NotesOutcome::CreateDir(name) => NotesOutcome::CreateDir(name@),
        NotesOutcome::CreateNote(name) => NotesOutcome::CreateNote(name@),
        NotesOutcome::Rename { path, new_name } => NotesOutcome::Rename {
            path: path@,
            new_name: new_name@,
        },
        NotesOutcome::Open(path) => NotesOutcome::Open(path@),
        NotesOutcome::Move { file_name, down } => NotesOutcome::Move {
            file_name: file_name@,
            down,
        },
        NotesOutcome::Cut(name) => NotesOutcome::Cut(name@),
        NotesOutcome::CutCancelled => NotesOutcome::CutCancelled,
        NotesOutcome::Paste { from_dir, file_name } => NotesOutcome::Paste {
            from_dir: from_dir@,
            file_name: file_name@,
        },
        NotesOutcome::Save => NotesOutcome::Save,
        NotesOutcome::SaveAndSay => NotesOutcome::SaveAndSay,
        NotesOutcome::Close => NotesOutcome::Close,
        NotesOutcome::Copied(text) => NotesOutcome::Copied(text@),
    }
}

/// The first line of an editor without white space around it.
pub open spec fn first_line(area: TextArea<'_>) -> Seq<char> {
    trimmed(area_lines(area)[0])
}

fn trimmed_first_line(area: &TextArea<'_>) -> (s: String)
    requires
        area_state(*area).wf(),
    ensures
        s@ == first_line(*area),
{
    let lines = lines_of(area);
    assert(texts(lines@)[0] == lines@[0]@);
    trim(lines[0].as_str())
}

/// The file names of entries.
pub open spec fn file_names(entries: Seq<NoteEntry>) -> Seq<Seq<char>> {
    Seq::new(entries.len(), |i: int| entries[i].file_name@)
}

impl NotesView {
    /// The selected entry.
    pub open spec fn entry(self) -> Option<NoteEntry> {
        if self.selected_index < self.entries@.len() {
            Some(self.entries@[self.selected_index as int])
        } else {
            None
        }
    }

    /// What a key asks for while the deletion of a note is to be confirmed.
    pub open spec fn confirm_outcome(self, key: KeyPress) -> NotesOutcome<Seq<char>> {
        if key.code == KeyCode::Char('y') {
            match self.spec_selected_path() {
                Some(path) => NotesOutcome::Delete(path),
                None => NotesOutcome::Refresh,
            }
        } else {
            NotesOutcome::Nothing
        }
    }

    /// What a key asks for while the name of a new note is entered.
    pub open spec fn create_outcome(self, key: KeyPress) -> NotesOutcome<Seq<char>> {
        let (area, is_dir) = self.create_input->0;
        let name = first_line(area);
        if !(key.code is Enter) {
            NotesOutcome::Nothing
        } else if name.len() == 0 {
            NotesOutcome::Refresh
        } else if is_dir {
            NotesOutcome::CreateDir(name)
        } else {
            NotesOutcome::CreateNote(name)
        }
    }

    /// What a key asks for while the new name of a note is entered.
    pub open spec fn rename_outcome(self, key: KeyPress) -> NotesOutcome<Seq<char>> {
        let new_name = first_line(self.rename_input->0);
        if !(key.code is Enter) {
            NotesOutcome::Nothing
        } else {
            match self.spec_selected_path() {
                Some(path) if new_name.len() > 0 => NotesOutcome::Rename { path, new_name },
                _ => NotesOutcome::Refresh,
            }
        }
    }

    /// Going up is possible: the current directory is below that of all notes.
    pub open spec fn can_go_up(self) -> bool {
        !same_path(self.current_dir@, self.root_dir@) && parent_path(self.current_dir@) is Some
    }

    /// What a key asks for in the tree of notes.
    pub open spec fn explorer_outcome(self, key: KeyPress) -> NotesOutcome<Seq<char>> {
        match key.code {
            KeyCode::Char('l') | KeyCode::Enter => match self.entry() {
                Some(entry) => if entry.is_dir {
                    NotesOutcome::Refresh
                } else {
                    NotesOutcome::Open(joined_path(self.current_dir@, entry.file_name@))
                },
                None => NotesOutcome::Nothing,
            },
            KeyCode::Char('h') | KeyCode::Backspace => if self.can_go_up() {
                NotesOutcome::GoneUp(last_part(self.current_dir@))
            } else {
                NotesOutcome::Nothing
            },
            KeyCode::Char('J') => if self.selected_index + 1 < self.entries@.len() {
                NotesOutcome::Move { file_name: self.entry()->0.file_name@, down: true }
            } else {
                NotesOutcome::Nothing
            },
            KeyCode::Char('K') => if self.selected_index > 0 && self.entry() is Some {
                NotesOutcome::Move { file_name: self.entry()->0.file_name@, down: false }
            } else {
                NotesOutcome::Nothing
            },
            KeyCode::Char('x') => match self.entry() {
                Some(entry) => NotesOutcome::Cut(entry.name@),
                None => NotesOutcome::Nothing,
            },
            KeyCode::Char('p') => match self.cut_entry {
                Some(cut) => NotesOutcome::Paste { from_dir: cut.0@, file_name: cut.1@ },
                None => NotesOutcome::Nothing,
            },
            KeyCode::Esc => if self.cut_entry is Some {
                NotesOutcome::CutCancelled
            } else {
                NotesOutcome::Close
            },
            KeyCode::Char('q') => NotesOutcome::Close,
            _ => NotesOutcome::Nothing,
        }
    }

    /// The tree of notes after a key.
    pub open spec fn after_explorer_key(self, key: KeyPress, after: NotesView) -> bool {
        let total = self.entries@.len() as int;
        let i = self.selected_index as int;
        match key.code {
            KeyCode::Char('j') | KeyCode::Down => after == (NotesView {
                selected_index: next_within(i, total) as usize,
                ..self
            }),
            KeyCode::Char('k') | KeyCode::Up => after == (NotesView {
                selected_index: previous_within(i) as usize,
                ..self
            }),
            KeyCode::Char('l') | KeyCode::Enter => match self.entry() {
                Some(entry) if entry.is_dir => {
                    &&& after == (NotesView {
                        current_dir: after.current_dir,
                        selected_index: 0,
                        ..self
                    })
                    &&& after.current_dir@ == joined_path(self.current_dir@, entry.file_name@)
                },
                _ => after == self,
            },
            KeyCode::Char('h') | KeyCode::Backspace => if self.can_go_up() {
                &&& after == (NotesView { current_dir: after.current_dir, ..self })
                &&& Some(after.current_dir@) == parent_path(self.current_dir@)
            } else {
                after == self
            },
            KeyCode::Char('a') | KeyCode::Char('A') => {
                &&& after == (NotesView { create_input: after.create_input, ..self })
                &&& after.create_input matches Some(input) && area_state(input.0) == fresh_state(
                    Seq::empty(),
                ) && input.1 == (key.code == KeyCode::Char('A'))
            },
            KeyCode::Char('d') => after == (NotesView {
                confirm_delete: self.confirm_delete || total > 0,
                ..self
            }),
            KeyCode::Char('r') => match self.entry() {
                Some(entry) => {
                    &&& after == (NotesView { rename_input: after.rename_input, ..self })
                    &&& after.rename_input matches Some(area) && area_state(area) == fresh_state(
                        Seq::empty(),
                    ).replaced(text_pieces(entry.name@))
                },
                None => after == self,
            },
            KeyCode::Tab => after == (NotesView {
                focus: if self.open_file is Some {
                    NotesFocus::Editor
                } else {
                    self.focus
                },
                ..self
            }),
            KeyCode::Char('x') => match self.entry() {
                Some(entry) => {
                    &&& after == (NotesView { cut_entry: after.cut_entry, ..self })
                    &&& after.cut_entry matches Some(cut) && cut.0 == self.current_dir && cut.1
                        == entry.file_name
                },
                None => after == self,
            },
            KeyCode::Esc => after == (NotesView { cut_entry: None, ..self }),
            _ => after == self,
        }
    }

    /// The editor takes a key, other than those that leave or save.
    pub open spec fn editor_types(self, key: KeyPress) -> bool {
        let normal = self.editor.vim.mode is Normal;
        &&& !(key.code is Tab && normal)
        &&& !key.is_ctrl('s')
        &&& !((key.code is Esc || key.code == KeyCode::Char('q')) && normal)
    }

    /// What a key asks for in the editor.
    pub open spec fn editor_outcome(
        self,
        key: KeyPress,
        clipboard: Option<Seq<char>>,
        after: NotesView,
    ) -> NotesOutcome<Seq<char>> {
        let normal = self.editor.vim.mode is Normal;
        if key.code is Tab && normal {
            NotesOutcome::Save
        } else if key.is_ctrl('s') {
            NotesOutcome::SaveAndSay
        } else if (key.code is Esc || key.code == KeyCode::Char('q')) && normal {
            NotesOutcome::Close
        } else {
            match copied_from(self.editor, key, clipboard, after.editor) {
                Some(text) => NotesOutcome::Copied(text),
                None => NotesOutcome::Nothing,
            }
        }
    }

    /// The view after a key in the editor; a note is modified once its text changed.
    pub open spec fn after_editor_key(
        self,
        key: KeyPress,
        clipboard: Option<Seq<char>>,
        after: NotesView,
    ) -> bool {
        if self.editor_types(key) {
            &&& after == (NotesView {
                editor: after.editor,
                modified: self.modified || join_with(self.editor.area().lines, '\n') != join_with(
                    after.editor.area().lines,
                    '\n',
                ),
                ..self
            })
            &&& edited(self.editor, key, clipboard, after.editor)
        } else {
            after == (NotesView {
                focus: if key.code is Tab {
                    NotesFocus::Explorer
                } else {
                    self.focus
                },
                ..self
            })
        }
    }

    /// The view after a key: in a question, in the entry of a name, in the
    /// tree, or in the editor.
    pub open spec fn after_key(
        self,
        key: KeyPress,
        clipboard: Option<Seq<char>>,
        after: NotesView,
    ) -> bool {
        if self.confirm_delete {
            after == (NotesView { confirm_delete: false, ..self })
        } else if self.create_input is Some {
            let input = self.create_input->0;
            if key.code is Enter || key.code is Esc {
                after == (NotesView { create_input: None, ..self })
            } else {
                &&& after == (NotesView { create_input: after.create_input, ..self })
                &&& after.create_input matches Some(next) && next.1 == input.1 && area_state(
                    input.0,
                ).typed(key.input(), area_state(next.0))
            }
        } else if self.rename_input is Some {
            let area = self.rename_input->0;
            if key.code is Enter || key.code is Esc {
                after == (NotesView { rename_input: None, ..self })
            } else {
                &&& after == (NotesView { rename_input: after.rename_input, ..self })
                &&& after.rename_input matches Some(next) && area_state(area).typed(
                    key.input(),
                    area_state(next),
                )
            }
        } else {
            match self.focus {
                NotesFocus::Explorer => self.after_explorer_key(key, after),
                NotesFocus::Editor => self.after_editor_key(key, clipboard, after),
            }
        }
    }

    /// What a key asks for.
    pub open spec fn outcome(
        self,
        key: KeyPress,
        clipboard: Option<Seq<char>>,
        after: NotesView,
    ) -> NotesOutcome<Seq<char>> {
        if self.confirm_delete {
            self.confirm_outcome(key)
        } else if self.create_input is Some {
            self.create_outcome(key)
        } else if self.rename_input is Some {
            self.rename_outcome(key)
        } else {
            match self.focus {
                NotesFocus::Explorer => self.explorer_outcome(key),
                NotesFocus::Editor => self.editor_outcome(key, clipboard, after),
            }
        }
    }

    fn handle_confirm_key(&mut self, key: KeyPress) -> (outcome: NotesOutcome<String>)
        requires
            old(self).wf(),
        ensures
            final(self).wf(),
            *final(self) == (NotesView { confirm_delete: false, ..*old(self) }),
            notes_outcome_view(outcome) == old(self).confirm_outcome(key),
    {
        self.confirm_delete = false;
        match key.code {
            KeyCode::Char('y') => match self.selected_path() {
                Some(path) => NotesOutcome::Delete(path),
                None => NotesOutcome::Refresh,
            },
            _ => NotesOutcome::Nothing,
        }
    }

    fn handle_create_key(&mut self, key: KeyPress) -> (outcome: NotesOutcome<String>)
        requires
            old(self).wf(),
            !old(self).confirm_delete,
            old(self).create_input is Some,
        ensures
            final(self).wf(),
            old(self).after_key(key, None, *final(self)),
            notes_outcome_view(outcome) == old(self).create_outcome(key),
    {
        match key.code {
            KeyCode::Enter => {
                let (name, is_dir) = match &self.create_input {
                    Some(input) => (trimmed_first_line(&input.0), input.1),
                    None => (String::new(), false),
                };
                self.create_input = None;
                if name.as_str().is_empty() {
                    NotesOutcome::Refresh
                } else if is_dir {
                    NotesOutcome::CreateDir(name)
                } else {
                    NotesOutcome::CreateNote(name)
                }
            },
            KeyCode::Esc => {
                self.create_input = None;
                NotesOutcome::Nothing
            },
            _ => {
                if let Some(input) = &mut self.create_input {
                    type_into(&mut input.0, key.input());
                }
                NotesOutcome::Nothing
            },
        }
    }

    fn handle_rename_key(&mut self, key: KeyPress) -> (outcome: NotesOutcome<String>)
        requires
            old(self).wf(),
            !old(self).confirm_delete,
            old(self).create_input is None,
            old(self).rename_input is Some,
        ensures
            final(self).wf(),
            old(self).after_key(key, None, *final(self)),
            notes_outcome_view(outcome) == old(self).rename_outcome(key),
    {
        match key.code {
            KeyCode::Enter => {
                let new_name = match &self.rename_input {
                    Some(area) => trimmed_first_line(area),
                    None => String::new(),
                };
                self.rename_input = None;
                if new_name.as_str().is_empty() {
                    return NotesOutcome::Refresh;
                }
                match self.selected_path() {
                    Some(path) => NotesOutcome::Rename { path, new_name },
                    None => NotesOutcome::Refresh,
                }
            },
            KeyCode::Esc => {
                self.rename_input = None;
                NotesOutcome::Nothing
            },
            _ => {
                if let Some(area) = &mut self.rename_input {
                    type_into(area, key.input());
                }
                NotesOutcome::Nothing
            },
        }
    }

    /// Enters the selected directory, or asks to open the selected note.
    fn open_selected(&mut self) -> (outcome: NotesOutcome<String>)
        requires
            old(self).wf(),
        ensures
            final(self).wf(),
            old(self).after_explorer_key(
                (KeyPress {
                    code: KeyCode::Enter,
                    ctrl: false,
                    alt: false,
                    shift: false,
                    released: false,
                }),
                *final(self),
            ),
            notes_outcome_view(outcome) == old(self).explorer_outcome(
                (KeyPress {
                    code: KeyCode::Enter,
                    ctrl: false,
                    alt: false,
                    shift: false,
                    released: false,
                }),
            ),
    {
        match self.selected_path() {
            Some(path) => {
                if self.entries[self.selected_index].is_dir {
                    self.current_dir = path;
                    self.selected_index = 0;
                    NotesOutcome::Refresh
                } else {
                    NotesOutcome::Open(path)
                }
            },
            None => NotesOutcome::Nothing,
        }
    }

    /// Goes up a directory, but not above that of all notes.
    fn leave_dir(&mut self) -> (outcome: NotesOutcome<String>)
        requires
            old(self).wf(),
        ensures
            final(self).wf(),
            if old(self).can_go_up() {
                &&& *final(self) == (NotesView {
                    current_dir: final(self).current_dir,
                    ..*old(self)
                })
                &&& Some(final(self).current_dir@) == parent_path(old(self).current_dir@)
                &&& notes_outcome_view(outcome) == NotesOutcome::GoneUp(
                    last_part(old(self).current_dir@),
                )
            } else {
                *final(self) == *old(self) && outcome is Nothing
            },
    {
        if paths_equal(self.current_dir.as_str(), self.root_dir.as_str()) {
            return NotesOutcome::Nothing;
        }
        match parent_of(self.current_dir.as_str()) {
            Some(parent) => {
                let child = file_name_of(self.current_dir.as_str());
                self.current_dir = parent;
                NotesOutcome::GoneUp(child)
            },
            None => NotesOutcome::Nothing,
        }
    }

    fn handle_explorer_key(&mut self, key: KeyPress) -> (outcome: NotesOutcome<String>)
        requires
            old(self).wf(),
        ensures
            final(self).wf(),
            old(self).after_explorer_key(key, *final(self)),
            notes_outcome_view(outcome) == old(self).explorer_outcome(key),
    {
        match key.code {
            KeyCode::Char('j') | KeyCode::Down => {
                self.selected_index = step_next(self.selected_index, self.entries.len());
                NotesOutcome::Nothing
            },
            KeyCode::Char('k') | KeyCode::Up => {
                self.selected_index = step_previous(self.selected_index);
                NotesOutcome::Nothing
            },
            KeyCode::Char('l') | KeyCode::Enter => self.open_selected(),
            KeyCode::Char('h') | KeyCode::Backspace => self.leave_dir(),
            KeyCode::Char('a') => {
                self.create_input = Some((underlined_editor(), false));
                NotesOutcome::Nothing
            },
            KeyCode::Char('A') => {
                self.create_input = Some((underlined_editor(), true));
                NotesOutcome::Nothing
            },
            KeyCode::Char('d') => {
                if self.entries.len() > 0 {
                    self.confirm_delete = true;
                }
                NotesOutcome::Nothing
            },
            KeyCode::Char('r') => {
                if self.selected_index < self.entries.len() {
                    let mut area = underlined_editor();
                    insert_str(&mut area, self.entries[self.selected_index].name.as_str());
                    self.rename_input = Some(area);
                }
                NotesOutcome::Nothing
            },
            KeyCode::Tab => {
                if self.open_file.is_some() {
                    self.focus = NotesFocus::Editor;
                }
                NotesOutcome::Nothing
            },
            KeyCode::Char('J') => {
                if self.entries.len() > 0 && self.selected_index < self.entries.len() - 1 {
                    NotesOutcome::Move {
                        file_name: self.entries[self.selected_index].file_name.clone(),
                        down: true,
                    }
                } else {
                    NotesOutcome::Nothing
                }
            },
            KeyCode::Char('K') => {
                if self.selected_index > 0 && self.selected_index < self.entries.len() {
                    NotesOutcome::Move {
                        file_name: self.entries[self.selected_index].file_name.clone(),
                        down: false,
                    }
                } else {
                    NotesOutcome::Nothing
                }
            },
            KeyCode::Char('x') => {
                if self.selected_index < self.entries.len() {
                    let name = self.entries[self.selected_index].name.clone();
                    self.cut_entry = Some(
                        (
                            self.current_dir.clone(),
                            self.entries[self.selected_index].file_name.clone(),
                        ),
                    );
                    NotesOutcome::Cut(name)
                } else {
                    NotesOutcome::Nothing
                }
            },
            KeyCode::Char('p') => match &self.cut_entry {
                Some(cut) => NotesOutcome::Paste {
                    from_dir: cut.0.clone(),
                    file_name: cut.1.clone(),
                },
                None => NotesOutcome::Nothing,
            },
            KeyCode::Esc => {
                if self.cut_entry.is_some() {
                    self.cut_entry = None;
                    NotesOutcome::CutCancelled
                } else {
                    NotesOutcome::Close
                }
            },
            KeyCode::Char('q') => NotesOutcome::Close,
            _ => NotesOutcome::Nothing,
        }
    }

    fn handle_editor_key(&mut self, key: KeyPress, clipboard: Option<String>) -> (outcome:
        NotesOutcome<String>)
        requires
            old(self).wf(),
        ensures
            final(self).wf(),
            old(self).after_editor_key(key, some_view(clipboard), *final(self)),
            notes_outcome_view(outcome) == old(self).editor_outcome(
                key,
                some_view(clipboard),
                *final(self),
            ),
    {
        let is_normal = self.editor.mode() == VimMode::Normal;
        if matches!(key.code, KeyCode::Tab) && is_normal {
            self.focus = NotesFocus::Explorer;
            return NotesOutcome::Save;
        }
        if key.is_ctrl('s') {
            return NotesOutcome::SaveAndSay;
        }
        if matches!(key.code, KeyCode::Esc | KeyCode::Char('q')) && is_normal {
            return NotesOutcome::Close;
        }
        let before = self.editor.lines_joined();
        let copied = self.editor.input_with_clipboard(key.input(), clipboard);
        let after = self.editor.lines_joined();
        if before != after {
            self.modified = true;
        }
        match copied {
            Some(text) => NotesOutcome::Copied(text),
            None => NotesOutcome::Nothing,
        }
    }

    /// A key in the notes.
    pub fn handle_key(&mut self, key: KeyPress, clipboard: Option<String>) -> (outcome: NotesOutcome<
        String,
    >)
        requires
            old(self).wf(),
        ensures
            final(self).wf(),
            old(self).after_key(key, some_view(clipboard), *final(self)),
            notes_outcome_view(outcome) == old(self).outcome(
                key,
                some_view(clipboard),
                *final(self),
            ),
    {
        if self.confirm_delete {
            self.handle_confirm_key(key)
        } else if self.create_input.is_some() {
            self.handle_create_key(key)
        } else if self.rename_input.is_some() {
            self.handle_rename_key(key)
        } else {
            match self.focus {
                NotesFocus::Explorer => self.handle_explorer_key(key),
                NotesFocus::Editor => self.handle_editor_key(key, clipboard),
            }
        }
    }

    /// Shows the directory above, with the one that was left selected.
    pub fn listed_parent(&mut self, entries: Option<Vec<NoteEntry>>, child: Option<String>)
        requires
            old(self).wf(),
        ensures
            final(self).wf(),
            ({
                let listed = match entries {
                    Some(list) => list,
                    None => old(self).entries,
                };
                let at = match some_view(child) {
                    Some(name) => first_of(file_names(listed@), name),
                    None => None,
                };
                *final(self) == (NotesView {
                    entries: listed,
                    selected_index: match at {
                        Some(i) => i as usize,
                        None => 0,
                    },
                    ..*old(self)
                })
            }),
    {
        self.refresh(entries);
        let mut at: usize = 0;
        if let Some(name) = child {
            let ghost names = file_names(self.entries@);
            let mut i: usize = 0;
            let mut found = false;
            while i < self.entries.len() && !found
                invariant
                    i <= self.entries.len(),
                    names == file_names(self.entries@),
                    forall|j: int| 0 <= j < i ==> names[j] != name@,
                    found ==> i < self.entries.len() && names[i as int] == name@,
                decreases self.entries.len() - i + if found { 0int } else { 1int },
            {
                if self.entries[i].file_name == name {
                    found = true;
                } else {
                    i += 1;
                }
            }
            if found {
                at = i;
            }
            proof {
                crate::detail::first_of_place(names, name@);
            }
        }
        self.selected_index = at;
    }

    /// A note was moved to a place in its directory, which was listed again.
    pub fn moved_to(&mut self, entries: Option<Vec<NoteEntry>>, at: usize)
        requires
            old(self).wf(),
        ensures
            final(self).wf(),
            *final(self) == (NotesView {
                entries: match entries {
                    Some(list) => list,
                    None => old(self).entries,
                },
                selected_index: at,
                ..*old(self)
            }),
    {
        self.refresh(entries);
        self.selected_index = at;
    }
}

/// What is entered in a question or for a name never reaches the open note.
pub proof fn dialogs_keep_the_note(
    before: NotesView,
    key: KeyPress,
    clipboard: Option<Seq<char>>,
    after: NotesView,
)
    requires
        before.after_key(key, clipboard, after),
        before.confirm_delete || before.create_input is Some || before.rename_input is Some
            || before.focus is Explorer,
    ensures
        after.editor == before.editor,
        after.modified == before.modified,
        after.open_file == before.open_file,
{
}

/// The notes are never left upwards: going up needs a directory below the root.
pub proof fn the_root_is_not_left(
    before: NotesView,
    key: KeyPress,
    clipboard: Option<Seq<char>>,
    after: NotesView,
)
    requires
        before.after_key(key, clipboard, after),
        same_path(before.current_dir@, before.root_dir@),
    ensures
        !(before.outcome(key, clipboard, after) is GoneUp),
        after.root_dir == before.root_dir,
{
}

/// The keys of the tree of notes are about the selected entry: enter and `l` go
/// into a directory or open a note, `x` cuts, `d` asks whether to delete, `r`
/// starts the new name with the old one, `J` and `K` move the note.
pub proof fn the_selected_note_is_acted_on(
    before: NotesView,
    key: KeyPress,
    clipboard: Option<Seq<char>>,
    after: NotesView,
)
    requires
        before.focus is Explorer,
        !before.confirm_delete,
        before.create_input is None,
        before.rename_input is None,
        before.selected_index < before.entries.len(),
        before.after_key(key, clipboard, after),
    ensures
        ({
            let i = before.selected_index as int;
            let entry = before.entries@[i];
            let n = before.entries@.len();
            let asked = before.outcome(key, clipboard, after);
            let code = key.code;
            let enters = code is Enter || code == KeyCode::Char('l');
            let path = joined_path(before.current_dir@, entry.file_name@);
            &&& enters && entry.is_dir ==> after.current_dir@ == path && after.selected_index == 0
                && asked is Refresh
            &&& enters && !entry.is_dir ==> asked == NotesOutcome::Open(path) && after == before
            &&& code == KeyCode::Char('x') ==> asked == NotesOutcome::Cut(entry.name@) && (
            after.cut_entry matches Some(cut) && cut.0@ == before.current_dir@ && cut.1@
                == entry.file_name@)
            &&& code == KeyCode::Char('d') ==> after.confirm_delete && asked is Nothing
            &&& code == KeyCode::Char('r') ==> after.rename_input is Some && asked is Nothing
            &&& code == KeyCode::Char('a') ==> (after.create_input matches Some(input) && !input.1)
            &&& code == KeyCode::Char('A') ==> (after.create_input matches Some(input) && input.1)
            &&& code == KeyCode::Char('J') && i + 1 < n ==> asked == (NotesOutcome::Move {
                file_name: entry.file_name@,
                down: true,
            })
            &&& code == KeyCode::Char('J') && i + 1 == n ==> asked is Nothing
            &&& code == KeyCode::Char('K') && i > 0 ==> asked == (NotesOutcome::Move {
                file_name: entry.file_name@,
                down: false,
            })
            &&& code == KeyCode::Char('K') && i == 0 ==> asked is Nothing
            &&& (code == KeyCode::Char('j') || code is Down) && i + 1 < n ==> after.selected_index
                == i + 1
            &&& (code == KeyCode::Char('j') || code is Down) && i + 1 == n ==> after.selected_index
                == i
            &&& (code == KeyCode::Char('k') || code is Up) && i > 0 ==> after.selected_index == i
                - 1
            &&& (code == KeyCode::Char('k') || code is Up) && i == 0 ==> after.selected_index == 0
            &&& code is Tab && before.open_file is Some ==> after.focus is Editor
            &&& code is Tab && before.open_file is None ==> after.focus is Explorer
        }),
{
}

/// What was cut is pasted into the directory that is shown; without a cut there
/// is nothing to paste. Escape gives the cut up, and without one leaves the notes.
pub proof fn what_was_cut_is_pasted(
    before: NotesView,
    key: KeyPress,
    clipboard: Option<Seq<char>>,
    after: NotesView,
)
    requires
        before.focus is Explorer,
        !before.confirm_delete,
        before.create_input is None,
        before.rename_input is None,
        before.after_key(key, clipboard, after),
    ensures
        ({
            let asked = before.outcome(key, clipboard, after);
            &&& key.code == KeyCode::Char('p') ==> (before.cut_entry matches Some(cut) ==> asked
                == (NotesOutcome::Paste { from_dir: cut.0@, file_name: cut.1@ }))
            &&& key.code == KeyCode::Char('p') && before.cut_entry is None ==> asked is Nothing
            &&& key.code is Esc && before.cut_entry is Some ==> asked is CutCancelled
                && after.cut_entry is None
            &&& key.code is Esc && before.cut_entry is None ==> asked is Close
            &&& key.code == KeyCode::Char('q') ==> asked is Close
        }),
{
}

/// A note is deleted only by `y` in the question whether to, and it is the one
/// that is selected; every key ends the question.
pub proof fn only_yes_deletes_a_note(
    before: NotesView,
    key: KeyPress,
    clipboard: Option<Seq<char>>,
    after: NotesView,
)
    requires
        before.after_key(key, clipboard, after),
    ensures
        before.outcome(key, clipboard, after) matches NotesOutcome::Delete(path) ==> (
        before.confirm_delete && key.code == KeyCode::Char('y') && before.selected_index
            < before.entries@.len() && path == joined_path(
            before.current_dir@,
            before.entries@[before.selected_index as int].file_name@,
        )),
        before.confirm_delete ==> !after.confirm_delete && (key.code != KeyCode::Char('y')
            ==> before.outcome(key, clipboard, after) is Nothing),
{
}

/// A note or a directory is created by enter with the name that was entered,
/// and a note is renamed by enter to the name that was entered, each without
/// the white space around it and not without a name. Escape gives it up.
pub proof fn names_are_taken_over_by_enter(
    before: NotesView,
    key: KeyPress,
    clipboard: Option<Seq<char>>,
    after: NotesView,
)
    requires
        !before.confirm_delete,
        before.after_key(key, clipboard, after),
    ensures
        before.create_input matches Some(input) ==> ({
            let name = trimmed(area_lines(input.0)[0]);
            let asked = before.outcome(key, clipboard, after);
            &&& key.code is Enter && name.len() > 0 && input.1 ==> asked == NotesOutcome::CreateDir(
                name,
            )
            &&& key.code is Enter && name.len() > 0 && !input.1 ==> asked
                == NotesOutcome::CreateNote(name)
            &&& key.code is Enter && name.len() == 0 ==> asked is Refresh
            &&& !(key.code is Enter) ==> asked is Nothing
            &&& key.code is Enter || key.code is Esc ==> after.create_input is None
        }),
        before.create_input is None ==> (before.rename_input matches Some(area) ==> ({
            let name = trimmed(area_lines(area)[0]);
            let asked = before.outcome(key, clipboard, after);
            &&& key.code is Enter && name.len() > 0 && before.selected_index < before.entries@.len()
                ==> asked == (NotesOutcome::Rename {
                path: joined_path(
                    before.current_dir@,
                    before.entries@[before.selected_index as int].file_name@,
                ),
                new_name: name,
            })
            &&& key.code is Enter && name.len() == 0 ==> asked is Refresh
            &&& !(key.code is Enter) ==> asked is Nothing
            &&& key.code is Enter || key.code is Esc ==> after.rename_input is None
        })),
{
}

/// Going up leads to the directory above, and the one that was left is to be
/// selected there; from the directory of all notes it leads nowhere.
pub proof fn going_up_leads_to_the_directory_above(
    before: NotesView,
    key: KeyPress,
    clipboard: Option<Seq<char>>,
    after: NotesView,
    above: Seq<char>,
)
    requires
        before.focus is Explorer,
        !before.confirm_delete,
        before.create_input is None,
        before.rename_input is None,
        key.code == KeyCode::Char('h') || key.code is Backspace,
        parent_path(before.current_dir@) == Some(above),
        before.after_key(key, clipboard, after),
    ensures
        !same_path(before.current_dir@, before.root_dir@) ==> after.current_dir@ == above
            && before.outcome(key, clipboard, after) == NotesOutcome::GoneUp(
            last_part(before.current_dir@),
        ),
        same_path(before.current_dir@, before.root_dir@) ==> after == before,
{
}

/// In the editor, Ctrl-S saves and says so, and in normal mode tab goes to the
/// tree and escape and `q` leave, each with what was changed to be saved. A note
/// counts as changed exactly once its text differs.
pub proof fn the_editor_is_left_with_a_save(
    before: NotesView,
    key: KeyPress,
    clipboard: Option<Seq<char>>,
    after: NotesView,
)
    requires
        before.focus is Editor,
        !before.confirm_delete,
        before.create_input is None,
        before.rename_input is None,
        before.after_key(key, clipboard, after),
    ensures
        ({
            let asked = before.outcome(key, clipboard, after);
            let normal = before.editor.vim.mode is Normal;
            let saves = key.ctrl && key.code == KeyCode::Char('s');
            &&& saves ==> asked is SaveAndSay && after.editor == before.editor
            &&& !saves && normal && key.code is Tab ==> asked is Save && after.focus is Explorer
            &&& !saves && normal && (key.code is Esc || key.code == KeyCode::Char('q')) ==> asked
                is Close
            &&& after.modified ==> before.modified || join_with(after.editor.area().lines, '\n')
                != join_with(before.editor.area().lines, '\n')
            &&& before.modified ==> after.modified
            &&& join_with(after.editor.area().lines, '\n') != join_with(
                before.editor.area().lines,
                '\n',
            ) ==> after.modified
            &&& after.open_file == before.open_file
        }),
{
}

} // verus!
