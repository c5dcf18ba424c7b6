//! The notes, as part of the whole.

use crate::app::{Action, App};
use crate::detail::first_of;
use crate::keys::{KeyCode, KeyPress};
use crate::model::NoteEntry;
use crate::notes::{file_names, NotesFocus, NotesOutcome, NotesView};
use crate::screen::View;
use crate::select::clamped;
use crate::task_wizard::some_view;
use crate::text::{join_with, lines_of_text};
use crate::textarea::fresh_state;
use crate::vim::{fresh_vim, VimMode};
use vstd::prelude::*;
use vstd::view::View as _;

verus! {

/// What is to be saved of the notes: the open file and its text, where it was
/// changed.
pub open spec fn unsaved_note(notes: NotesView) -> Option<(Seq<char>, Seq<char>)> {
    if notes.unsaved() {
        Some((notes.open_file->0@, join_with(notes.editor.area().lines, '\n')))
    } else {
        None
    }
}

/// A pair of texts as sequences of characters.
pub open spec fn pair_view(pair: Option<(String, String)>) -> Option<(Seq<char>, Seq<char>)> {
    match pair {
        Some(p) => Some((p.0@, p.1@)),
        None => None,
    }
}

/// The notes with other entries, as listing gave them.
pub open spec fn relisted(notes: NotesView, entries: Option<Vec<NoteEntry>>) -> NotesView {
    match entries {
        Some(list) => NotesView {
            entries: list,
            selected_index: clamped(notes.selected_index as int, list@.len() as int) as usize,
            ..notes
        },
        None => notes,
    }
}

impl App {
    /// The action for what a key in the notes asks for.
    pub open spec fn notes_action(
        outcome: NotesOutcome<Seq<char>>,
        unsaved: Option<(Seq<char>, Seq<char>)>,
        action: Action,
    ) -> bool {
        match outcome {
            NotesOutcome::Nothing | NotesOutcome::Cut(_) | NotesOutcome::CutCancelled => action
                is Nothing,
            NotesOutcome::Refresh => action is ListNotes,
            NotesOutcome::GoneUp(child) => action matches Action::ListNotesAbove(c) && some_view(c)
                == child,
            NotesOutcome::Delete(path) => action matches Action::DeleteNote(p) && p@ == path,
            NotesOutcome::CreateDir(name) => action matches Action::CreateNoteDir(n) && n@ == name,
            NotesOutcome::CreateNote(name) => action matches Action::CreateNote(n) && n@ == name,
            NotesOutcome::Rename { path, new_name } => action matches Action::RenameNote {
                path: p,
                new_name: n,
            } && p@ == path && n@ == new_name,
            NotesOutcome::Open(path) => action matches Action::OpenNote { save, path: p }
                && pair_view(save) == unsaved && p@ == path,
            NotesOutcome::Move { file_name, down } => action matches Action::MoveNote {
                file_name: f,
                down: d,
            } && f@ == file_name && d == down,
            NotesOutcome::Paste { from_dir, file_name } => action matches Action::PasteNote {
                from_dir: d,
                file_name: f,
            } && d@ == from_dir && f@ == file_name,
            NotesOutcome::Save | NotesOutcome::SaveAndSay => match unsaved {
                Some(note) => action matches Action::SaveNote { path, content } && path@ == note.0
                    && content@ == note.1,
                None => action is Nothing,
            },
            NotesOutcome::Close => match unsaved {
                Some(note) => action matches Action::SaveClosedNote { path, content } && path@
                    == note.0 && content@ == note.1,
                None => action is Nothing,
            },
            NotesOutcome::Copied(text) => action matches Action::CopyText(t) && t@ == text,
        }
    }

    /// What a key in the notes leads to.
    pub open spec fn after_notes_key(
        self,
        key: KeyPress,
        clipboard: Option<Seq<char>>,
        now: i64,
        after: App,
        action: Action,
    ) -> bool {
        if key.is_ctrl('c') {
            after == (App { should_quit: true, ..self }) && action is Nothing
        } else {
            match self.notes_view {
                None => after == self && action is Nothing,
                Some(notes) => exists|next: NotesView| #[trigger]
                    notes.after_key(key, clipboard, next) && {
                        let outcome = notes.outcome(key, clipboard, next);
                        let open = App { notes_view: Some(next), ..self };
                        &&& App::notes_action(outcome, unsaved_note(next), action)
                        &&& match outcome {
                            NotesOutcome::Cut(name) => after.says(open, "Cut: "@ + name, now),
                            NotesOutcome::CutCancelled => after.says(
                                open,
                                "Cut cancelled"@,
                                now,
                            ),
                            NotesOutcome::SaveAndSay => after.says(open, "Saved"@, now),
                            NotesOutcome::Close => after == (App {
                                notes_view: None,
                                view: self.notes_return_view,
                                ..self
                            }),
                            _ => after == open,
                        }
                    },
            }
        }
    }

    pub fn handle_notes_event(&mut self, key: KeyPress, clipboard: Option<String>, now: i64) -> (action:
        Action)
        requires
            old(self).wf(),
        ensures
            final(self).wf(),
            old(self).after_notes_key(key, some_view(clipboard), now, *final(self), action),
    {
        if key.is_ctrl('c') {
            self.should_quit = true;
            return Action::Nothing;
        }
        let mut notes = match self.notes_view.take() {
            Some(notes) => notes,
            None => {
                return Action::Nothing;
            },
        };
        let outcome = notes.handle_key(key, clipboard);
        let save = notes.save_current();
        let ghost next = notes;
        assert(old(self).notes_view->0.after_key(key, some_view(clipboard), next));
        assert(pair_view(save) == unsaved_note(next));
        self.notes_view = Some(notes);
        match outcome {
            NotesOutcome::Nothing => Action::Nothing,
            NotesOutcome::Refresh => Action::ListNotes,
            NotesOutcome::GoneUp(child) => Action::ListNotesAbove(child),
            NotesOutcome::Delete(path) => Action::DeleteNote(path),
            NotesOutcome::CreateDir(name) => Action::CreateNoteDir(name),
            NotesOutcome::CreateNote(name) => Action::CreateNote(name),
            NotesOutcome::Rename { path, new_name } => Action::RenameNote { path, new_name },
            NotesOutcome::Open(path) => Action::OpenNote { save, path },
            NotesOutcome::Move { file_name, down } => Action::MoveNote { file_name, down },
            NotesOutcome::Cut(name) => {
                self.say_of("Cut: ", name.as_str(), now);
                Action::Nothing
            },
            NotesOutcome::CutCancelled => {
                self.say("Cut cancelled", now);
                Action::Nothing
            },
            NotesOutcome::Paste { from_dir, file_name } => Action::PasteNote {
                from_dir,
                file_name,
            },
            NotesOutcome::Save => match save {
                Some((path, content)) => Action::SaveNote { path, content },
                None => Action::Nothing,
            },
            NotesOutcome::SaveAndSay => {
                self.say("Saved", now);
                match save {
                    Some((path, content)) => Action::SaveNote { path, content },
                    None => Action::Nothing,
                }
            },
            NotesOutcome::Close => {
                self.close_notes();
                match save {
                    Some((path, content)) => Action::SaveClosedNote { path, content },
                    None => Action::Nothing,
                }
            },
            NotesOutcome::Copied(text) => Action::CopyText(text),
        }
    }

    /// The state with the notes changed, where they are open.
    pub open spec fn with_notes(self, change: spec_fn(NotesView) -> NotesView) -> App {
        App {
            notes_view: match self.notes_view {
                Some(notes) => Some(change(notes)),
                None => None,
            },
            ..self
        }
    }

    /// The state with the notes listed again.
    pub open spec fn with_listing(self, entries: Option<Vec<NoteEntry>>) -> App {
        self.with_notes(|notes: NotesView| relisted(notes, entries))
    }

    /// The current directory of the notes was listed again.
    pub fn on_notes_listed(&mut self, entries: Option<Vec<NoteEntry>>)
        requires
            old(self).wf(),
        ensures
            final(self).wf(),
            *final(self) == old(self).with_listing(entries),
    {
        if let Some(notes) = &mut self.notes_view {
            notes.refresh(entries);
        }
    }

    /// The directory above was listed after going up.
    pub fn on_notes_listed_above(&mut self, entries: Option<Vec<NoteEntry>>, child: Option<String>)
        requires
            old(self).wf(),
        ensures
            final(self).wf(),
            *final(self) == (App { notes_view: final(self).notes_view, ..*old(self) }),
            match old(self).notes_view {
                Some(notes) => {
                    let listed = match entries {
                        Some(list) => list,
                        None => notes.entries,
                    };
                    let at = match some_view(child) {
                        Some(name) => first_of(file_names(listed@), name),
                        None => None,
                    };
                    final(self).notes_view == Some(
                        NotesView {
                            entries: listed,
                            selected_index: match at {
                                Some(i) => i as usize,
                                None => 0,
                            },
                            ..notes
                        },
                    )
                },
                None => final(self).notes_view is None,
            },
    {
        if let Some(notes) = &mut self.notes_view {
            notes.listed_parent(entries, child);
        }
    }

    /// Something was done to a note and the directory was listed again; a
    /// failure is shown.
    pub open spec fn after_note_change(
        self,
        result: Result<(), Seq<char>>,
        failure: Seq<char>,
        entries: Option<Vec<NoteEntry>>,
        now: i64,
        after: App,
    ) -> bool {
        match result {
            Ok(_) => after == self.with_listing(entries),
            Err(e) => after.says(self.with_listing(entries), failure + e, now),
        }
    }

    fn note_changed(
        &mut self,
        result: Result<(), String>,
        failure: &str,
        entries: Option<Vec<NoteEntry>>,
        now: i64,
    )
        requires
            old(self).wf(),
        ensures
            final(self).wf(),
            old(self).after_note_change(
                crate::app_list::unit_view(result),
                failure@,
                entries,
                now,
                *final(self),
            ),
    {
        self.on_notes_listed(entries);
        if let Err(e) = result {
            self.say_of(failure, e.as_str(), now);
        }
    }

    pub fn on_note_deleted(
        &mut self,
        result: Result<(), String>,
        entries: Option<Vec<NoteEntry>>,
        now: i64,
    )
        requires
            old(self).wf(),
        ensures
            final(self).wf(),
            old(self).after_note_change(
                crate::app_list::unit_view(result),
                "Delete failed: "@,
                entries,
                now,
                *final(self),
            ),
    {
        self.note_changed(result, "Delete failed: ", entries, now);
    }

    pub fn on_note_dir_created(
        &mut self,
        result: Result<(), String>,
        entries: Option<Vec<NoteEntry>>,
        now: i64,
    )
        requires
            old(self).wf(),
        ensures
            final(self).wf(),
            old(self).after_note_change(
                crate::app_list::unit_view(result),
                "Create dir failed: "@,
                entries,
                now,
                *final(self),
            ),
    {
        self.note_changed(result, "Create dir failed: ", entries, now);
    }

    pub fn on_note_renamed(
        &mut self,
        result: Result<(), String>,
        entries: Option<Vec<NoteEntry>>,
        now: i64,
    )
        requires
            old(self).wf(),
        ensures
            final(self).wf(),
            old(self).after_note_change(
                crate::app_list::unit_view(result),
                "Rename failed: "@,
                entries,
                now,
                *final(self),
            ),
    {
        self.note_changed(result, "Rename failed: ", entries, now);
    }

    /// The notes show a note in the editor.
    pub open spec fn shows_note(after: NotesView, before: NotesView, path: String, content: Seq<char>) -> bool {
        &&& after == (NotesView {
            editor: after.editor,
            open_file: Some(path),
            modified: false,
            focus: NotesFocus::Editor,
            ..before
        })
        &&& after.editor.area() == fresh_state(lines_of_text(content))
        &&& after.editor.vim == fresh_vim(VimMode::Normal, false)
    }

    /// A note was created and read, or could not be.
    pub fn on_note_created(
        &mut self,
        result: Result<String, String>,
        content: Option<String>,
        entries: Option<Vec<NoteEntry>>,
        now: i64,
    )
        requires
            old(self).wf(),
        ensures
            final(self).wf(),
            match result {
                Err(e) => final(self).says(
                    old(self).with_listing(entries),
                    "Create note failed: "@ + e@,
                    now,
                ),
                Ok(path) => {
                    &&& *final(self) == (App { notes_view: final(self).notes_view, ..*old(self) })
                    &&& match old(self).notes_view {
                        None => final(self).notes_view is None,
                        Some(notes) => final(self).notes_view matches Some(next) && match content {
                            Some(text) => App::shows_note(
                                next,
                                relisted(notes, entries),
                                path,
                                text@,
                            ),
                            None => next == (NotesView {
                                focus: NotesFocus::Editor,
                                ..relisted(notes, entries)
                            }),
                        },
                    }
                },
            },
    {
        self.on_notes_listed(entries);
        match result {
            Err(e) => self.say_of("Create note failed: ", e.as_str(), now),
            Ok(path) => {
                if let Some(notes) = &mut self.notes_view {
                    if let Some(text) = content {
                        notes.open_file(path, text.as_str());
                    }
                    notes.focus = NotesFocus::Editor;
                }
            },
        }
    }

    /// A note was read, or could not be.
    pub fn on_note_opened(&mut self, path: String, content: Result<String, String>, now: i64)
        requires
            old(self).wf(),
        ensures
            final(self).wf(),
            match content {
                Err(e) => final(self).says(*old(self), "Open failed: "@ + e@, now),
                Ok(text) => {
                    &&& *final(self) == (App { notes_view: final(self).notes_view, ..*old(self) })
                    &&& match old(self).notes_view {
                        None => final(self).notes_view is None,
                        Some(notes) => final(self).notes_view matches Some(next)
                            && App::shows_note(next, notes, path, text@),
                    }
                },
            },
    {
        match content {
            Err(e) => self.say_of("Open failed: ", e.as_str(), now),
            Ok(text) => {
                if let Some(notes) = &mut self.notes_view {
                    notes.open_file(path, text.as_str());
                    notes.focus = NotesFocus::Editor;
                }
            },
        }
    }

    /// The open note was saved.
    pub fn on_note_saved(&mut self)
        requires
            old(self).wf(),
        ensures
            final(self).wf(),
            *final(self) == old(self).with_notes(
                |notes: NotesView| NotesView { modified: false, ..notes },
            ),
    {
        if let Some(notes) = &mut self.notes_view {
            notes.saved();
        }
    }

    /// A note was moved to a place in its directory, or could not be.
    pub fn on_note_moved(
        &mut self,
        result: Result<usize, String>,
        entries: Option<Vec<NoteEntry>>,
        now: i64,
    )
        requires
            old(self).wf(),
        ensures
            final(self).wf(),
            match result {
                Ok(at) => *final(self) == old(self).with_notes(
                    |notes: NotesView|
                        NotesView { selected_index: at, ..relisted(notes, entries) },
                ),
                Err(e) => final(self).says(*old(self), "Move failed: "@ + e@, now),
            },
    {
        match result {
            Ok(at) => {
                if let Some(notes) = &mut self.notes_view {
                    notes.moved_to(entries, at);
                }
            },
            Err(e) => self.say_of("Move failed: ", e.as_str(), now),
        }
    }

    /// The note that was cut was moved to the current directory, or could not be.
    pub fn on_note_pasted(
        &mut self,
        file_name: &str,
        result: Result<(), String>,
        entries: Option<Vec<NoteEntry>>,
        now: i64,
    )
        requires
            old(self).wf(),
        ensures
            final(self).wf(),
            match result {
                Ok(_) => final(self).says(
                    old(self).with_notes(
                        |notes: NotesView|
                            relisted((NotesView { cut_entry: None, ..notes }), entries),
                    ),
                    "Pasted: "@ + file_name@,
                    now,
                ),
                Err(e) => final(self).says(*old(self), "Paste failed: "@ + e@, now),
            },
    {
        match result {
            Ok(_) => {
                if let Some(notes) = &mut self.notes_view {
                    notes.cut_entry = None;
                    notes.refresh(entries);
                }
                self.say_of("Pasted: ", file_name, now);
            },
            Err(e) => self.say_of("Paste failed: ", e.as_str(), now),
        }
    }
}

/// Notes that were just opened are left at once by escape or `q`: nothing is to
/// be saved, and the view that they were opened from is shown again.
pub proof fn opened_notes_lead_back(
    before: App,
    root_dir: String,
    entries: Vec<NoteEntry>,
    return_view: View,
    opened: App,
    key: KeyPress,
    clipboard: Option<Seq<char>>,
    now: i64,
    after: App,
    action: Action,
)
    requires
        before.opens_notes(root_dir, entries, return_view, opened),
        key.code is Esc || key.code == KeyCode::Char('q'),
        opened.after_notes_key(key, clipboard, now, after, action),
    ensures
        after == (App {
            notes_view: None,
            notes_return_view: return_view,
            view: return_view,
            ..before
        }),
        action is Nothing,
{
}

/// A changed note is saved with its path and its text when it is left for
/// another one, for the tree, or with the notes, and when saving is asked for. An
/// unchanged one is not written.
pub proof fn changed_notes_are_saved(
    before: App,
    notes: NotesView,
    path: String,
    key: KeyPress,
    clipboard: Option<Seq<char>>,
    now: i64,
    after: App,
    action: Action,
)
    requires
        before.notes_view == Some(notes),
        notes.open_file == Some(path),
        !notes.confirm_delete,
        notes.create_input is None,
        notes.rename_input is None,
        notes.cut_entry is None,
        before.after_notes_key(key, clipboard, now, after, action),
    ensures
        ({
            let text = join_with(notes.editor.area().lines, '\n');
            let quits = key.ctrl && key.code == KeyCode::Char('c');
            let saves = key.ctrl && key.code == KeyCode::Char('s');
            let normal = notes.editor.vim.mode is Normal;
            let leaves = !saves && !quits && (key.code is Esc || key.code == KeyCode::Char('q'))
                && (notes.focus is Explorer || normal);
            &&& leaves && notes.modified ==> (action matches Action::SaveClosedNote {
                path: p,
                content,
            } && p@ == path@ && content@ == text)
            &&& leaves && !notes.modified ==> action is Nothing
            &&& leaves ==> after.notes_view is None && after.view == before.notes_return_view
            &&& notes.focus is Editor && saves && notes.modified ==> (
            action matches Action::SaveNote { path: p, content } && p@ == path@ && content@ == text)
            &&& notes.focus is Editor && saves && !notes.modified ==> action is Nothing
            &&& notes.focus is Editor && normal && !saves && key.code is Tab && notes.modified ==> (
            action matches Action::SaveNote { path: p, content } && p@ == path@ && content@ == text)
        }),
        action matches Action::OpenNote { save, path: p } ==> (notes.modified ==> (
        save matches Some(s) && s.0@ == path@ && s.1@ == join_with(
            notes.editor.area().lines,
            '\n',
        ))) && (!notes.modified ==> save is None),
{
}

/// What is asked for in the notes is done with what it was asked for, and nothing
/// is done with a note that was not asked for.
pub proof fn what_is_asked_for_in_the_notes_is_done(
    outcome: NotesOutcome<Seq<char>>,
    unsaved: Option<(Seq<char>, Seq<char>)>,
    action: Action,
)
    requires
        App::notes_action(outcome, unsaved, action),
    ensures
        action matches Action::DeleteNote(path) ==> outcome == NotesOutcome::Delete(path@),
        action matches Action::CreateNoteDir(name) ==> outcome == NotesOutcome::CreateDir(name@),
        action matches Action::CreateNote(name) ==> outcome == NotesOutcome::CreateNote(name@),
        action matches Action::RenameNote { path, new_name } ==> outcome == (NotesOutcome::Rename {
            path: path@,
            new_name: new_name@,
        }),
        action matches Action::OpenNote { save, path } ==> outcome == NotesOutcome::Open(path@)
            && pair_view(save) == unsaved,
        action matches Action::MoveNote { file_name, down } ==> outcome == (NotesOutcome::Move {
            file_name: file_name@,
            down,
        }),
        action matches Action::PasteNote { from_dir, file_name } ==> outcome == (
        NotesOutcome::Paste { from_dir: from_dir@, file_name: file_name@ }),
        action matches Action::CopyText(text) ==> outcome == NotesOutcome::Copied(text@),
        action matches Action::ListNotesAbove(child) ==> outcome == NotesOutcome::GoneUp(
            some_view(child),
        ),
        action is ListNotes ==> outcome is Refresh,
        action matches Action::SaveNote { path, content } ==> unsaved == Some((path@, content@)),
        action matches Action::SaveClosedNote { path, content } ==> unsaved == Some(
            (path@, content@),
        ) && outcome is Close,
        unsaved is None && (outcome is Save || outcome is SaveAndSay || outcome is Close)
            ==> action is Nothing,
        unsaved is Some && (outcome is Save || outcome is SaveAndSay || outcome is Close)
            ==> !(action is Nothing),
        outcome is Delete ==> action is DeleteNote,
        outcome is Rename ==> action is RenameNote,
        outcome is Open ==> action is OpenNote,
        outcome is Paste ==> action is PasteNote,
        outcome is Move ==> action is MoveNote,
        outcome is CreateNote ==> action is CreateNote,
        outcome is CreateDir ==> action is CreateNoteDir,
        outcome is Refresh ==> action is ListNotes,
{
}

} // verus!
