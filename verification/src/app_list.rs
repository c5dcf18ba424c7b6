//! The project list and its dialogs, as part of the whole.

use crate::activity::ProjectRefreshSnapshot;
use crate::app::{Action, App};
use crate::keys::{KeyCode, KeyPress};
use crate::list::ListOutcome;
use crate::model::NoteEntry;
use crate::notes::NotesView;
use crate::project_wizard::{PickOutcome, ProjectOutcome};
use crate::screen::View;
use crate::select::steps_go_to_the_neighbour;
use crate::task_wizard::some_view;
use crate::text::{concat, decimal, number};
use crate::wizard::{ProjectPicker, ProjectPickerAction, ProjectWizard};
use vstd::prelude::*;
use vstd::view::View as _;

verus! {

impl App {
    /// The state after a key in the project list moved the selection.
    pub open spec fn with_list_key(self, key: KeyPress) -> App {
        App {
            list: crate::list::ProjectList {
                selected_project_index: self.list.selection_after(key) as usize,
                ..self.list
            },
            ..self
        }
    }

    /// The page of a project is opened: nothing is selected on it yet.
    pub open spec fn enters(self, before: App, name: Seq<char>) -> bool {
        &&& self == (App {
            detail: crate::detail::ProjectDetail {
                current_project: self.detail.current_project,
                selected_index: 0,
                ..before.detail
            },
            view: View::TaskList,
            ..before
        })
        &&& some_view(self.detail.current_project) == Some(name)
    }

    /// The dialog for a new project is opened.
    pub open spec fn describes_project(self, before: App) -> bool {
        &&& self == (App {
            project_wizard: self.project_wizard,
            view: View::ProjectWizard,
            ..before
        })
        &&& self.project_wizard matches Some(wizard) && wizard.is_blank()
    }

    fn start_project_wizard(&mut self)
        requires
            old(self).wf(),
        ensures
            final(self).wf(),
            final(self).describes_project(*old(self)),
    {
        self.project_wizard = Some(ProjectWizard::start());
        self.view = View::ProjectWizard;
    }

    /// The choice of a project for the tasks without one is opened.
    pub open spec fn picks_project(self, before: App) -> bool {
        &&& self == (App {
            project_picker: self.project_picker,
            view: View::ProjectPicker,
            ..before
        })
        &&& self.project_picker matches Some(picker) && picker.selected == 0 && picker.projects@
            == Seq::new(
            before.list.projects@.len(),
            |i: int| before.list.projects@[i].meta.name,
        )
    }

    fn start_migration(&mut self)
        requires
            old(self).wf(),
            old(self).list.projects@.len() > 0,
        ensures
            final(self).wf(),
            final(self).picks_project(*old(self)),
    {
        self.project_picker = Some(
            ProjectPicker {
                projects: self.list.project_names(),
                selected: 0,
                action: ProjectPickerAction::MigrateAllUnassigned,
            },
        );
        self.view = View::ProjectPicker;
    }

    /// The issues and pull requests are shown, and fetched where they never were.
    pub open spec fn lists_prs(self, before: App, action: Action) -> bool {
        let polls = !before.show_prs.first_poll_done && !before.show_prs.poll_active;
        &&& self == (App {
            show_prs: crate::show_prs::ShowPrs {
                selected: 0,
                poll_active: before.show_prs.poll_active || polls,
                ..before.show_prs
            },
            view: View::ShowPrs,
            ..before
        })
        &&& if polls {
            action is PollShowPrs
        } else {
            action is Nothing
        }
    }

    fn open_show_prs(&mut self) -> (action: Action)
        requires
            old(self).wf(),
        ensures
            final(self).wf(),
            final(self).lists_prs(*old(self), action),
    {
        self.show_prs.selected = 0;
        self.view = View::ShowPrs;
        if !self.show_prs.first_poll_done && !self.show_prs.poll_active {
            self.show_prs.start_show_prs_poll();
            Action::PollShowPrs
        } else {
            Action::Nothing
        }
    }

    /// What a key in the project list leads to.
    pub open spec fn after_list_key(self, key: KeyPress, now: i64, after: App, action: Action) -> bool {
        let moved = self.with_list_key(key);
        match self.list.outcome(key) {
            ListOutcome::Nothing => after == moved && action is Nothing,
            ListOutcome::Quit => after == (App { should_quit: true, ..moved }) && action is Nothing,
            ListOutcome::Enter(name) => after.enters(moved, name) && action is RefreshProject,
            ListOutcome::ChiefOfStaffChat => after == moved && if self.popup_open {
                action is Nothing
            } else {
                action is OpenChiefOfStaffChat
            },
            ListOutcome::NewProject => after.describes_project(moved) && action is Nothing,
            ListOutcome::Migrate => {
                &&& action is Nothing
                &&& if self.list.projects@.len() == 0 {
                    after.says(moved, "Create a project first with 'n'"@, now)
                } else {
                    after.picks_project(moved)
                }
            },
            ListOutcome::Delete(name) => {
                &&& after == (App {
                    project_to_delete: after.project_to_delete,
                    view: View::ProjectDeleteConfirm,
                    ..moved
                })
                &&& some_view(after.project_to_delete) == Some(name)
                &&& action is Nothing
            },
            ListOutcome::ToggleHold(name) => after == moved && (
            action matches Action::ToggleHold(n) && n@ == name),
            ListOutcome::GlobalNotes => after == moved && action is OpenGlobalNotes,
            ListOutcome::Notifications => after == (App {
                notifs: crate::notifs::Notifications { selected: 0, ..self.notifs },
                view: View::Notifications,
                ..moved
            }) && action is Nothing,
            ListOutcome::ShowPrs => after.lists_prs(moved, action),
            ListOutcome::RespawnChiefOfStaff => {
                &&& action is Nothing
                &&& if self.respawn.in_progress is None {
                    &&& after == (App {
                        respawn: crate::respawn::Respawn {
                            confirm_target: after.respawn.confirm_target,
                            confirm_index: 0,
                            confirm_is_chief_of_staff: true,
                            confirm_return_view: View::ProjectList,
                            ..self.respawn
                        },
                        view: View::RespawnConfirm,
                        ..moved
                    })
                    &&& some_view(after.respawn.confirm_target) == Some("chief-of-staff"@)
                } else {
                    after == moved
                }
            },
            ListOutcome::Settings => after == (App {
                settings: crate::settings::Settings { selected: 0, ..self.settings },
                view: View::Settings,
                ..moved
            }) && action is Nothing,
        }
    }

    pub fn handle_project_list_event(&mut self, key: KeyPress, now: i64) -> (action: Action)
        requires
            old(self).wf(),
        ensures
            final(self).wf(),
            old(self).after_list_key(key, now, *final(self), action),
    {
        match self.list.handle_key(key) {
            ListOutcome::Nothing => Action::Nothing,
            ListOutcome::Quit => {
                self.should_quit = true;
                Action::Nothing
            },
            ListOutcome::Enter(name) => {
                self.detail.current_project = Some(name);
                self.detail.selected_index = 0;
                self.view = View::TaskList;
                Action::RefreshProject
            },
            ListOutcome::ChiefOfStaffChat => {
                if self.popup_open {
                    Action::Nothing
                } else {
                    Action::OpenChiefOfStaffChat
                }
            },
            ListOutcome::NewProject => {
                self.start_project_wizard();
                Action::Nothing
            },
            ListOutcome::Migrate => {
                if self.list.projects.len() == 0 {
                    self.say("Create a project first with 'n'", now);
                } else {
                    self.start_migration();
                }
                Action::Nothing
            },
            ListOutcome::Delete(name) => {
                self.project_to_delete = Some(name);
                self.view = View::ProjectDeleteConfirm;
                Action::Nothing
            },
            ListOutcome::ToggleHold(name) => Action::ToggleHold(name),
            ListOutcome::GlobalNotes => Action::OpenGlobalNotes,
            ListOutcome::Notifications => {
                self.notifs.selected = 0;
                self.view = View::Notifications;
                Action::Nothing
            },
            ListOutcome::ShowPrs => self.open_show_prs(),
            ListOutcome::RespawnChiefOfStaff => {
                if self.respawn.in_progress.is_none() {
                    self.respawn.confirm("chief-of-staff".to_owned(), true, View::ProjectList);
                    self.view = View::RespawnConfirm;
                }
                Action::Nothing
            },
            ListOutcome::Settings => {
                self.settings.selected = 0;
                self.view = View::Settings;
                Action::Nothing
            },
        }
    }
}

impl App {
    /// A popup was opened, or it could not be.
    pub open spec fn after_popup(
        self,
        result: Result<(), Seq<char>>,
        failure: Seq<char>,
        now: i64,
        after: App,
    ) -> bool {
        match result {
            Ok(_) => after == (App { popup_open: true, ..self }),
            Err(e) => after.says(self, failure + e, now),
        }
    }

    /// The chat with the chief of staff was opened, or it could not be.
    pub fn on_chief_of_staff_chat(&mut self, result: Result<(), String>, now: i64)
        requires
            old(self).wf(),
        ensures
            final(self).wf(),
            old(self).after_popup(
                unit_view(result),
                "Failed to open Chief of Staff chat: "@,
                now,
                *final(self),
            ),
    {
        match result {
            Ok(_) => {
                self.popup_open = true;
            },
            Err(e) => self.say_of("Failed to open Chief of Staff chat: ", e.as_str(), now),
        }
    }

    /// The selected project is on hold, as far as the list knows.
    pub open spec fn selected_is_held(self) -> bool {
        self.list.selected_project_index < self.list.projects@.len()
            && self.list.projects@[self.list.selected_project_index as int].meta.held
    }

    /// The selected project was put on hold or taken off.
    pub fn on_hold_toggled(&mut self, name: &str, result: Result<(), String>, now: i64) -> (action:
        Action)
        requires
            old(self).wf(),
        ensures
            final(self).wf(),
            match result {
                Ok(_) => action is RefreshProjects && final(self).says(
                    *old(self),
                    if old(self).selected_is_held() {
                        "Resumed: "@ + name@
                    } else {
                        "On hold: "@ + name@
                    },
                    now,
                ),
                Err(e) => action is Nothing && final(self).says(
                    *old(self),
                    "Failed to toggle hold: "@ + e@,
                    now,
                ),
            },
    {
        match result {
            Ok(_) => {
                let was_held = self.list.selected_project_index < self.list.projects.len()
                    && self.list.projects[self.list.selected_project_index].meta.held;
                if was_held {
                    self.say_of("Resumed: ", name, now);
                } else {
                    self.say_of("On hold: ", name, now);
                }
                Action::RefreshProjects
            },
            Err(e) => {
                self.say_of("Failed to toggle hold: ", e.as_str(), now);
                Action::Nothing
            },
        }
    }

    /// Shows a snapshot that was taken just now.
    pub fn refresh_projects(&mut self, snapshot: ProjectRefreshSnapshot)
        requires
            old(self).wf(),
            snapshot.projects@.len() < usize::MAX,
        ensures
            final(self).wf(),
            *final(self) == (App { list: final(self).list, ..*old(self) }),
            final(self).list.shows(
                (crate::list::ProjectList {
                    project_refresh_generation: old(self).list.next_generation(),
                    ..old(self).list
                }),
                snapshot,
            ),
    {
        self.list.refresh_projects(snapshot);
    }

    /// What a key in the confirmation of a deletion leads to.
    pub open spec fn after_delete_key(self, key: KeyPress, after: App, action: Action) -> bool {
        &&& after == match key.code {
            KeyCode::Enter | KeyCode::Esc | KeyCode::Char('q') => App {
                project_to_delete: None,
                view: View::ProjectList,
                ..self
            },
            _ => self,
        }
        &&& match self.project_to_delete {
            Some(name) if key.code is Enter => action matches Action::DeleteProject(n) && n == name,
            _ => action is Nothing,
        }
    }

    pub fn handle_project_delete_confirm_event(&mut self, key: KeyPress) -> (action: Action)
        requires
            old(self).wf(),
        ensures
            final(self).wf(),
            old(self).after_delete_key(key, *final(self), action),
    {
        match key.code {
            KeyCode::Enter => {
                let name = self.project_to_delete.take();
                self.view = View::ProjectList;
                match name {
                    Some(name) => Action::DeleteProject(name),
                    None => Action::Nothing,
                }
            },
            KeyCode::Esc | KeyCode::Char('q') => {
                self.project_to_delete = None;
                self.view = View::ProjectList;
                Action::Nothing
            },
            _ => Action::Nothing,
        }
    }

    /// A project was deleted, or it could not be.
    pub fn on_project_deleted(&mut self, name: &str, result: Result<(), String>, now: i64) -> (action:
        Action)
        requires
            old(self).wf(),
        ensures
            final(self).wf(),
            match result {
                Ok(_) => action is RefreshProjects && final(self).says(
                    *old(self),
                    "Deleted project '"@ + name@ + "'"@,
                    now,
                ),
                Err(e) => action is Nothing && final(self).says(
                    *old(self),
                    "Delete failed: "@ + e@,
                    now,
                ),
            },
    {
        match result {
            Ok(_) => {
                let mut message = concat("Deleted project '", name);
                message.append("'");
                self.set_status(message, now);
                Action::RefreshProjects
            },
            Err(e) => {
                self.say_of("Delete failed: ", e.as_str(), now);
                Action::Nothing
            },
        }
    }

    /// What a key in the choice of a project leads to.
    pub open spec fn after_picker_key(self, key: KeyPress, after: App, action: Action) -> bool {
        if key.is_ctrl('c') {
            after == (App { should_quit: true, ..self }) && action is Nothing
        } else {
            match self.project_picker {
                None => action is Nothing && after == if key.code is Esc || key.code
                    == KeyCode::Char('q') {
                    App { view: View::TaskList, ..self }
                } else {
                    self
                },
                Some(picker) => match picker.outcome(key) {
                    PickOutcome::Cancel => after == (App {
                        project_picker: None,
                        view: View::ProjectList,
                        ..self
                    }) && action is Nothing,
                    PickOutcome::Pick(name) => after == (App { project_picker: None, ..self }) && (
                    action matches Action::MigrateUnassigned(n) && n@ == name),
                    PickOutcome::Empty => after == (App { project_picker: None, ..self })
                        && action is Nothing,
                    PickOutcome::Nothing => after == (App {
                        project_picker: Some(
                            ProjectPicker {
                                selected: picker.selection_after(key) as usize,
                                ..picker
                            },
                        ),
                        ..self
                    }) && action is Nothing,
                },
            }
        }
    }

    pub fn handle_project_picker_event(&mut self, key: KeyPress) -> (action: Action)
        requires
            old(self).wf(),
        ensures
            final(self).wf(),
            old(self).after_picker_key(key, *final(self), action),
    {
        if key.is_ctrl('c') {
            self.should_quit = true;
            return Action::Nothing;
        }
        match self.project_picker.take() {
            None => {
                if matches!(key.code, KeyCode::Esc | KeyCode::Char('q')) {
                    self.view = View::TaskList;
                }
                Action::Nothing
            },
            Some(picker) => {
                let mut picker = picker;
                match picker.handle_key(key) {
                    PickOutcome::Cancel => {
                        self.view = View::ProjectList;
                        Action::Nothing
                    },
                    PickOutcome::Pick(name) => Action::MigrateUnassigned(name),
                    PickOutcome::Empty => Action::Nothing,
                    PickOutcome::Nothing => {
                        self.project_picker = Some(picker);
                        Action::Nothing
                    },
                }
            },
        }
    }

    /// The tasks without a project were moved to one, or could not be.
    pub fn on_migrated(&mut self, name: &str, result: Result<u64, String>, now: i64) -> (action:
        Action)
        requires
            old(self).wf(),
        ensures
            final(self).wf(),
            action is RefreshProjects,
            final(self).says(
                (App { view: View::ProjectList, ..*old(self) }),
                match result {
                    Ok(count) => "Migrated "@ + decimal(count as nat) + " tasks to "@ + name@,
                    Err(e) => "Migration failed: "@ + e@,
                },
                now,
            ),
    {
        self.view = View::ProjectList;
        match result {
            Ok(count) => {
                let mut message = concat("Migrated ", number(count).as_str());
                message.append(" tasks to ");
                message.append(name);
                self.set_status(message, now);
            },
            Err(e) => self.say_of("Migration failed: ", e.as_str(), now),
        }
        Action::RefreshProjects
    }

    /// What a key in the dialog for a new project leads to.
    pub open spec fn after_project_wizard_key(
        self,
        key: KeyPress,
        clipboard: Option<Seq<char>>,
        after: App,
        action: Action,
    ) -> bool {
        if key.is_ctrl('c') {
            after == (App { should_quit: true, ..self }) && action is Nothing
        } else {
            match self.project_wizard {
                None => after == self && action is Nothing,
                Some(wizard) => if key.is_ctrl('s') {
                    if wizard.name().len() == 0 {
                        &&& action is Nothing
                        &&& after == (App { project_wizard: after.project_wizard, ..self })
                        &&& after.project_wizard matches Some(w) && w == (ProjectWizard {
                            error_message: w.error_message,
                            ..wizard
                        }) && some_view(w.error_message) == Some("Project name is required"@)
                    } else {
                        &&& after == self
                        &&& action matches Action::CreateProject { name, description } && name@
                            == wizard.name() && description@ == wizard.description()
                    }
                } else if !wizard.description_focus && key.code is Esc {
                    after == (App { project_wizard: None, view: View::ProjectList, ..self })
                        && action is Nothing
                } else {
                    &&& after == (App { project_wizard: after.project_wizard, ..self })
                    &&& after.project_wizard matches Some(w) && wizard.after_key(
                        key,
                        clipboard,
                        w,
                    ) && (match wizard.outcome(key, clipboard, w) {
                        ProjectOutcome::Copied(text) => action matches Action::CopyText(t) && t@
                            == text,
                        _ => action is Nothing,
                    })
                },
            }
        }
    }

    pub fn handle_project_wizard_event(&mut self, key: KeyPress, clipboard: Option<String>) -> (action:
        Action)
        requires
            old(self).wf(),
        ensures
            final(self).wf(),
            old(self).after_project_wizard_key(key, some_view(clipboard), *final(self), action),
    {
        if key.is_ctrl('c') {
            self.should_quit = true;
            return Action::Nothing;
        }
        match self.project_wizard.take() {
            None => Action::Nothing,
            Some(wizard) => {
                let mut wizard = wizard;
                if key.is_ctrl('s') {
                    let request = wizard.submit();
                    self.project_wizard = Some(wizard);
                    return match request {
                        Some((name, description)) => Action::CreateProject { name, description },
                        None => Action::Nothing,
                    };
                }
                match wizard.handle_key(key, clipboard) {
                    ProjectOutcome::Cancel => {
                        self.view = View::ProjectList;
                        Action::Nothing
                    },
                    ProjectOutcome::Copied(text) => {
                        self.project_wizard = Some(wizard);
                        Action::CopyText(text)
                    },
                    ProjectOutcome::Nothing => {
                        self.project_wizard = Some(wizard);
                        Action::Nothing
                    },
                }
            },
        }
    }

    /// A project was created, or it could not be.
    pub fn on_project_created(&mut self, name: &str, result: Result<(), String>, now: i64) -> (action:
        Action)
        requires
            old(self).wf(),
        ensures
            final(self).wf(),
            match result {
                Ok(_) => action is RefreshProjects && final(self).says(
                    (App { project_wizard: None, view: View::ProjectList, ..*old(self) }),
                    "Created project: "@ + name@,
                    now,
                ),
                Err(e) => action is Nothing && *final(self) == (App {
                    project_wizard: match old(self).project_wizard {
                        Some(w) => Some(ProjectWizard { error_message: Some(e), ..w }),
                        None => None,
                    },
                    ..*old(self)
                }),
            },
    {
        match result {
            Ok(_) => {
                self.say_of("Created project: ", name, now);
                self.project_wizard = None;
                self.view = View::ProjectList;
                Action::RefreshProjects
            },
            Err(e) => {
                if let Some(wizard) = &mut self.project_wizard {
                    wizard.error_message = Some(e);
                }
                Action::Nothing
            },
        }
    }

    /// The notes in a directory are shown, to be left for another view.
    pub open spec fn opens_notes(
        self,
        root_dir: String,
        entries: Vec<NoteEntry>,
        return_view: View,
        after: App,
    ) -> bool {
        &&& after == (App {
            notes_view: after.notes_view,
            notes_return_view: return_view,
            view: View::Notes,
            ..self
        })
        &&& after.notes_view matches Some(notes) && notes.opens(root_dir, entries)
    }

    fn show_notes(
        &mut self,
        root_dir: String,
        entries: Result<Vec<NoteEntry>, String>,
        return_view: View,
        now: i64,
    )
        requires
            old(self).wf(),
        ensures
            final(self).wf(),
            match entries {
                Ok(list) => old(self).opens_notes(root_dir, list, return_view, *final(self)),
                Err(e) => final(self).says(*old(self), "Failed to open notes: "@ + e@, now),
            },
    {
        match entries {
            Ok(list) => {
                self.notes_view = Some(NotesView::new(root_dir, list));
                self.notes_return_view = return_view;
                self.view = View::Notes;
            },
            Err(e) => self.say_of("Failed to open notes: ", e.as_str(), now),
        }
    }

    /// The notes that belong to no project were read, or could not be. They are
    /// left for the project list.
    pub fn on_global_notes_opened(&mut self, entries: Result<Vec<NoteEntry>, String>, now: i64)
        requires
            old(self).wf(),
        ensures
            final(self).wf(),
            match entries {
                Ok(list) => old(self).opens_notes(
                    old(self).config.notes_dir,
                    list,
                    View::ProjectList,
                    *final(self),
                ),
                Err(e) => final(self).says(*old(self), "Failed to open notes: "@ + e@, now),
            },
    {
        let root_dir = self.config.notes_dir.clone();
        self.show_notes(root_dir, entries, View::ProjectList, now);
    }

    /// The notes of a project, which are kept in `root_dir`, were read, or could
    /// not be. They are left for the page of the project.
    pub fn on_project_notes_opened(
        &mut self,
        root_dir: String,
        entries: Result<Vec<NoteEntry>, String>,
        now: i64,
    )
        requires
            old(self).wf(),
        ensures
            final(self).wf(),
            match entries {
                Ok(list) => old(self).opens_notes(root_dir, list, View::TaskList, *final(self)),
                Err(e) => final(self).says(*old(self), "Failed to open notes: "@ + e@, now),
            },
    {
        self.show_notes(root_dir, entries, View::TaskList, now);
    }
}

/// A result without a value, with its error as a sequence of characters.
pub open spec fn unit_view(result: Result<(), String>) -> Result<(), Seq<char>> {
    match result {
        Ok(_) => Ok(()),
        Err(e) => Err(e@),
    }
}

/// What enter does in the project list: the selected project is opened, or the
/// tasks without a project where their entry, the last one, is selected.
pub proof fn enter_opens_the_selected_project(
    before: App,
    key: KeyPress,
    now: i64,
    after: App,
    action: Action,
)
    requires
        key.code is Enter || key.code == KeyCode::Char('l'),
        before.after_list_key(key, now, after, action),
    ensures
        ({
            let list = before.list;
            let i = list.selected_project_index;
            &&& i < list.projects@.len() ==> (after.detail.current_project matches Some(
                name,
            ) && name@ == list.projects@[i as int].meta.name@)
            &&& i >= list.projects@.len() && list.unassigned_task_count > 0
                ==> (after.detail.current_project matches Some(name) && name@ == "(unassigned)"@)
            &&& i < list.projects@.len() || list.unassigned_task_count > 0 ==> after.view
                is TaskList && after.detail.selected_index == 0 && action is RefreshProject
            &&& i >= list.projects@.len() && list.unassigned_task_count == 0 ==> after == before
                && action is Nothing
        }),
{
}

/// In the project list `j` and `k` go to the next and the previous entry, round
/// the ends, `g` to the first and `G` to the last. The tasks without a project
/// have an entry behind the projects where there are any.
pub proof fn the_project_list_is_gone_through(
    before: App,
    key: KeyPress,
    now: i64,
    after: App,
    action: Action,
)
    requires
        before.list.wf(),
        key.code == KeyCode::Char('j') || key.code == KeyCode::Char('k') || key.code
            == KeyCode::Char('g') || key.code == KeyCode::Char('G'),
        before.after_list_key(key, now, after, action),
        before.list.selected_project_index < before.list.projects@.len() + (
        if before.list.unassigned_task_count > 0 {
            1int
        } else {
            0
        }),
    ensures
        ({
            let n = before.list.projects@.len() + (if before.list.unassigned_task_count > 0 {
                1int
            } else {
                0
            });
            let i = before.list.selected_project_index;
            let j = after.list.selected_project_index;
            &&& key.code == KeyCode::Char('j') && i + 1 < n ==> j == i + 1
            &&& key.code == KeyCode::Char('j') && i + 1 == n ==> j == 0
            &&& key.code == KeyCode::Char('k') && i > 0 ==> j == i - 1
            &&& key.code == KeyCode::Char('k') && i == 0 ==> j == n - 1
            &&& key.code == KeyCode::Char('g') ==> j == 0
            &&& key.code == KeyCode::Char('G') ==> j == n - 1
        }),
        after.view == before.view,
        after.list.projects == before.list.projects,
        action is Nothing,
{
    steps_go_to_the_neighbour(
        before.list.selected_project_index as int,
        before.list.entries(),
    );
}

/// The other keys of the project list ask for what they stand for, and those
/// that are about a project take the selected one.
pub proof fn keys_are_about_the_selected_project(
    before: App,
    key: KeyPress,
    now: i64,
    after: App,
    action: Action,
)
    requires
        !key.ctrl,
        before.list.selected_project_index < before.list.projects@.len(),
        before.after_list_key(key, now, after, action),
    ensures
        ({
            let name = before.list.projects@[before.list.selected_project_index as int].meta.name@;
            &&& key.code == KeyCode::Char('d') ==> after.view is ProjectDeleteConfirm && (
            after.project_to_delete matches Some(n) && n@ == name) && action is Nothing
            &&& key.code == KeyCode::Char('h') ==> (action matches Action::ToggleHold(n) && n@
                == name)
            &&& key.code == KeyCode::Char('m') ==> action is Nothing && after.view == before.view
            &&& key.code == KeyCode::Char('n') ==> after.view is ProjectWizard
                && after.project_wizard is Some
            &&& key.code == KeyCode::Char('i') ==> after.view is Notifications
                && after.notifs.selected == 0
            &&& key.code == KeyCode::Char('p') ==> after.view is ShowPrs && after.show_prs.selected
                == 0
            &&& key.code == KeyCode::Char(',') ==> after.view is Settings && after.settings.selected
                == 0
            &&& key.code == KeyCode::Char('e') && before.respawn.in_progress is None ==> after.view
                is RespawnConfirm && after.respawn.confirm_is_chief_of_staff
                && after.respawn.confirm_index == 0 && after.respawn.confirm_return_view
                is ProjectList
            &&& key.code == KeyCode::Char('e') && before.respawn.in_progress is Some ==> after.view
                == before.view
            &&& key.code == KeyCode::Char('c') && !before.popup_open ==> action
                is OpenChiefOfStaffChat
            &&& key.code == KeyCode::Char('c') && before.popup_open ==> action is Nothing
            &&& key.code == KeyCode::Char('p') ==> (action is PollShowPrs <==> (
            !before.show_prs.first_poll_done && !before.show_prs.poll_active))
        }),
{
}

/// Tasks without a project can be moved to one from their own entry, where there
/// is a project: the choice starts at the first and offers all of them.
pub proof fn tasks_without_a_project_can_be_moved(
    before: App,
    key: KeyPress,
    now: i64,
    after: App,
    action: Action,
)
    requires
        key.code == KeyCode::Char('m'),
        before.list.selected_project_index >= before.list.projects@.len(),
        before.list.unassigned_task_count > 0,
        before.list.projects@.len() > 0,
        before.after_list_key(key, now, after, action),
    ensures
        after.view is ProjectPicker,
        after.project_picker matches Some(p) && p.selected == 0 && p.projects@.len()
            == before.list.projects@.len() && forall|i: int|
            0 <= i < p.projects@.len() ==> #[trigger] p.projects@[i]
                == before.list.projects@[i].meta.name,
{
}

/// A project is deleted only by enter in its confirmation; escape and `q` give
/// it up, and no other key does anything.
pub proof fn deletion_is_confirmed(before: App, key: KeyPress, after: App, action: Action)
    requires
        before.project_to_delete is Some,
        before.after_delete_key(key, after, action),
    ensures
        action matches Action::DeleteProject(name) ==> key.code is Enter
            && before.project_to_delete == Some(name),
        key.code is Enter ==> action is DeleteProject && after.view is ProjectList,
        key.code is Esc || key.code == KeyCode::Char('q') ==> action is Nothing && after.view
            is ProjectList && after.project_to_delete is None,
        !(key.code is Enter || key.code is Esc || key.code == KeyCode::Char('q')) ==> after
            == before && action is Nothing,
{
}

/// Enter in the choice of a project moves the tasks to the selected one, and `j`
/// and `k` go through the projects, round the ends.
pub proof fn tasks_are_moved_to_the_chosen_project(
    before: App,
    picker: ProjectPicker,
    key: KeyPress,
    after: App,
    action: Action,
)
    requires
        before.project_picker == Some(picker),
        picker.selected < picker.projects.len(),
        !key.ctrl,
        before.after_picker_key(key, after, action),
    ensures
        key.code is Enter ==> after.project_picker is None && (
        action matches Action::MigrateUnassigned(name) && name@
            == picker.projects@[picker.selected as int]@),
        key.code == KeyCode::Char('j') ==> (after.project_picker matches Some(p) && p.selected
            == if picker.selected + 1 < picker.projects@.len() {
            picker.selected + 1
        } else {
            0
        }),
        key.code == KeyCode::Char('k') ==> (after.project_picker matches Some(p) && p.selected
            == if picker.selected > 0 {
            picker.selected - 1
        } else {
            picker.projects@.len() - 1
        }),
        key.code is Esc || key.code == KeyCode::Char('q') ==> after.project_picker is None
            && after.view is ProjectList && action is Nothing,
        !(key.code is Enter) ==> action is Nothing,
{
    steps_go_to_the_neighbour(picker.selected as int, picker.projects.len() as int);
}

/// A project is created by Ctrl-S with the name and the description that were
/// entered, without the white space around them, and not without a name.
pub proof fn projects_are_created_as_entered(
    before: App,
    wizard: ProjectWizard,
    key: KeyPress,
    clipboard: Option<Seq<char>>,
    after: App,
    action: Action,
)
    requires
        before.project_wizard == Some(wizard),
        before.after_project_wizard_key(key, clipboard, after, action),
    ensures
        ({
            let name = crate::text::trimmed(crate::wizard::line_text(wizard.name_editor));
            let text = crate::text::trimmed(
                crate::text::join_with(wizard.description_editor.area().lines, '\n'),
            );
            let submits = key.ctrl && key.code == KeyCode::Char('s');
            &&& submits && name.len() > 0 ==> (action matches Action::CreateProject {
                name: n,
                description,
            } && n@ == name && description@ == text) && after == before
            &&& submits && name.len() == 0 ==> action is Nothing && (
            after.project_wizard matches Some(w) && w.error_message is Some)
            &&& action is CreateProject ==> submits
            &&& !submits && !key.ctrl && !wizard.description_focus && key.code is Esc ==> after.view
                is ProjectList && after.project_wizard is None
        }),
{
}

} // verus!
