//! Archiving, previewing and attaching to tasks, as part of the whole.

use crate::app::{Action, App};
use crate::app_list::unit_view;
use crate::detail::{ProjectDetail, RowShape};
use crate::keys::{KeyCode, KeyPress};
use crate::model::{agent_session_name, AgentRecord, Task};
use crate::preview::PreviewOutcome;
use crate::screen::View;
use crate::sessions::{SessionOutcome, SessionPicker};
use crate::table::{has_string, remove_string, Table};
use crate::task_wizard::some_view;
use crate::text::{concat, join_with};
use vstd::prelude::*;
use vstd::view::View as _;

verus! {

/// Where to attach to.
pub enum AttachTarget {
    /// A session by its name.
    Session(String),
    /// The session of a task without repositories.
    Parent { name: String, branch: String },
}

impl App {
    /// What a key in the confirmation of archiving leads to.
    pub open spec fn after_delete_confirm_key(self, key: KeyPress, after: App, action: Action) -> bool {
        match key.code {
            KeyCode::Enter => match self.detail.selected_row() {
                Some(RowShape::Task(_)) => after == self && action is ArchiveSelected,
                _ => match self.detail.spec_selected_agent() {
                    Some(agent) => {
                        &&& after == (App { view: View::TaskList, ..self })
                        &&& action matches Action::ArchiveAgent { project, name } && project
                            == agent.meta.project && name == agent.meta.name
                    },
                    None => after == self && action is Nothing,
                },
            },
            KeyCode::Esc | KeyCode::Char('q') => after == (App { view: View::TaskList, ..self })
                && action is Nothing,
            _ => after == self && action is Nothing,
        }
    }

    pub fn handle_delete_confirm_event(&mut self, key: KeyPress) -> (action: Action)
        requires
            old(self).wf(),
        ensures
            final(self).wf(),
            old(self).after_delete_confirm_key(key, *final(self), action),
    {
        match key.code {
            KeyCode::Enter => {
                if self.detail.selected_task_index().is_some() {
                    return Action::ArchiveSelected;
                }
                let found = match self.detail.selected_project_detail_agent() {
                    Some(agent) => Some((agent.meta.project.clone(), agent.meta.name.clone())),
                    None => None,
                };
                match found {
                    Some((project, name)) => {
                        self.view = View::TaskList;
                        Action::ArchiveAgent { project, name }
                    },
                    None => Action::Nothing,
                }
            },
            KeyCode::Esc | KeyCode::Char('q') => {
                self.view = View::TaskList;
                Action::Nothing
            },
            _ => Action::Nothing,
        }
    }

    /// The selected task leaves the page, is marked as being archived, and is
    /// handed over to be archived in the background.
    pub open spec fn after_archive_task(
        self,
        saved: bool,
        attached: Table<Vec<AgentRecord>>,
        now: i64,
        after: App,
        action: Action,
    ) -> bool {
        match self.detail.spec_selected_task() {
            None => after == self && action is Nothing,
            Some(i) => {
                let task = self.detail.tasks@[i];
                let label = if saved {
                    "Archiving & saving: "@
                } else {
                    "Archiving: "@
                };
                &&& action matches Action::ArchiveTask { task: t, saved: s } && t == task && s
                    == saved
                &&& after.detail.archives(self.detail, i, attached)
                &&& after.output.logs(
                    self.output,
                    "Archiving task "@ + task.id() + "..."@,
                    now,
                )
                &&& after.says(
                    (App {
                        detail: after.detail,
                        output: after.output,
                        view: View::TaskList,
                        ..self
                    }),
                    label + task.id(),
                    now,
                )
            },
        }
    }

    /// Archives the selected task, given the agents that were read for the
    /// tasks that remain.
    pub fn archive_task(&mut self, saved: bool, attached: Table<Vec<AgentRecord>>, now: i64) -> (action:
        Action)
        requires
            old(self).wf(),
        ensures
            final(self).wf(),
            old(self).after_archive_task(saved, attached, now, *final(self), action),
    {
        match self.detail.take_selected_task(attached) {
            None => Action::Nothing,
            Some(task) => {
                let mut line = concat("Archiving task ", task.meta.id.as_str());
                line.append("...");
                self.log_output(line, now);
                if saved {
                    self.say_of("Archiving & saving: ", task.meta.id.as_str(), now);
                } else {
                    self.say_of("Archiving: ", task.meta.id.as_str(), now);
                }
                self.view = View::TaskList;
                Action::ArchiveTask { task, saved }
            },
        }
    }

    /// A task was archived in the background, or could not be: either way it is
    /// no longer held back.
    pub fn apply_archive_results(&mut self, task_id: &str, result: Result<bool, String>, now: i64)
        requires
            old(self).wf(),
        ensures
            final(self).wf(),
            final(self).says(
                (App { detail: final(self).detail, output: final(self).output, ..*old(self) }),
                match result {
                    Ok(true) => "Archived & saved: "@ + task_id@,
                    Ok(false) => "Archived: "@ + task_id@,
                    Err(e) => "archive failed: "@ + task_id@ + ": "@ + e@,
                },
                now,
            ),
            final(self).output.logs(
                old(self).output,
                match result {
                    Ok(_) => "  Archived task "@ + task_id@,
                    Err(e) => "  Archive failed for "@ + task_id@ + ": "@ + e@,
                },
                now,
            ),
            final(self).detail == (ProjectDetail {
                archive_in_progress: final(self).detail.archive_in_progress,
                ..old(self).detail
            }),
            forall|id: Seq<char>| #[trigger]
                has_string(final(self).detail.archive_in_progress@, id) == (has_string(
                    old(self).detail.archive_in_progress@,
                    id,
                ) && id != task_id@),
    {
        remove_string(&mut self.detail.archive_in_progress, task_id);
        match result {
            Ok(saved) => {
                self.log_output(concat("  Archived task ", task_id), now);
                if saved {
                    self.say_of("Archived & saved: ", task_id, now);
                } else {
                    self.say_of("Archived: ", task_id, now);
                }
            },
            Err(e) => {
                let mut line = concat("  Archive failed for ", task_id);
                line.append(": ");
                line.append(e.as_str());
                self.log_output(line, now);
                let mut message = concat("archive failed: ", task_id);
                message.append(": ");
                message.append(e.as_str());
                self.set_status(message, now);
            },
        }
    }

    /// An agent was archived, or could not be.
    pub fn on_agent_archived(&mut self, name: &str, result: Result<(), String>, now: i64) -> (action:
        Action)
        requires
            old(self).wf(),
        ensures
            final(self).wf(),
            match result {
                Ok(_) => action is RefreshAgentsAndTasks && final(self).says(
                    *old(self),
                    "Archived agent '"@ + name@ + "'"@,
                    now,
                ),
                Err(e) => action is Nothing && final(self).says(
                    *old(self),
                    "Failed to archive: "@ + e@,
                    now,
                ),
            },
    {
        match result {
            Ok(_) => {
                let mut message = concat("Archived agent '", name);
                message.append("'");
                self.set_status(message, now);
                Action::RefreshAgentsAndTasks
            },
            Err(e) => {
                self.say_of("Failed to archive: ", e.as_str(), now);
                Action::Nothing
            },
        }
    }

    /// It was found out whether the session of an agent is there: one that is
    /// not is resumed first.
    pub fn on_agent_session_checked(&self, agent: AgentRecord, found: bool) -> (action: Action)
        ensures
            if found {
                action matches Action::AttachAgent(session) && session == agent.meta.session_name
            } else {
                action matches Action::ResumeAgent(a) && a == agent
            },
    {
        if found {
            Action::AttachAgent(agent_session_name(&agent))
        } else {
            Action::ResumeAgent(agent)
        }
    }

    /// An agent was resumed, or could not be.
    pub fn on_agent_resumed(&mut self, agent: &AgentRecord, result: Result<(), String>, now: i64) -> (
        action: Action)
        requires
            old(self).wf(),
        ensures
            final(self).wf(),
            match result {
                Ok(_) => *final(self) == *old(self) && (action matches Action::RefreshAndAttach(s)
                    && s == agent.meta.session_name),
                Err(e) => action is Nothing && final(self).says(
                    *old(self),
                    "Failed to resume: "@ + e@,
                    now,
                ),
            },
    {
        match result {
            Ok(_) => Action::RefreshAndAttach(agent_session_name(agent)),
            Err(e) => {
                self.say_of("Failed to resume: ", e.as_str(), now);
                Action::Nothing
            },
        }
    }

    /// An agent's session was opened in a popup, or could not be.
    pub fn on_agent_attached(&mut self, result: Result<(), String>, now: i64)
        requires
            old(self).wf(),
        ensures
            final(self).wf(),
            old(self).after_popup(unit_view(result), "Failed to attach: "@, now, *final(self)),
    {
        match result {
            Ok(_) => {
                self.popup_open = true;
            },
            Err(e) => self.say_of("Failed to attach: ", e.as_str(), now),
        }
    }

    /// The chat with a project's manager was opened, or could not be.
    pub fn on_project_chat(&mut self, result: Result<(), String>, now: i64)
        requires
            old(self).wf(),
        ensures
            final(self).wf(),
            old(self).after_popup(
                unit_view(result),
                "Failed to open PM chat: "@,
                now,
                *final(self),
            ),
    {
        match result {
            Ok(_) => {
                self.popup_open = true;
            },
            Err(e) => self.say_of("Failed to open PM chat: ", e.as_str(), now),
        }
    }

    /// Shows the log and the notes that were read of the selected task.
    pub fn load_preview(&mut self, log: Option<String>, notes: Option<String>)
        requires
            old(self).wf(),
        ensures
            final(self).wf(),
            if old(self).detail.spec_selected_task() is None {
                *final(self) == *old(self)
            } else {
                &&& *final(self) == (App { preview: final(self).preview, ..*old(self) })
                &&& final(self).preview.loaded(
                    old(self).preview,
                    match log {
                        Some(text) => text@,
                        None => "No agent log available"@,
                    },
                    match notes {
                        Some(text) => text@,
                        None => Seq::empty(),
                    },
                )
            },
    {
        if self.detail.selected_task_index().is_none() {
            return;
        }
        let log = match log {
            Some(text) => text,
            None => "No agent log available".to_owned(),
        };
        let notes = match notes {
            Some(text) => text,
            None => String::new(),
        };
        self.preview.load_preview(log, notes);
    }

    /// How to attach to the selected task: by a choice among the sessions of
    /// its repositories, or directly.
    pub open spec fn attach_action(self, action: Action) -> bool {
        match self.detail.spec_selected_task() {
            Some(i) => {
                let meta = self.detail.tasks@[i].meta;
                if meta.multi_repo && meta.repos@.len() > 1 {
                    action is EnsureSessions
                } else if meta.repos@.len() > 0 || meta.multi_repo {
                    action is EnsureAndAttach
                } else {
                    action is Nothing
                }
            },
            None => action is Nothing,
        }
    }

    fn choose_attach(&self) -> (action: Action)
        ensures
            self.attach_action(action),
    {
        match self.detail.selected_task() {
            Some(task) => {
                if task.meta.is_multi_repo() && task.meta.repos.len() > 1 {
                    Action::EnsureSessions
                } else if task.meta.has_repos() || task.meta.is_multi_repo() {
                    Action::EnsureAndAttach
                } else {
                    Action::Nothing
                }
            },
            None => Action::Nothing,
        }
    }

    /// What a key in the preview leads to.
    pub open spec fn after_preview_key(
        self,
        key: KeyPress,
        clipboard: Option<Seq<char>>,
        now: i64,
        after: App,
        action: Action,
    ) -> bool {
        let typed = App { preview: after.preview, ..self };
        &&& self.preview.after_key(key, clipboard, after.preview)
        &&& match self.preview.outcome(key, clipboard, after.preview) {
            PreviewOutcome::Nothing => after == typed && action is Nothing,
            PreviewOutcome::Quit => after == (App { should_quit: true, ..typed }) && action
                is Nothing,
            PreviewOutcome::Close => after == (App { view: View::TaskList, ..typed }) && action
                is Nothing,
            PreviewOutcome::Attach => after == typed && self.attach_action(action),
            PreviewOutcome::Editing => action is Nothing && after.says(
                typed,
                "Editing notes (vim mode, Ctrl+S or Esc twice to save)"@,
                now,
            ),
            PreviewOutcome::Save => after == typed && if self.detail.spec_selected_task() is Some {
                action matches Action::SaveNotes(text) && text@ == join_with(
                    after.preview.notes_editor.area().lines,
                    '\n',
                )
            } else {
                action is Nothing
            },
            PreviewOutcome::OpenPr => typed.after_open_pr(now, after, action),
            PreviewOutcome::Restart => typed.after_restart(now, after, action),
            PreviewOutcome::Copied(text) => after == typed && (action matches Action::CopyText(t)
                && t@ == text),
        }
    }

    pub fn handle_preview_event(&mut self, key: KeyPress, clipboard: Option<String>, now: i64) -> (action:
        Action)
        requires
            old(self).wf(),
        ensures
            final(self).wf(),
            old(self).after_preview_key(key, some_view(clipboard), now, *final(self), action),
    {
        match self.preview.handle_key(key, clipboard) {
            PreviewOutcome::Nothing => Action::Nothing,
            PreviewOutcome::Quit => {
                self.should_quit = true;
                Action::Nothing
            },
            PreviewOutcome::Close => {
                self.view = View::TaskList;
                Action::Nothing
            },
            PreviewOutcome::Attach => self.choose_attach(),
            PreviewOutcome::Editing => {
                self.say("Editing notes (vim mode, Ctrl+S or Esc twice to save)", now);
                Action::Nothing
            },
            PreviewOutcome::Save => {
                if self.detail.selected_task_index().is_some() {
                    Action::SaveNotes(self.preview.notes_editor.lines_joined())
                } else {
                    Action::Nothing
                }
            },
            PreviewOutcome::OpenPr => self.open_selected_pr(now),
            PreviewOutcome::Restart => self.restart_selected_task(now),
            PreviewOutcome::Copied(text) => Action::CopyText(text),
        }
    }

    /// The notes of the selected task were saved.
    pub fn on_notes_saved(&mut self, notes: String, now: i64)
        requires
            old(self).wf(),
        ensures
            final(self).wf(),
            final(self).says(
                (App {
                    preview: crate::preview::Preview {
                        notes_content: notes,
                        ..old(self).preview
                    },
                    ..*old(self)
                }),
                "Notes saved"@,
                now,
            ),
    {
        self.preview.notes_content = notes;
        self.say("Notes saved", now);
    }

    /// It was found out whether the session of a task is there: if so, it is
    /// attached to.
    pub fn on_session_ensured(&self, found: bool) -> (action: Action)
        ensures
            if found {
                action is Attach
            } else {
                action is Nothing
            },
    {
        if found {
            Action::Attach
        } else {
            Action::Nothing
        }
    }

    /// The sessions that a task can be attached by were found.
    pub fn on_sessions_found(&mut self, found: Vec<(String, String)>)
        requires
            old(self).wf(),
        ensures
            final(self).wf(),
            *final(self) == if found@.len() > 0 {
                App {
                    sessions: SessionPicker { sessions: found, selected: 0 },
                    view: View::SessionPicker,
                    ..*old(self)
                }
            } else {
                *old(self)
            },
    {
        if found.len() > 0 {
            self.sessions = SessionPicker { sessions: found, selected: 0 };
            self.view = View::SessionPicker;
        }
    }

    /// What a key in the choice of a session leads to.
    pub open spec fn after_session_key(self, key: KeyPress, after: App, action: Action) -> bool {
        let moved = App {
            sessions: SessionPicker {
                selected: self.sessions.selection_after(key) as usize,
                ..self.sessions
            },
            ..self
        };
        match self.sessions.outcome(key) {
            SessionOutcome::Nothing => after == moved && action is Nothing,
            SessionOutcome::Quit => after == (App { should_quit: true, ..moved }) && action
                is Nothing,
            SessionOutcome::Close => after == (App { view: View::Preview, ..moved }) && action
                is Nothing,
            SessionOutcome::Attach(name) => {
                &&& after == (App {
                    attach_session_name: after.attach_session_name,
                    view: View::Preview,
                    ..moved
                })
                &&& some_view(after.attach_session_name) == Some(name)
                &&& action is Attach
            },
        }
    }

    pub fn handle_session_picker_event(&mut self, key: KeyPress) -> (action: Action)
        requires
            old(self).wf(),
        ensures
            final(self).wf(),
            old(self).after_session_key(key, *final(self), action),
    {
        match self.sessions.handle_key(key) {
            SessionOutcome::Nothing => Action::Nothing,
            SessionOutcome::Quit => {
                self.should_quit = true;
                Action::Nothing
            },
            SessionOutcome::Close => {
                self.view = View::Preview;
                Action::Nothing
            },
            SessionOutcome::Attach(name) => {
                self.attach_session_name = Some(name);
                self.view = View::Preview;
                Action::Attach
            },
        }
    }

    /// Where to attach to: the session that was chosen, that of the selected
    /// task's first repository, or that of a task without repositories.
    pub fn take_attach_target(&mut self) -> (target: Option<AttachTarget>)
        ensures
            *final(self) == (App { attach_session_name: None, ..*old(self) }),
            match old(self).attach_session_name {
                Some(name) => target matches Some(AttachTarget::Session(s)) && s == name,
                None => match old(self).detail.spec_selected_task() {
                    Some(i) => {
                        let meta = old(self).detail.tasks@[i].meta;
                        if meta.repos@.len() > 0 {
                            target matches Some(AttachTarget::Session(s)) && s
                                == meta.repos@[0].tmux_session
                        } else if meta.multi_repo {
                            target matches Some(AttachTarget::Parent { name, branch }) && name
                                == meta.name && branch == meta.branch_name
                        } else {
                            target is None
                        }
                    },
                    None => target is None,
                },
            },
    {
        match self.attach_session_name.take() {
            Some(name) => Some(AttachTarget::Session(name)),
            None => match self.detail.selected_task() {
                Some(task) => {
                    if task.meta.repos.len() > 0 {
                        Some(AttachTarget::Session(task.meta.repos[0].tmux_session.clone()))
                    } else if task.meta.is_multi_repo() {
                        Some(
                            AttachTarget::Parent {
                                name: task.meta.name.clone(),
                                branch: task.meta.branch_name.clone(),
                            },
                        )
                    } else {
                        None
                    }
                },
                None => None,
            },
        }
    }
}

/// Enter in the confirmation archives what is selected, the task or the agent by
/// its project and name; escape and `q` give it up, and no other key does
/// anything.
pub proof fn what_is_selected_is_archived(before: App, key: KeyPress, after: App, action: Action)
    requires
        before.after_delete_confirm_key(key, after, action),
    ensures
        key.code is Enter && before.detail.spec_selected_task() is Some ==> action
            is ArchiveSelected,
        key.code is Enter ==> (before.detail.spec_selected_agent() matches Some(agent) ==> (
        action matches Action::ArchiveAgent { project, name } && project == agent.meta.project
            && name == agent.meta.name) && after.view is TaskList),
        key.code is Esc || key.code == KeyCode::Char('q') ==> after.view is TaskList && action
            is Nothing,
        !(key.code is Enter) ==> action is Nothing && after.detail == before.detail,
{
}

/// The task that is archived is the selected one. It leaves the page at once, and
/// the others stay.
pub proof fn the_selected_task_leaves_the_page(
    before: App,
    saved: bool,
    attached: Table<Vec<AgentRecord>>,
    now: i64,
    after: App,
    action: Action,
    i: int,
)
    requires
        before.detail.spec_selected_task() == Some(i),
        before.after_archive_task(saved, attached, now, after, action),
    ensures
        action matches Action::ArchiveTask { task, saved: s } && task == before.detail.tasks@[i]
            && s == saved,
        after.detail.tasks@ == before.detail.tasks@.remove(i),
        has_string(after.detail.archive_in_progress@, before.detail.tasks@[i].meta.id@),
        after.view is TaskList,
{
}

/// A task of several repositories is attached to by a choice among them, another
/// one with repositories or one of several without any directly, and one without
/// any not at all.
pub proof fn tasks_are_attached_to_by_their_repositories(app: App, action: Action, i: int)
    requires
        app.detail.spec_selected_task() == Some(i),
        app.attach_action(action),
    ensures
        ({
            let meta = app.detail.tasks@[i].meta;
            let n = meta.repos@.len();
            &&& meta.multi_repo && n > 1 ==> action is EnsureSessions
            &&& !meta.multi_repo && n > 0 || meta.multi_repo && n <= 1 ==> action is EnsureAndAttach
            &&& !meta.multi_repo && n == 0 ==> action is Nothing
        }),
{
}

/// The notes that are saved are the text of the notes as they stand.
pub proof fn saved_notes_are_what_was_written(
    before: App,
    key: KeyPress,
    clipboard: Option<Seq<char>>,
    now: i64,
    after: App,
    action: Action,
)
    requires
        before.preview.notes_editing,
        before.preview.pane is Notes,
        key.ctrl && key.code == KeyCode::Char('s'),
        before.after_preview_key(key, clipboard, now, after, action),
    ensures
        before.detail.spec_selected_task() is Some ==> (action matches Action::SaveNotes(text)
            && text@ == join_with(before.preview.notes_editor.area().lines, '\n')),
        before.detail.spec_selected_task() is None ==> action is Nothing,
        !after.preview.notes_editing,
{
}

/// Escape and `q` lead from the preview back to the page, and enter in the choice
/// of sessions attaches to the one that is selected.
pub proof fn views_lead_back_to_the_page(
    before: App,
    key: KeyPress,
    clipboard: Option<Seq<char>>,
    now: i64,
    after: App,
    action: Action,
)
    requires
        !key.ctrl,
        key.code is Esc || key.code == KeyCode::Char('q'),
    ensures
        before.after_preview_key(key, clipboard, now, after, action)
            && !before.preview.notes_editing && before.preview.focused().vim.mode is Normal
            ==> after.view is TaskList && action is Nothing,
        before.after_session_key(key, after, action) ==> after.view is Preview && action is Nothing,
{
}

/// Enter in the choice of sessions attaches to the session that is selected.
pub proof fn the_chosen_session_is_attached_to(
    before: App,
    key: KeyPress,
    after: App,
    action: Action,
)
    requires
        !key.ctrl,
        key.code is Enter,
        before.sessions.selected < before.sessions.sessions@.len(),
        before.after_session_key(key, after, action),
    ensures
        action is Attach,
        after.attach_session_name matches Some(name) && name@
            == before.sessions.sessions@[before.sessions.selected as int].1@,
{
}

} // verus!
