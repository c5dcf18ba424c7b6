//! The page of a project, as part of the whole.

use crate::activity::{build_agent_activity_snapshot, AgentActivitySample, TmuxWindowActivity};
use crate::app::{Action, App};
use crate::archive::ArchiveKind;
use crate::detail::{is_actionable, ProjectDetail, ProjectDetailRow, RowShape, TaskLoad};
use crate::keys::{KeyCode, KeyPress};
use crate::list::ProjectList;
use crate::model::{
    is_unassigned, unassigned, AgentAttachment, AgentMeta, AgentRecord, LinkedPr, Task,
};
use crate::preview::PreviewPane;
use crate::screen::View;
use crate::table::{has_string, insert_string, Table};
use crate::task_wizard::some_view;
use crate::text::{concat, decimal, number};
use crate::wizard::AgentWizard;
use vstd::prelude::*;
use vstd::view::View as _;

verus! {

/// A copy of what an agent is attached to.
fn copy_attachment(a: &AgentAttachment) -> (b: AgentAttachment)
    ensures
        b == *a,
{
    match a {
        AgentAttachment::Task { task_id } => AgentAttachment::Task { task_id: task_id.clone() },
        AgentAttachment::Unattached => AgentAttachment::Unattached,
    }
}

/// A copy of an agent's record.
pub fn copy_agent(agent: &AgentRecord) -> (copy: AgentRecord)
    ensures
        copy == *agent,
{
    AgentRecord {
        meta: AgentMeta {
            project: agent.meta.project.clone(),
            name: agent.meta.name.clone(),
            kind: agent.meta.kind,
            status: agent.meta.status,
            attachment: copy_attachment(&agent.meta.attachment),
            description: agent.meta.description.clone(),
            created_at: agent.meta.created_at,
            updated_at: agent.meta.updated_at,
            session_name: agent.meta.session_name.clone(),
        },
    }
}

/// A session of an agent that the page shows.
pub open spec fn is_page_session(page: ProjectDetail, session: Seq<char>) -> bool {
    ||| exists|i: int|
        0 <= i < page.agents@.len() && (#[trigger] page.agents@[i]).meta.session_name@ == session
    ||| exists|i: int|
        0 <= i < page.attached_task_agents.entries@.len() && has_session(
            (#[trigger] page.attached_task_agents.entries@[i]).1@,
            session,
        )
}

/// One of the agents runs in the session.
pub open spec fn has_session(agents: Seq<AgentRecord>, session: Seq<char>) -> bool {
    exists|k: int| 0 <= k < agents.len() && (#[trigger] agents[k]).meta.session_name@ == session
}

/// Adds the sessions of agents.
fn add_sessions(sessions: &mut Vec<String>, agents: &Vec<AgentRecord>)
    ensures
        forall|s: Seq<char>| #[trigger]
            has_string(final(sessions)@, s) == (has_string(old(sessions)@, s) || has_session(
                agents@,
                s,
            )),
{
    let ghost start = sessions@;
    let mut i: usize = 0;
    while i < agents.len()
        invariant
            i <= agents.len(),
            forall|s: Seq<char>| #[trigger]
                has_string(sessions@, s) == (has_string(start, s) || has_session(
                    agents@.take(i as int),
                    s,
                )),
        decreases agents.len() - i,
    {
        let ghost before = sessions@;
        let ghost here = agents@.take(i as int);
        let ghost more = agents@.take(i + 1);
        insert_string(sessions, agents[i].meta.session_name.clone());
        assert forall|s: Seq<char>| #[trigger]
            has_string(sessions@, s) == (has_string(start, s) || has_session(more, s)) by {
            assert(has_string(before, s) == (has_string(start, s) || has_session(here, s)));
            if has_session(here, s) {
                let k = choose|k: int|
                    0 <= k < here.len() && (#[trigger] here[k]).meta.session_name@ == s;
                assert(more[k] == here[k]);
            }
            if s == agents@[i as int].meta.session_name@ {
                assert(more[i as int] == agents@[i as int]);
            }
            if has_session(more, s) {
                let k = choose|k: int|
                    0 <= k < more.len() && (#[trigger] more[k]).meta.session_name@ == s;
                if k < i {
                    assert(here[k] == more[k]);
                }
            }
        }
        i += 1;
    }
    assert(agents@.take(i as int) == agents@);
}

/// The sessions of the agents that the page shows.
fn page_sessions(page: &ProjectDetail) -> (sessions: Vec<String>)
    ensures
        forall|s: Seq<char>| #[trigger] has_string(sessions@, s) == is_page_session(*page, s),
{
    let mut sessions: Vec<String> = Vec::new();
    add_sessions(&mut sessions, &page.agents);
    let ghost first = sessions@;
    let ghost entries = page.attached_task_agents.entries@;
    let mut i: usize = 0;
    while i < page.attached_task_agents.entries.len()
        invariant
            i <= entries.len(),
            entries == page.attached_task_agents.entries@,
            forall|s: Seq<char>| #[trigger]
                has_string(sessions@, s) == (has_string(first, s) || exists|j: int|
                    0 <= j < i && has_session((#[trigger] entries[j]).1@, s)),
        decreases entries.len() - i,
    {
        let ghost before = sessions@;
        add_sessions(&mut sessions, &page.attached_task_agents.entries[i].1);
        assert forall|s: Seq<char>| #[trigger]
            has_string(sessions@, s) == (has_string(first, s) || exists|j: int|
                0 <= j < i + 1 && has_session((#[trigger] entries[j]).1@, s)) by {
            assert(has_string(before, s) == (has_string(first, s) || exists|j: int|
                0 <= j < i && has_session((#[trigger] entries[j]).1@, s)));
            if has_session(entries[i as int].1@, s) {
                assert(has_string(sessions@, s));
            }
        }
        i += 1;
    }
    assert forall|s: Seq<char>| #[trigger]
        has_string(sessions@, s) == is_page_session(*page, s) by {
        assert(has_string(first, s) == has_session(page.agents@, s));
    }
    sessions
}

impl App {
    /// The agents' activity after the page was refreshed.
    pub open spec fn activity_after(
        self,
        windows: Result<Vec<TmuxWindowActivity>, String>,
        observed_at: i64,
        now_epoch_secs: Option<i64>,
        after: ProjectList,
    ) -> bool {
        let has_sessions = exists|s: Seq<char>| #[trigger] is_page_session(self.detail, s);
        &&& after == (ProjectList {
            agent_activity: after.agent_activity,
            agent_activity_query_failed_logged: if has_sessions {
                windows is Err
            } else {
                self.list.agent_activity_query_failed_logged
            },
            ..self.list
        })
        &&& forall|s: Seq<char>| #[trigger]
            after.agent_activity.at(s) == match windows {
                Err(_) => None,
                Ok(list) => match crate::activity::newest_window(list@, s) {
                    Some(window) => if is_page_session(self.detail, s) {
                        Some(crate::activity::sample_of(window, observed_at, now_epoch_secs))
                    } else {
                        None
                    },
                    None => None,
                },
            }
    }

    /// Shows what the agents of the page are doing.
    pub fn refresh_agent_activity(
        &mut self,
        windows: Result<Vec<TmuxWindowActivity>, String>,
        observed_at: i64,
        now_epoch_secs: Option<i64>,
    )
        requires
            old(self).wf(),
        ensures
            final(self).wf(),
            *final(self) == (App { list: final(self).list, ..*old(self) }),
            old(self).activity_after(windows, observed_at, now_epoch_secs, final(self).list),
    {
        let sessions = page_sessions(&self.detail);
        let failed = windows.is_err();
        let (samples, _) = build_agent_activity_snapshot(
            &sessions,
            windows,
            observed_at,
            now_epoch_secs,
        );
        proof {
            if sessions@.len() > 0 {
                assert(has_string(sessions@, sessions@[0]@));
                assert(is_page_session(self.detail, sessions@[0]@));
            }
            if exists|s: Seq<char>| #[trigger] is_page_session(self.detail, s) {
                let s = choose|s: Seq<char>| #[trigger] is_page_session(self.detail, s);
                assert(has_string(sessions@, s));
            }
            assert forall|s: Seq<char>| #[trigger]
                samples.at(s) == match windows {
                    Err(_) => None,
                    Ok(list) => match crate::activity::newest_window(list@, s) {
                        Some(window) => if is_page_session(self.detail, s) {
                            Some(crate::activity::sample_of(window, observed_at, now_epoch_secs))
                        } else {
                            None
                        },
                        None => None,
                    },
                } by {
                assert(has_string(sessions@, s) == is_page_session(self.detail, s));
            }
        }
        self.list.agent_activity = samples;
        if sessions.len() > 0 {
            self.list.agent_activity_query_failed_logged = failed;
        }
    }

    /// Shows all the tasks that were read.
    pub fn refresh_tasks(&mut self, load: TaskLoad)
        requires
            old(self).wf(),
        ensures
            final(self).wf(),
            *final(self) == (App { detail: final(self).detail, ..*old(self) }),
            final(self).detail.holds_tasks(old(self).detail, load.tasks@, load.attached),
    {
        self.detail.refresh_tasks(load);
    }

    /// Shows the tasks of the current project that are not being archived.
    pub fn refresh_tasks_for_project(&mut self, load: TaskLoad)
        requires
            old(self).wf(),
        ensures
            final(self).wf(),
            *final(self) == (App { detail: final(self).detail, ..*old(self) }),
            final(self).detail.holds_tasks(
                old(self).detail,
                load.tasks@.filter(old(self).detail.shows_task()),
                load.attached,
            ),
    {
        self.detail.refresh_tasks_for_project(load);
    }

    /// Shows the agents that were read, and what they are doing. The tasks
    /// without a project have no agents.
    pub fn refresh_agents(
        &mut self,
        listed: Vec<AgentRecord>,
        windows: Result<Vec<TmuxWindowActivity>, String>,
        observed_at: i64,
        now_epoch_secs: Option<i64>,
    )
        requires
            old(self).wf(),
        ensures
            final(self).wf(),
            *final(self) == (App {
                detail: final(self).detail,
                list: final(self).list,
                ..*old(self)
            }),
            final(self).detail.agents@ == if old(self).detail.scope() == Some(unassigned()) {
                Seq::empty()
            } else {
                ProjectDetail::shown_agents(listed@)
            },
            final(self).detail == (ProjectDetail {
                agents: final(self).detail.agents,
                selected_index: final(self).detail.selected_index,
                ..old(self).detail
            }),
            final(self).detail.selected_index == final(self).detail.with_selection(
                old(self).detail.selected_index,
            ).reselected(old(self).detail.selected_key()),
            if old(self).detail.scope() == Some(unassigned()) {
                &&& final(self).list == (ProjectList {
                    agent_activity: final(self).list.agent_activity,
                    ..old(self).list
                })
                &&& final(self).list.agent_activity.entries@.len() == 0
            } else {
                (App { detail: final(self).detail, ..*old(self) }).activity_after(
                    windows,
                    observed_at,
                    now_epoch_secs,
                    final(self).list,
                )
            },
    {
        self.detail.refresh_agents(listed);
        let without = match &self.detail.current_project {
            Some(name) => is_unassigned(name.as_str()),
            None => false,
        };
        if without {
            self.list.agent_activity = Table::new();
        } else {
            self.refresh_agent_activity(windows, observed_at, now_epoch_secs);
        }
    }

    /// The sample of an agent's session.
    pub fn agent_activity_sample(&self, session_name: &str) -> (sample: Option<
        &AgentActivitySample,
    >)
        ensures
            match sample {
                Some(s) => self.list.agent_activity.at(session_name@) == Some(*s),
                None => self.list.agent_activity.at(session_name@) is None,
            },
    {
        self.list.agent_activity.get(session_name)
    }

    /// The pull request that the selected task is linked to.
    pub open spec fn selected_pr(self) -> Option<LinkedPr> {
        match self.detail.spec_selected_task() {
            Some(i) => self.detail.tasks@[i].meta.linked_pr,
            None => None,
        }
    }

    /// The pull request of the selected task is opened, or there is none.
    pub open spec fn after_open_pr(self, now: i64, after: App, action: Action) -> bool {
        match self.selected_pr() {
            Some(pr) => {
                &&& action matches Action::OpenUrl(url) && url == pr.url
                &&& after.says(
                    self,
                    "Opening PR #"@ + decimal(pr.number as nat) + "..."@,
                    now,
                )
            },
            None => action is Nothing && after.says(self, "No linked PR"@, now),
        }
    }

    pub fn open_selected_pr(&mut self, now: i64) -> (action: Action)
        requires
            old(self).wf(),
        ensures
            final(self).wf(),
            old(self).after_open_pr(now, *final(self), action),
    {
        let found = match self.detail.selected_task() {
            Some(task) => match &task.meta.linked_pr {
                Some(pr) => Some((pr.number, pr.url.clone())),
                None => None,
            },
            None => None,
        };
        match found {
            Some((number_of_pr, url)) => {
                let mut message = concat("Opening PR #", number(number_of_pr).as_str());
                message.append("...");
                self.set_status(message, now);
                Action::OpenUrl(url)
            },
            None => {
                self.say("No linked PR", now);
                Action::Nothing
            },
        }
    }

    /// The selected task is launched again, if it has anything to run in.
    pub open spec fn after_restart(self, now: i64, after: App, action: Action) -> bool {
        match self.detail.spec_selected_task() {
            Some(i) => {
                let meta = self.detail.tasks@[i].meta;
                if meta.repos@.len() > 0 || meta.multi_repo {
                    after == self && (action matches Action::RestartTask(id) && id == meta.id)
                } else {
                    action is Nothing && after.says(
                        self,
                        "Task "@ + meta.id@ + " has no repos configured"@,
                        now,
                    )
                }
            },
            None => after == self && action is Nothing,
        }
    }

    pub fn restart_selected_task(&mut self, now: i64) -> (action: Action)
        requires
            old(self).wf(),
        ensures
            final(self).wf(),
            old(self).after_restart(now, *final(self), action),
    {
        let found = match self.detail.selected_task() {
            Some(task) => Some(
                (task.meta.task_id(), task.meta.has_repos() || task.meta.is_multi_repo()),
            ),
            None => None,
        };
        match found {
            Some((id, true)) => Action::RestartTask(id),
            Some((id, false)) => {
                let mut message = concat("Task ", id.as_str());
                message.append(" has no repos configured");
                self.set_status(message, now);
                Action::Nothing
            },
            None => Action::Nothing,
        }
    }

    /// A task was launched again, or could not be.
    pub fn on_task_restarted(&mut self, task_id: &str, result: Result<(), String>, now: i64) -> (action:
        Action)
        requires
            old(self).wf(),
        ensures
            final(self).wf(),
            action matches Action::RefreshAndSelect(id) && id@ == task_id@,
            final(self).says(
                *old(self),
                match result {
                    Ok(_) => "Restarted engineer for "@ + task_id@,
                    Err(e) => "Restart failed: "@ + e@,
                },
                now,
            ),
    {
        match result {
            Ok(_) => self.say_of("Restarted engineer for ", task_id, now),
            Err(e) => self.say_of("Restart failed: ", e.as_str(), now),
        }
        Action::RefreshAndSelect(task_id.to_owned())
    }

    /// The wizard for a new agent is opened, where the project can have agents.
    pub open spec fn after_start_agent_wizard(self, now: i64, after: App) -> bool {
        match self.detail.scope() {
            None => after.says(self, "No project available"@, now),
            Some(project) => if project == unassigned() {
                after.says(self, "No agents for unassigned tasks"@, now)
            } else {
                &&& after == (App {
                    agent_wizard: after.agent_wizard,
                    view: View::AgentWizard,
                    ..self
                })
                &&& after.agent_wizard matches Some(w) && w.project@ == project && w.is_blank()
            },
        }
    }

    pub fn start_agent_wizard(&mut self, now: i64)
        requires
            old(self).wf(),
        ensures
            final(self).wf(),
            old(self).after_start_agent_wizard(now, *final(self)),
    {
        let project = match &self.detail.current_project {
            Some(project) => project.clone(),
            None => {
                self.say("No project available", now);
                return;
            },
        };
        if is_unassigned(project.as_str()) {
            self.say("No agents for unassigned tasks", now);
            return;
        }
        self.agent_wizard = Some(AgentWizard::start(project));
        self.view = View::AgentWizard;
    }

    /// The notes of the project are to be opened, where it has any.
    pub open spec fn after_project_notes(self, now: i64, after: App, action: Action) -> bool {
        match self.detail.scope() {
            None => action is Nothing && after.says(self, "No project selected"@, now),
            Some(project) => if project == unassigned() {
                action is Nothing && after.says(
                    self,
                    "Unassigned tasks do not have project notes"@,
                    now,
                )
            } else {
                after == self && (action matches Action::OpenProjectNotes(name) && name@
                    == project)
            },
        }
    }

    fn ask_project_notes(&mut self, now: i64) -> (action: Action)
        requires
            old(self).wf(),
        ensures
            final(self).wf(),
            old(self).after_project_notes(now, *final(self), action),
    {
        let project = match &self.detail.current_project {
            Some(project) => project.clone(),
            None => {
                self.say("No project selected", now);
                return Action::Nothing;
            },
        };
        if is_unassigned(project.as_str()) {
            self.say("Unassigned tasks do not have project notes", now);
            Action::Nothing
        } else {
            Action::OpenProjectNotes(project)
        }
    }

    /// A project that has a manager is open.
    pub open spec fn managed_project(self) -> Option<Seq<char>> {
        match self.detail.scope() {
            Some(project) if project != unassigned() => Some(project),
            _ => None,
        }
    }

    fn managed_project_name(&self) -> (name: Option<String>)
        ensures
            some_view(name) == self.managed_project(),
    {
        match &self.detail.current_project {
            Some(project) => if is_unassigned(project.as_str()) {
                None
            } else {
                Some(project.clone())
            },
            None => None,
        }
    }

    /// The archive to be opened: that of agents where one is selected.
    pub open spec fn archive_kind(self) -> ArchiveKind {
        match self.detail.selected_row() {
            Some(RowShape::UnattachedAgent(_)) => ArchiveKind::Agents,
            Some(RowShape::AttachedAgent(_, _)) => ArchiveKind::Agents,
            _ => ArchiveKind::Tasks,
        }
    }

    /// There is nothing to read for an archive: no project is open, or agents
    /// are asked for that the tasks without a project do not have.
    pub open spec fn archive_is_empty(self, kind: ArchiveKind) -> bool {
        match self.detail.scope() {
            None => true,
            Some(project) => kind is Agents && project == unassigned(),
        }
    }

    /// The archive is opened with what was read.
    pub open spec fn after_archive_listed(
        self,
        kind: ArchiveKind,
        tasks: Seq<(Task, String)>,
        agents: Seq<(AgentRecord, String)>,
        after: App,
    ) -> bool {
        &&& after == (App { archive: after.archive, view: View::Archive, ..self })
        &&& after.archive.kind == kind
        &&& after.archive.tasks@ == if kind is Tasks {
            tasks
        } else {
            Seq::empty()
        }
        &&& after.archive.agents@ == if kind is Agents {
            agents
        } else {
            Seq::empty()
        }
        &&& crate::textarea::area_state(after.archive.search) == crate::textarea::fresh_state(
            Seq::empty(),
        )
        &&& after.archive.selected == 0
        &&& after.archive.preview is None
        &&& after.archive.scroll == 0
    }

    /// Shows the archive that was read.
    pub fn on_archive_listed(
        &mut self,
        kind: ArchiveKind,
        tasks: Vec<(Task, String)>,
        agents: Vec<(AgentRecord, String)>,
    )
        requires
            old(self).wf(),
        ensures
            final(self).wf(),
            old(self).after_archive_listed(kind, tasks@, agents@, *final(self)),
    {
        self.archive.open_archive(kind, tasks, agents);
        self.view = View::Archive;
    }

    /// The archive is opened, or what it shows is to be read first.
    pub open spec fn after_open_archive(self, after: App, action: Action) -> bool {
        let kind = self.archive_kind();
        if self.archive_is_empty(kind) {
            action is Nothing && self.after_archive_listed(kind, Seq::empty(), Seq::empty(), after)
        } else {
            after == self && (action matches Action::ListArchive(k) && k == kind)
        }
    }

    fn open_archive(&mut self) -> (action: Action)
        requires
            old(self).wf(),
        ensures
            final(self).wf(),
            old(self).after_open_archive(*final(self), action),
    {
        let kind = match self.detail.selected_project_detail_row() {
            Some(ProjectDetailRow::UnattachedAgent { .. }) => ArchiveKind::Agents,
            Some(ProjectDetailRow::AttachedAgent(_)) => ArchiveKind::Agents,
            _ => ArchiveKind::Tasks,
        };
        let empty = match &self.detail.current_project {
            None => true,
            Some(project) => matches!(kind, ArchiveKind::Agents) && is_unassigned(
                project.as_str(),
            ),
        };
        if empty {
            self.on_archive_listed(kind, Vec::new(), Vec::new());
            Action::Nothing
        } else {
            Action::ListArchive(kind)
        }
    }

    /// The state with another row of the page selected.
    pub open spec fn selecting_row(self, at: int) -> App {
        App { detail: self.detail.with_selection(at as usize), ..self }
    }

    /// What enter does on the page: a task is previewed, an agent opened.
    pub open spec fn after_enter(self, after: App, action: Action) -> bool {
        match self.detail.selected_row() {
            Some(RowShape::Task(_)) => {
                &&& action is LoadPreview
                &&& after == (App {
                    preview: crate::preview::Preview { pane: PreviewPane::Logs, ..self.preview },
                    view: View::Preview,
                    ..self
                })
            },
            _ => after == self && match self.detail.spec_selected_agent() {
                Some(agent) if !self.popup_open => action matches Action::OpenAgent(a) && a
                    == agent,
                _ => action is Nothing,
            },
        }
    }

    fn open_selected_row(&mut self) -> (action: Action)
        requires
            old(self).wf(),
        ensures
            final(self).wf(),
            old(self).after_enter(*final(self), action),
    {
        if self.detail.selected_task_index().is_some() {
            self.preview.pane = PreviewPane::Logs;
            self.view = View::Preview;
            return Action::LoadPreview;
        }
        match self.detail.selected_project_detail_agent() {
            Some(agent) => if self.popup_open {
                Action::Nothing
            } else {
                Action::OpenAgent(copy_agent(agent))
            },
            None => Action::Nothing,
        }
    }

    /// What a key on the page of a project leads to.
    pub open spec fn after_detail_key(self, key: KeyPress, now: i64, after: App, action: Action) -> bool {
        match key.code {
            KeyCode::Char('k') | KeyCode::Up => after == self.selecting_row(self.detail.moved(-1))
                && action is Nothing,
            KeyCode::Char('j') | KeyCode::Down => after == self.selecting_row(self.detail.moved(1))
                && action is Nothing,
            KeyCode::Tab => after == self.selecting_row(self.detail.next_section()) && action
                is Nothing,
            KeyCode::BackTab => after == self.selecting_row(self.detail.previous_section())
                && action is Nothing,
            KeyCode::Enter => self.after_enter(after, action),
            KeyCode::Char('d') => action is Nothing && after == match self.detail.selected_row() {
                Some(row) if is_actionable(row) => App { view: View::DeleteConfirm, ..self },
                _ => self,
            },
            KeyCode::Char('G') => after == self.selecting_row(self.detail.last_stop()) && action
                is Nothing,
            KeyCode::Char('g') => after == self.selecting_row(self.detail.first_stop()) && action
                is Nothing,
            KeyCode::Char('n') => after == self && action is StartWizard,
            KeyCode::Char('a') => self.after_start_agent_wizard(now, after) && action is Nothing,
            KeyCode::Char('p') => self.after_open_pr(now, after, action),
            KeyCode::Char('o') => self.after_project_notes(now, after, action),
            KeyCode::Char('r') => self.after_restart(now, after, action),
            KeyCode::Char('c') => after == self && match self.managed_project() {
                Some(project) if !self.popup_open => action matches Action::OpenProjectChat(n)
                    && n@ == project,
                _ => action is Nothing,
            },
            KeyCode::Char('z') => self.after_open_archive(after, action),
            KeyCode::Char('e') => action is Nothing && match self.managed_project() {
                Some(project) if self.respawn.in_progress is None => {
                    &&& after == (App {
                        respawn: crate::respawn::Respawn {
                            confirm_target: after.respawn.confirm_target,
                            confirm_index: 0,
                            confirm_is_chief_of_staff: false,
                            confirm_return_view: View::TaskList,
                            ..self.respawn
                        },
                        view: View::RespawnConfirm,
                        ..self
                    })
                    &&& some_view(after.respawn.confirm_target) == Some(project)
                },
                _ => after == self,
            },
            _ => after == self && action is Nothing,
        }
    }

    pub fn handle_project_detail_key(&mut self, key: KeyPress, now: i64) -> (action: Action)
        requires
            old(self).wf(),
        ensures
            final(self).wf(),
            old(self).after_detail_key(key, now, *final(self), action),
    {
        match key.code {
            KeyCode::Char('k') | KeyCode::Up => {
                self.detail.previous_project_detail_row();
                Action::Nothing
            },
            KeyCode::Char('j') | KeyCode::Down => {
                self.detail.next_project_detail_row();
                Action::Nothing
            },
            KeyCode::Tab => {
                self.detail.jump_to_next_project_detail_section();
                Action::Nothing
            },
            KeyCode::BackTab => {
                self.detail.jump_to_previous_project_detail_section();
                Action::Nothing
            },
            KeyCode::Enter => self.open_selected_row(),
            KeyCode::Char('d') => {
                if let Some(row) = self.detail.selected_project_detail_row() {
                    if ProjectDetail::project_detail_row_is_actionable(&row) {
                        self.view = View::DeleteConfirm;
                    }
                }
                Action::Nothing
            },
            KeyCode::Char('G') => {
                self.detail.select_last_project_detail_row();
                Action::Nothing
            },
            KeyCode::Char('g') => {
                self.detail.select_first_project_detail_row();
                Action::Nothing
            },
            KeyCode::Char('n') => Action::StartWizard,
            KeyCode::Char('a') => {
                self.start_agent_wizard(now);
                Action::Nothing
            },
            KeyCode::Char('p') => self.open_selected_pr(now),
            KeyCode::Char('o') => self.ask_project_notes(now),
            KeyCode::Char('r') => self.restart_selected_task(now),
            KeyCode::Char('c') => match self.managed_project_name() {
                Some(project) => if self.popup_open {
                    Action::Nothing
                } else {
                    Action::OpenProjectChat(project)
                },
                None => Action::Nothing,
            },
            KeyCode::Char('z') => self.open_archive(),
            KeyCode::Char('e') => {
                if let Some(project) = self.managed_project_name() {
                    if self.respawn.in_progress.is_none() {
                        self.respawn.confirm(project, false, View::TaskList);
                        self.view = View::RespawnConfirm;
                    }
                }
                Action::Nothing
            },
            _ => Action::Nothing,
        }
    }

    /// What a key on the page of a project leads to, with those that leave it.
    pub open spec fn after_task_list_key(self, key: KeyPress, now: i64, after: App, action: Action) -> bool {
        if key.code is Esc || key.code == KeyCode::Char('q') {
            &&& after == (App {
                detail: ProjectDetail { current_project: None, ..self.detail },
                view: View::ProjectList,
                ..self
            })
            &&& action is RefreshProjects
        } else if key.is_ctrl('c') {
            after == (App { should_quit: true, ..self }) && action is Nothing
        } else {
            self.after_detail_key(key, now, after, action)
        }
    }

    pub fn handle_task_list_event(&mut self, key: KeyPress, now: i64) -> (action: Action)
        requires
            old(self).wf(),
        ensures
            final(self).wf(),
            old(self).after_task_list_key(key, now, *final(self), action),
    {
        if matches!(key.code, KeyCode::Esc | KeyCode::Char('q')) {
            self.detail.current_project = None;
            self.view = View::ProjectList;
            Action::RefreshProjects
        } else if key.is_ctrl('c') {
            self.should_quit = true;
            Action::Nothing
        } else {
            self.handle_project_detail_key(key, now)
        }
    }
}

/// The keys of a project's page ask for what they stand for, about what is
/// selected on it.
pub proof fn keys_are_about_the_selected_row(
    before: App,
    key: KeyPress,
    now: i64,
    after: App,
    action: Action,
    project: Seq<char>,
)
    requires
        !key.ctrl,
        before.detail.scope() == Some(project),
        project != "(unassigned)"@,
        before.after_task_list_key(key, now, after, action),
    ensures
        ({
            let page = before.detail;
            let task = page.spec_selected_task();
            let agent = page.spec_selected_agent();
            let code = key.code;
            &&& code is Esc || code == KeyCode::Char('q') ==> after.view is ProjectList
                && after.detail.current_project is None && action is RefreshProjects
            &&& code is Enter && task is Some ==> after.view is Preview && after.preview.pane
                is Logs && action is LoadPreview
            &&& code is Enter && agent is Some && !before.popup_open ==> (
            action matches Action::OpenAgent(a) && Some(a) == agent)
            &&& code is Enter && agent is Some && before.popup_open ==> action is Nothing
            &&& code == KeyCode::Char('d') && (task is Some || agent is Some) ==> after.view
                is DeleteConfirm
            &&& code == KeyCode::Char('d') && task is None && agent is None ==> after.view
                == before.view
            &&& code == KeyCode::Char('n') ==> action is StartWizard
            &&& code == KeyCode::Char('a') ==> after.view is AgentWizard && (
            after.agent_wizard matches Some(w) && w.project@ == project)
            &&& code == KeyCode::Char('c') && !before.popup_open ==> (
            action matches Action::OpenProjectChat(n) && n@ == project)
            &&& code == KeyCode::Char('o') ==> (action matches Action::OpenProjectNotes(n) && n@
                == project)
            &&& code == KeyCode::Char('e') && before.respawn.in_progress is None ==> after.view
                is RespawnConfirm && (after.respawn.confirm_target matches Some(n) && n@ == project)
                && !after.respawn.confirm_is_chief_of_staff && after.respawn.confirm_return_view
                is TaskList
            &&& code == KeyCode::Char('z') && agent is Some ==> (
            action matches Action::ListArchive(kind) && kind is Agents)
            &&& code == KeyCode::Char('z') && agent is None ==> (
            action matches Action::ListArchive(kind) && kind is Tasks)
        }),
{
}

/// `p` opens the pull request of the selected task and names it, and `r` launches
/// the selected task again where it has anything to run in.
pub proof fn the_selected_task_is_opened_and_restarted(
    before: App,
    key: KeyPress,
    now: i64,
    after: App,
    action: Action,
    i: int,
)
    requires
        before.detail.spec_selected_task() == Some(i),
        before.after_task_list_key(key, now, after, action),
    ensures
        key.code == KeyCode::Char('p') ==> match before.detail.tasks@[i].meta.linked_pr {
            Some(pr) => action matches Action::OpenUrl(url) && url == pr.url,
            None => action is Nothing,
        },
        key.code == KeyCode::Char('p') ==> (before.detail.tasks@[i].meta.linked_pr matches Some(pr)
            ==> (after.status_message matches Some(message) && crate::text::has_text(
            message.0@,
            decimal(pr.number as nat),
        ))),
        key.code == KeyCode::Char('r') && (before.detail.tasks@[i].meta.repos@.len() > 0
            || before.detail.tasks@[i].meta.multi_repo) ==> (action matches Action::RestartTask(id)
            && id == before.detail.tasks@[i].meta.id),
        key.code == KeyCode::Char('r') && before.detail.tasks@[i].meta.repos@.len() == 0
            && !before.detail.tasks@[i].meta.multi_repo ==> action is Nothing,
{
    if let Some(pr) = before.detail.tasks@[i].meta.linked_pr {
        crate::text::middle_stands("Opening PR #"@, decimal(pr.number as nat), "..."@);
    }
}

/// The page is gone through by the keys for its rows, its sections and its ends,
/// and nothing else changes by them.
pub proof fn the_page_is_gone_through(
    before: App,
    key: KeyPress,
    now: i64,
    after: App,
    action: Action,
)
    requires
        before.after_task_list_key(key, now, after, action),
        key.code is Up || key.code is Down || key.code is Tab || key.code is BackTab || key.code
            == KeyCode::Char('j') || key.code == KeyCode::Char('k') || key.code == KeyCode::Char(
            'g',
        ) || key.code == KeyCode::Char('G'),
    ensures
        after.detail.selected_index == (if key.code is Down || key.code == KeyCode::Char('j') {
            before.detail.moved(1)
        } else if key.code is Up || key.code == KeyCode::Char('k') {
            before.detail.moved(-1)
        } else if key.code is Tab {
            before.detail.next_section()
        } else if key.code is BackTab {
            before.detail.previous_section()
        } else if key.code == KeyCode::Char('g') {
            before.detail.first_stop()
        } else {
            before.detail.last_stop()
        }) as usize,
        after.detail.tasks == before.detail.tasks,
        after.view == before.view,
        action is Nothing,
{
}

/// The archive that was read is shown from its first entry, with nothing searched
/// for and no preview open, and holds either tasks or agents.
pub proof fn the_archive_starts_at_its_first_entry(
    before: App,
    kind: ArchiveKind,
    tasks: Seq<(Task, String)>,
    agents: Seq<(AgentRecord, String)>,
    after: App,
)
    requires
        before.after_archive_listed(kind, tasks, agents, after),
    ensures
        after.view is Archive,
        kind is Tasks ==> after.archive.kind is Tasks && after.archive.tasks@ == tasks
            && after.archive.agents@.len() == 0,
        kind is Agents ==> after.archive.kind is Agents && after.archive.agents@ == agents
            && after.archive.tasks@.len() == 0,
        after.archive.selected == 0 && after.archive.preview is None && after.archive.scroll == 0,
        crate::textarea::area_state(after.archive.search).lines.len() <= 1,
        after.detail == before.detail,
{
}

/// On the row of an agent the archive of agents is opened, elsewhere that of
/// tasks; agents of tasks without a project have none to be read.
pub proof fn the_archive_opened_is_of_what_is_selected(before: App, after: App, action: Action)
    requires
        before.after_open_archive(after, action),
        before.detail.current_project is Some,
    ensures
        before.detail.spec_selected_agent() is None ==> (action matches Action::ListArchive(kind)
            && kind is Tasks),
        before.detail.spec_selected_agent() is Some && before.detail.current_project->0@
            != "(unassigned)"@ ==> (action matches Action::ListArchive(kind) && kind is Agents),
        action is ListArchive ==> after == before,
{
}

/// A new agent is of the open project, and tasks without one have no agents.
pub proof fn new_agents_are_of_the_open_project(before: App, now: i64, after: App)
    requires
        before.after_start_agent_wizard(now, after),
    ensures
        before.detail.current_project matches Some(project) ==> project@ != "(unassigned)"@
            ==> after.view is AgentWizard && (after.agent_wizard matches Some(w) && w.project@
            == project@ && w.is_blank()),
        before.detail.current_project is None || before.detail.current_project->0@
            == "(unassigned)"@ ==> after.view == before.view && after.agent_wizard
            == before.agent_wizard && after.status_message is Some,
{
}

} // verus!
