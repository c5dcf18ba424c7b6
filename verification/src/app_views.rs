//! Notifications, pull requests, settings, the archive and respawning, as part
//! of the whole.

use crate::app::{Action, App};
use crate::archive::{Archive, ArchiveOutcome};
use crate::detail::{key_view, RowKey};
use crate::keys::{KeyCode, KeyPress};
use crate::model::{AgentAttachment, AgentRecord, GithubNotification, HarnessKind, Task};
use crate::notifs::{NotifCleanup, NotifOutcome};
use crate::respawn::{Respawn, RespawnOutcome};
use crate::screen::View;
use crate::settings::{harnesses_go_round, SettingsOutcome};
use crate::show_prs::PrsOutcome;
use crate::task_wizard::some_view;
use crate::text::concat;
use crate::textarea::area_state;
use crate::wizard::line_text;
use vstd::prelude::*;
use vstd::view::View as _;

verus! {

impl App {
    /// What a key in the list of notifications leads to.
    pub open spec fn after_notif_key(
        self,
        key: KeyPress,
        now: i64,
        now_epoch: i64,
        after: App,
        action: Action,
    ) -> bool {
        let moved = App { notifs: after.notifs, ..self };
        &&& self.notifs.after_key(key, now_epoch, after.notifs)
        &&& match self.notifs.outcome(key) {
            NotifOutcome::Nothing => after == moved && action is Nothing,
            NotifOutcome::Quit => after == (App { should_quit: true, ..moved }) && action
                is Nothing,
            NotifOutcome::Close => after == (App { view: View::TaskList, ..moved }) && action
                is Nothing,
            NotifOutcome::Dismissed(id) => {
                &&& after.says(moved, "Notification dismissed"@, now)
                &&& action matches Action::DismissNotification(thread) && thread@ == id
            },
            NotifOutcome::Opened { url, thread_id, mark_read } => {
                &&& after.says(moved, "Opening notification..."@, now)
                &&& action matches Action::OpenNotification { url: u, thread_id: t, mark_read: m }
                    && u@ == url && t@ == thread_id && m == mark_read
            },
        }
    }

    pub fn handle_notifications_event(&mut self, key: KeyPress, now: i64, now_epoch: i64) -> (action:
        Action)
        requires
            old(self).wf(),
        ensures
            final(self).wf(),
            old(self).after_notif_key(key, now, now_epoch, *final(self), action),
    {
        match self.notifs.handle_key(key, now_epoch) {
            NotifOutcome::Nothing => Action::Nothing,
            NotifOutcome::Quit => {
                self.should_quit = true;
                Action::Nothing
            },
            NotifOutcome::Close => {
                self.view = View::TaskList;
                Action::Nothing
            },
            NotifOutcome::Dismissed(thread_id) => {
                self.say("Notification dismissed", now);
                Action::DismissNotification(thread_id)
            },
            NotifOutcome::Opened { url, thread_id, mark_read } => {
                self.say("Opening notification...", now);
                Action::OpenNotification { url, thread_id, mark_read }
            },
        }
    }

    /// Takes over what a poll of notifications fetched.
    pub fn apply_gh_notif_results(
        &mut self,
        fetched: Vec<GithubNotification>,
        now_epoch: i64,
        retention: i64,
    ) -> (cleanup: NotifCleanup)
        requires
            old(self).wf(),
        ensures
            final(self).wf(),
            *final(self) == (App { notifs: final(self).notifs, ..*old(self) }),
            old(self).notifs.after_poll(fetched@, now_epoch, retention, final(self).notifs),
            crate::text::texts(cleanup.dismiss@) == crate::notifs::ci_threads(fetched@),
            cleanup.save <==> (crate::notifs::ci_threads(fetched@).len() > 0 || exists|id: Seq<char>|
                crate::notifs::after_ci(old(self).notifs.dismissal(id), fetched@, id, now_epoch)
                    != crate::notifs::entry_view(#[trigger] final(self).notifs.dismissed.at(id))),
    {
        self.notifs.apply_gh_notif_results(fetched, now_epoch, retention)
    }

    /// What a key in the list of issues and pull requests leads to.
    pub open spec fn after_prs_key(self, key: KeyPress, now: i64, after: App, action: Action) -> bool {
        let moved = App { show_prs: self.show_prs.after_key(key, now), ..self };
        match self.show_prs.outcome(key) {
            PrsOutcome::Nothing => after == moved && action is Nothing,
            PrsOutcome::Quit => after == (App { should_quit: true, ..moved }) && action is Nothing,
            PrsOutcome::Close => after == (App { view: View::TaskList, ..moved }) && action
                is Nothing,
            PrsOutcome::Open(url) => {
                &&& after.says(moved, "Opening in browser..."@, now)
                &&& action matches Action::OpenUrl(u) && u@ == url
            },
            PrsOutcome::Poll => after.says(moved, "Refreshing..."@, now) && action is PollShowPrs,
        }
    }

    pub fn handle_show_prs_event(&mut self, key: KeyPress, now: i64) -> (action: Action)
        requires
            old(self).wf(),
        ensures
            final(self).wf(),
            old(self).after_prs_key(key, now, *final(self), action),
    {
        match self.show_prs.handle_key(key, now) {
            PrsOutcome::Nothing => Action::Nothing,
            PrsOutcome::Quit => {
                self.should_quit = true;
                Action::Nothing
            },
            PrsOutcome::Close => {
                self.view = View::TaskList;
                Action::Nothing
            },
            PrsOutcome::Open(url) => {
                self.say("Opening in browser...", now);
                Action::OpenUrl(url)
            },
            PrsOutcome::Poll => {
                self.say("Refreshing...", now);
                Action::PollShowPrs
            },
        }
    }

    /// What a key in the settings leads to.
    pub open spec fn after_settings_key(self, key: KeyPress, after: App, action: Action) -> bool {
        let changed = App { settings: after.settings, ..self };
        &&& self.settings.rest_after(key, after.settings)
        &&& self.settings.editor_after(
            key,
            crate::settings::TOKEN_ROW,
            area_state(self.settings.token_editor),
            area_state(after.settings.token_editor),
        )
        &&& self.settings.editor_after(
            key,
            crate::settings::CHAT_ID_ROW,
            area_state(self.settings.chat_id_editor),
            area_state(after.settings.chat_id_editor),
        )
        &&& match self.settings.outcome(key) {
            SettingsOutcome::Nothing => after == changed && action is Nothing,
            SettingsOutcome::Quit => after == (App { should_quit: true, ..changed }) && action
                is Nothing,
            SettingsOutcome::Close => after == (App { view: View::TaskList, ..changed }) && action
                is Nothing,
            SettingsOutcome::SaveTelegram { token, chat_id } => after == changed && (
            action matches Action::SaveTelegram { token: t, chat_id: c } && some_view(t) == token
                && some_view(c) == chat_id),
            SettingsOutcome::ReloadTelegram => after == changed && action is LoadTelegram,
            SettingsOutcome::SaveRetention(days) => after == changed && (
            action matches Action::SaveRetention(d) && d == days),
            SettingsOutcome::CycleHarness(delta) => after == changed && self.cycles_harness(
                delta as int,
                action,
            ),
        }
    }

    pub fn handle_settings_event(&mut self, key: KeyPress) -> (action: Action)
        requires
            old(self).wf(),
        ensures
            final(self).wf(),
            old(self).after_settings_key(key, *final(self), action),
    {
        match self.settings.handle_key(key) {
            SettingsOutcome::Nothing => Action::Nothing,
            SettingsOutcome::Quit => {
                self.should_quit = true;
                Action::Nothing
            },
            SettingsOutcome::Close => {
                self.view = View::TaskList;
                Action::Nothing
            },
            SettingsOutcome::SaveTelegram { token, chat_id } => Action::SaveTelegram {
                token,
                chat_id,
            },
            SettingsOutcome::ReloadTelegram => Action::LoadTelegram,
            SettingsOutcome::SaveRetention(days) => Action::SaveRetention(days),
            SettingsOutcome::CycleHarness(delta) => self.cycle_harness(delta),
        }
    }

    /// The Telegram settings were saved, or could not be; says whether the bot
    /// is to be restarted with them.
    pub fn on_telegram_saved(&mut self, result: Result<(), String>, now: i64) -> (restart: bool)
        requires
            old(self).wf(),
        ensures
            final(self).wf(),
            restart == result is Ok,
            final(self).says(
                *old(self),
                match result {
                    Ok(_) => "Telegram settings saved"@,
                    Err(e) => "Failed to save: "@ + e@,
                },
                now,
            ),
    {
        match result {
            Ok(_) => {
                self.say("Telegram settings saved", now);
                true
            },
            Err(e) => {
                self.say_of("Failed to save: ", e.as_str(), now);
                false
            },
        }
    }

    /// The retention of archives could not be saved.
    pub fn on_save_failed(&mut self, error: &str, now: i64)
        requires
            old(self).wf(),
        ensures
            final(self).wf(),
            final(self).says(*old(self), "Failed to save: "@ + error@, now),
    {
        self.say_of("Failed to save: ", error, now);
    }

    /// The harness some steps on is to be saved, unless it is the current one.
    pub open spec fn cycles_harness(self, delta: int, action: Action) -> bool {
        let kind = self.config.harness.cycled(delta);
        if kind == self.config.harness {
            action is Nothing
        } else {
            action matches Action::SaveHarness(k) && k == kind
        }
    }

    /// Cycle the configured harness by `delta` (typically -1 / +1).
    pub fn cycle_harness(&self, delta: i32) -> (action: Action)
        requires
            self.config.harness.place() + delta <= i32::MAX,
        ensures
            self.cycles_harness(delta as int, action),
    {
        let kind = self.config.harness.cycle(delta);
        if kind == self.config.harness {
            Action::Nothing
        } else {
            Action::SaveHarness(kind)
        }
    }

    /// The harness was saved, or could not be.
    pub fn on_harness_saved(
        &mut self,
        kind: HarnessKind,
        name: String,
        result: Result<(), String>,
        now: i64,
    )
        requires
            old(self).wf(),
        ensures
            final(self).wf(),
            match result {
                Ok(_) => final(self).says(
                    (App {
                        config: crate::app::Config {
                            harness: kind,
                            harness_name: name,
                            ..old(self).config
                        },
                        ..*old(self)
                    }),
                    "Harness set to "@ + name@ + " (applies to newly-spawned agents)"@,
                    now,
                ),
                Err(e) => final(self).says(*old(self), "Failed to save harness: "@ + e@, now),
            },
    {
        match result {
            Ok(_) => {
                let mut message = concat("Harness set to ", name.as_str());
                self.config.harness = kind;
                self.config.harness_name = name;
                message.append(" (applies to newly-spawned agents)");
                self.set_status(message, now);
            },
            Err(e) => self.say_of("Failed to save harness: ", e.as_str(), now),
        }
    }

    /// What a key in the archive leads to.
    pub open spec fn after_archive_key(self, key: KeyPress, after: App, action: Action) -> bool {
        let changed = App { archive: after.archive, ..self };
        &&& self.archive.after_key(key, after.archive)
        &&& exists|outcome: ArchiveOutcome| #[trigger]
            self.archive.outcome(key, outcome) && match outcome {
                ArchiveOutcome::Nothing => after == changed && action is Nothing,
                ArchiveOutcome::Quit => after == (App { should_quit: true, ..changed }) && action
                    is Nothing,
                ArchiveOutcome::Close => after == (App { view: View::TaskList, ..changed })
                    && action is Nothing,
                ArchiveOutcome::ToggleSaved(at) => after == changed && (
                action matches Action::ToggleArchiveSaved(i) && i == at),
                ArchiveOutcome::DeleteTask(task) => after == changed && (
                action matches Action::DeleteArchivedTask(t) && t == task),
                ArchiveOutcome::DeleteAgent(agent) => after == changed && (
                action matches Action::DeleteArchivedAgent(a) && a == agent),
                ArchiveOutcome::NewTaskFrom(at) => after == changed && (
                action matches Action::CheckRepo { at: i, parent_dir, name } && i == at
                    && parent_dir == self.archive.tasks@[at as int].0.meta.parent_dir && name
                    == self.archive.tasks@[at as int].0.meta.name),
                ArchiveOutcome::Restore(at) => after == changed && (
                action matches Action::RestoreAgent { at: i, project, name } && i == at && project
                    == self.archive.agents@[at as int].0.meta.project && name
                    == self.archive.agents@[at as int].0.meta.name),
            }
    }

    pub fn handle_archive_event(&mut self, key: KeyPress) -> (action: Action)
        requires
            old(self).wf(),
        ensures
            final(self).wf(),
            old(self).after_archive_key(key, *final(self), action),
    {
        let outcome = self.archive.handle_key(key);
        assert(old(self).archive.outcome(key, outcome));
        match outcome {
            ArchiveOutcome::Nothing => Action::Nothing,
            ArchiveOutcome::Quit => {
                self.should_quit = true;
                Action::Nothing
            },
            ArchiveOutcome::Close => {
                self.view = View::TaskList;
                Action::Nothing
            },
            ArchiveOutcome::ToggleSaved(at) => Action::ToggleArchiveSaved(at),
            ArchiveOutcome::DeleteTask(task) => Action::DeleteArchivedTask(task),
            ArchiveOutcome::DeleteAgent(agent) => Action::DeleteArchivedAgent(agent),
            ArchiveOutcome::NewTaskFrom(at) => {
                proof {
                    old(self).archive.selected_in_list();
                }
                let meta = &self.archive.tasks[at].0.meta;
                let parent_dir = match &meta.parent_dir {
                    Some(dir) => Some(dir.clone()),
                    None => None,
                };
                Action::CheckRepo { at, parent_dir, name: meta.name.clone() }
            },
            ArchiveOutcome::Restore(at) => {
                proof {
                    old(self).archive.selected_in_list();
                }
                let meta = &self.archive.agents[at].0.meta;
                Action::RestoreAgent {
                    at,
                    project: meta.project.clone(),
                    name: meta.name.clone(),
                }
            },
        }
    }

    /// An archived task was marked as saved or not, or could not be.
    pub fn on_archive_saved_toggled(&mut self, at: usize, result: Result<bool, String>, now: i64)
        requires
            old(self).wf(),
            at < old(self).archive.tasks@.len(),
        ensures
            final(self).wf(),
            match result {
                Ok(saved) => {
                    let entry = old(self).archive.tasks@[at as int];
                    &&& final(self).archive.tasks@ == old(self).archive.tasks@.update(
                        at as int,
                        (
                            Task {
                                meta: crate::model::TaskMeta { saved, ..entry.0.meta },
                            },
                            entry.1,
                        ),
                    )
                    &&& final(self).says(
                        (App {
                            archive: Archive {
                                tasks: final(self).archive.tasks,
                                ..old(self).archive
                            },
                            ..*old(self)
                        }),
                        if saved {
                            "Saved: "@ + entry.0.id()
                        } else {
                            "Unsaved: "@ + entry.0.id()
                        },
                        now,
                    )
                },
                Err(e) => final(self).says(*old(self), "Failed to toggle saved: "@ + e@, now),
            },
    {
        match result {
            Ok(saved) => {
                self.archive.tasks[at].0.meta.saved = saved;
                let id = self.archive.tasks[at].0.meta.task_id();
                if saved {
                    self.say_of("Saved: ", id.as_str(), now);
                } else {
                    self.say_of("Unsaved: ", id.as_str(), now);
                }
            },
            Err(e) => self.say_of("Failed to toggle saved: ", e.as_str(), now),
        }
    }

    /// An archived task or agent was deleted for good, or could not be.
    pub fn on_archived_deleted(&mut self, label: &str, result: Result<(), String>, now: i64)
        requires
            old(self).wf(),
        ensures
            final(self).wf(),
            final(self).says(
                *old(self),
                match result {
                    Ok(_) => "Deleted: "@ + label@,
                    Err(e) => "Delete failed: "@ + e@,
                },
                now,
            ),
    {
        match result {
            Ok(_) => self.say_of("Deleted: ", label, now),
            Err(e) => self.say_of("Delete failed: ", e.as_str(), now),
        }
    }

    /// What the description of a task made from an archived one starts with.
    pub open spec fn reference_text(id: Seq<char>, branch: Seq<char>) -> Seq<char> {
        "Reference: archived task \""@ + id + "\" (branch: "@ + branch
            + "). Examine the git branch/PR if needed.\n\n\n"@
    }

    /// It was found out whether the repository of an archived task is there.
    pub fn on_archive_repo_checked(&mut self, at: usize, path: &str, found: bool, now: i64) -> (action:
        Action)
        requires
            old(self).wf(),
            at < old(self).archive.tasks@.len(),
        ensures
            final(self).wf(),
            ({
                let meta = old(self).archive.tasks@[at as int].0.meta;
                if found {
                    &&& *final(self) == (App {
                        archive: Archive { preview: None, ..old(self).archive },
                        ..*old(self)
                    })
                    &&& action matches Action::ScanArchivedRepo { name, path: p, description }
                        && name == meta.name && p@ == path@ && description@
                        == App::reference_text(meta.id@, meta.branch_name@)
                } else {
                    action is Nothing && final(self).says(
                        *old(self),
                        "Repo path not found: "@ + path@,
                        now,
                    )
                }
            }),
    {
        if !found {
            self.say_of("Repo path not found: ", path, now);
            return Action::Nothing;
        }
        self.archive.preview = None;
        let meta = &self.archive.tasks[at].0.meta;
        let mut description = concat("Reference: archived task \"", meta.id.as_str());
        description.append("\" (branch: ");
        description.append(meta.branch_name.as_str());
        description.append("). Examine the git branch/PR if needed.\n\n\n");
        Action::ScanArchivedRepo { name: meta.name.clone(), path: path.to_owned(), description }
    }

    /// What an agent's row on the page is recognised by.
    pub open spec fn agent_key(agent: AgentRecord) -> RowKey<Seq<char>> {
        match agent.meta.attachment {
            AgentAttachment::Task { task_id } => RowKey::AttachedAgent {
                task_id: task_id@,
                project: agent.meta.project@,
                name: agent.meta.name@,
            },
            AgentAttachment::Unattached => RowKey::UnattachedAgent {
                project: agent.meta.project@,
                name: agent.meta.name@,
            },
        }
    }

    /// What an agent's row on the page is recognised by.
    pub fn project_detail_agent_key(agent: &AgentRecord) -> (key: RowKey<String>)
        ensures
            key_view(key) == App::agent_key(*agent),
    {
        match &agent.meta.attachment {
            AgentAttachment::Task { task_id } => RowKey::AttachedAgent {
                task_id: task_id.clone(),
                project: agent.meta.project.clone(),
                name: agent.meta.name.clone(),
            },
            AgentAttachment::Unattached => RowKey::UnattachedAgent {
                project: agent.meta.project.clone(),
                name: agent.meta.name.clone(),
            },
        }
    }

    /// An archived agent was brought back, or could not be.
    pub fn on_agent_restored(&mut self, at: usize, result: Result<(), String>, now: i64) -> (action:
        Action)
        requires
            old(self).wf(),
            at < old(self).archive.agents@.len(),
        ensures
            final(self).wf(),
            ({
                let agent = old(self).archive.agents@[at as int].0;
                match result {
                    Ok(_) => {
                        &&& final(self).says(
                            (App {
                                archive: Archive { preview: None, ..old(self).archive },
                                view: View::TaskList,
                                ..*old(self)
                            }),
                            "Restored agent '"@ + agent.meta.name@ + "'"@,
                            now,
                        )
                        &&& action matches Action::RefreshAndFind(key) && key_view(key)
                            == App::agent_key(agent)
                    },
                    Err(e) => action is Nothing && final(self).says(
                        *old(self),
                        "Restore failed: "@ + e@,
                        now,
                    ),
                }
            }),
    {
        match result {
            Ok(_) => {
                let key = App::project_detail_agent_key(&self.archive.agents[at].0);
                let mut message = concat(
                    "Restored agent '",
                    self.archive.agents[at].0.meta.name.as_str(),
                );
                message.append("'");
                self.set_status(message, now);
                self.archive.preview = None;
                self.view = View::TaskList;
                Action::RefreshAndFind(key)
            },
            Err(e) => {
                self.say_of("Restore failed: ", e.as_str(), now);
                Action::Nothing
            },
        }
    }

    /// What a key in the confirmation of a respawn leads to.
    pub open spec fn after_respawn_key(self, key: KeyPress, now: i64, after: App, action: Action) -> bool {
        let changed = App { respawn: after.respawn, ..self };
        let closed = App { view: self.respawn.confirm_return_view, ..changed };
        &&& self.respawn.after_key(key, after.respawn)
        &&& match self.respawn.outcome(key) {
            RespawnOutcome::Nothing => after == changed && action is Nothing,
            RespawnOutcome::Close => after == closed && action is Nothing,
            RespawnOutcome::ChiefOfStaff => action is RespawnChiefOfStaff && after.says(
                closed,
                "respawning chief-of-staff..."@,
                now,
            ),
            RespawnOutcome::Everyone => {
                &&& action matches Action::RespawnEveryone(names) && names@ == Seq::new(
                    self.list.projects@.len(),
                    |i: int| self.list.projects@[i].meta.name,
                )
                &&& after.says(closed, "respawning chief-of-staff + all pms..."@, now)
            },
            RespawnOutcome::Manager(target) => {
                &&& action matches Action::RespawnManager(name) && name@ == target
                &&& after.says(closed, "respawning "@ + target + "..."@, now)
            },
        }
    }

    pub fn handle_respawn_confirm_event(&mut self, key: KeyPress, now: i64) -> (action: Action)
        requires
            old(self).wf(),
        ensures
            final(self).wf(),
            old(self).after_respawn_key(key, now, *final(self), action),
    {
        let back = self.respawn.confirm_return_view;
        match self.respawn.handle_key(key) {
            RespawnOutcome::Nothing => Action::Nothing,
            RespawnOutcome::Close => {
                self.view = back;
                Action::Nothing
            },
            RespawnOutcome::ChiefOfStaff => {
                self.say("respawning chief-of-staff...", now);
                self.view = back;
                Action::RespawnChiefOfStaff
            },
            RespawnOutcome::Everyone => {
                self.say("respawning chief-of-staff + all pms...", now);
                self.view = back;
                Action::RespawnEveryone(self.list.project_names())
            },
            RespawnOutcome::Manager(target) => {
                let mut message = concat("respawning ", target.as_str());
                message.append("...");
                self.set_status(message, now);
                self.view = back;
                Action::RespawnManager(target)
            },
        }
    }

    /// A respawn is over.
    pub fn apply_respawn_results(&mut self, result: Result<String, String>, now: i64)
        requires
            old(self).wf(),
        ensures
            final(self).wf(),
            final(self).says(
                (App {
                    respawn: Respawn { in_progress: None, ..old(self).respawn },
                    ..*old(self)
                }),
                old(self).respawn.result_message(
                    match result {
                        Ok(m) => Ok(m@),
                        Err(e) => Err(e@),
                    },
                ),
                now,
            ),
    {
        let message = self.respawn.apply_respawn_results(result);
        self.set_status(message, now);
    }
}

/// Going back through the harnesses as many steps as they were gone through
/// asks for the one that was set before.
pub proof fn cycling_back_restores_the_harness(before: App, after: App, delta: int, back: Action)
    requires
        after.config.harness == before.config.harness.cycled(delta),
        after.cycles_harness(-delta, back),
    ensures
        match back {
            Action::SaveHarness(kind) => kind == before.config.harness && kind
                != after.config.harness,
            _ => after.config.harness == before.config.harness,
        },
{
    harnesses_go_round(before.config.harness, delta, -delta, before.config.harness);
}

/// What is asked for in the notifications is done: a dismissal on the server, the
/// page with its mark as read. Escape leads back to the page of the project.
pub proof fn notifications_lead_to_their_pages(
    before: App,
    key: KeyPress,
    now: i64,
    now_epoch: i64,
    after: App,
    action: Action,
)
    requires
        !key.ctrl,
        before.notifs.selected < before.notifs.list@.len(),
        before.after_notif_key(key, now, now_epoch, after, action),
    ensures
        ({
            let n = before.notifs.list@[before.notifs.selected as int];
            &&& key.code == KeyCode::Char('d') ==> (action matches Action::DismissNotification(id)
                && id@ == n.id@)
            &&& key.code is Enter || key.code == KeyCode::Char('o') ==> (
            action matches Action::OpenNotification { url, thread_id, mark_read } && url@
                == n.browser_url@ && thread_id@ == n.id@ && mark_read == n.unread)
            &&& key.code is Esc || key.code == KeyCode::Char('q') ==> after.view is TaskList
                && action is Nothing
        }),
{
}

/// What is asked for in the archive is done with the entry it was asked for.
pub proof fn archive_keys_lead_to_the_entry(
    before: App,
    key: KeyPress,
    after: App,
    action: Action,
)
    requires
        !key.ctrl,
        before.archive.preview is Some,
        before.archive.selected < before.archive.filtered().len(),
        before.after_archive_key(key, after, action),
    ensures
        ({
            let at = before.archive.filtered()[before.archive.selected as int];
            let tasks = before.archive.kind is Tasks;
            &&& key.code == KeyCode::Char('s') && tasks ==> (
            action matches Action::ToggleArchiveSaved(i) && i == at)
            &&& key.code == KeyCode::Char('d') && tasks ==> (
            action matches Action::DeleteArchivedTask(task) && task
                == before.archive.tasks@[at].0)
            &&& key.code == KeyCode::Char('d') && !tasks ==> (
            action matches Action::DeleteArchivedAgent(agent) && agent
                == before.archive.agents@[at].0)
            &&& key.code == KeyCode::Char('n') && tasks ==> (action matches Action::CheckRepo {
                at: i,
                name,
                ..
            } && i == at && name == before.archive.tasks@[at].0.meta.name)
            &&& key.code == KeyCode::Char('n') && !tasks ==> (action matches Action::RestoreAgent {
                at: i,
                project,
                name,
            } && i == at && project == before.archive.agents@[at].0.meta.project && name
                == before.archive.agents@[at].0.meta.name)
        }),
{
    before.archive.selected_in_list();
}

/// A respawn that was confirmed is of who was chosen, and everyone are the
/// managers of all projects in the list.
pub proof fn confirmed_respawns_are_asked_for(
    before: App,
    key: KeyPress,
    now: i64,
    after: App,
    action: Action,
)
    requires
        before.respawn.wf(),
        key.code is Enter,
        before.after_respawn_key(key, now, after, action),
    ensures
        ({
            let chief = before.respawn.confirm_is_chief_of_staff;
            let first = before.respawn.confirm_index == 0;
            &&& chief && first ==> action is RespawnChiefOfStaff
            &&& chief && !first ==> (action matches Action::RespawnEveryone(names) && names@.len()
                == before.list.projects@.len() && forall|i: int|
                0 <= i < names@.len() ==> #[trigger] names@[i] == before.list.projects@[i].meta.name)
            &&& !chief && first ==> (before.respawn.confirm_target matches Some(target) ==> (
            action matches Action::RespawnManager(name) && name@ == target@))
            &&& !chief && !first ==> action is Nothing
            &&& after.view == before.respawn.confirm_return_view
        }),
{
}

/// What is changed in the settings is saved: on its row the number of days as it
/// then stands, the next or the previous harness, and by enter the token and the
/// chat that stand in their editors.
pub proof fn changed_settings_are_saved(before: App, key: KeyPress, after: App, action: Action)
    requires
        !key.ctrl,
        before.settings.selected <= 3,
        before.after_settings_key(key, after, action),
    ensures
        ({
            let row = before.settings.selected;
            let back = key.code is Left || key.code == KeyCode::Char('h');
            let on = key.code is Right || key.code == KeyCode::Char('l');
            let editing = before.settings.editing;
            let days = before.settings.archive_retention_days;
            &&& action matches Action::SaveRetention(d) ==> row == 0 && d
                == after.settings.archive_retention_days && !editing
            &&& row == 0 && !editing && (back && 7 < days <= 365 || on && 7 <= days < 365)
                ==> action is SaveRetention
            &&& row == 1 && !editing && on ==> action == Action::SaveHarness(
                before.config.harness.cycled(1),
            )
            &&& row == 1 && !editing && back ==> action == Action::SaveHarness(
                before.config.harness.cycled(-1),
            )
            &&& action matches Action::SaveTelegram { token, chat_id } ==> editing && key.code
                is Enter
            &&& editing && key.code is Enter ==> (action matches Action::SaveTelegram {
                token,
                chat_id,
            } && (line_text(before.settings.token_editor).len() > 0 ==> some_view(token) == Some(
                line_text(before.settings.token_editor),
            )) && (line_text(before.settings.chat_id_editor).len() > 0 ==> some_view(chat_id)
                == Some(line_text(before.settings.chat_id_editor))))
            &&& editing && key.code is Esc ==> action is LoadTelegram
            &&& !editing && (key.code is Esc || key.code == KeyCode::Char('q')) ==> after.view
                is TaskList && action is Nothing
        }),
{
    crate::settings::harnesses_differ();
}

/// Dialogs lead back: a key that only moves in them keeps the view.
pub proof fn other_keys_keep_the_view(before: App, key: KeyPress, now: i64, after: App, action: Action)
    requires
        !key.ctrl,
        !(key.code is Enter || key.code is Esc || key.code == KeyCode::Char('q')),
    ensures
        before.after_respawn_key(key, now, after, action) ==> after.view == before.view && action
            is Nothing,
        before.after_prs_key(key, now, after, action) ==> after.view == before.view,
        before.after_settings_key(key, after, action) ==> after.view == before.view,
{
}

} // verus!
