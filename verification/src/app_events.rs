//! Starting up, events and the clock.

use crate::app::{Action, App, Config, OutputPane};
use crate::app_time::{elapsed, time_since, GITHUB_INTERVAL, REFRESH_INTERVAL};
use crate::archive::{Archive, ArchiveKind};
use crate::detail::ProjectDetail;
use crate::inbox::{Inbox, Readings};
use crate::keys::{Event, KeyCode, KeyPress};
use crate::list::ProjectList;
use crate::model::{unassigned, NoteEntry, ShowPrsData, Task};
use crate::notes::NotesFocus;
use crate::notifs::{after_pruning, entry_view, prune, DismissedEntry, Notifications};
use crate::preview::{Preview, PreviewPane};
use crate::respawn::Respawn;
use crate::screen::View;
use crate::sessions::SessionPicker;
use crate::settings::{one_line_editor, one_line_state, Settings};
use crate::show_prs::ShowPrs;
use crate::table::Table;
use crate::task_wizard::some_view;
use crate::telegram::Telegram;
use crate::textarea::{area_state, fresh_state};
use crate::vim::{fresh_vim, VimMode, VimTextArea};
use crate::wizard::{plain_editor, AgentWizardStep, WizardStep};
use vstd::prelude::*;
use vstd::view::View as _;

verus! {

/// A moment an interval before another, as far as the clock reaches back.
fn moment_before(now: i64, interval: u64) -> (moment: i64)
    requires
        interval <= i64::MAX,
    ensures
        moment == if now - interval >= i64::MIN {
            now - interval
        } else {
            i64::MIN as int
        },
{
    let moment: i128 = now as i128 - interval as i128;
    if moment >= i64::MIN as i128 {
        moment as i64
    } else {
        i64::MIN
    }
}

/// What was read at the start.
pub struct Startup {
    pub tasks: Vec<Task>,
    pub token: Option<String>,
    pub chat_id: Option<String>,
    pub archive_retention_days: u64,
    pub dismissed: Table<DismissedEntry>,
    pub bot_running: bool,
    pub now: i64,
    /// Seconds since the epoch.
    pub now_epoch: i64,
    /// How long dismissals are kept, in seconds.
    pub dismissal_retention: i64,
}

impl App {
    /// The state at the start: the project list, which is still empty, and
    /// nothing open. Polls of GitHub are due at once.
    pub open spec fn starts(self, config: Config, start: Startup) -> bool {
        &&& self.config == config
        &&& self.view is ProjectList
        &&& !self.should_quit
        &&& !self.should_restart
        &&& self.status_message is None
        &&& self.output.log@.len() == 0
        &&& self.output.scroll == 0
        &&& self.output.last_time is None
        &&& self.list.projects@.len() == 0
        &&& self.list.selected_project_index == 0
        &&& self.list.unassigned_task_count == 0
        &&& self.list.project_task_counts.is_blank()
        &&& self.list.project_agent_counts.is_blank()
        &&& self.list.project_active_agent_counts.is_blank()
        &&& self.list.agent_activity.is_blank()
        &&& !self.list.agent_activity_query_failed_logged
        &&& !self.list.project_refresh_active
        &&& self.list.project_refresh_generation == 0
        &&& self.detail.tasks == start.tasks
        &&& self.detail.selected_index == 0
        &&& self.detail.current_project is None
        &&& self.detail.agents@.len() == 0
        &&& self.detail.attached_task_agents.is_blank()
        &&& self.detail.archive_in_progress@.len() == 0
        &&& self.preview.content@.len() == 0
        &&& self.preview.notes_content@.len() == 0
        &&& self.preview.pane is Logs
        &&& !self.preview.notes_editing
        &&& self.preview.logs_editor.area() == fresh_state(Seq::empty())
        &&& self.preview.logs_editor.vim == fresh_vim(VimMode::Normal, true)
        &&& self.preview.notes_editor.area() == fresh_state(Seq::empty())
        &&& self.preview.notes_editor.vim == fresh_vim(VimMode::Normal, false)
        &&& self.sessions.sessions@.len() == 0
        &&& self.sessions.selected == 0
        &&& self.notes_return_view is ProjectList
        &&& self.archive.kind is Tasks
        &&& self.archive.tasks@.len() == 0
        &&& self.archive.agents@.len() == 0
        &&& area_state(self.archive.search) == fresh_state(seq![Seq::empty()])
        &&& self.archive.selected == 0
        &&& self.archive.preview is None
        &&& self.archive.scroll == 0
        &&& self.inbox.last_poll == start.now
        &&& self.inbox.stall_warned@.len() == 0
        &&& self.inbox.readings.stuck_skip_counts.is_blank()
        &&& self.inbox.readings.first_ready_at.is_blank()
        &&& self.respawn == (Respawn {
            in_progress: None,
            confirm_target: None,
            confirm_index: 0,
            confirm_is_chief_of_staff: false,
            confirm_return_view: View::ProjectList,
        })
        &&& self.telegram == (Telegram {
            running: start.bot_running,
            last_watchdog: start.now,
            last_respawn_at: None,
        })
        &&& self.wizard is None
        &&& self.dir_picker is None
        &&& self.attach_session_name is None
        &&& self.notifs.list@.len() == 0
        &&& self.notifs.selected == 0
        &&& !self.notifs.poll_active
        &&& !self.notifs.first_poll_done
        &&& forall|id: Seq<char>| #[trigger]
            self.notifs.dismissal(id) == after_pruning(
                entry_view(start.dismissed.at(id)),
                start.now_epoch,
                start.dismissal_retention,
            )
        &&& self.notes_view is None
        &&& self.show_prs.items().len() == 0
        &&& self.show_prs.selected == 0
        &&& !self.show_prs.first_poll_done
        &&& !self.show_prs.poll_active
        &&& self.settings.selected == 0
        &&& !self.settings.editing
        &&& self.settings.archive_retention_days == start.archive_retention_days
        &&& area_state(self.settings.token_editor) == one_line_state(start.token)
        &&& area_state(self.settings.chat_id_editor) == one_line_state(start.chat_id)
        &&& self.project_wizard is None
        &&& self.agent_wizard is None
        &&& self.project_picker is None
        &&& self.project_to_delete is None
        &&& !self.inbox.poll_active
        &&& !self.popup_open
        &&& self.notifs.last_poll == self.show_prs.last_poll
        &&& self.notifs.last_poll == if start.now - GITHUB_INTERVAL >= i64::MIN {
            start.now - GITHUB_INTERVAL
        } else {
            i64::MIN as int
        }
    }

    /// The state at the start. Says as well whether dismissals were forgotten,
    /// so that they are to be saved.
    pub fn new(config: Config, start: Startup) -> (app: (App, bool))
        requires
            start.token matches Some(t) ==> !t@.contains('\n'),
            start.chat_id matches Some(t) ==> !t@.contains('\n'),
        ensures
            app.0.wf(),
            app.0.starts(config, start),
            app.1 == exists|id: Seq<char>| (#[trigger] start.dismissed.at(id)) matches Some(e)
                && crate::notifs::is_expired(
                (e.updated_at@, e.dismissed_at),
                start.now_epoch,
                start.dismissal_retention,
            ),
    {
        let mut logs_editor = VimTextArea::new();
        logs_editor.set_read_only(true);
        let notes_editor = VimTextArea::new();
        let (dismissed, pruned) = prune(
            start.dismissed,
            start.now_epoch,
            start.dismissal_retention,
        );
        let last_poll = moment_before(start.now, GITHUB_INTERVAL);
        let app = App {
            config,
            view: View::ProjectList,
            should_quit: false,
            should_restart: false,
            status_message: None,
            output: OutputPane { log: Vec::new(), scroll: 0, last_time: None },
            list: ProjectList {
                projects: Vec::new(),
                selected_project_index: 0,
                unassigned_task_count: 0,
                project_task_counts: Table::new(),
                project_agent_counts: Table::new(),
                project_active_agent_counts: Table::new(),
                agent_activity: Table::new(),
                agent_activity_query_failed_logged: false,
                project_refresh_active: false,
                project_refresh_generation: 0,
            },
            detail: ProjectDetail {
                tasks: start.tasks,
                selected_index: 0,
                current_project: None,
                agents: Vec::new(),
                attached_task_agents: Table::new(),
                archive_in_progress: Vec::new(),
            },
            preview: Preview {
                content: String::new(),
                logs_editor,
                notes_content: String::new(),
                notes_editor,
                notes_editing: false,
                pane: PreviewPane::Logs,
            },
            wizard: None,
            dir_picker: None,
            sessions: SessionPicker { sessions: Vec::new(), selected: 0 },
            attach_session_name: None,
            notifs: Notifications {
                list: Vec::new(),
                selected: 0,
                last_poll,
                poll_active: false,
                first_poll_done: false,
                dismissed,
            },
            notes_view: None,
            notes_return_view: View::ProjectList,
            show_prs: ShowPrs {
                data: ShowPrsData::default(),
                selected: 0,
                first_poll_done: false,
                poll_active: false,
                last_poll,
            },
            settings: Settings {
                selected: 0,
                editing: false,
                archive_retention_days: start.archive_retention_days,
                token_editor: one_line_editor(start.token),
                chat_id_editor: one_line_editor(start.chat_id),
            },
            archive: Archive {
                kind: ArchiveKind::Tasks,
                tasks: Vec::new(),
                agents: Vec::new(),
                search: plain_editor(),
                selected: 0,
                preview: None,
                scroll: 0,
            },
            project_wizard: None,
            agent_wizard: None,
            project_picker: None,
            project_to_delete: None,
            inbox: Inbox {
                last_poll: start.now,
                poll_active: false,
                readings: Readings {
                    stuck_skip_counts: Table::new(),
                    first_ready_at: Table::new(),
                },
                stall_warned: Vec::new(),
            },
            respawn: Respawn {
                in_progress: None,
                confirm_target: None,
                confirm_index: 0,
                confirm_is_chief_of_staff: false,
                confirm_return_view: View::ProjectList,
            },
            telegram: Telegram {
                running: start.bot_running,
                last_watchdog: start.now,
                last_respawn_at: None,
            },
            popup_open: false,
        };
        (app, pruned)
    }

    /// The screen is shown again after attaching elsewhere: the project list.
    pub fn on_screen_shown(&mut self)
        requires
            old(self).wf(),
        ensures
            final(self).wf(),
            *final(self) == (App {
                detail: ProjectDetail { current_project: None, ..old(self).detail },
                view: View::ProjectList,
                should_quit: false,
                ..*old(self)
            }),
    {
        self.detail.current_project = None;
        self.view = View::ProjectList;
        self.should_quit = false;
    }

    /// The editor that would paste in a view, if one would take the key.
    pub open spec fn pastes(self, key: KeyPress) -> bool {
        let input = key.input();
        match self.view {
            View::Preview => self.preview.edits() && self.preview.notes_editor.pastes(input),
            View::NewTaskWizard => self.wizard matches Some(w) && w.step is EnterDescription
                && w.description_editor.pastes(input),
            View::ProjectWizard => self.project_wizard matches Some(w) && w.description_focus
                && w.description_editor.pastes(input),
            View::AgentWizard => self.agent_wizard matches Some(w) && w.step is Description
                && w.description_editor.pastes(input),
            View::Notes => self.notes_view matches Some(n) && !n.confirm_delete && n.create_input
                is None && n.rename_input is None && n.focus is Editor && n.editor.pastes(input),
            _ => false,
        }
    }

    /// Whether the system clipboard is to be read before this event.
    pub fn reads_clipboard(&self, event: &Event) -> (reads: bool)
        ensures
            reads == (event matches Event::Key(key) && self.pastes(*key)),
    {
        let key = match event {
            Event::Key(key) => *key,
            Event::Other => {
                return false;
            },
        };
        let input = key.input();
        match self.view {
            View::Preview => self.preview.notes_editing && matches!(
                self.preview.pane,
                PreviewPane::Notes
            ) && self.preview.notes_editor.reads_clipboard(&input),
            View::NewTaskWizard => match &self.wizard {
                Some(w) => matches!(w.step, WizardStep::EnterDescription)
                    && w.description_editor.reads_clipboard(&input),
                None => false,
            },
            View::ProjectWizard => match &self.project_wizard {
                Some(w) => w.description_focus && w.description_editor.reads_clipboard(&input),
                None => false,
            },
            View::AgentWizard => match &self.agent_wizard {
                Some(w) => matches!(w.step, AgentWizardStep::Description)
                    && w.description_editor.reads_clipboard(&input),
                None => false,
            },
            View::Notes => match &self.notes_view {
                Some(n) => !n.confirm_delete && n.create_input.is_none()
                    && n.rename_input.is_none() && matches!(n.focus, NotesFocus::Editor)
                    && n.editor.reads_clipboard(&input),
                None => false,
            },
            _ => false,
        }
    }

    /// What a key leads to, in the view that is shown.
    pub open spec fn after_key(
        self,
        key: KeyPress,
        clipboard: Option<Seq<char>>,
        now: i64,
        now_epoch: i64,
        after: App,
        action: Action,
    ) -> bool {
        match self.view {
            View::ProjectList => self.after_list_key(key, now, after, action),
            View::TaskList => self.after_task_list_key(key, now, after, action),
            View::Preview => self.after_preview_key(key, clipboard, now, after, action),
            View::DeleteConfirm => self.after_delete_confirm_key(key, after, action),
            View::NewTaskWizard => self.after_wizard_key(key, clipboard, now, after, action),
            View::DirectoryPicker => self.after_dir_key(key, now, after, action),
            View::SessionPicker => self.after_session_key(key, after, action),
            View::Notifications => self.after_notif_key(key, now, now_epoch, after, action),
            View::Notes => self.after_notes_key(key, clipboard, now, after, action),
            View::ShowPrs => self.after_prs_key(key, now, after, action),
            View::Settings => self.after_settings_key(key, after, action),
            View::Archive => self.after_archive_key(key, after, action),
            View::ProjectWizard => self.after_project_wizard_key(key, clipboard, after, action),
            View::ProjectPicker => self.after_picker_key(key, after, action),
            View::ProjectDeleteConfirm => self.after_delete_key(key, after, action),
            View::AgentWizard => self.after_agent_wizard_key(key, clipboard, after, action),
            View::RespawnConfirm => self.after_respawn_key(key, now, after, action),
        }
    }

    /// What an event leads to, once an old message is gone.
    pub open spec fn after_event(
        self,
        event: Event,
        clipboard: Option<Seq<char>>,
        now: i64,
        now_epoch: i64,
        after: App,
        action: Action,
    ) -> bool {
        let start = App { status_message: self.fresh_status(now), ..self };
        match event {
            Event::Key(key) => start.after_key(key, clipboard, now, now_epoch, after, action),
            Event::Other => after == start && action is Nothing,
        }
    }

    /// Takes an event over, and says what is to be done.
    pub fn handle_event(
        &mut self,
        event: Event,
        clipboard: Option<String>,
        now: i64,
        now_epoch: i64,
    ) -> (action: Action)
        requires
            old(self).wf(),
        ensures
            final(self).wf(),
            old(self).after_event(
                event,
                some_view(clipboard),
                now,
                now_epoch,
                *final(self),
                action,
            ),
    {
        self.clear_old_status(now);
        let key = match event {
            Event::Key(key) => key,
            Event::Other => {
                return Action::Nothing;
            },
        };
        match self.view {
            View::ProjectList => self.handle_project_list_event(key, now),
            View::TaskList => self.handle_task_list_event(key, now),
            View::Preview => self.handle_preview_event(key, clipboard, now),
            View::DeleteConfirm => self.handle_delete_confirm_event(key),
            View::NewTaskWizard => self.handle_wizard_event(key, clipboard, now),
            View::DirectoryPicker => self.handle_directory_picker_event(key, now),
            View::SessionPicker => self.handle_session_picker_event(key),
            View::Notifications => self.handle_notifications_event(key, now, now_epoch),
            View::Notes => self.handle_notes_event(key, clipboard, now),
            View::ShowPrs => self.handle_show_prs_event(key, now),
            View::Settings => self.handle_settings_event(key),
            View::Archive => self.handle_archive_event(key),
            View::ProjectWizard => self.handle_project_wizard_event(key, clipboard),
            View::ProjectPicker => self.handle_project_picker_event(key),
            View::ProjectDeleteConfirm => self.handle_project_delete_confirm_event(key),
            View::AgentWizard => self.handle_agent_wizard_event(key, clipboard),
            View::RespawnConfirm => self.handle_respawn_confirm_event(key, now),
        }
    }
}

/// What is due at a moment.
pub struct Due {
    /// A refresh of the project list is to be made, with this number.
    pub project_refresh: Option<u64>,
    /// The page of the project is to be read again.
    pub page_refresh: bool,
    pub notifications: bool,
    pub show_prs: bool,
    pub inbox: bool,
    pub watchdog: bool,
}

impl App {
    /// What is shown is to be read again.
    pub open spec fn refresh_due(last_refresh: i64, now: i64) -> bool {
        elapsed(last_refresh, now) >= REFRESH_INTERVAL
    }

    /// A refresh of the project list is to be started.
    pub open spec fn list_due(self, last_refresh: i64, now: i64) -> bool {
        &&& App::refresh_due(last_refresh, now)
        &&& self.view is ProjectList
        &&& !self.list.project_refresh_active
    }

    /// Finds out what is due, and notes that it is being done. A poll that is
    /// still under way is not started again.
    pub fn tick(&mut self, last_refresh: i64, now: i64) -> (due: Due)
        requires
            old(self).wf(),
        ensures
            final(self).wf(),
            due == (Due {
                project_refresh: if old(self).list_due(last_refresh, now) {
                    Some(old(self).list.next_generation())
                } else {
                    None
                },
                page_refresh: App::refresh_due(last_refresh, now) && old(self).view is TaskList,
                notifications: old(self).notifs.poll_due(now) && !old(self).notifs.poll_active,
                show_prs: old(self).show_prs.poll_due(now) && !old(self).show_prs.poll_active,
                inbox: old(self).inbox.poll_due(now) && !old(self).inbox.poll_active,
                watchdog: old(self).telegram.check_due(now),
            }),
            *final(self) == (App {
                list: if old(self).list_due(last_refresh, now) {
                    old(self).list.refreshing()
                } else {
                    old(self).list
                },
                notifs: old(self).notifs.ticked(now),
                show_prs: old(self).show_prs.ticked(now),
                inbox: old(self).inbox.ticked(now),
                telegram: old(self).telegram.ticked(now),
                ..*old(self)
            }),
    {
        let mut project_refresh: Option<u64> = None;
        let mut page_refresh = false;
        if time_since(last_refresh, now) >= REFRESH_INTERVAL {
            match self.view {
                View::ProjectList => {
                    project_refresh = self.list.start_project_refresh();
                },
                View::TaskList => {
                    page_refresh = true;
                },
                _ => {},
            }
        }
        let notifications = self.notifs.tick(now);
        let show_prs = self.show_prs.tick(now);
        let inbox = self.inbox.tick(now);
        let watchdog = self.telegram.tick(now);
        Due { project_refresh, page_refresh, notifications, show_prs, inbox, watchdog }
    }
}

/// Every event keeps the state well-formed, and no event but a key changes
/// anything but an outdated status message.
pub proof fn other_events_change_nothing(before: App, after: App, now: i64)
    requires
        after == (App { status_message: before.fresh_status(now), ..before }),
        before.wf(),
    ensures
        after.wf(),
        after.view == before.view,
        after.should_quit == before.should_quit,
{
}

/// Ctrl-C quits from every view, except where the notes are being edited or a
/// text of the settings is, and from confirmations.
pub proof fn control_c_quits(
    before: App,
    key: KeyPress,
    clipboard: Option<Seq<char>>,
    now: i64,
    now_epoch: i64,
    after: App,
    action: Action,
)
    requires
        key.is_ctrl('c'),
        before.after_key(key, clipboard, now, now_epoch, after, action),
        !(before.view is DeleteConfirm),
        !(before.view is ProjectDeleteConfirm),
        !(before.view is RespawnConfirm),
        before.view is Preview ==> !before.preview.edits(),
        before.view is Settings ==> !before.settings.editing,
    ensures
        after.should_quit,
        action is Nothing,
{
}

/// `o` in the project list asks for the notes that belong to no project. Once
/// they are opened, escape or `q` leads back to the project list.
pub proof fn global_notes_lead_back(
    before: App,
    open: KeyPress,
    now: i64,
    now_epoch: i64,
    asked: App,
    request: Action,
    entries: Vec<NoteEntry>,
    opened: App,
    leave: KeyPress,
    clipboard: Option<Seq<char>>,
    later: i64,
    later_epoch: i64,
    after: App,
    action: Action,
)
    requires
        before.view is ProjectList,
        open.code == KeyCode::Char('o'),
        before.after_event(Event::Key(open), clipboard, now, now_epoch, asked, request),
        asked.opens_notes(asked.config.notes_dir, entries, View::ProjectList, opened),
        leave.code is Esc || leave.code == KeyCode::Char('q'),
        opened.after_event(Event::Key(leave), clipboard, later, later_epoch, after, action),
    ensures
        request is OpenGlobalNotes,
        opened.view is Notes,
        opened.notes_return_view is ProjectList,
        opened.notes_view matches Some(notes) && notes.root_dir == before.config.notes_dir,
        after.view is ProjectList,
        after.notes_view is None,
        action is Nothing,
{
}

/// `o` on the page of a project asks for the notes of that project, whatever is
/// selected on the page. Once they are opened, escape or `q` leads back to the
/// page.
pub proof fn project_notes_lead_back(
    before: App,
    project: Seq<char>,
    open: KeyPress,
    now: i64,
    now_epoch: i64,
    asked: App,
    request: Action,
    root_dir: String,
    entries: Vec<NoteEntry>,
    opened: App,
    leave: KeyPress,
    clipboard: Option<Seq<char>>,
    later: i64,
    later_epoch: i64,
    after: App,
    action: Action,
)
    requires
        before.view is TaskList,
        before.detail.scope() == Some(project),
        project != unassigned(),
        open.code == KeyCode::Char('o'),
        before.after_event(Event::Key(open), clipboard, now, now_epoch, asked, request),
        asked.opens_notes(root_dir, entries, View::TaskList, opened),
        leave.code is Esc || leave.code == KeyCode::Char('q'),
        opened.after_event(Event::Key(leave), clipboard, later, later_epoch, after, action),
    ensures
        request matches Action::OpenProjectNotes(name) && name@ == project,
        opened.view is Notes,
        opened.notes_return_view is TaskList,
        opened.notes_view matches Some(notes) && notes.root_dir == root_dir,
        after.view is TaskList,
        after.detail.scope() == Some(project),
        after.notes_view is None,
        action is Nothing,
{
}

/// The project list is read again once a second while it is shown, one refresh at
/// a time, and each has another number than the one before.
pub proof fn the_list_is_refreshed_once_a_second(app: App, last_refresh: i64, now: i64)
    requires
        last_refresh <= now,
    ensures
        app.list_due(last_refresh, now) <==> now - last_refresh >= 1_000_000_000 && app.view
            is ProjectList && !app.list.project_refresh_active,
        app.list.refreshing().project_refresh_active,
        app.list.refreshing().project_refresh_generation != app.list.project_refresh_generation,
        app.list.refreshing().projects == app.list.projects,
{
}

impl App {
    /// But for the view, the message and whether to quit, nothing changed. Only
    /// Ctrl-C quits, and a message is that of before or of the moment.
    pub open spec fn changes_no_more(self, key: KeyPress, now: Option<i64>, after: App) -> bool {
        &&& after == (App {
            view: after.view,
            should_quit: after.should_quit,
            status_message: after.status_message,
            ..self
        })
        &&& !key.is_ctrl('c') ==> after.should_quit == self.should_quit
        &&& after.status_message == self.status_message || (
        after.status_message matches Some(message) && Some(message.1) == now)
    }
}

/// A key in the settings changes nothing but the settings.
pub proof fn keys_change_only_settings(
    before: App,
    key: KeyPress,
    clipboard: Option<Seq<char>>,
    now: i64,
    now_epoch: i64,
    after: App,
    action: Action,
)
    requires
        before.view is Settings,
        before.after_key(key, clipboard, now, now_epoch, after, action),
    ensures
        (App { settings: after.settings, ..before }).changes_no_more(
            key,
            None,
            after,
        ),
{
}

/// A key in the archive changes nothing but the archive.
pub proof fn keys_change_only_archive(
    before: App,
    key: KeyPress,
    clipboard: Option<Seq<char>>,
    now: i64,
    now_epoch: i64,
    after: App,
    action: Action,
)
    requires
        before.view is Archive,
        before.after_key(key, clipboard, now, now_epoch, after, action),
    ensures
        (App { archive: after.archive, ..before }).changes_no_more(
            key,
            None,
            after,
        ),
{
}

/// A key in the list of notifications changes nothing but the notifications.
pub proof fn keys_change_only_notifications(
    before: App,
    key: KeyPress,
    clipboard: Option<Seq<char>>,
    now: i64,
    now_epoch: i64,
    after: App,
    action: Action,
)
    requires
        before.view is Notifications,
        before.after_key(key, clipboard, now, now_epoch, after, action),
    ensures
        (App { notifs: after.notifs, ..before }).changes_no_more(
            key,
            Some(now),
            after,
        ),
{
}

/// A key in the list of issues and pull requests changes nothing but that list.
pub proof fn keys_change_only_pull_requests(
    before: App,
    key: KeyPress,
    clipboard: Option<Seq<char>>,
    now: i64,
    now_epoch: i64,
    after: App,
    action: Action,
)
    requires
        before.view is ShowPrs,
        before.after_key(key, clipboard, now, now_epoch, after, action),
    ensures
        (App { show_prs: after.show_prs, ..before }).changes_no_more(
            key,
            Some(now),
            after,
        ),
{
}

/// A key in the confirmation of a respawn changes nothing but the confirmation.
pub proof fn keys_change_only_respawns(
    before: App,
    key: KeyPress,
    clipboard: Option<Seq<char>>,
    now: i64,
    now_epoch: i64,
    after: App,
    action: Action,
)
    requires
        before.view is RespawnConfirm,
        before.after_key(key, clipboard, now, now_epoch, after, action),
    ensures
        (App { respawn: after.respawn, ..before }).changes_no_more(
            key,
            Some(now),
            after,
        ),
{
}

/// A key in the preview changes nothing but the preview.
pub proof fn keys_change_only_the_preview(
    before: App,
    key: KeyPress,
    clipboard: Option<Seq<char>>,
    now: i64,
    now_epoch: i64,
    after: App,
    action: Action,
)
    requires
        before.view is Preview,
        before.after_key(key, clipboard, now, now_epoch, after, action),
    ensures
        (App { preview: after.preview, ..before }).changes_no_more(
            key,
            Some(now),
            after,
        ),
{
}

/// A key in the notes changes nothing but the notes.
pub proof fn keys_change_only_notes(
    before: App,
    key: KeyPress,
    clipboard: Option<Seq<char>>,
    now: i64,
    now_epoch: i64,
    after: App,
    action: Action,
)
    requires
        before.view is Notes,
        before.after_key(key, clipboard, now, now_epoch, after, action),
    ensures
        (App { notes_view: after.notes_view, ..before }).changes_no_more(
            key,
            Some(now),
            after,
        ),
{
}

/// A key in the directory picker changes nothing but the picker.
pub proof fn keys_change_only_the_directory_picker(
    before: App,
    key: KeyPress,
    clipboard: Option<Seq<char>>,
    now: i64,
    now_epoch: i64,
    after: App,
    action: Action,
)
    requires
        before.view is DirectoryPicker,
        before.after_key(key, clipboard, now, now_epoch, after, action),
    ensures
        (App { dir_picker: after.dir_picker, ..before }).changes_no_more(
            key,
            Some(now),
            after,
        ),
{
}

/// A key in the choice of a session changes nothing but the choice.
pub proof fn keys_change_only_the_session_picker(
    before: App,
    key: KeyPress,
    clipboard: Option<Seq<char>>,
    now: i64,
    now_epoch: i64,
    after: App,
    action: Action,
)
    requires
        before.view is SessionPicker,
        before.after_key(key, clipboard, now, now_epoch, after, action),
    ensures
        (App {
            sessions: after.sessions,
            attach_session_name: after.attach_session_name,
            ..before
        }).changes_no_more(
            key,
            None,
            after,
        ),
{
}

/// A key in the wizard for a new task changes nothing but the wizard, and the output once a task is created.
pub proof fn keys_change_only_the_task_wizard(
    before: App,
    key: KeyPress,
    clipboard: Option<Seq<char>>,
    now: i64,
    now_epoch: i64,
    after: App,
    action: Action,
)
    requires
        before.view is NewTaskWizard,
        before.after_key(key, clipboard, now, now_epoch, after, action),
    ensures
        (App { wizard: after.wizard, output: after.output, ..before }).changes_no_more(
            key,
            Some(now),
            after,
        ),
{
}

/// A key in the wizard for a new agent changes nothing but the wizard.
pub proof fn keys_change_only_the_agent_wizard(
    before: App,
    key: KeyPress,
    clipboard: Option<Seq<char>>,
    now: i64,
    now_epoch: i64,
    after: App,
    action: Action,
)
    requires
        before.view is AgentWizard,
        before.after_key(key, clipboard, now, now_epoch, after, action),
    ensures
        (App { agent_wizard: after.agent_wizard, ..before }).changes_no_more(
            key,
            None,
            after,
        ),
{
}

/// A key in the dialog for a new project changes nothing but the dialog.
pub proof fn keys_change_only_the_project_wizard(
    before: App,
    key: KeyPress,
    clipboard: Option<Seq<char>>,
    now: i64,
    now_epoch: i64,
    after: App,
    action: Action,
)
    requires
        before.view is ProjectWizard,
        before.after_key(key, clipboard, now, now_epoch, after, action),
    ensures
        (App { project_wizard: after.project_wizard, ..before }).changes_no_more(
            key,
            None,
            after,
        ),
{
}

/// A key in the choice of a project changes nothing but the choice.
pub proof fn keys_change_only_the_project_picker(
    before: App,
    key: KeyPress,
    clipboard: Option<Seq<char>>,
    now: i64,
    now_epoch: i64,
    after: App,
    action: Action,
)
    requires
        before.view is ProjectPicker,
        before.after_key(key, clipboard, now, now_epoch, after, action),
    ensures
        (App { project_picker: after.project_picker, ..before }).changes_no_more(
            key,
            None,
            after,
        ),
{
}

/// A key on the page of a project changes nothing but the page and what is opened from it.
pub proof fn keys_change_only_the_page(
    before: App,
    key: KeyPress,
    clipboard: Option<Seq<char>>,
    now: i64,
    now_epoch: i64,
    after: App,
    action: Action,
)
    requires
        before.view is TaskList,
        before.after_key(key, clipboard, now, now_epoch, after, action),
    ensures
        (App {
            detail: after.detail,
            preview: after.preview,
            archive: after.archive,
            agent_wizard: after.agent_wizard,
            respawn: after.respawn,
            ..before
        }).changes_no_more(
            key,
            Some(now),
            after,
        ),
{
}

/// A key in the project list changes nothing but the list and what is opened from it.
pub proof fn keys_change_only_the_project_list(
    before: App,
    key: KeyPress,
    clipboard: Option<Seq<char>>,
    now: i64,
    now_epoch: i64,
    after: App,
    action: Action,
)
    requires
        before.view is ProjectList,
        before.after_key(key, clipboard, now, now_epoch, after, action),
    ensures
        (App {
            list: after.list,
            detail: after.detail,
            notifs: after.notifs,
            show_prs: after.show_prs,
            settings: after.settings,
            project_wizard: after.project_wizard,
            project_picker: after.project_picker,
            project_to_delete: after.project_to_delete,
            respawn: after.respawn,
            ..before
        }).changes_no_more(
            key,
            Some(now),
            after,
        ),
{
}

/// At the start the project list is shown, nothing is selected, entered or open,
/// and the tasks and the settings are those that were read.
pub proof fn the_start_is_blank(app: App, config: Config, start: Startup)
    requires
        app.starts(config, start),
    ensures
        app.view is ProjectList,
        !app.should_quit && !app.should_restart && !app.popup_open,
        app.status_message is None,
        app.detail.tasks == start.tasks,
        app.detail.current_project is None,
        app.settings.archive_retention_days == start.archive_retention_days,
        app.settings.selected == 0 && !app.settings.editing,
        app.telegram.running == start.bot_running,
        app.wizard is None && app.dir_picker is None && app.notes_view is None,
        app.project_wizard is None && app.agent_wizard is None && app.project_picker is None,
        app.respawn.in_progress is None,
        app.list.selected_project_index == 0 && app.detail.selected_index == 0,
        app.archive.selected == 0 && app.notifs.selected == 0 && app.show_prs.selected == 0,
        app.inbox.readings.stuck_skip_counts.is_blank(),
        forall|id: Seq<char>| (#[trigger] app.notifs.dismissal(id)) is Some ==> start.dismissed.at(
            id,
        ) is Some,
{
    assert forall|id: Seq<char>| (#[trigger] app.notifs.dismissal(id)) is Some implies start.dismissed.at(
        id,
    ) is Some by {
        assert(app.notifs.dismissal(id) == after_pruning(
            entry_view(start.dismissed.at(id)),
            start.now_epoch,
            start.dismissal_retention,
        ));
    }
}

/// Notifications are fetched at once after the start, and so are issues and pull
/// requests, however long the clock has been running.
pub proof fn the_first_poll_is_due(app: App, config: Config, start: Startup)
    requires
        app.starts(config, start),
        start.now >= 0,
    ensures
        start.now - app.notifs.last_poll == GITHUB_INTERVAL,
        start.now - app.show_prs.last_poll == GITHUB_INTERVAL,
{
}

} // verus!
