//! The state of the front end, and what it asks of the world.

use crate::agent_wizard::AgentRequest;
use crate::app_time::{elapsed, time_since};
use crate::archive::{Archive, ArchiveKind};
use crate::detail::{ProjectDetail, RowKey};
use crate::inbox::Inbox;
use crate::list::ProjectList;
use crate::model::{AgentRecord, HarnessKind, Task};
use crate::notes::NotesView;
use crate::notifs::Notifications;
use crate::picker::DirectoryPicker;
use crate::preview::Preview;
use crate::respawn::Respawn;
use crate::sessions::SessionPicker;
use crate::settings::Settings;
use crate::show_prs::ShowPrs;
use crate::task_wizard::TaskRequest;
use crate::telegram::Telegram;
use crate::text::concat;
use crate::wizard::{AgentWizard, NewTaskWizard, ProjectPicker, ProjectWizard};
use vstd::prelude::*;
use vstd::view::View as _;

pub use crate::screen::View;

verus! {

/// Where things are kept, and what agents run on.
pub struct Config {
    pub repos_dir: String,
    pub notes_dir: String,
    pub harness: HarnessKind,
    /// What the harness is called.
    pub harness_name: String,
}

/// How many lines the output pane keeps.
pub const OUTPUT_LIMIT: usize = 100;

/// How many lines the output pane shows.
pub const OUTPUT_SHOWN: usize = 5;

/// How long a status message is shown, in nanoseconds.
pub const STATUS_TIME: u64 = 3_000_000_000;

/// How long the output pane is shown, in nanoseconds.
pub const OUTPUT_TIME: u64 = 7_000_000_000;

/// The last lines of what was done.
pub struct OutputPane {
    pub log: Vec<String>,
    pub scroll: u16,
    pub last_time: Option<i64>,
}

impl OutputPane {
    pub open spec fn wf(self) -> bool {
        self.log@.len() <= OUTPUT_LIMIT
    }

    /// The log with a line added, of which the oldest goes where it is full.
    pub open spec fn log_with(log: Seq<String>, line: String) -> Seq<String> {
        let longer = log.push(line);
        if longer.len() > OUTPUT_LIMIT {
            longer.drop_first()
        } else {
            longer
        }
    }

    /// The pane `before` with a line added; it shows the last lines.
    pub open spec fn logs(self, before: OutputPane, message: Seq<char>, now: i64) -> bool {
        &&& self.log@.len() > 0
        &&& self.log@.last()@ == message
        &&& self.log@ == OutputPane::log_with(before.log@, self.log@.last())
        &&& self.scroll == if self.log@.len() > OUTPUT_SHOWN {
            self.log@.len() - OUTPUT_SHOWN
        } else {
            0
        }
        &&& self.last_time == Some(now)
    }

    /// Adds a line.
    pub fn push(&mut self, message: String, now: i64)
        requires
            old(self).wf(),
        ensures
            final(self).wf(),
            final(self).logs(*old(self), message@, now),
    {
        self.log.push(message);
        if self.log.len() > OUTPUT_LIMIT {
            self.log.remove(0);
        }
        assert(self.log@ == OutputPane::log_with(old(self).log@, message));
        self.scroll = if self.log.len() > OUTPUT_SHOWN {
            (self.log.len() - OUTPUT_SHOWN) as u16
        } else {
            0
        };
        self.last_time = Some(now);
    }

    /// Empties the pane once nothing was added to it for long enough.
    pub fn clear_old(&mut self, now: i64)
        requires
            old(self).wf(),
        ensures
            final(self).wf(),
            match old(self).last_time {
                Some(at) if elapsed(at, now) > OUTPUT_TIME => final(self).log@.len() == 0
                    && final(self).scroll == 0 && final(self).last_time is None,
                _ => *final(self) == *old(self),
            },
    {
        if let Some(at) = self.last_time {
            if time_since(at, now) > OUTPUT_TIME {
                self.log = Vec::new();
                self.scroll = 0;
                self.last_time = None;
            }
        }
    }
}

/// The state of the front end. Moments are nanoseconds on a clock that never
/// goes back.
pub struct App {
    pub config: Config,
    pub view: View,
    pub should_quit: bool,
    pub should_restart: bool,
    pub status_message: Option<(String, i64)>,
    pub output: OutputPane,
    /// The project list.
    pub list: ProjectList,
    /// The page of the current project.
    pub detail: ProjectDetail,
    pub preview: Preview,
    pub wizard: Option<NewTaskWizard>,
    pub dir_picker: Option<DirectoryPicker>,
    pub sessions: SessionPicker,
    pub attach_session_name: Option<String>,
    pub notifs: Notifications,
    pub notes_view: Option<NotesView>,
    pub notes_return_view: View,
    pub show_prs: ShowPrs,
    pub settings: Settings,
    pub archive: Archive,
    pub project_wizard: Option<ProjectWizard>,
    pub agent_wizard: Option<AgentWizard>,
    pub project_picker: Option<ProjectPicker>,
    pub project_to_delete: Option<String>,
    pub inbox: Inbox,
    pub respawn: Respawn,
    pub telegram: Telegram,
    /// Whether a tmux popup is open.
    pub popup_open: bool,
}

/// What the front end asks of the world after an event.
#[allow(inconsistent_fields)]
pub enum Action {
    Nothing,
    /// Leave the screen and attach to a tmux session.
    Attach,
    /// Read what the project list shows.
    RefreshProjects,
    /// Read the tasks and the agents of the current project.
    RefreshProject,
    /// Read the agents of the current project, and then its tasks.
    RefreshAgentsAndTasks,
    /// Read the agents of the current project.
    RefreshAgents,
    /// Read the tasks of the current project.
    RefreshTasks,
    /// Read the tasks of the current project and select one of them.
    RefreshAndSelect(String),
    OpenChiefOfStaffChat,
    OpenProjectChat(String),
    /// Find out whether the session of an agent is there, to open it.
    OpenAgent(AgentRecord),
    /// Resume an agent.
    ResumeAgent(AgentRecord),
    /// Open a session in a popup.
    AttachAgent(String),
    /// Read the agents of the current project, and open a session in a popup.
    RefreshAndAttach(String),
    /// Put a project on hold or take it off.
    ToggleHold(String),
    DeleteProject(String),
    CreateProject { name: String, description: String },
    /// Move all tasks without a project to this one.
    MigrateUnassigned(String),
    OpenGlobalNotes,
    OpenProjectNotes(String),
    /// Fetch the issues and pull requests of the user.
    PollShowPrs,
    /// Read the log and the notes of the selected task.
    LoadPreview,
    OpenUrl(String),
    /// Open a link, and mark a notification as read where asked for.
    OpenNotification { url: String, thread_id: String, mark_read: bool },
    /// Launch the next step of a task.
    RestartTask(String),
    /// Find out where the wizard for a new task starts.
    StartWizard,
    /// Read the branches and worktrees of a repository.
    ScanRepo { name: String, path: String, multi_repo: bool },
    /// Read a directory for the picker.
    ListDir(String),
    SaveReposDir(String),
    /// Find out whether there is a task of this repository and branch.
    CheckTask { repo: String, branch: String },
    CreateTask(TaskRequest<String>),
    /// Launch the task of this name that was just created.
    LaunchTask(String),
    CreateAgent(AgentRequest),
    ListArchive(ArchiveKind),
    ToggleArchiveSaved(usize),
    DeleteArchivedTask(Task),
    DeleteArchivedAgent(AgentRecord),
    /// Find out whether the repository of an archived task is there.
    CheckRepo { at: usize, parent_dir: Option<String>, name: String },
    /// Read the branches and worktrees of the repository of an archived task,
    /// for a task whose description starts with the given text.
    ScanArchivedRepo { name: String, path: String, description: String },
    RestoreAgent { at: usize, project: String, name: String },
    /// Read the tasks and the agents of the current project, and select an agent.
    RefreshAndFind(RowKey<String>),
    /// Read the agents of the remaining tasks, and archive the selected task.
    ArchiveSelected,
    ArchiveTask { task: Task, saved: bool },
    ArchiveAgent { project: String, name: String },
    /// Make sure that the sessions of all repositories of a task are there.
    EnsureSessions,
    /// Make sure that the session of a task is there, to attach to it.
    EnsureAndAttach,
    SaveNotes(String),
    RespawnChiefOfStaff,
    /// Respawn the chief of staff, and then the managers of these projects.
    RespawnEveryone(Vec<String>),
    RespawnManager(String),
    SaveTelegram { token: Option<String>, chat_id: Option<String> },
    LoadTelegram,
    SaveRetention(u64),
    SaveHarness(HarnessKind),
    /// Save the dismissed notifications and dismiss one of them on the server.
    DismissNotification(String),
    ListNotes,
    /// List the notes after going up, and select the directory that was left.
    ListNotesAbove(Option<String>),
    DeleteNote(String),
    CreateNoteDir(String),
    CreateNote(String),
    RenameNote { path: String, new_name: String },
    /// Save what was changed, and read a note.
    OpenNote { save: Option<(String, String)>, path: String },
    MoveNote { file_name: String, down: bool },
    PasteNote { from_dir: String, file_name: String },
    /// Save a changed note; the notes stay open.
    SaveNote { path: String, content: String },
    /// Save a changed note of notes that were left.
    SaveClosedNote { path: String, content: String },
    /// Put text on the system clipboard.
    CopyText(String),
}

impl App {
    /// What every operation keeps: the editors are well-formed, what must not
    /// be edited cannot be, the selections of the dialogs lie in their lists,
    /// and the output pane is short.
    pub open spec fn wf(self) -> bool {
        &&& self.output.wf()
        &&& self.list.wf()
        &&& self.preview.wf()
        &&& (self.wizard matches Some(w) ==> w.wf())
        &&& (self.dir_picker matches Some(p) ==> p.wf())
        &&& self.sessions.wf()
        &&& (self.notes_view matches Some(v) ==> v.wf())
        &&& self.show_prs.wf()
        &&& self.settings.wf()
        &&& self.archive.wf()
        &&& (self.project_wizard matches Some(w) ==> w.wf())
        &&& (self.agent_wizard matches Some(w) ==> w.wf())
        &&& (self.project_picker matches Some(p) ==> p.wf())
        &&& self.respawn.wf()
    }

    /// The state `before`, but for a status message.
    pub open spec fn says(self, before: App, message: Seq<char>, now: i64) -> bool {
        &&& self == (App { status_message: self.status_message, ..before })
        &&& self.status_message matches Some(status) && status.0@ == message && status.1 == now
    }

    /// Shows a message in the status bar.
    pub fn set_status(&mut self, message: String, now: i64)
        ensures
            *final(self) == (App { status_message: Some((message, now)), ..*old(self) }),
    {
        self.status_message = Some((message, now));
    }

    /// Shows a fixed message in the status bar.
    pub fn say(&mut self, message: &str, now: i64)
        ensures
            final(self).says(*old(self), message@, now),
    {
        self.set_status(message.to_owned(), now);
    }

    /// Shows a message that ends in something that varies.
    pub fn say_of(&mut self, message: &str, what: &str, now: i64)
        ensures
            final(self).says(*old(self), message@ + what@, now),
    {
        self.set_status(concat(message, what), now);
    }

    /// The state `before`, but for a line added to the output pane.
    pub open spec fn logs(self, before: App, message: Seq<char>, now: i64) -> bool {
        &&& self == (App { output: self.output, ..before })
        &&& self.output.logs(before.output, message, now)
        &&& self.output.wf()
    }

    /// Adds a line to the output pane.
    pub fn log_output(&mut self, message: String, now: i64)
        requires
            old(self).output.wf(),
        ensures
            final(self).logs(*old(self), message@, now),
    {
        self.output.push(message, now);
    }

    /// The status message that is still shown at a moment.
    pub open spec fn fresh_status(self, now: i64) -> Option<(String, i64)> {
        match self.status_message {
            Some(status) => if elapsed(status.1, now) > STATUS_TIME {
                None
            } else {
                Some(status)
            },
            None => None,
        }
    }

    /// Takes a status message away once it was shown long enough.
    pub fn clear_old_status(&mut self, now: i64)
        ensures
            *final(self) == (App { status_message: old(self).fresh_status(now), ..*old(self) }),
    {
        let outdated = match &self.status_message {
            Some(status) => time_since(status.1, now) > STATUS_TIME,
            None => false,
        };
        if outdated {
            self.status_message = None;
        }
    }

    /// Empties the output pane once nothing was added to it for long enough.
    pub fn clear_old_output(&mut self, now: i64)
        requires
            old(self).wf(),
        ensures
            final(self).wf(),
            *final(self) == (App { output: final(self).output, ..*old(self) }),
            match old(self).output.last_time {
                Some(at) if elapsed(at, now) > OUTPUT_TIME => final(self).output.log@.len() == 0
                    && final(self).output.scroll == 0 && final(self).output.last_time is None,
                _ => final(self).output == old(self).output,
            },
    {
        self.output.clear_old(now);
    }

    /// A popup was closed.
    pub fn on_popup_closed(&mut self)
        ensures
            *final(self) == (App { popup_open: false, ..*old(self) }),
    {
        self.popup_open = false;
    }

    /// Leaves the notes for the view they were opened from.
    pub fn close_notes(&mut self)
        ensures
            *final(self) == (App {
                notes_view: None,
                view: old(self).notes_return_view,
                ..*old(self)
            }),
    {
        self.notes_view = None;
        self.view = self.notes_return_view;
    }
}

/// A message is shown for three seconds.
pub proof fn messages_are_shown_for_three_seconds(app: App, message: String, at: i64, now: i64)
    requires
        app.status_message == Some((message, at)),
        at <= now,
    ensures
        now - at <= 3_000_000_000 ==> app.fresh_status(now) == Some((message, at)),
        now - at > 3_000_000_000 ==> app.fresh_status(now) is None,
{
}

/// The output pane keeps the last hundred lines in their order and shows the
/// last five.
pub proof fn the_last_hundred_lines_are_kept(
    before: OutputPane,
    message: Seq<char>,
    now: i64,
    after: OutputPane,
    i: int,
)
    requires
        before.wf(),
        after.logs(before, message, now),
        0 <= i < before.log@.len(),
    ensures
        after.log@.last()@ == message,
        after.log@.len() <= 100,
        before.log@.len() < 100 ==> after.log@.len() == before.log@.len() + 1 && after.log@[i]
            == before.log@[i],
        before.log@.len() == 100 && i > 0 ==> after.log@[i - 1] == before.log@[i],
        after.log@.len() > 5 ==> after.scroll + 5 == after.log@.len(),
        after.log@.len() <= 5 ==> after.scroll == 0,
        after.last_time == Some(now),
{
}

/// What is said is shown, from that moment on for three seconds, and changes
/// nothing else.
pub proof fn what_is_said_is_shown(before: App, message: Seq<char>, at: i64, now: i64, after: App)
    requires
        after.says(before, message, at),
        at <= now,
    ensures
        now - at <= 3_000_000_000 ==> (after.fresh_status(now) matches Some(shown) && shown.0@
            == message),
        now - at > 3_000_000_000 ==> after.fresh_status(now) is None,
        after.view == before.view && after.list == before.list && after.detail == before.detail,
{
}

} // verus!
