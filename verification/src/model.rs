//! Tasks, agents, projects and the other records that the views show.

use crate::text::{concat, same_text};
use vstd::prelude::*;

verus! {

/// A pull request that a task is linked to.
#[derive(Debug, Clone)]
pub struct LinkedPr {
    pub number: u64,
    pub url: String,
    /// The user opened it.
    pub owned: bool,
    pub author: Option<String>,
}

/// A repository of a task, with its tmux session.
#[derive(Debug, Clone)]
pub struct RepoEntry {
    pub repo_name: String,
    pub tmux_session: String,
    pub worktree_path: String,
}

#[derive(Debug, Clone)]
pub struct TaskMeta {
    /// The name that a task is known by everywhere.
    pub id: String,
    pub name: String,
    pub branch_name: String,
    pub project: Option<String>,
    pub linked_pr: Option<LinkedPr>,
    pub repos: Vec<RepoEntry>,
    pub multi_repo: bool,
    pub parent_dir: Option<String>,
    pub saved: bool,
    /// When the task was archived, in nanoseconds since the epoch.
    pub archived_at: Option<i64>,
}

#[derive(Debug, Clone)]
pub struct Task {
    pub meta: TaskMeta,
}

impl Task {
    pub open spec fn id(self) -> Seq<char> {
        self.meta.id@
    }
}

impl TaskMeta {
    /// The name that a task is known by everywhere.
    pub fn task_id(&self) -> (id: String)
        ensures
            id == self.id,
    {
        self.id.clone()
    }

    #[verifier::allow_in_spec]
    pub fn is_multi_repo(&self) -> bool
        returns
            self.multi_repo,
    {
        self.multi_repo
    }

    pub fn has_repos(&self) -> (has: bool)
        ensures
            has == (self.repos.len() > 0),
    {
        self.repos.len() > 0
    }
}

#[derive(Debug, Clone, Copy, PartialEq, Eq, Structural)]
pub enum AgentKind {
    Engineer,
    Researcher,
    Operator,
    Reviewer,
    Tester,
}

impl AgentKind {
    /// The stem of the word for the kind: what its agents do.
    #[verifier::allow_in_spec]
    pub fn stem(self) -> &'static str
        returns
            (match self {
                AgentKind::Engineer => "engine",
                AgentKind::Researcher => "research",
                AgentKind::Operator => "operat",
                AgentKind::Reviewer => "review",
                AgentKind::Tester => "test",
            }),
    {
        match self {
            AgentKind::Engineer => "engine",
            AgentKind::Researcher => "research",
            AgentKind::Operator => "operat",
            AgentKind::Reviewer => "review",
            AgentKind::Tester => "test",
        }
    }

    /// The ending of the word for the kind.
    #[verifier::allow_in_spec]
    pub fn ending(self) -> &'static str
        returns
            (if self is Operator {
                "or"
            } else {
                "er"
            }),
    {
        if matches!(self, AgentKind::Operator) {
            "or"
        } else {
            "er"
        }
    }

    /// The word for the kind.
    pub open spec fn word(self) -> Seq<char> {
        self.stem()@ + self.ending()@
    }
}

/// The word for an agent's kind.
pub fn agent_kind_label(kind: AgentKind) -> (word: String)
    ensures
        word@ == kind.word(),
{
    concat(kind.stem(), kind.ending())
}

#[derive(Debug, Clone, Copy, PartialEq, Eq, Structural)]
pub enum AgentStatus {
    Active,
    Archived,
}

/// What an agent works for: a task, or nothing in particular.
#[derive(Debug, Clone)]
pub enum AgentAttachment {
    Task { task_id: String },
    Unattached,
}

#[derive(Debug, Clone)]
pub struct AgentMeta {
    pub project: String,
    pub name: String,
    pub kind: AgentKind,
    pub status: AgentStatus,
    pub attachment: AgentAttachment,
    pub description: String,
    /// Nanoseconds since the epoch.
    pub created_at: i64,
    /// Nanoseconds since the epoch.
    pub updated_at: i64,
    /// The tmux session that the agent runs in.
    pub session_name: String,
}

#[derive(Debug, Clone)]
pub struct AgentRecord {
    pub meta: AgentMeta,
}

/// The tmux session that an agent runs in.
pub fn agent_session_name(agent: &AgentRecord) -> (name: String)
    ensures
        name == agent.meta.session_name,
{
    agent.meta.session_name.clone()
}

#[derive(Debug, Clone)]
pub struct ProjectMeta {
    pub name: String,
    pub description: String,
    pub held: bool,
}

#[derive(Debug, Clone)]
pub struct Project {
    pub meta: ProjectMeta,
}

/// A file or a directory among the notes.
#[derive(Debug, Clone)]
pub struct NoteEntry {
    pub name: String,
    pub file_name: String,
    pub is_dir: bool,
}

#[derive(Debug, Clone)]
pub struct GithubNotification {
    pub id: String,
    pub title: String,
    pub reason: String,
    pub subject_type: String,
    pub repo_full_name: String,
    pub updated_at: String,
    pub browser_url: String,
    pub unread: bool,
}

#[derive(Debug, Clone)]
pub struct GithubItem {
    pub number: u64,
    pub title: String,
    pub repo_full_name: String,
    pub state: String,
    pub url: String,
    pub updated_at: String,
    pub author: String,
    pub is_draft: bool,
}

/// Issues and pull requests of the user.
#[derive(Debug, Clone)]
pub struct ShowPrsData {
    pub issues: Vec<GithubItem>,
    pub my_prs: Vec<GithubItem>,
    pub review_requests: Vec<GithubItem>,
}

impl Default for ShowPrsData {
    fn default() -> (data: Self)
        ensures
            data.issues@.len() == 0,
            data.my_prs@.len() == 0,
            data.review_requests@.len() == 0,
    {
        ShowPrsData { issues: Vec::new(), my_prs: Vec::new(), review_requests: Vec::new() }
    }
}

/// The agent CLIs that agents can run on.
#[derive(Debug, Clone, Copy, PartialEq, Eq, Structural)]
pub enum HarnessKind {
    Claude,
    Codex,
    Goose,
    Pi,
}

/// The name of the scope that holds the tasks without a project.
pub open spec fn unassigned() -> Seq<char> {
    "(unassigned)"@
}

/// Whether a project name stands for the tasks without a project.
pub fn is_unassigned(name: &str) -> (yes: bool)
    ensures
        yes == (name@ == unassigned()),
{
    same_text(name, "(unassigned)")
}

} // verus!
