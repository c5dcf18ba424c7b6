//! What agents are doing, as far as their tmux windows show it, and the counts
//! that the project list shows.

use crate::model::{AgentRecord, AgentStatus, Project, Task};
use crate::table::{has_string, insert_string, Table};
use crate::text::same_text;
use vstd::prelude::*;

verus! {

/// A second in nanoseconds.
pub const SECOND: u64 = 1_000_000_000;

/// How long after its last output an agent still counts as working.
pub const ASSISTANT_WORKING_GRACE: u64 = 10_000_000_000;

/// The longest duration there is.
pub const FOREVER: u64 = u64::MAX;

/// What tmux reports of a window.
pub struct TmuxWindowActivity {
    pub session_name: String,
    /// Seconds since the epoch of the last output.
    pub window_activity: Option<i64>,
    pub pane_current_command: String,
    /// The command in the foreground is a shell.
    pub pane_runs_shell: bool,
    pub pane_dead: bool,
}

/// What was last seen of an agent. Moments are nanoseconds on a clock that
/// never goes back.
pub struct AgentActivitySample {
    pub last_tmux_activity_epoch: Option<i64>,
    pub last_observed_work_at: Option<i64>,
    pub foreground_command: String,
    /// The command in the foreground is a shell.
    pub foreground_is_shell: bool,
    pub pane_dead: bool,
    pub query_ok: bool,
}

/// The seconds from `then` to `now`, none if `then` lies ahead; a span too long
/// for 64 bits is cut off at the longest.
pub open spec fn age_secs(now: i64, then: i64) -> int {
    if now - then > i64::MAX {
        i64::MAX as int
    } else if now < then {
        0
    } else {
        now - then
    }
}

/// When the work last seen in a window happened, if the clock reaches back
/// that far.
pub open spec fn work_moment(
    activity: Option<i64>,
    observed_at: i64,
    now_epoch_secs: Option<i64>,
) -> Option<i64> {
    match (activity, now_epoch_secs) {
        (Some(then), Some(now)) => {
            let moment = observed_at - age_secs(now, then) * SECOND;
            if moment >= i64::MIN {
                Some(moment as i64)
            } else {
                None
            }
        },
        _ => None,
    }
}

/// The sample that a window gives.
pub open spec fn sample_of(
    window: TmuxWindowActivity,
    observed_at: i64,
    now_epoch_secs: Option<i64>,
) -> AgentActivitySample {
    AgentActivitySample {
        last_tmux_activity_epoch: window.window_activity,
        last_observed_work_at: work_moment(window.window_activity, observed_at, now_epoch_secs),
        foreground_command: window.pane_current_command,
        foreground_is_shell: window.pane_runs_shell,
        pane_dead: window.pane_dead,
        query_ok: true,
    }
}

impl AgentActivitySample {
    pub fn from_tmux_window(
        activity: &TmuxWindowActivity,
        observed_at: i64,
        now_epoch_secs: Option<i64>,
    ) -> (sample: Self)
        ensures
            sample == sample_of(*activity, observed_at, now_epoch_secs),
    {
        let last_observed_work_at = match (activity.window_activity, now_epoch_secs) {
            (Some(activity_epoch), Some(now_epoch)) => {
                let span: i128 = now_epoch as i128 - activity_epoch as i128;
                let age: i128 = if span > i64::MAX as i128 {
                    i64::MAX as i128
                } else if span < 0 {
                    0
                } else {
                    span
                };
                let moment: i128 = observed_at as i128 - age * SECOND as i128;
                if moment >= i64::MIN as i128 {
                    Some(moment as i64)
                } else {
                    None
                }
            },
            _ => None,
        };
        AgentActivitySample {
            last_tmux_activity_epoch: activity.window_activity,
            last_observed_work_at,
            foreground_command: activity.pane_current_command.clone(),
            foreground_is_shell: activity.pane_runs_shell,
            pane_dead: activity.pane_dead,
            query_ok: true,
        }
    }

    pub fn foreground_command_is_shell(&self) -> (is_shell: bool)
        ensures
            is_shell == self.foreground_is_shell,
    {
        self.foreground_is_shell
    }

    /// How long ago work was last seen; forever, if it never was.
    pub open spec fn age(self, now: i64) -> int {
        match (self.last_tmux_activity_epoch, self.last_observed_work_at) {
            (Some(_), Some(at)) => if at <= now {
                now - at
            } else {
                0
            },
            _ => FOREVER as int,
        }
    }

    /// How long ago work was last seen; forever, if it never was.
    pub fn activity_age(&self, now: i64) -> (age: u64)
        ensures
            age == self.age(now),
    {
        if self.last_tmux_activity_epoch.is_none() {
            return FOREVER;
        }
        match self.last_observed_work_at {
            Some(at) => if at <= now {
                (now as i128 - at as i128) as u64
            } else {
                0
            },
            None => FOREVER,
        }
    }
}

#[derive(Debug, Clone, Copy, PartialEq, Eq, Structural)]
pub enum WorkingIdle {
    Working,
    Idle,
}

/// An agent works if its window could be read, is alive, runs something other
/// than a shell, and showed output within the grace period.
pub open spec fn is_working(now: i64, sample: Option<AgentActivitySample>) -> bool {
    match sample {
        Some(s) => s.query_ok && !s.pane_dead && !s.foreground_is_shell && s.age(now)
            <= ASSISTANT_WORKING_GRACE,
        None => false,
    }
}

/// Whether an agent is working.
pub fn classify_agent_status(now: i64, sample: Option<&AgentActivitySample>) -> (status:
    WorkingIdle)
    ensures
        status == if is_working(
            now,
            match sample {
                Some(s) => Some(*s),
                None => None,
            },
        ) {
            WorkingIdle::Working
        } else {
            WorkingIdle::Idle
        },
{
    match sample {
        None => WorkingIdle::Idle,
        Some(sample) => {
            if !sample.query_ok || sample.pane_dead || sample.foreground_command_is_shell() {
                return WorkingIdle::Idle;
            }
            if sample.activity_age(now) <= ASSISTANT_WORKING_GRACE {
                WorkingIdle::Working
            } else {
                WorkingIdle::Idle
            }
        },
    }
}

/// The seconds since the epoch as a signed number, if the clock is past the
/// epoch and the number fits.
pub fn unix_epoch_secs(since_epoch: Option<u64>) -> (secs: Option<i64>)
    ensures
        secs == match since_epoch {
            Some(n) => if n <= i64::MAX {
                Some(n as i64)
            } else {
                None
            },
            None => None,
        },
{
    match since_epoch {
        Some(n) => if n <= i64::MAX as u64 {
            Some(n as i64)
        } else {
            None
        },
        None => None,
    }
}

/// Whether activity `a` is newer than `b`; anything is newer than none.
pub open spec fn newer(a: Option<i64>, b: Option<i64>) -> bool {
    match (a, b) {
        (Some(x), Some(y)) => x > y,
        (Some(_), None) => true,
        _ => false,
    }
}

fn is_newer(a: Option<i64>, b: Option<i64>) -> (yes: bool)
    ensures
        yes == newer(a, b),
{
    match (a, b) {
        (Some(x), Some(y)) => x > y,
        (Some(_), None) => true,
        _ => false,
    }
}

/// The window of a session with the newest activity, the first one of equals.
pub open spec fn newest_window(windows: Seq<TmuxWindowActivity>, session: Seq<char>) -> Option<
    TmuxWindowActivity,
>
    decreases windows.len(),
{
    if windows.len() == 0 {
        None
    } else {
        let best = newest_window(windows.drop_last(), session);
        let last = windows.last();
        if last.session_name@ == session && (best is None || newer(
            last.window_activity,
            best->0.window_activity,
        )) {
            Some(last)
        } else {
            best
        }
    }
}

/// The sample of each active session that has a window.
pub open spec fn sampled(
    active_sessions: Seq<String>,
    windows: Seq<TmuxWindowActivity>,
    observed_at: i64,
    now_epoch_secs: Option<i64>,
    session: Seq<char>,
) -> Option<AgentActivitySample> {
    match newest_window(windows, session) {
        Some(window) => if has_string(active_sessions, session) {
            Some(sample_of(window, observed_at, now_epoch_secs))
        } else {
            None
        },
        None => None,
    }
}

/// Where the newest window of a session stands.
fn find_newest_window(windows: &Vec<TmuxWindowActivity>, session: &String) -> (at: Option<usize>)
    ensures
        match at {
            Some(i) => i < windows.len() && newest_window(windows@, session@) == Some(
                windows@[i as int],
            ),
            None => newest_window(windows@, session@) is None,
        },
{
    let mut best: Option<usize> = None;
    let mut i: usize = 0;
    while i < windows.len()
        invariant
            i <= windows.len(),
            match best {
                Some(b) => b < windows.len() && newest_window(windows@.take(i as int), session@)
                    == Some(windows@[b as int]),
                None => newest_window(windows@.take(i as int), session@) is None,
            },
        decreases windows.len() - i,
    {
        assert(windows@.take(i + 1).drop_last() == windows@.take(i as int));
        if windows[i].session_name == *session {
            let replace = match best {
                Some(b) => is_newer(windows[i].window_activity, windows[b].window_activity),
                None => true,
            };
            if replace {
                best = Some(i);
            }
        }
        i += 1;
    }
    assert(windows@.take(i as int) == windows@);
    best
}

/// The samples of the active sessions.
pub fn sample_sessions(
    active_sessions: &Vec<String>,
    windows: &Vec<TmuxWindowActivity>,
    observed_at: i64,
    now_epoch_secs: Option<i64>,
) -> (samples: Table<AgentActivitySample>)
    ensures
        forall|session: Seq<char>| #[trigger]
            samples.at(session) == sampled(
                active_sessions@,
                windows@,
                observed_at,
                now_epoch_secs,
                session,
            ),
{
    let mut samples: Table<AgentActivitySample> = Table::new();
    let mut i: usize = 0;
    while i < active_sessions.len()
        invariant
            i <= active_sessions.len(),
            forall|session: Seq<char>| #[trigger]
                samples.at(session) == sampled(
                    active_sessions@.take(i as int),
                    windows@,
                    observed_at,
                    now_epoch_secs,
                    session,
                ),
        decreases active_sessions.len() - i,
    {
        let ghost before = samples;
        let ghost here = active_sessions@.take(i as int);
        let ghost more = active_sessions@.take(i + 1);
        proof {
            assert(more == here.push(active_sessions@[i as int]));
            assert forall|session: Seq<char>| #[trigger]
                has_string(more, session) == (has_string(here, session) || session
                    == active_sessions@[i as int]@) by {
                if has_string(here, session) {
                    let k = choose|k: int| 0 <= k < here.len() && #[trigger] here[k]@ == session;
                    assert(more[k]@ == session);
                }
                if session == active_sessions@[i as int]@ {
                    assert(more[i as int]@ == session);
                }
            }
        }
        if let Some(w) = find_newest_window(windows, &active_sessions[i]) {
            samples.insert(
                active_sessions[i].clone(),
                AgentActivitySample::from_tmux_window(&windows[w], observed_at, now_epoch_secs),
            );
        }
        assert forall|session: Seq<char>| #[trigger]
            samples.at(session) == sampled(
                more,
                windows@,
                observed_at,
                now_epoch_secs,
                session,
            ) by {
            assert(before.at(session) == sampled(
                here,
                windows@,
                observed_at,
                now_epoch_secs,
                session,
            ));
            assert(has_string(more, session) == (has_string(here, session) || session
                == active_sessions@[i as int]@));
        }
        i += 1;
    }
    assert(active_sessions@.take(i as int) == active_sessions@);
    samples
}

/// The samples of the active sessions, and the error if the windows could not
/// be listed. With no active session the windows do not matter.
pub fn build_agent_activity_snapshot(
    active_sessions: &Vec<String>,
    windows: Result<Vec<TmuxWindowActivity>, String>,
    observed_at: i64,
    now_epoch_secs: Option<i64>,
) -> (snapshot: (Table<AgentActivitySample>, Option<String>))
    ensures
        snapshot.1 == match windows {
            Err(e) => if active_sessions@.len() > 0 {
                Some(e)
            } else {
                None
            },
            Ok(_) => None,
        },
        forall|session: Seq<char>| #[trigger]
            snapshot.0.at(session) == match windows {
                Ok(list) => sampled(
                    active_sessions@,
                    list@,
                    observed_at,
                    now_epoch_secs,
                    session,
                ),
                Err(_) => None,
            },
{
    if active_sessions.len() == 0 {
        return (Table::new(), None);
    }
    match windows {
        Ok(list) => (
            sample_sessions(active_sessions, &list, observed_at, now_epoch_secs),
            None,
        ),
        Err(e) => (Table::new(), Some(e)),
    }
}

/// Everything that the project list shows.
pub struct ProjectRefreshSnapshot {
    pub projects: Vec<Project>,
    pub project_task_counts: Table<usize>,
    pub project_agent_counts: Table<usize>,
    pub project_active_agent_counts: Table<usize>,
    pub unassigned_task_count: usize,
    pub agent_activity: Table<AgentActivitySample>,
    pub project_list_error: Option<String>,
    pub agent_list_error: Option<String>,
    pub agent_activity_error: Option<String>,
}

impl ProjectRefreshSnapshot {
    /// The empty snapshot of a refresh that failed.
    pub fn worker_failed(error: String) -> (snapshot: Self)
        ensures
            snapshot.projects@.len() == 0,
            snapshot.project_task_counts.entries@.len() == 0,
            snapshot.project_agent_counts.entries@.len() == 0,
            snapshot.project_active_agent_counts.entries@.len() == 0,
            snapshot.unassigned_task_count == 0,
            snapshot.agent_activity.entries@.len() == 0,
            snapshot.project_list_error == Some(error),
            snapshot.agent_list_error is None,
            snapshot.agent_activity_error is None,
    {
        ProjectRefreshSnapshot {
            projects: Vec::new(),
            project_task_counts: Table::new(),
            project_agent_counts: Table::new(),
            project_active_agent_counts: Table::new(),
            unassigned_task_count: 0,
            agent_activity: Table::new(),
            project_list_error: Some(error),
            agent_list_error: None,
            agent_activity_error: None,
        }
    }
}

/// How many of the things belong to a project.
pub open spec fn count_of(owners: Seq<Option<Seq<char>>>, project: Seq<char>) -> nat
    decreases owners.len(),
{
    if owners.len() == 0 {
        0
    } else {
        count_of(owners.drop_last(), project) + if owners.last() == Some(project) {
            1nat
        } else {
            0
        }
    }
}

/// How many of the things belong to no project.
pub open spec fn ownerless(owners: Seq<Option<Seq<char>>>) -> nat
    decreases owners.len(),
{
    if owners.len() == 0 {
        0
    } else {
        ownerless(owners.drop_last()) + if owners.last() is None {
            1nat
        } else {
            0
        }
    }
}

/// A table that holds the counts above zero.
pub open spec fn holds_counts(counts: Table<usize>, owners: Seq<Option<Seq<char>>>) -> bool {
    forall|project: Seq<char>| #[trigger]
        counts.at(project) == if count_of(owners, project) == 0 {
            None::<usize>
        } else {
            Some(count_of(owners, project) as usize)
        }
}

pub proof fn count_bounded(owners: Seq<Option<Seq<char>>>, project: Seq<char>)
    ensures
        count_of(owners, project) <= owners.len(),
        ownerless(owners) <= owners.len(),
    decreases owners.len(),
{
    if owners.len() > 0 {
        count_bounded(owners.drop_last(), project);
    }
}

/// Counts one more thing of a project.
fn count_one(counts: &mut Table<usize>, project: &String, Ghost(owners): Ghost<
    Seq<Option<Seq<char>>>,
>)
    requires
        holds_counts(*old(counts), owners),
        owners.len() < usize::MAX,
    ensures
        holds_counts(*final(counts), owners.push(Some(project@))),
{
    let ghost more = owners.push(Some(project@));
    proof {
        count_bounded(owners, project@);
        assert(more.drop_last() == owners);
        assert(counts.at(project@) == counts.at(project@));
    }
    let n: usize = match counts.get(project.as_str()) {
        Some(n) => *n,
        None => 0,
    };
    let ghost before = *counts;
    counts.insert(project.clone(), n + 1);
    assert forall|p: Seq<char>| #[trigger]
        counts.at(p) == if count_of(more, p) == 0 {
            None::<usize>
        } else {
            Some(count_of(more, p) as usize)
        } by {
        assert(before.at(p) == if count_of(owners, p) == 0 {
            None::<usize>
        } else {
            Some(count_of(owners, p) as usize)
        });
    }
}

proof fn count_none(counts: Table<usize>, owners: Seq<Option<Seq<char>>>)
    requires
        holds_counts(counts, owners),
    ensures
        holds_counts(counts, owners.push(None)),
{
    let more = owners.push(None);
    assert(more.drop_last() == owners);
    assert forall|p: Seq<char>| #[trigger]
        counts.at(p) == if count_of(more, p) == 0 {
            None::<usize>
        } else {
            Some(count_of(more, p) as usize)
        } by {
        assert(counts.at(p) == if count_of(owners, p) == 0 {
            None::<usize>
        } else {
            Some(count_of(owners, p) as usize)
        });
    }
}

/// The project that each task belongs to.
pub open spec fn task_owners(tasks: Seq<Task>) -> Seq<Option<Seq<char>>> {
    Seq::new(
        tasks.len(),
        |i: int|
            match tasks[i].meta.project {
                Some(p) => Some(p@),
                None => None,
            },
    )
}

/// An agent that the project list counts: of a project, and not archived.
pub open spec fn is_counted(agent: AgentRecord) -> bool {
    agent.meta.project@ != "chief-of-staff"@ && agent.meta.status != AgentStatus::Archived
}

/// The project that each counted agent belongs to.
pub open spec fn agent_owners(agents: Seq<AgentRecord>) -> Seq<Option<Seq<char>>> {
    Seq::new(
        agents.len(),
        |i: int| if is_counted(agents[i]) { Some(agents[i].meta.project@) } else { None },
    )
}

/// The project that each working agent belongs to.
pub open spec fn working_owners(
    agents: Seq<AgentRecord>,
    activity: Table<AgentActivitySample>,
    now: i64,
) -> Seq<Option<Seq<char>>> {
    Seq::new(
        agents.len(),
        |i: int|
            if is_counted(agents[i]) && is_working(
                now,
                activity.at(agents[i].meta.session_name@),
            ) {
                Some(agents[i].meta.project@)
            } else {
                None
            },
    )
}

/// No project has more agents that work than agents.
pub proof fn no_more_work_than_agents(
    agents: Seq<AgentRecord>,
    activity: Table<AgentActivitySample>,
    now: i64,
    project: Seq<char>,
)
    ensures
        count_of(working_owners(agents, activity, now), project) <= count_of(
            agent_owners(agents),
            project,
        ),
    decreases agents.len(),
{
    let working = working_owners(agents, activity, now);
    let all = agent_owners(agents);
    if agents.len() > 0 {
        let rest = agents.drop_last();
        no_more_work_than_agents(rest, activity, now, project);
        assert(working.drop_last() =~= working_owners(rest, activity, now));
        assert(all.drop_last() =~= agent_owners(rest));
    }
}

/// Every task is counted once: for its project, or among those without one.
pub proof fn every_task_is_counted(owners: Seq<Option<Seq<char>>>, project: Seq<char>)
    ensures
        count_of(owners, project) + ownerless(owners) <= owners.len(),
        (forall|i: int|
            0 <= i < owners.len() ==> (#[trigger] owners[i]) == Some(project) || owners[i]
                is None) ==> count_of(owners, project) + ownerless(owners) == owners.len(),
    decreases owners.len(),
{
    if owners.len() > 0 {
        every_task_is_counted(owners.drop_last(), project);
        assert(owners.last() == owners[owners.len() - 1]);
        assert forall|i: int| 0 <= i < owners.len() - 1 implies #[trigger] owners.drop_last()[i]
            == owners[i] by {}
    }
}

/// A session is that of a counted agent.
pub open spec fn is_counted_session(agents: Seq<AgentRecord>, session: Seq<char>) -> bool {
    exists|i: int|
        0 <= i < agents.len() && is_counted(#[trigger] agents[i])
            && agents[i].meta.session_name@ == session
}

/// Whether the project list counts an agent.
fn counts_agent(agent: &AgentRecord) -> (yes: bool)
    ensures
        yes == is_counted(*agent),
{
    !same_text(agent.meta.project.as_str(), "chief-of-staff") && agent.meta.status
        != AgentStatus::Archived
}

/// Projects on hold after the others, each group in the order it had.
pub open spec fn held_last(projects: Seq<Project>) -> Seq<Project> {
    projects.filter(|p: Project| !p.meta.held) + projects.filter(|p: Project| p.meta.held)
}

/// Sorts held projects to the bottom.
pub fn sort_held_last(projects: Vec<Project>) -> (sorted: Vec<Project>)
    ensures
        sorted@ == held_last(projects@),
{
    let ghost all = projects@;
    let mut free: Vec<Project> = Vec::new();
    let mut held: Vec<Project> = Vec::new();
    for project in it: projects
        invariant
            it.seq() == all,
            free@ == all.take(it.index() as int).filter(|p: Project| !p.meta.held),
            held@ == all.take(it.index() as int).filter(|p: Project| p.meta.held),
    {
        proof {
            let here = all.take(it.index() as int);
            assert(all.take(it.index() + 1) == here.push(project));
            here.lemma_filter_push(project, |p: Project| !p.meta.held);
            here.lemma_filter_push(project, |p: Project| p.meta.held);
        }
        if project.meta.held {
            held.push(project);
        } else {
            free.push(project);
        }
    }
    assert(all.take(all.len() as int) == all);
    free.append(&mut held);
    free
}

/// Counts the tasks of each project, and those of none.
fn count_tasks(tasks: &Vec<Task>) -> (counts: (Table<usize>, usize))
    ensures
        holds_counts(counts.0, task_owners(tasks@)),
        counts.1 == ownerless(task_owners(tasks@)),
{
    let mut counts: Table<usize> = Table::new();
    let mut without: usize = 0;
    let mut i: usize = 0;
    let ghost owners = task_owners(tasks@);
    while i < tasks.len()
        invariant
            i <= tasks.len(),
            owners == task_owners(tasks@),
            holds_counts(counts, owners.take(i as int)),
            without == ownerless(owners.take(i as int)),
            without <= i,
        decreases tasks.len() - i,
    {
        let ghost here = owners.take(i as int);
        assert(owners.take(i + 1) == here.push(owners[i as int]));
        assert(here.push(owners[i as int]).drop_last() == here);
        match &tasks[i].meta.project {
            Some(project) => {
                count_one(&mut counts, project, Ghost(here));
            },
            None => {
                proof {
                    count_none(counts, here);
                }
                without += 1;
            },
        }
        i += 1;
    }
    assert(owners.take(i as int) == owners);
    (counts, without)
}

/// The sessions of the counted agents, and how many there are in each project.
fn count_agents(agents: &Vec<AgentRecord>) -> (counted: (Table<usize>, Vec<String>))
    ensures
        holds_counts(counted.0, agent_owners(agents@)),
        forall|session: Seq<char>| #[trigger]
            has_string(counted.1@, session) == is_counted_session(agents@, session),
{
    let mut counts: Table<usize> = Table::new();
    let mut sessions: Vec<String> = Vec::new();
    let mut i: usize = 0;
    let ghost owners = agent_owners(agents@);
    while i < agents.len()
        invariant
            i <= agents.len(),
            owners == agent_owners(agents@),
            holds_counts(counts, owners.take(i as int)),
            forall|session: Seq<char>| #[trigger]
                has_string(sessions@, session) == is_counted_session(
                    agents@.take(i as int),
                    session,
                ),
        decreases agents.len() - i,
    {
        let ghost here = owners.take(i as int);
        let ghost seen = agents@.take(i as int);
        let ghost more = agents@.take(i + 1);
        let ghost known = sessions@;
        assert(owners.take(i + 1) == here.push(owners[i as int]));
        proof {
            assert forall|session: Seq<char>| #[trigger]
                is_counted_session(more, session) == (is_counted_session(seen, session) || (
                is_counted(agents@[i as int]) && agents@[i as int].meta.session_name@
                    == session)) by {
                if is_counted_session(seen, session) {
                    let k = choose|k: int|
                        0 <= k < seen.len() && is_counted(#[trigger] seen[k])
                            && seen[k].meta.session_name@ == session;
                    assert(more[k] == seen[k]);
                }
                if is_counted(agents@[i as int]) && agents@[i as int].meta.session_name@
                    == session {
                    assert(more[i as int] == agents@[i as int]);
                }
                if is_counted_session(more, session) {
                    let k = choose|k: int|
                        0 <= k < more.len() && is_counted(#[trigger] more[k])
                            && more[k].meta.session_name@ == session;
                    if k < i {
                        assert(seen[k] == more[k]);
                    }
                }
            }
        }
        if counts_agent(&agents[i]) {
            insert_string(&mut sessions, agents[i].meta.session_name.clone());
            count_one(&mut counts, &agents[i].meta.project, Ghost(here));
        } else {
            proof {
                count_none(counts, here);
            }
        }
        assert forall|session: Seq<char>| #[trigger]
            has_string(sessions@, session) == is_counted_session(more, session) by {
            assert(has_string(known, session) == is_counted_session(seen, session));
            assert(is_counted_session(more, session) == (is_counted_session(seen, session) || (
            is_counted(agents@[i as int]) && agents@[i as int].meta.session_name@ == session)));
        }
        i += 1;
    }
    assert(owners.take(i as int) == owners);
    assert(agents@.take(i as int) == agents@);
    (counts, sessions)
}

/// Counts the working agents of each project.
fn count_working(agents: &Vec<AgentRecord>, activity: &Table<AgentActivitySample>, now: i64) -> (
    counts: Table<usize>)
    ensures
        holds_counts(counts, working_owners(agents@, *activity, now)),
{
    let mut counts: Table<usize> = Table::new();
    let mut i: usize = 0;
    let ghost owners = working_owners(agents@, *activity, now);
    while i < agents.len()
        invariant
            i <= agents.len(),
            owners == working_owners(agents@, *activity, now),
            holds_counts(counts, owners.take(i as int)),
        decreases agents.len() - i,
    {
        let ghost here = owners.take(i as int);
        assert(owners.take(i + 1) == here.push(owners[i as int]));
        let agent = &agents[i];
        let working = counts_agent(agent) && classify_agent_status(
            now,
            activity.get(agent.meta.session_name.as_str()),
        ) == WorkingIdle::Working;
        if working {
            count_one(&mut counts, &agent.meta.project, Ghost(here));
        } else {
            proof {
                count_none(counts, here);
            }
        }
        i += 1;
    }
    assert(owners.take(i as int) == owners);
    counts
}

/// What was read from disk and from tmux for a refresh of the project list.
pub struct ProjectSources {
    pub projects: Result<Vec<Project>, String>,
    pub tasks: Vec<Task>,
    pub agents: Result<Vec<AgentRecord>, String>,
    pub windows: Result<Vec<TmuxWindowActivity>, String>,
    pub observed_at: i64,
    pub now_epoch_secs: Option<i64>,
}

impl ProjectSources {
    pub open spec fn listed_projects(self) -> Seq<Project> {
        match self.projects {
            Ok(list) => list@,
            Err(_) => Seq::empty(),
        }
    }

    pub open spec fn listed_agents(self) -> Seq<AgentRecord> {
        match self.agents {
            Ok(list) => list@,
            Err(_) => Seq::empty(),
        }
    }

    pub open spec fn has_sessions(self) -> bool {
        exists|session: Seq<char>| #[trigger] is_counted_session(self.listed_agents(), session)
    }
}

/// The snapshot shows what was read: held projects last, how many tasks and
/// agents each project has, and which agents work.
pub open spec fn shows_sources(snapshot: ProjectRefreshSnapshot, sources: ProjectSources) -> bool {
    let agents = sources.listed_agents();
    &&& snapshot.projects@ == held_last(sources.listed_projects())
    &&& snapshot.project_list_error == match sources.projects {
        Ok(_) => None,
        Err(e) => Some(e),
    }
    &&& holds_counts(snapshot.project_task_counts, task_owners(sources.tasks@))
    &&& snapshot.unassigned_task_count == ownerless(task_owners(sources.tasks@))
    &&& holds_counts(snapshot.project_agent_counts, agent_owners(agents))
    &&& snapshot.agent_list_error == match sources.agents {
        Ok(_) => None,
        Err(e) => Some(e),
    }
    &&& snapshot.agent_activity_error == match sources.windows {
        Err(e) => if sources.has_sessions() {
            Some(e)
        } else {
            None
        },
        Ok(_) => None,
    }
    &&& forall|session: Seq<char>| #[trigger]
        snapshot.agent_activity.at(session) == match sources.windows {
            Err(_) => None,
            Ok(windows) => match newest_window(windows@, session) {
                Some(window) => if is_counted_session(agents, session) {
                    Some(sample_of(window, sources.observed_at, sources.now_epoch_secs))
                } else {
                    None
                },
                None => None,
            },
        }
    &&& holds_counts(
        snapshot.project_active_agent_counts,
        working_owners(agents, snapshot.agent_activity, sources.observed_at),
    )
}

/// The snapshot of what was read for a refresh of the project list.
pub fn build_project_refresh_snapshot(sources: ProjectSources) -> (snapshot: ProjectRefreshSnapshot)
    ensures
        shows_sources(snapshot, sources),
{
    let mut project_list_error: Option<String> = None;
    let projects = match sources.projects {
        Ok(projects) => projects,
        Err(e) => {
            project_list_error = Some(e);
            Vec::new()
        },
    };
    assert(projects@ == sources.listed_projects());
    let projects = sort_held_last(projects);
    let (project_task_counts, unassigned_task_count) = count_tasks(&sources.tasks);
    let mut agent_list_error: Option<String> = None;
    let agents = match sources.agents {
        Ok(agents) => agents,
        Err(e) => {
            agent_list_error = Some(e);
            Vec::new()
        },
    };
    assert(agents@ == sources.listed_agents());
    let (project_agent_counts, active_sessions) = count_agents(&agents);
    let (agent_activity, agent_activity_error) = build_agent_activity_snapshot(
        &active_sessions,
        sources.windows,
        sources.observed_at,
        sources.now_epoch_secs,
    );
    let project_active_agent_counts = count_working(
        &agents,
        &agent_activity,
        sources.observed_at,
    );
    proof {
        if active_sessions@.len() > 0 {
            let session = active_sessions@[0]@;
            assert(has_string(active_sessions@, session));
            assert(is_counted_session(agents@, session));
        }
        if sources.has_sessions() {
            let session = choose|session: Seq<char>| #[trigger]
                is_counted_session(agents@, session);
            assert(has_string(active_sessions@, session));
        }
        assert forall|session: Seq<char>| #[trigger]
            agent_activity.at(session) == match sources.windows {
                Err(_) => None,
                Ok(windows) => match newest_window(windows@, session) {
                    Some(window) => if is_counted_session(agents@, session) {
                        Some(sample_of(window, sources.observed_at, sources.now_epoch_secs))
                    } else {
                        None
                    },
                    None => None,
                },
            } by {
            assert(has_string(active_sessions@, session) == is_counted_session(agents@, session));
        }
    }
    ProjectRefreshSnapshot {
        projects,
        project_task_counts,
        project_agent_counts,
        project_active_agent_counts,
        unassigned_task_count,
        agent_activity,
        project_list_error,
        agent_list_error,
        agent_activity_error,
    }
}

/// An agent whose window showed output in the last ten seconds, runs something
/// other than a shell and is alive counts as working, and no other does.
pub proof fn agents_work_while_they_show_output(
    window: TmuxWindowActivity,
    then: i64,
    observed_at: i64,
    now_epoch: i64,
)
    requires
        window.window_activity == Some(then),
        0 <= then <= now_epoch <= 0x1_0000_0000,
        observed_at >= 0,
    ensures
        is_working(observed_at, Some(sample_of(window, observed_at, Some(now_epoch)))) <==> now_epoch
            - then <= 10 && !window.pane_dead && !window.pane_runs_shell,
{
    assert((now_epoch - then) * SECOND <= 10 * SECOND <==> now_epoch - then <= 10)
        by (nonlinear_arith)
        requires
            SECOND > 0,
    ;
    assert(0 <= (now_epoch - then) * SECOND <= 0x1_0000_0000 * SECOND) by (nonlinear_arith)
        requires
            0 <= now_epoch - then <= 0x1_0000_0000,
            SECOND > 0,
    ;
}

/// An agent of which nothing was seen, or no output, or whose window could not
/// be read, does not count as working; neither does one a little over ten seconds
/// after its last output.
pub proof fn agents_without_output_are_idle(now: i64, sample: AgentActivitySample)
    ensures
        !is_working(now, None),
        sample.last_tmux_activity_epoch is None ==> !is_working(now, Some(sample)),
        sample.last_observed_work_at is None ==> !is_working(now, Some(sample)),
        !sample.query_ok ==> !is_working(now, Some(sample)),
        sample.pane_dead ==> !is_working(now, Some(sample)),
        sample.foreground_is_shell ==> !is_working(now, Some(sample)),
        sample.last_observed_work_at matches Some(at) ==> now - at > 10_000_000_000 ==> !is_working(
            now,
            Some(sample),
        ),
{
}

/// The window that counts for a session is one of its windows, and none of its
/// windows shows newer output; there is none only if the session has no window.
pub proof fn the_newest_window_counts(windows: Seq<TmuxWindowActivity>, session: Seq<char>, i: int)
    requires
        0 <= i < windows.len(),
        windows[i].session_name@ == session,
    ensures
        newest_window(windows, session) matches Some(best) && windows.contains(best)
            && best.session_name@ == session && (windows[i].window_activity matches Some(x) ==> (
        best.window_activity matches Some(y) && x <= y)),
    decreases windows.len(),
{
    let rest = windows.drop_last();
    let last = windows.last();
    if i < rest.len() {
        the_newest_window_counts(rest, session, i);
        let before = newest_window(rest, session)->0;
        let k = choose|k: int| 0 <= k < rest.len() && rest[k] == before;
        assert(windows[k] == before);
        assert(windows[windows.len() - 1] == last);
    } else {
        assert(windows[windows.len() - 1] == last);
        if newest_window(rest, session) is Some {
            newest_is_a_window(rest, session);
            let before = newest_window(rest, session)->0;
            let k = choose|k: int| 0 <= k < rest.len() && rest[k] == before;
            assert(windows[k] == before);
        }
    }
}

proof fn newest_is_a_window(windows: Seq<TmuxWindowActivity>, session: Seq<char>)
    ensures
        newest_window(windows, session) matches Some(best) ==> windows.contains(best)
            && best.session_name@ == session,
    decreases windows.len(),
{
    if windows.len() > 0 {
        let rest = windows.drop_last();
        newest_is_a_window(rest, session);
        assert(windows[windows.len() - 1] == windows.last());
        if newest_window(rest, session) is Some {
            let before = newest_window(rest, session)->0;
            let k = choose|k: int| 0 <= k < rest.len() && rest[k] == before;
            assert(windows[k] == before);
        }
    }
}

/// One more task counts one more for its project and for no other, or one more
/// among the tasks without a project.
pub proof fn a_task_counts_for_its_project(tasks: Seq<Task>, task: Task, project: Seq<char>)
    ensures
        ({
            let before = task_owners(tasks);
            let after = task_owners(tasks.push(task));
            let owner = task.meta.project;
            &&& (owner matches Some(p) && p@ == project) ==> count_of(after, project) == count_of(
                before,
                project,
            ) + 1
            &&& !(owner matches Some(p) && p@ == project) ==> count_of(after, project) == count_of(
                before,
                project,
            )
            &&& owner is None ==> ownerless(after) == ownerless(before) + 1
            &&& owner is Some ==> ownerless(after) == ownerless(before)
        }),
        count_of(task_owners(Seq::empty()), project) == 0,
        ownerless(task_owners(Seq::empty())) == 0,
{
    let after = task_owners(tasks.push(task));
    assert(after.drop_last() =~= task_owners(tasks));
    assert(task_owners(Seq::empty()) =~= Seq::empty());
}

/// One more agent counts one more for its project, unless it is archived or of
/// the chief of staff; it counts among those that work exactly if it counts and
/// works.
pub proof fn an_agent_counts_for_its_project(
    agents: Seq<AgentRecord>,
    agent: AgentRecord,
    activity: Table<AgentActivitySample>,
    now: i64,
    project: Seq<char>,
)
    ensures
        ({
            let before = count_of(agent_owners(agents), project);
            let after = count_of(agent_owners(agents.push(agent)), project);
            let worked = count_of(working_owners(agents, activity, now), project);
            let works = count_of(working_owners(agents.push(agent), activity, now), project);
            let counts = agent.meta.project@ == project && agent.meta.status
                != AgentStatus::Archived && agent.meta.project@ != "chief-of-staff"@;
            &&& after == before + if counts {
                1int
            } else {
                0
            }
            &&& works == worked + if counts && is_working(
                now,
                activity.at(agent.meta.session_name@),
            ) {
                1int
            } else {
                0
            }
        }),
        count_of(agent_owners(Seq::empty()), project) == 0,
{
    assert(agent_owners(agents.push(agent)).drop_last() =~= agent_owners(agents));
    assert(working_owners(agents.push(agent), activity, now).drop_last() =~= working_owners(
        agents,
        activity,
        now,
    ));
    assert(agent_owners(Seq::empty()) =~= Seq::empty());
}

/// A refresh shows every project that was listed and no other, and what could
/// not be read is told.
pub proof fn a_refresh_shows_what_was_read(
    snapshot: ProjectRefreshSnapshot,
    sources: ProjectSources,
    projects: Vec<Project>,
    project: Project,
)
    requires
        shows_sources(snapshot, sources),
        sources.projects == Ok::<Vec<Project>, String>(projects),
    ensures
        snapshot.projects@.contains(project) <==> projects@.contains(project),
        snapshot.projects@.len() == projects@.len(),
        snapshot.project_list_error is None,
        sources.agents matches Err(e) ==> snapshot.agent_list_error == Some(e),
        snapshot.project_task_counts.at(project.meta.name@) == (if count_of(
            task_owners(sources.tasks@),
            project.meta.name@,
        ) == 0 {
            None::<usize>
        } else {
            Some(count_of(task_owners(sources.tasks@), project.meta.name@) as usize)
        }),
        snapshot.unassigned_task_count == ownerless(task_owners(sources.tasks@)),
{
    let free = |p: Project| !p.meta.held;
    let held = |p: Project| p.meta.held;
    let all = projects@;
    let first = all.filter(free);
    let last = all.filter(held);
    crate::order::kept_elements(all, free, project);
    crate::order::kept_elements(all, held, project);
    let shown = held_last(all);
    assert(shown == first + last);
    if first.contains(project) {
        let k = choose|k: int| 0 <= k < first.len() && first[k] == project;
        assert(shown[k] == project);
    }
    if last.contains(project) {
        let k = choose|k: int| 0 <= k < last.len() && last[k] == project;
        assert(shown[first.len() + k] == project);
    }
    if shown.contains(project) {
        let k = choose|k: int| 0 <= k < shown.len() && shown[k] == project;
        if k < first.len() {
            assert(first[k] == project);
        } else {
            assert(last[k - first.len()] == project);
        }
    }
    parts_make_up_all(all);
}

proof fn parts_make_up_all(all: Seq<Project>)
    ensures
        all.filter(|p: Project| !p.meta.held).len() + all.filter(|p: Project| p.meta.held).len()
            == all.len(),
    decreases all.len(),
{
    reveal(Seq::filter);
    if all.len() > 0 {
        parts_make_up_all(all.drop_last());
    }
}

/// The session of an agent counts wherever the agent stands in the list, if the
/// agent is counted.
pub proof fn sessions_of_counted_agents_count(agents: Seq<AgentRecord>, i: int)
    requires
        0 <= i < agents.len(),
        is_counted(agents[i]),
    ensures
        is_counted_session(agents, agents[i].meta.session_name@),
        !is_counted_session(Seq::empty(), agents[i].meta.session_name@),
{
}

} // verus!
