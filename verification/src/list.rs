//! The list of projects.

use crate::activity::{AgentActivitySample, ProjectRefreshSnapshot};
use crate::keys::{KeyCode, KeyPress};
use crate::model::{unassigned, Project};
use crate::select::{
    clamp, clamped, next_round, previous_round, wrap_next, wrap_previous,
};
use crate::table::Table;
use vstd::prelude::*;

verus! {

pub struct ProjectList {
    pub projects: Vec<Project>,
    pub selected_project_index: usize,
    pub unassigned_task_count: usize,
    pub project_task_counts: Table<usize>,
    pub project_agent_counts: Table<usize>,
    pub project_active_agent_counts: Table<usize>,
    pub agent_activity: Table<AgentActivitySample>,
    /// A failure to read agent activity was logged, and is not logged again.
    pub agent_activity_query_failed_logged: bool,
    pub project_refresh_active: bool,
    pub project_refresh_generation: u64,
}

/// What a key does in the list of projects.
pub enum ListOutcome<T> {
    Nothing,
    Quit,
    /// Open a project's page.
    Enter(T),
    ChiefOfStaffChat,
    NewProject,
    /// Choose a project for the tasks without one.
    Migrate,
    Delete(T),
    ToggleHold(T),
    GlobalNotes,
    Notifications,
    ShowPrs,
    RespawnChiefOfStaff,
    Settings,
}

pub open spec fn outcome_view(outcome: ListOutcome<String>) -> ListOutcome<Seq<char>> {
    match outcome {
        ListOutcome::Nothing => ListOutcome::Nothing,
        ListOutcome::Quit => ListOutcome::Quit,
        ListOutcome::Enter(name) => ListOutcome::Enter(name@),
        ListOutcome::ChiefOfStaffChat => ListOutcome::ChiefOfStaffChat,
        ListOutcome::NewProject => ListOutcome::NewProject,
        ListOutcome::Migrate => ListOutcome::Migrate,
        ListOutcome::Delete(name) => ListOutcome::Delete(name@),
        ListOutcome::ToggleHold(name) => ListOutcome::ToggleHold(name@),
        ListOutcome::GlobalNotes => ListOutcome::GlobalNotes,
        ListOutcome::Notifications => ListOutcome::Notifications,
        ListOutcome::ShowPrs => ListOutcome::ShowPrs,
        ListOutcome::RespawnChiefOfStaff => ListOutcome::RespawnChiefOfStaff,
        ListOutcome::Settings => ListOutcome::Settings,
    }
}

impl ProjectList {
    /// The entries can be counted, and so can the place after the selected one.
    pub open spec fn wf(self) -> bool {
        self.projects@.len() < usize::MAX && self.selected_project_index < usize::MAX
    }

    /// Total entries in the project list (projects + unassigned pseudo-entry).
    pub open spec fn entries(self) -> int {
        self.projects@.len() + if self.unassigned_task_count > 0 {
            1int
        } else {
            0
        }
    }

    /// Total entries in the project list (projects + unassigned pseudo-entry).
    pub fn project_list_len(&self) -> (n: usize)
        requires
            self.wf(),
        ensures
            n == self.entries(),
    {
        if self.unassigned_task_count > 0 {
            self.projects.len() + 1
        } else {
            self.projects.len()
        }
    }

    /// The selected project.
    pub open spec fn selected_project(self) -> Option<Seq<char>> {
        if self.selected_project_index < self.projects@.len() {
            Some(self.projects@[self.selected_project_index as int].meta.name@)
        } else {
            None
        }
    }

    /// The name of the selected project.
    pub fn selected_project_name(&self) -> (name: Option<String>)
        ensures
            match name {
                Some(n) => self.selected_project() == Some(n@)
                    && n == self.projects@[self.selected_project_index as int].meta.name,
                None => self.selected_project() is None,
            },
    {
        if self.selected_project_index < self.projects.len() {
            Some(self.projects[self.selected_project_index].meta.name.clone())
        } else {
            None
        }
    }

    /// What the selected entry leads to: a project, or the tasks without one.
    pub open spec fn selected_scope(self) -> Option<Seq<char>> {
        match self.selected_project() {
            Some(name) => Some(name),
            None => if self.unassigned_task_count > 0 {
                Some(unassigned())
            } else {
                None
            },
        }
    }

    /// The snapshot is shown; a selection past the end moves to the last entry,
    /// and stays where there is none.
    pub open spec fn shows(self, before: ProjectList, snapshot: ProjectRefreshSnapshot) -> bool {
        self == (ProjectList {
            projects: snapshot.projects,
            project_task_counts: snapshot.project_task_counts,
            project_agent_counts: snapshot.project_agent_counts,
            project_active_agent_counts: snapshot.project_active_agent_counts,
            unassigned_task_count: snapshot.unassigned_task_count,
            agent_activity: snapshot.agent_activity,
            agent_activity_query_failed_logged: snapshot.agent_activity_error is Some,
            selected_project_index: clamped(
                before.selected_project_index as int,
                self.entries(),
            ) as usize,
            ..before
        })
    }

    pub fn apply_project_refresh_snapshot(&mut self, snapshot: ProjectRefreshSnapshot)
        requires
            old(self).wf(),
            snapshot.projects@.len() < usize::MAX,
        ensures
            final(self).wf(),
            final(self).shows(*old(self), snapshot),
    {
        self.agent_activity_query_failed_logged = snapshot.agent_activity_error.is_some();
        self.projects = snapshot.projects;
        self.project_task_counts = snapshot.project_task_counts;
        self.project_agent_counts = snapshot.project_agent_counts;
        self.project_active_agent_counts = snapshot.project_active_agent_counts;
        self.unassigned_task_count = snapshot.unassigned_task_count;
        self.agent_activity = snapshot.agent_activity;
        self.selected_project_index = clamp(
            self.selected_project_index,
            self.project_list_len(),
        );
    }

    /// The number of the next refresh.
    pub open spec fn next_generation(self) -> u64 {
        if self.project_refresh_generation == u64::MAX {
            0
        } else {
            (self.project_refresh_generation + 1) as u64
        }
    }

    /// Shows a snapshot that was taken just now; any refresh under way is
    /// outdated by it.
    pub fn refresh_projects(&mut self, snapshot: ProjectRefreshSnapshot)
        requires
            old(self).wf(),
            snapshot.projects@.len() < usize::MAX,
        ensures
            final(self).wf(),
            final(self).shows(
                (ProjectList {
                    project_refresh_generation: old(self).next_generation(),
                    ..*old(self)
                }),
                snapshot,
            ),
    {
        self.project_refresh_generation = self.project_refresh_generation.wrapping_add(1);
        self.apply_project_refresh_snapshot(snapshot);
    }

    /// A refresh has been started, which makes those before outdated.
    pub open spec fn refreshing(self) -> ProjectList {
        ProjectList {
            project_refresh_active: true,
            project_refresh_generation: self.next_generation(),
            ..self
        }
    }

    /// Starts a refresh in the background unless one is under way; its number
    /// comes back.
    pub fn start_project_refresh(&mut self) -> (generation: Option<u64>)
        ensures
            if old(self).project_refresh_active {
                *final(self) == *old(self) && generation is None
            } else {
                &&& *final(self) == old(self).refreshing()
                &&& generation == Some(old(self).next_generation())
            },
    {
        if self.project_refresh_active {
            return None;
        }
        self.project_refresh_active = true;
        self.project_refresh_generation = self.project_refresh_generation.wrapping_add(1);
        Some(self.project_refresh_generation)
    }

    /// Takes over the result of a refresh, unless a later one made it outdated.
    pub fn apply_project_refresh_result(&mut self, generation: u64, snapshot: ProjectRefreshSnapshot)
        requires
            old(self).wf(),
            snapshot.projects@.len() < usize::MAX,
        ensures
            final(self).wf(),
            ({
                let done = ProjectList { project_refresh_active: false, ..*old(self) };
                if generation == old(self).project_refresh_generation {
                    final(self).shows(done, snapshot)
                } else {
                    *final(self) == done
                }
            }),
    {
        self.project_refresh_active = false;
        if generation != self.project_refresh_generation {
            return;
        }
        self.apply_project_refresh_snapshot(snapshot);
    }

    /// Which entry is selected after a key.
    pub open spec fn selection_after(self, key: KeyPress) -> int {
        let i = self.selected_project_index as int;
        match key.code {
            KeyCode::Char('j') => next_round(i, self.entries()),
            KeyCode::Char('k') => previous_round(i, self.entries()),
            KeyCode::Char('g') => 0,
            KeyCode::Char('G') => if self.entries() > 0 {
                self.entries() - 1
            } else {
                i
            },
            _ => i,
        }
    }

    /// What a key asks for.
    pub open spec fn outcome(self, key: KeyPress) -> ListOutcome<Seq<char>> {
        match key.code {
            KeyCode::Enter | KeyCode::Char('l') => match self.selected_scope() {
                Some(name) => ListOutcome::Enter(name),
                None => ListOutcome::Nothing,
            },
            KeyCode::Char('c') => if key.ctrl {
                ListOutcome::Quit
            } else {
                ListOutcome::ChiefOfStaffChat
            },
            KeyCode::Char('n') => ListOutcome::NewProject,
            KeyCode::Char('m') => if self.selected_project() is None
                && self.unassigned_task_count > 0 {
                ListOutcome::Migrate
            } else {
                ListOutcome::Nothing
            },
            KeyCode::Char('d') => match self.selected_project() {
                Some(name) => ListOutcome::Delete(name),
                None => ListOutcome::Nothing,
            },
            KeyCode::Char('h') => match self.selected_project() {
                Some(name) => ListOutcome::ToggleHold(name),
                None => ListOutcome::Nothing,
            },
            KeyCode::Char('o') => ListOutcome::GlobalNotes,
            KeyCode::Char('i') => ListOutcome::Notifications,
            KeyCode::Char('p') => ListOutcome::ShowPrs,
            KeyCode::Char('e') => ListOutcome::RespawnChiefOfStaff,
            KeyCode::Char(',') => ListOutcome::Settings,
            _ => ListOutcome::Nothing,
        }
    }

    /// A key in the list of projects.
    pub fn handle_key(&mut self, key: KeyPress) -> (outcome: ListOutcome<String>)
        requires
            old(self).wf(),
        ensures
            final(self).wf(),
            *final(self) == (ProjectList {
                selected_project_index: old(self).selection_after(key) as usize,
                ..*old(self)
            }),
            outcome_view(outcome) == old(self).outcome(key),
    {
        match key.code {
            KeyCode::Char('j') => {
                let total = self.project_list_len();
                proof {
                    if total > 0 {
                        vstd::arithmetic::div_mod::lemma_mod_bound(
                            self.selected_project_index + 1,
                            total as int,
                        );
                    }
                }
                self.selected_project_index = wrap_next(self.selected_project_index, total);
                ListOutcome::Nothing
            },
            KeyCode::Char('k') => {
                self.selected_project_index = wrap_previous(
                    self.selected_project_index,
                    self.project_list_len(),
                );
                ListOutcome::Nothing
            },
            KeyCode::Char('g') => {
                self.selected_project_index = 0;
                ListOutcome::Nothing
            },
            KeyCode::Char('G') => {
                let total = self.project_list_len();
                if total > 0 {
                    self.selected_project_index = total - 1;
                }
                ListOutcome::Nothing
            },
            KeyCode::Enter | KeyCode::Char('l') => match self.selected_project_name() {
                Some(name) => ListOutcome::Enter(name),
                None => if self.unassigned_task_count > 0 {
                    ListOutcome::Enter("(unassigned)".to_owned())
                } else {
                    ListOutcome::Nothing
                },
            },
            KeyCode::Char('c') => if key.ctrl {
                ListOutcome::Quit
            } else {
                ListOutcome::ChiefOfStaffChat
            },
            KeyCode::Char('n') => ListOutcome::NewProject,
            KeyCode::Char('m') => if self.selected_project_index >= self.projects.len()
                && self.unassigned_task_count > 0 {
                ListOutcome::Migrate
            } else {
                ListOutcome::Nothing
            },
            KeyCode::Char('d') => match self.selected_project_name() {
                Some(name) => ListOutcome::Delete(name),
                None => ListOutcome::Nothing,
            },
            KeyCode::Char('h') => match self.selected_project_name() {
                Some(name) => ListOutcome::ToggleHold(name),
                None => ListOutcome::Nothing,
            },
            KeyCode::Char('o') => ListOutcome::GlobalNotes,
            KeyCode::Char('i') => ListOutcome::Notifications,
            KeyCode::Char('p') => ListOutcome::ShowPrs,
            KeyCode::Char('e') => ListOutcome::RespawnChiefOfStaff,
            KeyCode::Char(',') => ListOutcome::Settings,
            _ => ListOutcome::Nothing,
        }
    }

    /// The names of the projects.
    pub fn project_names(&self) -> (names: Vec<String>)
        ensures
            names@ == Seq::new(self.projects@.len(), |i: int| self.projects@[i].meta.name),
    {
        let mut names: Vec<String> = Vec::new();
        let mut i: usize = 0;
        while i < self.projects.len()
            invariant
                i <= self.projects.len(),
                names@ == Seq::new(i as nat, |k: int| self.projects@[k].meta.name),
            decreases self.projects.len() - i,
        {
            names.push(self.projects[i].meta.name.clone());
            i += 1;
        }
        names
    }
}

/// A result of an outdated refresh changes nothing that is shown.
pub proof fn stale_results_are_ignored(
    before: ProjectList,
    generation: u64,
    snapshot: ProjectRefreshSnapshot,
    after: ProjectList,
)
    requires
        generation != before.project_refresh_generation,
        ({
            let done = ProjectList { project_refresh_active: false, ..before };
            if generation == before.project_refresh_generation {
                after.shows(done, snapshot)
            } else {
                after == done
            }
        }),
    ensures
        after.projects == before.projects,
        after.project_task_counts == before.project_task_counts,
        after.project_agent_counts == before.project_agent_counts,
        after.project_active_agent_counts == before.project_active_agent_counts,
        after.unassigned_task_count == before.unassigned_task_count,
        after.agent_activity == before.agent_activity,
        after.selected_project_index == before.selected_project_index,
        !after.project_refresh_active,
{
}

/// A refresh shown at once makes one that is under way outdated.
pub proof fn a_direct_refresh_outdates_others(list: ProjectList)
    ensures
        list.next_generation() != list.project_refresh_generation,
{
}

/// Only tasks without a project can be moved to one, from the entry behind the
/// projects and where there are any.
pub proof fn only_tasks_without_a_project_are_moved(list: ProjectList, key: KeyPress)
    ensures
        list.outcome(key) is Migrate <==> key.code == KeyCode::Char('m')
            && list.selected_project_index >= list.projects@.len() && list.unassigned_task_count
            > 0,
{
}

} // verus!
