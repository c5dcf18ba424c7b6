//! The rows of a project's page: agents, tasks, and the agents of each task;
//! and the selection among them.

use crate::model::{is_unassigned, unassigned, AgentRecord, AgentStatus, Task};
use crate::order::{newer_agent, sort_newest_first, sorted_by};
use crate::select::steps_go_to_the_neighbour;
use crate::table::{contains_string, has_string, insert_string, Table};
use vstd::prelude::*;

verus! {

/// A task among the rows, or an agent attached to it.
#[derive(Debug, Clone, Copy)]
pub enum ProjectTaskRow<'a> {
    Task { task_index: usize, task: &'a Task },
    Agent { task_index: usize, agent: &'a AgentRecord },
}

#[derive(Debug, Clone, Copy)]
pub enum ProjectDetailRow<'a> {
    AgentsSectionHeader,
    SectionColumnSpacer,
    AgentsColumnsHeader,
    EmptyAgents,
    UnattachedAgent { agent: &'a AgentRecord },
    SectionSpacer,
    TaskGroupSpacer,
    TasksSectionHeader,
    TasksColumnsHeader,
    EmptyTasks,
    Task(ProjectTaskRow<'a>),
    AttachedAgentsHeader,
    AttachedAgent(ProjectTaskRow<'a>),
}

/// A row as contracts see it: tasks and agents by their places.
pub enum RowShape {
    AgentsSectionHeader,
    SectionColumnSpacer,
    AgentsColumnsHeader,
    EmptyAgents,
    UnattachedAgent(int),
    SectionSpacer,
    TaskGroupSpacer,
    TasksSectionHeader,
    TasksColumnsHeader,
    EmptyTasks,
    Task(int),
    AttachedAgentsHeader,
    AttachedAgent(int, int),
}

/// What a row is recognised by when the rows change.
pub enum RowKey<T> {
    UnattachedAgent { project: T, name: T },
    Task { task_id: T },
    AttachedAgent { task_id: T, project: T, name: T },
}

/// A key with its texts as sequences of characters.
pub open spec fn key_view(key: RowKey<String>) -> RowKey<Seq<char>> {
    match key {
        RowKey::UnattachedAgent { project, name } => RowKey::UnattachedAgent {
            project: project@,
            name: name@,
        },
        RowKey::Task { task_id } => RowKey::Task { task_id: task_id@ },
        RowKey::AttachedAgent { task_id, project, name } => RowKey::AttachedAgent {
            task_id: task_id@,
            project: project@,
            name: name@,
        },
    }
}

/// Whether two keys are the same.
fn same_key(a: &RowKey<String>, b: &RowKey<String>) -> (same: bool)
    ensures
        same == (key_view(*a) == key_view(*b)),
{
    match (a, b) {
        (
            RowKey::UnattachedAgent { project: p1, name: n1 },
            RowKey::UnattachedAgent { project: p2, name: n2 },
        ) => *p1 == *p2 && *n1 == *n2,
        (RowKey::Task { task_id: t1 }, RowKey::Task { task_id: t2 }) => *t1 == *t2,
        (
            RowKey::AttachedAgent { task_id: t1, project: p1, name: n1 },
            RowKey::AttachedAgent { task_id: t2, project: p2, name: n2 },
        ) => *t1 == *t2 && *p1 == *p2 && *n1 == *n2,
        _ => false,
    }
}

/// A project's page.
pub struct ProjectDetail {
    pub tasks: Vec<Task>,
    pub selected_index: usize,
    pub current_project: Option<String>,
    /// Unattached project agents.
    pub agents: Vec<AgentRecord>,
    /// The agents attached to each task.
    pub attached_task_agents: Table<Vec<AgentRecord>>,
    /// Ids of the tasks that are being archived in the background; a refresh
    /// does not show them again.
    pub archive_in_progress: Vec<String>,
}

/// The rows above the agents.
pub open spec fn agents_header() -> Seq<RowShape> {
    seq![
        RowShape::AgentsSectionHeader,
        RowShape::SectionColumnSpacer,
        RowShape::AgentsColumnsHeader,
    ]
}

/// The rows between the agents and the tasks.
pub open spec fn tasks_header() -> Seq<RowShape> {
    seq![
        RowShape::SectionSpacer,
        RowShape::TasksSectionHeader,
        RowShape::SectionColumnSpacer,
        RowShape::TasksColumnsHeader,
    ]
}

impl ProjectDetail {
    /// The agents attached to a task.
    pub open spec fn attached(self, task: int) -> Seq<AgentRecord> {
        match self.attached_task_agents.at(self.tasks@[task].id()) {
            Some(agents) => agents@,
            None => Seq::empty(),
        }
    }

    /// The rows of the agents section.
    pub open spec fn agent_rows(self) -> Seq<RowShape> {
        if self.agents@.len() == 0 {
            seq![RowShape::EmptyAgents]
        } else {
            Seq::new(self.agents@.len(), |i: int| RowShape::UnattachedAgent(i))
        }
    }

    /// The rows of one task: the task, its agents under a header, and a spacer
    /// unless it is the last one.
    pub open spec fn task_group(self, task: int) -> Seq<RowShape> {
        let agents = self.attached(task);
        let under = if agents.len() == 0 {
            Seq::empty()
        } else {
            seq![RowShape::AttachedAgentsHeader] + Seq::new(
                agents.len(),
                |i: int| RowShape::AttachedAgent(task, i),
            )
        };
        let spacer = if task + 1 < self.tasks@.len() {
            seq![RowShape::TaskGroupSpacer]
        } else {
            Seq::empty()
        };
        seq![RowShape::Task(task)] + under + spacer
    }

    /// The rows of the first `n` tasks.
    pub open spec fn task_rows(self, n: int) -> Seq<RowShape>
        decreases n,
    {
        if n <= 0 {
            Seq::empty()
        } else {
            self.task_rows(n - 1) + self.task_group(n - 1)
        }
    }

    /// The rows of the tasks section.
    pub open spec fn tasks_section(self) -> Seq<RowShape> {
        if self.tasks@.len() == 0 {
            seq![RowShape::EmptyTasks]
        } else {
            self.task_rows(self.tasks@.len() as int)
        }
    }

    /// All the rows of the page: agents before tasks.
    pub open spec fn rows(self) -> Seq<RowShape> {
        agents_header() + self.agent_rows() + tasks_header() + self.tasks_section()
    }

    /// The place of the header of the tasks section.
    pub open spec fn tasks_start(self) -> int {
        (agents_header().len() + self.agent_rows().len() + 1) as int
    }

    /// A row of running code is one of contracts.
    pub open spec fn shaped(self, row: ProjectDetailRow<'_>, shape: RowShape) -> bool {
        match (row, shape) {
            (ProjectDetailRow::AgentsSectionHeader, RowShape::AgentsSectionHeader) => true,
            (ProjectDetailRow::SectionColumnSpacer, RowShape::SectionColumnSpacer) => true,
            (ProjectDetailRow::AgentsColumnsHeader, RowShape::AgentsColumnsHeader) => true,
            (ProjectDetailRow::EmptyAgents, RowShape::EmptyAgents) => true,
            (ProjectDetailRow::UnattachedAgent { agent }, RowShape::UnattachedAgent(i)) => {
                0 <= i < self.agents@.len() && *agent == self.agents@[i]
            },
            (ProjectDetailRow::SectionSpacer, RowShape::SectionSpacer) => true,
            (ProjectDetailRow::TaskGroupSpacer, RowShape::TaskGroupSpacer) => true,
            (ProjectDetailRow::TasksSectionHeader, RowShape::TasksSectionHeader) => true,
            (ProjectDetailRow::TasksColumnsHeader, RowShape::TasksColumnsHeader) => true,
            (ProjectDetailRow::EmptyTasks, RowShape::EmptyTasks) => true,
            (
                ProjectDetailRow::Task(ProjectTaskRow::Task { task_index, task }),
                RowShape::Task(i),
            ) => task_index == i && 0 <= i < self.tasks@.len() && *task == self.tasks@[i],
            (ProjectDetailRow::AttachedAgentsHeader, RowShape::AttachedAgentsHeader) => true,
            (
                ProjectDetailRow::AttachedAgent(ProjectTaskRow::Agent { task_index, agent }),
                RowShape::AttachedAgent(i, k),
            ) => task_index == i && 0 <= i < self.tasks@.len() && 0 <= k < self.attached(i).len()
                && *agent == self.attached(i)[k],
            _ => false,
        }
    }

    /// Rows of running code are those of contracts.
    pub open spec fn all_shaped(
        self,
        rows: Seq<ProjectDetailRow<'_>>,
        shapes: Seq<RowShape>,
    ) -> bool {
        &&& rows.len() == shapes.len()
        &&& forall|i: int| 0 <= i < rows.len() ==> self.shaped(#[trigger] rows[i], shapes[i])
    }

    /// The rows of a task, added to those before it.
    fn push_task_group<'a>(&'a self, task_index: usize, rows: &mut Vec<ProjectDetailRow<'a>>)
        requires
            task_index < self.tasks.len(),
            self.all_shaped(old(rows)@, agents_header() + self.agent_rows() + tasks_header()
                + self.task_rows(task_index as int)),
        ensures
            self.all_shaped(final(rows)@, agents_header() + self.agent_rows() + tasks_header()
                + self.task_rows(task_index + 1)),
    {
        let ghost above = agents_header() + self.agent_rows() + tasks_header() + self.task_rows(
            task_index as int,
        );
        let task = &self.tasks[task_index];
        rows.push(ProjectDetailRow::Task(ProjectTaskRow::Task { task_index, task }));
        let ghost mut shapes = above.push(RowShape::Task(task_index as int));
        let id = task.meta.task_id();
        if let Some(agents) = self.attached_task_agents.get(id.as_str()) {
            assert(agents@ == self.attached(task_index as int));
            if agents.len() > 0 {
                rows.push(ProjectDetailRow::AttachedAgentsHeader);
                proof {
                    shapes = shapes.push(RowShape::AttachedAgentsHeader);
                }
                let ghost base = shapes;
                let mut k: usize = 0;
                while k < agents.len()
                    invariant
                        k <= agents@.len(),
                        task_index < self.tasks.len(),
                        agents@ == self.attached(task_index as int),
                        shapes == base + Seq::new(
                            k as nat,
                            |i: int| RowShape::AttachedAgent(task_index as int, i),
                        ),
                        self.all_shaped(rows@, shapes),
                    decreases agents.len() - k,
                {
                    let agent = &agents[k];
                    rows.push(
                        ProjectDetailRow::AttachedAgent(
                            ProjectTaskRow::Agent { task_index, agent },
                        ),
                    );
                    proof {
                        shapes = shapes.push(RowShape::AttachedAgent(task_index as int, k as int));
                        assert(shapes == base + Seq::new(
                            (k + 1) as nat,
                            |i: int| RowShape::AttachedAgent(task_index as int, i),
                        ));
                    }
                    k += 1;
                }
            }
        }
        if task_index + 1 < self.tasks.len() {
            rows.push(ProjectDetailRow::TaskGroupSpacer);
            proof {
                shapes = shapes.push(RowShape::TaskGroupSpacer);
            }
        }
        assert(shapes == agents_header() + self.agent_rows() + tasks_header() + self.task_rows(
            task_index + 1,
        ));
    }

    /// All the rows of the page.
    pub fn project_detail_rows(&self) -> (rows: Vec<ProjectDetailRow<'_>>)
        ensures
            self.all_shaped(rows@, self.rows()),
    {
        let mut rows: Vec<ProjectDetailRow<'_>> = Vec::new();
        rows.push(ProjectDetailRow::AgentsSectionHeader);
        rows.push(ProjectDetailRow::SectionColumnSpacer);
        rows.push(ProjectDetailRow::AgentsColumnsHeader);
        assert(self.all_shaped(rows@, agents_header()));
        if self.agents.len() == 0 {
            rows.push(ProjectDetailRow::EmptyAgents);
        } else {
            let mut i: usize = 0;
            while i < self.agents.len()
                invariant
                    i <= self.agents@.len(),
                    self.all_shaped(rows@, agents_header() + Seq::new(
                        i as nat,
                        |k: int| RowShape::UnattachedAgent(k),
                    )),
                decreases self.agents.len() - i,
            {
                rows.push(ProjectDetailRow::UnattachedAgent { agent: &self.agents[i] });
                i += 1;
            }
        }
        assert(self.all_shaped(rows@, agents_header() + self.agent_rows()));
        rows.push(ProjectDetailRow::SectionSpacer);
        rows.push(ProjectDetailRow::TasksSectionHeader);
        rows.push(ProjectDetailRow::SectionColumnSpacer);
        rows.push(ProjectDetailRow::TasksColumnsHeader);
        let ghost above = agents_header() + self.agent_rows() + tasks_header();
        assert(self.all_shaped(rows@, above));
        if self.tasks.len() == 0 {
            rows.push(ProjectDetailRow::EmptyTasks);
            assert(self.rows() == above.push(RowShape::EmptyTasks));
        } else {
            let mut i: usize = 0;
            assert(above + self.task_rows(0) == above);
            while i < self.tasks.len()
                invariant
                    i <= self.tasks@.len(),
                    above == agents_header() + self.agent_rows() + tasks_header(),
                    self.all_shaped(rows@, above + self.task_rows(i as int)),
                decreases self.tasks.len() - i,
            {
                self.push_task_group(i, &mut rows);
                i += 1;
            }
        }
        rows
    }
}

/// Whether something can be done with a row.
pub open spec fn is_actionable(row: RowShape) -> bool {
    row is UnattachedAgent || row is Task || row is AttachedAgent
}

/// The first place of a value.
pub open spec fn first_of<T>(s: Seq<T>, x: T) -> Option<int>
    decreases s.len(),
{
    if s.len() == 0 {
        None
    } else {
        match first_of(s.drop_last(), x) {
            Some(i) => Some(i),
            None => if s.last() == x {
                Some(s.len() - 1)
            } else {
                None
            },
        }
    }
}

pub proof fn first_of_place<T>(s: Seq<T>, x: T)
    ensures
        match first_of(s, x) {
            Some(i) => 0 <= i < s.len() && s[i] == x && forall|j: int| 0 <= j < i ==> s[j] != x,
            None => forall|j: int| 0 <= j < s.len() ==> s[j] != x,
        },
    decreases s.len(),
{
    if s.len() > 0 {
        first_of_place(s.drop_last(), x);
        assert forall|j: int| 0 <= j < s.len() - 1 implies s.drop_last()[j] == s[j] by {}
    }
}

/// The last place before `n` where a flag is up.
pub open spec fn last_up(flags: Seq<bool>, n: int) -> Option<int>
    decreases n,
{
    if n <= 0 {
        None
    } else if flags[n - 1] {
        Some(n - 1)
    } else {
        last_up(flags, n - 1)
    }
}

/// The first place from `from` on and before `to` where a flag is up.
pub open spec fn first_up(flags: Seq<bool>, from: int, to: int) -> Option<int>
    decreases to - from,
{
    if from >= to {
        None
    } else if flags[from] {
        Some(from)
    } else {
        first_up(flags, from + 1, to)
    }
}

/// The places before `n` where a flag is up.
pub open spec fn all_up(flags: Seq<bool>, n: int) -> Seq<int>
    decreases n,
{
    if n <= 0 {
        Seq::empty()
    } else if flags[n - 1] {
        all_up(flags, n - 1).push(n - 1)
    } else {
        all_up(flags, n - 1)
    }
}

proof fn last_up_place(flags: Seq<bool>, n: int)
    requires
        0 <= n <= flags.len(),
    ensures
        match last_up(flags, n) {
            Some(i) => 0 <= i < n && flags[i] && forall|j: int| i < j < n ==> !flags[j],
            None => forall|j: int| 0 <= j < n ==> !flags[j],
        },
    decreases n,
{
    if n > 0 && !flags[n - 1] {
        last_up_place(flags, n - 1);
    }
}

proof fn first_up_place(flags: Seq<bool>, from: int, to: int)
    requires
        0 <= from,
        to <= flags.len(),
    ensures
        match first_up(flags, from, to) {
            Some(i) => from <= i < to && flags[i] && forall|j: int| from <= j < i ==> !flags[j],
            None => forall|j: int| from <= j < to ==> !flags[j],
        },
    decreases to - from,
{
    if from < to && !flags[from] {
        first_up_place(flags, from + 1, to);
    }
}

pub proof fn all_up_places(flags: Seq<bool>, n: int)
    requires
        0 <= n <= flags.len(),
    ensures
        forall|k: int|
            0 <= k < all_up(flags, n).len() ==> 0 <= #[trigger] all_up(flags, n)[k] < n
                && flags[all_up(flags, n)[k]],
        forall|i: int| 0 <= i < n && flags[i] ==> #[trigger] all_up(flags, n).contains(i),
        forall|a: int, b: int|
            0 <= a < b < all_up(flags, n).len() ==> #[trigger] all_up(flags, n)[a]
                < #[trigger] all_up(flags, n)[b],
        all_up(flags, n).len() <= n,
    decreases n,
{
    if n > 0 {
        all_up_places(flags, n - 1);
        let rest = all_up(flags, n - 1);
        if flags[n - 1] {
            let all = all_up(flags, n);
            assert(all[rest.len() as int] == n - 1);
            assert forall|i: int| 0 <= i < n && flags[i] implies #[trigger] all.contains(i) by {
                if i < n - 1 {
                    assert(rest.contains(i));
                    let k = choose|k: int| 0 <= k < rest.len() && rest[k] == i;
                    assert(all[k] == i);
                }
            }
        }
    }
}

impl ProjectDetail {
    pub open spec fn flags(self) -> Seq<bool> {
        Seq::new(self.rows().len(), |i: int| is_actionable(self.rows()[i]))
    }

    /// What a row is recognised by.
    pub open spec fn key_of(self, row: RowShape) -> Option<RowKey<Seq<char>>> {
        match row {
            RowShape::UnattachedAgent(i) => Some(
                RowKey::UnattachedAgent {
                    project: self.agents@[i].meta.project@,
                    name: self.agents@[i].meta.name@,
                },
            ),
            RowShape::Task(i) => Some(RowKey::Task { task_id: self.tasks@[i].id() }),
            RowShape::AttachedAgent(i, k) => Some(
                RowKey::AttachedAgent {
                    task_id: self.tasks@[i].id(),
                    project: self.attached(i)[k].meta.project@,
                    name: self.attached(i)[k].meta.name@,
                },
            ),
            _ => None,
        }
    }

    /// What each row is recognised by.
    pub open spec fn keys(self) -> Seq<Option<RowKey<Seq<char>>>> {
        Seq::new(self.rows().len(), |i: int| self.key_of(self.rows()[i]))
    }

    /// The row that is selected.
    pub open spec fn selected_row(self) -> Option<RowShape> {
        if self.selected_index < self.rows().len() {
            Some(self.rows()[self.selected_index as int])
        } else {
            None
        }
    }

    /// What the selected row is recognised by.
    pub open spec fn selected_key(self) -> Option<RowKey<Seq<char>>> {
        match self.selected_row() {
            Some(row) => self.key_of(row),
            None => None,
        }
    }

    /// The number of rows.
    pub fn project_detail_row_count(&self) -> (n: usize)
        ensures
            n == self.rows().len(),
    {
        self.project_detail_rows().len()
    }

    /// The row that is selected.
    pub fn selected_project_detail_row(&self) -> (row: Option<ProjectDetailRow<'_>>)
        ensures
            match row {
                Some(r) => self.selected_row() matches Some(shape) && self.shaped(r, shape),
                None => self.selected_row() is None,
            },
    {
        let rows = self.project_detail_rows();
        if self.selected_index < rows.len() {
            Some(rows[self.selected_index])
        } else {
            None
        }
    }

    /// What a row is recognised by.
    pub fn project_detail_row_key(&self, row: ProjectDetailRow<'_>) -> (key: Option<
        RowKey<String>,
    >)
        ensures
            forall|shape: RowShape| #[trigger]
                self.shaped(row, shape) ==> self.key_of(shape) == match key {
                    Some(k) => Some(key_view(k)),
                    None => None,
                },
    {
        match row {
            ProjectDetailRow::UnattachedAgent { agent } => Some(
                RowKey::UnattachedAgent {
                    project: agent.meta.project.clone(),
                    name: agent.meta.name.clone(),
                },
            ),
            ProjectDetailRow::Task(row) | ProjectDetailRow::AttachedAgent(row) => {
                self.project_task_row_key(row)
            },
            _ => None,
        }
    }

    /// What a task's row, or that of an agent attached to it, is recognised by.
    fn project_task_row_key(&self, row: ProjectTaskRow<'_>) -> (key: Option<RowKey<String>>)
        ensures
            match row {
                ProjectTaskRow::Task { task_index, task } => key matches Some(k) && key_view(k)
                    == (RowKey::<Seq<char>>::Task { task_id: task.id() }),
                ProjectTaskRow::Agent { task_index, agent } => if task_index < self.tasks@.len() {
                    key matches Some(k) && key_view(k) == (RowKey::<Seq<char>>::AttachedAgent {
                        task_id: self.tasks@[task_index as int].id(),
                        project: agent.meta.project@,
                        name: agent.meta.name@,
                    })
                } else {
                    key is None
                },
            },
    {
        match row {
            ProjectTaskRow::Task { task_index, task } => Some(
                RowKey::Task { task_id: task.meta.task_id() },
            ),
            ProjectTaskRow::Agent { task_index, agent } => {
                if task_index < self.tasks.len() {
                    Some(
                        RowKey::AttachedAgent {
                            task_id: self.tasks[task_index].meta.task_id(),
                            project: agent.meta.project.clone(),
                            name: agent.meta.name.clone(),
                        },
                    )
                } else {
                    None
                }
            },
        }
    }

    /// What the selected row is recognised by.
    pub fn selected_project_detail_row_key(&self) -> (key: Option<RowKey<String>>)
        ensures
            self.selected_key() == match key {
                Some(k) => Some(key_view(k)),
                None => None,
            },
    {
        match self.selected_project_detail_row() {
            Some(row) => {
                let ghost shape = self.selected_row()->0;
                assert(self.shaped(row, shape));
                self.project_detail_row_key(row)
            },
            None => None,
        }
    }

    /// The first row with a key.
    pub fn find_project_detail_row_key(&self, key: &RowKey<String>) -> (at: Option<usize>)
        ensures
            match at {
                Some(i) => first_of(self.keys(), Some(key_view(*key))) == Some(i as int) && i
                    < self.rows().len(),
                None => first_of(self.keys(), Some(key_view(*key))) is None,
            },
    {
        let rows = self.project_detail_rows();
        let ghost keys = self.keys();
        let ghost wanted = Some(key_view(*key));
        let mut i: usize = 0;
        while i < rows.len()
            invariant
                i <= rows.len(),
                self.all_shaped(rows@, self.rows()),
                keys == self.keys(),
                wanted == Some(key_view(*key)),
                forall|j: int| 0 <= j < i ==> keys[j] != wanted,
            decreases rows.len() - i,
        {
            let row = rows[i];
            assert(self.shaped(row, self.rows()[i as int]));
            let found = match self.project_detail_row_key(row) {
                Some(k) => same_key(&k, key),
                None => false,
            };
            assert(found == (keys[i as int] == wanted));
            if found {
                proof {
                    first_of_place(keys, wanted);
                }
                return Some(i);
            }
            i += 1;
        }
        proof {
            first_of_place(keys, wanted);
        }
        None
    }

    /// Where a row is found again: by its key, or an attached agent that is gone
    /// by its task.
    pub open spec fn restored(self, key: Option<RowKey<Seq<char>>>) -> Option<int> {
        match key {
            None => None,
            Some(k) => match first_of(self.keys(), Some(k)) {
                Some(i) => Some(i),
                None => match k {
                    RowKey::AttachedAgent { task_id, project, name } => first_of(
                        self.keys(),
                        Some(RowKey::Task { task_id }),
                    ),
                    _ => None,
                },
            },
        }
    }

    /// Selects the row with a key again; an attached agent that is gone leads
    /// to its task. Says whether a row was found.
    pub fn restore_project_detail_selection(&mut self, key: Option<&RowKey<String>>) -> (found:
        bool)
        ensures
            ({
                let wanted = match key {
                    Some(k) => Some(key_view(*k)),
                    None => None,
                };
                match old(self).restored(wanted) {
                    Some(i) => found && *final(self) == (ProjectDetail {
                        selected_index: i as usize,
                        ..*old(self)
                    }) && 0 <= i < old(self).rows().len() && final(self).selected_index == i,
                    None => !found && *final(self) == *old(self),
                }
            }),
    {
        let key = match key {
            Some(key) => key,
            None => {
                return false;
            },
        };
        if let Some(i) = self.find_project_detail_row_key(key) {
            self.selected_index = i;
            return true;
        }
        if let RowKey::AttachedAgent { task_id, project: _, name: _ } = key {
            let task_key = RowKey::Task { task_id: task_id.clone() };
            if let Some(i) = self.find_project_detail_row_key(&task_key) {
                self.selected_index = i;
                return true;
            }
        }
        false
    }

    /// Whether something can be done with a row.
    pub fn project_detail_row_is_actionable(row: &ProjectDetailRow<'_>) -> (yes: bool)
        ensures
            yes == (row is UnattachedAgent || row is Task || row is AttachedAgent),
    {
        matches!(
            row,
            ProjectDetailRow::UnattachedAgent { .. } | ProjectDetailRow::Task(_)
                | ProjectDetailRow::AttachedAgent(_)
        )
    }

    /// For each row, whether something can be done with it.
    fn actionable_flags(&self) -> (flags: Vec<bool>)
        ensures
            flags@ == self.flags(),
    {
        let rows = self.project_detail_rows();
        let mut flags: Vec<bool> = Vec::new();
        let mut i: usize = 0;
        while i < rows.len()
            invariant
                i <= rows.len(),
                self.all_shaped(rows@, self.rows()),
                flags@ == self.flags().take(i as int),
            decreases rows.len() - i,
        {
            assert(self.shaped(rows@[i as int], self.rows()[i as int]));
            flags.push(ProjectDetail::project_detail_row_is_actionable(&rows[i]));
            i += 1;
        }
        flags
    }

    /// Where the selection goes when its row may not be selectable: it stays if
    /// it is, or else goes to the nearest row before `preferred` that is, or
    /// else to the first one after it.
    pub open spec fn clamp_target(self, preferred: int) -> int {
        let flags = self.flags();
        let start = if preferred < flags.len() {
            preferred
        } else {
            flags.len() - 1
        };
        if self.selected_index < flags.len() && flags[self.selected_index as int] {
            self.selected_index as int
        } else {
            match last_up(flags, start + 1) {
                Some(i) => i,
                None => match first_up(flags, start + 1, flags.len() as int) {
                    Some(i) => i,
                    None => 0,
                },
            }
        }
    }

    pub fn clamp_project_detail_selection(&mut self)
        ensures
            *final(self) == (ProjectDetail {
                selected_index: old(self).clamp_target(old(self).selected_index as int) as usize,
                ..*old(self)
            }),
            final(self).selected_index == old(self).clamp_target(old(self).selected_index as int),
    {
        self.clamp_project_detail_selection_near(self.selected_index);
    }

    pub fn clamp_project_detail_selection_near(&mut self, preferred_index: usize)
        ensures
            *final(self) == (ProjectDetail {
                selected_index: old(self).clamp_target(preferred_index as int) as usize,
                ..*old(self)
            }),
            final(self).selected_index == old(self).clamp_target(preferred_index as int),
    {
        let flags = self.actionable_flags();
        if self.selected_index < flags.len() && flags[self.selected_index] {
            return;
        }
        let start: usize = if preferred_index < flags.len() {
            preferred_index
        } else {
            flags.len() - 1
        };
        let mut n: usize = start + 1;
        while n > 0 && !flags[n - 1]
            invariant
                n <= start + 1,
                start < flags.len(),
                last_up(flags@, start + 1) == last_up(flags@, n as int),
            decreases n,
        {
            n -= 1;
        }
        if n > 0 {
            self.selected_index = n - 1;
            return;
        }
        let mut i: usize = start + 1;
        while i < flags.len() && !flags[i]
            invariant
                start + 1 <= i <= flags.len(),
                first_up(flags@, start + 1, flags@.len() as int) == first_up(
                    flags@,
                    i as int,
                    flags@.len() as int,
                ),
            decreases flags.len() - i,
        {
            i += 1;
        }
        self.selected_index = if i < flags.len() {
            i
        } else {
            0
        };
    }

    /// The selectable rows.
    pub open spec fn stops(self) -> Seq<int> {
        all_up(self.flags(), self.rows().len() as int)
    }

    /// Where the selection goes when it moves by `delta` selectable rows, round.
    /// A selection that is on no selectable row counts as on the first one.
    pub open spec fn moved(self, delta: int) -> int {
        let stops = self.stops();
        if stops.len() == 0 {
            0
        } else {
            let current = match first_of(stops, self.selected_index as int) {
                Some(i) => i,
                None => 0,
            };
            stops[(current + delta) % (stops.len() as int)]
        }
    }

    pub fn next_project_detail_row(&mut self)
        ensures
            *final(self) == (ProjectDetail {
                selected_index: old(self).moved(1) as usize,
                ..*old(self)
            }),
            final(self).selected_index == old(self).moved(1),
    {
        self.move_project_detail_selection(1);
    }

    pub fn previous_project_detail_row(&mut self)
        ensures
            *final(self) == (ProjectDetail {
                selected_index: old(self).moved(-1) as usize,
                ..*old(self)
            }),
            final(self).selected_index == old(self).moved(-1),
    {
        self.move_project_detail_selection(-1);
    }

    pub fn move_project_detail_selection(&mut self, delta: isize)
        ensures
            *final(self) == (ProjectDetail {
                selected_index: old(self).moved(delta as int) as usize,
                ..*old(self)
            }),
            final(self).selected_index == old(self).moved(delta as int),
    {
        let flags = self.actionable_flags();
        let mut actionable: Vec<usize> = Vec::new();
        let mut current: usize = 0;
        let mut found = false;
        let mut i: usize = 0;
        let ghost stops = self.stops();
        while i < flags.len()
            invariant
                i <= flags.len(),
                flags@ == self.flags(),
                actionable@.len() == all_up(flags@, i as int).len(),
                forall|k: int|
                    0 <= k < actionable@.len() ==> (#[trigger] actionable@[k]) as int == all_up(
                        flags@,
                        i as int,
                    )[k],
                match first_of(all_up(flags@, i as int), self.selected_index as int) {
                    Some(k) => found && current == k,
                    None => !found && current == 0,
                },
            decreases flags.len() - i,
        {
            let ghost here = all_up(flags@, i as int);
            if flags[i] {
                assert(all_up(flags@, i + 1) == here.push(i as int));
                assert(here.push(i as int).drop_last() == here);
                if i == self.selected_index && !found {
                    current = actionable.len();
                    found = true;
                }
                actionable.push(i);
            }
            i += 1;
        }
        proof {
            all_up_places(flags@, flags@.len() as int);
            first_of_place(stops, self.selected_index as int);
        }
        if actionable.len() == 0 {
            self.selected_index = 0;
            return;
        }
        let n: i128 = actionable.len() as i128;
        let sum: i128 = current as i128 + delta as i128;
        let rest: i128 = euclid_mod(sum, n);
        self.selected_index = actionable[rest as usize];
    }

    /// The first selectable row.
    pub open spec fn first_stop(self) -> int {
        match first_up(self.flags(), 0, self.rows().len() as int) {
            Some(i) => i,
            None => 0,
        }
    }

    /// The last selectable row.
    pub open spec fn last_stop(self) -> int {
        match last_up(self.flags(), self.rows().len() as int) {
            Some(i) => i,
            None => 0,
        }
    }

    pub fn select_first_project_detail_row(&mut self)
        ensures
            *final(self) == (ProjectDetail {
                selected_index: old(self).first_stop() as usize,
                ..*old(self)
            }),
            final(self).selected_index == old(self).first_stop(),
    {
        let flags = self.actionable_flags();
        self.selected_index = match find_up(&flags, 0, flags.len()) {
            Some(i) => i,
            None => 0,
        };
    }

    pub fn select_last_project_detail_row(&mut self)
        ensures
            *final(self) == (ProjectDetail {
                selected_index: old(self).last_stop() as usize,
                ..*old(self)
            }),
            final(self).selected_index == old(self).last_stop(),
    {
        let flags = self.actionable_flags();
        let mut n: usize = flags.len();
        while n > 0 && !flags[n - 1]
            invariant
                n <= flags.len(),
                last_up(flags@, flags@.len() as int) == last_up(flags@, n as int),
            decreases n,
        {
            n -= 1;
        }
        self.selected_index = if n > 0 {
            n - 1
        } else {
            0
        };
    }

    /// The first selectable row of the tasks section.
    pub open spec fn first_in_tasks(self) -> Option<int> {
        first_up(self.flags(), self.tasks_start() + 1, self.rows().len() as int)
    }

    /// The first selectable row of the agents section.
    pub open spec fn first_in_agents(self) -> Option<int> {
        first_up(self.flags(), 1, self.tasks_start())
    }

    /// From the agents section to the tasks, and from the tasks to the agents;
    /// nothing changes where the other section has no selectable row.
    pub open spec fn next_section(self) -> int {
        let target = if self.selected_index < self.tasks_start() {
            self.first_in_tasks()
        } else {
            self.first_in_agents()
        };
        match target {
            Some(i) => i,
            None => self.selected_index as int,
        }
    }

    /// From the tasks section to the agents, and from elsewhere to the tasks.
    pub open spec fn previous_section(self) -> int {
        let target = if self.selected_index > self.tasks_start() {
            self.first_in_agents()
        } else {
            self.first_in_tasks()
        };
        match target {
            Some(i) => i,
            None => self.selected_index as int,
        }
    }

    /// The place of the header of the tasks section.
    fn tasks_section_start(&self) -> (at: usize)
        ensures
            at == self.tasks_start(),
            at < self.rows().len(),
    {
        proof {
            reveal_with_fuel(ProjectDetail::task_rows, 1);
        }
        let n = self.project_detail_row_count();
        assert(self.tasks_start() < n);
        if self.agents.len() == 0 {
            5
        } else {
            self.agents.len() + 4
        }
    }

    pub fn jump_to_next_project_detail_section(&mut self)
        ensures
            *final(self) == (ProjectDetail {
                selected_index: old(self).next_section() as usize,
                ..*old(self)
            }),
            final(self).selected_index == old(self).next_section(),
    {
        let flags = self.actionable_flags();
        let start = self.tasks_section_start();
        assert(flags.len() == self.rows().len());
        let found = if self.selected_index < start {
            find_up(&flags, start + 1, flags.len())
        } else {
            find_up(&flags, 1, start)
        };
        if let Some(i) = found {
            self.selected_index = i;
        }
    }

    pub fn jump_to_previous_project_detail_section(&mut self)
        ensures
            *final(self) == (ProjectDetail {
                selected_index: old(self).previous_section() as usize,
                ..*old(self)
            }),
            final(self).selected_index == old(self).previous_section(),
    {
        let flags = self.actionable_flags();
        let start = self.tasks_section_start();
        assert(flags.len() == self.rows().len());
        let found = if self.selected_index > start {
            find_up(&flags, 1, start)
        } else {
            find_up(&flags, start + 1, flags.len())
        };
        if let Some(i) = found {
            self.selected_index = i;
        }
    }

    /// The task that is selected, by its place.
    pub open spec fn spec_selected_task(self) -> Option<int> {
        match self.selected_row() {
            Some(RowShape::Task(i)) => Some(i),
            _ => None,
        }
    }

    pub fn selected_task_index(&self) -> (at: Option<usize>)
        ensures
            match at {
                Some(i) => self.spec_selected_task() == Some(i as int) && i < self.tasks@.len(),
                None => self.spec_selected_task() is None,
            },
    {
        match self.selected_project_detail_row() {
            Some(ProjectDetailRow::Task(ProjectTaskRow::Task { task_index, task })) => Some(
                task_index,
            ),
            _ => None,
        }
    }

    /// The row of the selected task or attached agent.
    pub fn selected_project_task_row(&self) -> (row: Option<ProjectTaskRow<'_>>)
        ensures
            match row {
                Some(r) => self.selected_row() matches Some(shape) && (self.shaped(
                    ProjectDetailRow::Task(r),
                    shape,
                ) || self.shaped(ProjectDetailRow::AttachedAgent(r), shape)),
                None => !(self.selected_row() matches Some(shape) && (shape is Task || shape
                    is AttachedAgent)),
            },
    {
        match self.selected_project_detail_row() {
            Some(ProjectDetailRow::Task(row)) => Some(row),
            Some(ProjectDetailRow::AttachedAgent(row)) => Some(row),
            _ => None,
        }
    }

    /// The agent that is selected.
    pub open spec fn spec_selected_agent(self) -> Option<AgentRecord> {
        match self.selected_row() {
            Some(RowShape::UnattachedAgent(i)) => Some(self.agents@[i]),
            Some(RowShape::AttachedAgent(i, k)) => Some(self.attached(i)[k]),
            _ => None,
        }
    }

    pub fn selected_project_detail_agent(&self) -> (agent: Option<&AgentRecord>)
        ensures
            match agent {
                Some(a) => self.spec_selected_agent() == Some(*a),
                None => self.spec_selected_agent() is None,
            },
    {
        match self.selected_project_detail_row() {
            Some(ProjectDetailRow::UnattachedAgent { agent }) => Some(agent),
            Some(ProjectDetailRow::AttachedAgent(ProjectTaskRow::Agent { task_index, agent })) => {
                Some(agent)
            },
            _ => None,
        }
    }

    /// The task that is selected.
    pub fn selected_task(&self) -> (task: Option<&Task>)
        ensures
            match task {
                Some(t) => self.spec_selected_task() matches Some(i) && 0 <= i < self.tasks@.len()
                    && *t == self.tasks@[i],
                None => self.spec_selected_task() is None,
            },
    {
        match self.selected_task_index() {
            Some(i) => Some(&self.tasks[i]),
            None => None,
        }
    }
}

/// The remainder that is not negative.
pub fn euclid_mod(x: i128, n: i128) -> (r: i128)
    requires
        0 < n <= u64::MAX,
    ensures
        r == (x as int) % (n as int),
        0 <= r < n,
{
    if x >= 0 {
        x % n
    } else {
        let up: i128 = (-(x + 1)) % n;
        proof {
            let y = -(x + 1) as int;
            vstd::arithmetic::div_mod::lemma_fundamental_div_mod(y, n as int);
            let q = y / (n as int);
            assert(x as int == (-(q + 1)) * (n as int) + (n - 1 - up)) by (nonlinear_arith)
                requires
                    y == -(x + 1),
                    y == (n as int) * q + up,
            ;
            vstd::arithmetic::div_mod::lemma_fundamental_div_mod_converse(
                x as int,
                n as int,
                -(q + 1),
                n - 1 - up,
            );
        }
        n - 1 - up
    }
}

/// The first place from `from` on and before `to` where a flag is up.
fn find_up(flags: &Vec<bool>, from: usize, to: usize) -> (at: Option<usize>)
    requires
        to <= flags@.len(),
    ensures
        match at {
            Some(i) => first_up(flags@, from as int, to as int) == Some(i as int),
            None => first_up(flags@, from as int, to as int) is None,
        },
{
    let mut i: usize = from;
    while i < to && !flags[i]
        invariant
            from <= i,
            i <= to || i == from,
            to <= flags@.len(),
            first_up(flags@, from as int, to as int) == first_up(flags@, i as int, to as int),
        decreases to - i,
    {
        i += 1;
    }
    if i < to {
        Some(i)
    } else {
        None
    }
}

/// What was read of the tasks: all of them, and the agents attached to each.
pub struct TaskLoad {
    pub tasks: Vec<Task>,
    pub attached: Table<Vec<AgentRecord>>,
}

/// Whether a task belongs to a scope: a project, the tasks without one, or all.
pub open spec fn in_scope(task: Task, scope: Option<Seq<char>>) -> bool {
    match scope {
        None => true,
        Some(name) => if name == unassigned() {
            task.meta.project is None
        } else {
            task.meta.project matches Some(project) && project@ == name
        },
    }
}

/// Some task has the id.
pub open spec fn has_task(tasks: Seq<Task>, id: Seq<char>) -> bool {
    exists|i: int| 0 <= i < tasks.len() && (#[trigger] tasks[i]).id() == id
}

fn contains_task(tasks: &Vec<Task>, id: &String) -> (found: bool)
    ensures
        found == has_task(tasks@, id@),
{
    let mut i: usize = 0;
    while i < tasks.len()
        invariant
            i <= tasks.len(),
            forall|j: int| 0 <= j < i ==> (#[trigger] tasks@[j]).id() != id@,
        decreases tasks.len() - i,
    {
        if tasks[i].meta.id == *id {
            assert(tasks@[i as int].id() == id@);
            return true;
        }
        i += 1;
    }
    false
}

/// A table without the keys that are no task's id.
fn keep_tasks(tasks: &Vec<Task>, attached: Table<Vec<AgentRecord>>) -> (kept: Table<
    Vec<AgentRecord>,
>)
    ensures
        forall|id: Seq<char>| #[trigger]
            kept.at(id) == if has_task(tasks@, id) {
                attached.at(id)
            } else {
                None
            },
{
    let ghost all = attached.entries@;
    let mut kept: Table<Vec<AgentRecord>> = Table::new();
    assert(all.skip(0) == all);
    for entry in it: attached.entries
        invariant
            it.seq() == all,
            forall|id: Seq<char>| #[trigger]
                kept.at(id) == if has_task(tasks@, id) {
                    crate::table::lookup(all.take(it.index() as int), id)
                } else {
                    None
                },
    {
        let ghost before = kept;
        let ghost here = all.take(it.index() as int);
        let ghost e = entry;
        assert(all.take(it.index() + 1) == here.push(e));
        if contains_task(tasks, &entry.0) && !kept.contains_key(entry.0.as_str()) {
            kept.insert(entry.0, entry.1);
        }
        assert forall|id: Seq<char>| #[trigger]
            kept.at(id) == if has_task(tasks@, id) {
                crate::table::lookup(here.push(e), id)
            } else {
                None
            } by {
            crate::table::lookup_push(here, e, id);
            assert(before.at(id) == before.at(id));
            assert(before.at(e.0@) == before.at(e.0@));
        }
    }
    assert(all.take(all.len() as int) == all);
    kept
}

impl ProjectDetail {
    /// The current scope.
    pub open spec fn scope(self) -> Option<Seq<char>> {
        match self.current_project {
            Some(name) => Some(name@),
            None => None,
        }
    }

    /// A task that a refresh shows: in the scope, and not being archived.
    pub open spec fn shows_task(self) -> spec_fn(Task) -> bool {
        |t: Task| in_scope(t, self.scope()) && !has_string(self.archive_in_progress@, t.id())
    }

    /// Where the selection goes after the rows changed: to the row it was on,
    /// if that is still there, or else to a selectable row nearby.
    pub open spec fn reselected(self, key: Option<RowKey<Seq<char>>>) -> int {
        match self.restored(key) {
            Some(i) => i,
            None => self.clamp_target(self.selected_index as int),
        }
    }

    /// The page with the selection it had before the rows changed.
    pub open spec fn with_selection(self, index: usize) -> ProjectDetail {
        ProjectDetail { selected_index: index, ..self }
    }

    /// Selects the row with the key again, or else a selectable one nearby.
    fn reselect(&mut self, key: Option<&RowKey<String>>)
        ensures
            ({
                let wanted = match key {
                    Some(k) => Some(key_view(*k)),
                    None => None,
                };
                &&& *final(self) == (ProjectDetail {
                    selected_index: old(self).reselected(wanted) as usize,
                    ..*old(self)
                })
                &&& final(self).selected_index == old(self).reselected(wanted)
            }),
    {
        if !self.restore_project_detail_selection(key) {
            self.clamp_project_detail_selection();
        }
    }

    /// The agents of the tasks become those that were read.
    fn refresh_attached_task_agents(&mut self, attached: Table<Vec<AgentRecord>>)
        ensures
            *final(self) == (ProjectDetail {
                attached_task_agents: final(self).attached_task_agents,
                ..*old(self)
            }),
            forall|id: Seq<char>| #[trigger]
                final(self).attached_task_agents.at(id) == if has_task(old(self).tasks@, id) {
                    attached.at(id)
                } else {
                    None
                },
    {
        self.attached_task_agents = keep_tasks(&self.tasks, attached);
    }

    /// The page `after` holds the given tasks with the agents that were read,
    /// and the selection was kept as far as it could be.
    pub open spec fn holds_tasks(
        self,
        before: ProjectDetail,
        tasks: Seq<Task>,
        attached: Table<Vec<AgentRecord>>,
    ) -> bool {
        &&& self.tasks@ == tasks
        &&& forall|id: Seq<char>| #[trigger]
            self.attached_task_agents.at(id) == if has_task(tasks, id) {
                attached.at(id)
            } else {
                None
            }
        &&& self == (ProjectDetail {
            tasks: self.tasks,
            attached_task_agents: self.attached_task_agents,
            selected_index: self.selected_index,
            ..before
        })
        &&& self.selected_index == self.with_selection(before.selected_index).reselected(
            before.selected_key(),
        )
    }

    /// Shows all the tasks that were read.
    pub fn refresh_tasks(&mut self, load: TaskLoad)
        ensures
            final(self).holds_tasks(*old(self), load.tasks@, load.attached),
    {
        let key = self.selected_project_detail_row_key();
        self.tasks = load.tasks;
        self.refresh_attached_task_agents(load.attached);
        self.reselect(key.as_ref());
    }

    /// Shows the tasks of the current scope that are not being archived.
    pub fn refresh_tasks_for_project(&mut self, load: TaskLoad)
        ensures
            final(self).holds_tasks(
                *old(self),
                load.tasks@.filter(old(self).shows_task()),
                load.attached,
            ),
    {
        let key = self.selected_project_detail_row_key();
        let tasks = self.keep_shown(load.tasks);
        self.tasks = tasks;
        self.refresh_attached_task_agents(load.attached);
        self.reselect(key.as_ref());
    }

    fn keep_shown(&self, tasks: Vec<Task>) -> (kept: Vec<Task>)
        ensures
            kept@ == tasks@.filter(self.shows_task()),
    {
        let ghost all = tasks@;
        let ghost wanted = self.shows_task();
        let mut kept: Vec<Task> = Vec::new();
        for task in it: tasks
            invariant
                it.seq() == all,
                wanted == self.shows_task(),
                kept@ == all.take(it.index() as int).filter(wanted),
        {
            proof {
                let here = all.take(it.index() as int);
                assert(all.take(it.index() + 1) == here.push(task));
                here.lemma_filter_push(task, wanted);
            }
            if self.is_in_scope(&task) && !contains_string(
                &self.archive_in_progress,
                task.meta.id.as_str(),
            ) {
                assert(wanted(task));
                kept.push(task);
            }
        }
        assert(all.take(all.len() as int) == all);
        kept
    }

    fn is_in_scope(&self, task: &Task) -> (yes: bool)
        ensures
            yes == in_scope(*task, self.scope()),
    {
        match &self.current_project {
            None => true,
            Some(name) => if is_unassigned(name.as_str()) {
                task.meta.project.is_none()
            } else {
                match &task.meta.project {
                    Some(project) => *project == *name,
                    None => false,
                }
            },
        }
    }

    /// Shows the tasks anew and selects the one with the id, if it is there.
    pub fn refresh_tasks_and_select(&mut self, task_id: &str, load: TaskLoad)
        ensures
            ({
                let shown = load.tasks@.filter(old(self).shows_task());
                match first_of(
                    final(self).keys(),
                    Some(RowKey::<Seq<char>>::Task { task_id: task_id@ }),
                ) {
                    Some(i) => final(self).selected_index == i && exists|mid: ProjectDetail|
                        #[trigger] mid.holds_tasks(*old(self), shown, load.attached)
                            && *final(self) == mid.with_selection(i as usize),
                    None => final(self).holds_tasks(*old(self), shown, load.attached),
                }
            }),
    {
        self.refresh_tasks_for_project(load);
        let ghost mid = *self;
        let key = RowKey::Task { task_id: task_id.to_owned() };
        if let Some(i) = self.find_project_detail_row_key(&key) {
            self.selected_index = i;
            proof {
                same_rows(mid, *self);
                assert(*self == mid.with_selection(i));
            }
        }
    }

    /// An agent that is shown: not archived.
    pub open spec fn shown_agents(agents: Seq<AgentRecord>) -> Seq<AgentRecord> {
        sorted_by(
            agents.filter(|a: AgentRecord| a.meta.status != AgentStatus::Archived),
            newer_agent(),
        )
    }

    /// Shows the agents that were read, the newest first and none that is
    /// archived. The tasks without a project have no agents.
    pub fn refresh_agents(&mut self, listed: Vec<AgentRecord>)
        ensures
            final(self).agents@ == if old(self).scope() == Some(unassigned()) {
                Seq::empty()
            } else {
                ProjectDetail::shown_agents(listed@)
            },
            *final(self) == (ProjectDetail {
                agents: final(self).agents,
                selected_index: final(self).selected_index,
                ..*old(self)
            }),
            final(self).selected_index == final(self).with_selection(
                old(self).selected_index,
            ).reselected(old(self).selected_key()),
    {
        let key = self.selected_project_detail_row_key();
        let without = match &self.current_project {
            Some(name) => is_unassigned(name.as_str()),
            None => false,
        };
        self.agents = if without {
            Vec::new()
        } else {
            sort_newest_first(keep_live(listed))
        };
        self.reselect(key.as_ref());
    }
}

fn keep_live(agents: Vec<AgentRecord>) -> (kept: Vec<AgentRecord>)
    ensures
        kept@ == agents@.filter(|a: AgentRecord| a.meta.status != AgentStatus::Archived),
{
    let ghost all = agents@;
    let ghost wanted = |a: AgentRecord| a.meta.status != AgentStatus::Archived;
    let mut kept: Vec<AgentRecord> = Vec::new();
    for agent in it: agents
        invariant
            it.seq() == all,
            wanted == (|a: AgentRecord| a.meta.status != AgentStatus::Archived),
            kept@ == all.take(it.index() as int).filter(wanted),
    {
        proof {
            let here = all.take(it.index() as int);
            assert(all.take(it.index() + 1) == here.push(agent));
            here.lemma_filter_push(agent, wanted);
        }
        if agent.meta.status != AgentStatus::Archived {
            kept.push(agent);
        }
    }
    assert(all.take(all.len() as int) == all);
    kept
}

/// The rows do not depend on which one is selected.
proof fn same_rows(a: ProjectDetail, b: ProjectDetail)
    requires
        a.tasks == b.tasks,
        a.agents == b.agents,
        a.attached_task_agents == b.attached_task_agents,
    ensures
        a.rows() == b.rows(),
        a.keys() == b.keys(),
        a.flags() == b.flags(),
{
    same_task_rows(a, b, a.tasks@.len() as int);
    assert(a.rows() == b.rows());
    assert(a.keys() == b.keys());
    assert(a.flags() == b.flags());
}

proof fn same_task_rows(a: ProjectDetail, b: ProjectDetail, n: int)
    requires
        a.tasks == b.tasks,
        a.agents == b.agents,
        a.attached_task_agents == b.attached_task_agents,
    ensures
        a.task_rows(n) == b.task_rows(n),
    decreases n,
{
    if n > 0 {
        same_task_rows(a, b, n - 1);
        assert(a.task_group(n - 1) == b.task_group(n - 1));
    }
}

impl ProjectDetail {
    /// The page without the task at `i`, which is being archived, and with the
    /// selection near where it was.
    pub open spec fn archives(
        self,
        before: ProjectDetail,
        i: int,
        attached: Table<Vec<AgentRecord>>,
    ) -> bool {
        &&& self.tasks@ == before.tasks@.remove(i)
        &&& forall|id: Seq<char>| #[trigger]
            has_string(self.archive_in_progress@, id) == (has_string(
                before.archive_in_progress@,
                id,
            ) || id == before.tasks@[i].id())
        &&& forall|id: Seq<char>| #[trigger]
            self.attached_task_agents.at(id) == if has_task(self.tasks@, id) {
                attached.at(id)
            } else {
                None
            }
        &&& self == (ProjectDetail {
            tasks: self.tasks,
            archive_in_progress: self.archive_in_progress,
            attached_task_agents: self.attached_task_agents,
            selected_index: self.selected_index,
            ..before
        })
        &&& self.selected_index == self.with_selection(before.selected_index).clamp_target(
            before.selected_index as int,
        )
    }

    /// Takes the selected task off the page and marks it as being archived,
    /// given the agents that were read for the remaining tasks.
    pub fn take_selected_task(&mut self, attached: Table<Vec<AgentRecord>>) -> (task: Option<Task>)
        ensures
            match task {
                Some(t) => old(self).spec_selected_task() matches Some(i) && 0 <= i
                    < old(self).tasks@.len() && t == old(self).tasks@[i] && final(self).archives(
                    *old(self),
                    i,
                    attached,
                ),
                None => old(self).spec_selected_task() is None && *final(self) == *old(self),
            },
    {
        match self.selected_task_index() {
            None => None,
            Some(i) => {
                let task = self.tasks.remove(i);
                insert_string(&mut self.archive_in_progress, task.meta.task_id());
                self.refresh_attached_task_agents(attached);
                self.clamp_project_detail_selection_near(self.selected_index);
                Some(task)
            },
        }
    }
}

/// A row that something can be done with is there.
pub open spec fn has_stop(page: ProjectDetail) -> bool {
    exists|i: int| 0 <= i < page.rows().len() && #[trigger] page.flags()[i]
}

/// A place of a row that something can be done with, or the first place where
/// there is none.
pub open spec fn is_stop(page: ProjectDetail, at: int) -> bool {
    if has_stop(page) {
        0 <= at < page.rows().len() && page.flags()[at]
    } else {
        at == 0
    }
}

/// Clamping selects a row that something can be done with, wherever there is
/// one, and keeps a selection that is on one.
pub proof fn clamping_selects_a_stop(page: ProjectDetail, preferred: int)
    requires
        0 <= preferred,
    ensures
        is_stop(page, page.clamp_target(preferred)),
        page.selected_index < page.rows().len() && page.flags()[page.selected_index as int]
            ==> page.clamp_target(preferred) == page.selected_index,
{
    let flags = page.flags();
    let start = if preferred < flags.len() {
        preferred
    } else {
        flags.len() - 1
    };
    assert(page.rows().len() >= 7);
    last_up_place(flags, start + 1);
    first_up_place(flags, start + 1, flags.len() as int);
}

/// Moving selects a row that something can be done with, wherever there is one.
pub proof fn moving_selects_a_stop(page: ProjectDetail, delta: int)
    ensures
        is_stop(page, page.moved(delta)),
{
    let flags = page.flags();
    let stops = page.stops();
    all_up_places(flags, flags.len() as int);
    first_of_place(stops, page.selected_index as int);
    if stops.len() > 0 {
        let current = match first_of(stops, page.selected_index as int) {
            Some(i) => i,
            None => 0,
        };
        vstd::arithmetic::div_mod::lemma_mod_bound(current + delta, stops.len() as int);
        let next = stops[(current + delta) % (stops.len() as int)];
        assert(flags[next]);
    } else if has_stop(page) {
        let i = choose|i: int| 0 <= i < page.rows().len() && #[trigger] page.flags()[i];
        assert(stops.contains(i));
    }
}

/// Going to either end selects a row that something can be done with.
pub proof fn ends_are_stops(page: ProjectDetail)
    ensures
        is_stop(page, page.first_stop()),
        is_stop(page, page.last_stop()),
        forall|i: int|
            0 <= i < page.rows().len() && #[trigger] page.flags()[i] ==> page.first_stop() <= i
                <= page.last_stop(),
{
    first_up_place(page.flags(), 0, page.rows().len() as int);
    last_up_place(page.flags(), page.rows().len() as int);
}

/// From a row that something can be done with, going on and back leads back.
pub proof fn next_and_previous_lead_back(page: ProjectDetail)
    requires
        page.selected_index < page.rows().len(),
        page.flags()[page.selected_index as int],
        page.rows().len() <= usize::MAX,
    ensures
        page.with_selection(page.moved(1) as usize).moved(-1) == page.selected_index,
        page.with_selection(page.moved(-1) as usize).moved(1) == page.selected_index,
{
    lead_back_by(page, 1);
    lead_back_by(page, -1);
}

proof fn lead_back_by(page: ProjectDetail, delta: int)
    requires
        page.selected_index < page.rows().len(),
        page.flags()[page.selected_index as int],
        page.rows().len() <= usize::MAX,
        delta == 1 || delta == -1,
    ensures
        page.with_selection(page.moved(delta) as usize).moved(-delta) == page.selected_index,
{
    let flags = page.flags();
    let stops = page.stops();
    let n = stops.len() as int;
    let here = page.selected_index as int;
    all_up_places(flags, flags.len() as int);
    assert(stops.contains(here));
    first_of_place(stops, here);
    let current = first_of(stops, here)->0;
    let next = (current + delta) % n;
    vstd::arithmetic::div_mod::lemma_mod_bound(current + delta, n);
    let moved = page.with_selection(stops[next] as usize);
    same_rows(page, moved);
    assert(moved.stops() == stops);
    assert(stops[next] as usize == stops[next]);
    first_of_place(stops, stops[next]);
    let found = first_of(stops, stops[next])->0;
    if found < next {
        assert(stops[found] < stops[next]);
    }
    assert(found == next);
    round_trip(current, n, delta);
}

proof fn round_trip(current: int, n: int, delta: int)
    requires
        0 <= current < n,
        delta == 1 || delta == -1,
    ensures
        ((current + delta) % n - delta) % n == current,
{
    vstd::arithmetic::div_mod::lemma_small_mod(current as nat, n as nat);
    vstd::arithmetic::div_mod::lemma_mod_self_0(n);
    vstd::arithmetic::div_mod::lemma_fundamental_div_mod_converse(-1, n, -1, n - 1);
    if 0 <= current + delta < n {
        vstd::arithmetic::div_mod::lemma_small_mod((current + delta) as nat, n as nat);
    }
}

/// Exactly the rows that something can be done with can be recognised.
pub proof fn stops_are_recognised(page: ProjectDetail, row: RowShape)
    ensures
        page.key_of(row) is Some <==> is_actionable(row),
{
}

/// The rows are in their sections: the header of the tasks stands between, the
/// agents without a task before it, the tasks and their agents after it.
pub proof fn agents_come_before_tasks(page: ProjectDetail, i: int)
    requires
        0 <= i < page.rows().len(),
    ensures
        page.rows()[page.tasks_start()] is TasksSectionHeader,
        page.rows()[i] is UnattachedAgent ==> i < page.tasks_start(),
        page.rows()[i] is Task || page.rows()[i] is AttachedAgent || page.rows()[i]
            is AttachedAgentsHeader || page.rows()[i] is TaskGroupSpacer ==> i
            > page.tasks_start(),
{
    let section = page.tasks_section();
    task_rows_shapes(page, page.tasks@.len() as int);
    let start = page.tasks_start() + 3;
    if i >= start {
        assert(page.rows()[i] == section[i - start]);
    }
}

/// The rows of tasks are tasks, their agents, headers and spacers.
proof fn task_rows_shapes(page: ProjectDetail, n: int)
    ensures
        forall|i: int|
            0 <= i < page.task_rows(n).len() ==> (#[trigger] page.task_rows(n)[i]) is Task
                || page.task_rows(n)[i] is AttachedAgent || page.task_rows(n)[i]
                is AttachedAgentsHeader || page.task_rows(n)[i] is TaskGroupSpacer,
    decreases n,
{
    if n > 0 {
        task_rows_shapes(page, n - 1);
        let before = page.task_rows(n - 1);
        assert forall|i: int| 0 <= i < page.task_rows(n).len() implies (
        #[trigger] page.task_rows(n)[i]) is Task || page.task_rows(n)[i] is AttachedAgent
            || page.task_rows(n)[i] is AttachedAgentsHeader || page.task_rows(n)[i]
            is TaskGroupSpacer by {
            if i < before.len() {
                assert(page.task_rows(n)[i] == before[i]);
            } else {
                assert(page.task_rows(n)[i] == page.task_group(n - 1)[i - before.len()]);
            }
        }
    }
}

/// No page ends in a spacer.
pub proof fn no_spacer_at_the_end(page: ProjectDetail)
    ensures
        page.rows().len() > 0,
        !(page.rows().last() is TaskGroupSpacer),
        !(page.rows().last() is SectionSpacer),
{
    let n = page.tasks@.len() as int;
    if n > 0 {
        let group = page.task_group(n - 1);
        assert(page.task_rows(n) == page.task_rows(n - 1) + group);
        assert(page.rows().last() == group.last());
    }
}

/// A refresh of the tasks leaves the selection on the row it was on, where that
/// row is still there.
pub proof fn refresh_keeps_the_selected_row(
    before: ProjectDetail,
    after: ProjectDetail,
    tasks: Seq<Task>,
    attached: Table<Vec<AgentRecord>>,
)
    requires
        after.holds_tasks(before, tasks, attached),
        before.selected_key() is Some,
        after.keys().contains(before.selected_key()),
    ensures
        after.selected_key() == before.selected_key(),
{
    let mid = after.with_selection(before.selected_index);
    same_rows(after, mid);
    first_of_place(after.keys(), before.selected_key());
}

/// A refresh after which an attached agent is gone leads to its task.
pub proof fn refresh_falls_back_to_the_task(
    before: ProjectDetail,
    after: ProjectDetail,
    tasks: Seq<Task>,
    attached: Table<Vec<AgentRecord>>,
    task_id: Seq<char>,
    project: Seq<char>,
    name: Seq<char>,
)
    requires
        after.holds_tasks(before, tasks, attached),
        before.selected_key() == Some(RowKey::AttachedAgent { task_id, project, name }),
        !after.keys().contains(before.selected_key()),
        after.keys().contains(Some(RowKey::Task { task_id })),
    ensures
        after.selected_key() == Some(RowKey::Task { task_id }),
{
    let mid = after.with_selection(before.selected_index);
    same_rows(after, mid);
    first_of_place(after.keys(), before.selected_key());
    first_of_place(after.keys(), Some(RowKey::Task { task_id }));
}

/// After a refresh the selection is on a row that something can be done with,
/// wherever there is one.
pub proof fn refresh_selects_a_stop(
    before: ProjectDetail,
    after: ProjectDetail,
    tasks: Seq<Task>,
    attached: Table<Vec<AgentRecord>>,
)
    requires
        after.holds_tasks(before, tasks, attached),
    ensures
        is_stop(after, after.selected_index as int),
{
    let mid = after.with_selection(before.selected_index);
    same_rows(after, mid);
    clamping_selects_a_stop(mid, before.selected_index as int);
    assert(has_stop(after) == has_stop(mid)) by {
        if has_stop(mid) {
            let i = choose|i: int| 0 <= i < mid.rows().len() && #[trigger] mid.flags()[i];
            assert(after.flags()[i]);
        }
        if has_stop(after) {
            let i = choose|i: int| 0 <= i < after.rows().len() && #[trigger] after.flags()[i];
            assert(mid.flags()[i]);
        }
    }
    if let Some(key) = before.selected_key() {
        first_of_place(mid.keys(), Some(key));
        match key {
            RowKey::AttachedAgent { task_id, project, name } => {
                first_of_place(mid.keys(), Some(RowKey::Task { task_id }));
            },
            _ => {},
        }
        if let Some(i) = mid.restored(Some(key)) {
            assert(mid.keys()[i] is Some);
            assert(after.flags()[i]);
        }
    }
}

/// A refresh shows no task that is being archived, and none of another scope.
pub proof fn refresh_hides_archived_tasks(
    before: ProjectDetail,
    after: ProjectDetail,
    load: TaskLoad,
    task: Task,
)
    requires
        after.holds_tasks(before, load.tasks@.filter(before.shows_task()), load.attached),
        after.tasks@.contains(task),
    ensures
        !has_string(before.archive_in_progress@, task.id()),
        in_scope(task, before.scope()),
        load.tasks@.contains(task),
{
    filter_member(load.tasks@, before.shows_task(), task);
}

/// What a filter leaves was there before and passes it.
proof fn filter_member<T>(s: Seq<T>, wanted: spec_fn(T) -> bool, x: T)
    requires
        s.filter(wanted).contains(x),
    ensures
        s.contains(x),
        wanted(x),
    decreases s.len(),
{
    s.lemma_filter_len(wanted);
    let rest = s.drop_last();
    rest.lemma_filter_push(s.last(), wanted);
    assert(rest.push(s.last()) == s);
    if rest.filter(wanted).contains(x) {
        filter_member(rest, wanted, x);
        let i = choose|i: int| 0 <= i < rest.len() && rest[i] == x;
        assert(s[i] == x);
    } else {
        let k = choose|k: int| 0 <= k < s.filter(wanted).len() && s.filter(wanted)[k] == x;
        if k < rest.filter(wanted).len() {
            assert(rest.filter(wanted)[k] == x);
        }
        assert(s[s.len() - 1] == x);
    }
}

/// A task of the scope that is not being archived is shown after a refresh.
pub proof fn refresh_shows_the_other_tasks(
    before: ProjectDetail,
    after: ProjectDetail,
    load: TaskLoad,
    task: Task,
)
    requires
        after.holds_tasks(before, load.tasks@.filter(before.shows_task()), load.attached),
        load.tasks@.contains(task),
        in_scope(task, before.scope()),
        !has_string(before.archive_in_progress@, task.id()),
    ensures
        after.tasks@.contains(task),
{
    load.tasks@.lemma_filter_contains_rev(before.shows_task(), task);
}

/// Archiving a task takes it off the page, keeps the others, and leaves the
/// selection on a row that something can be done with.
pub proof fn archiving_leaves_a_stop(
    before: ProjectDetail,
    after: ProjectDetail,
    i: int,
    attached: Table<Vec<AgentRecord>>,
)
    requires
        0 <= i < before.tasks@.len(),
        after.archives(before, i, attached),
    ensures
        has_string(after.archive_in_progress@, before.tasks@[i].id()),
        after.tasks@.len() == before.tasks@.len() - 1,
        is_stop(after, after.selected_index as int),
{
    let mid = after.with_selection(before.selected_index);
    same_rows(after, mid);
    clamping_selects_a_stop(mid, before.selected_index as int);
    assert(has_stop(after) == has_stop(mid)) by {
        if has_stop(mid) {
            let k = choose|k: int| 0 <= k < mid.rows().len() && #[trigger] mid.flags()[k];
            assert(after.flags()[k]);
        }
        if has_stop(after) {
            let k = choose|k: int| 0 <= k < after.rows().len() && #[trigger] after.flags()[k];
            assert(mid.flags()[k]);
        }
    }
}

/// Going on selects the next row down that something can be done with, and from
/// the last of them the first; going back the next one up, and from the first
/// the last.
pub proof fn rows_are_gone_through_in_order(page: ProjectDetail, i: int)
    requires
        page.selected_index < page.rows().len(),
        is_actionable(page.rows()[page.selected_index as int]),
        0 <= i < page.rows().len(),
        is_actionable(page.rows()[i]),
    ensures
        i > page.selected_index ==> page.selected_index < page.moved(1) <= i,
        i < page.selected_index ==> i <= page.moved(-1) < page.selected_index,
        page.moved(1) <= page.selected_index ==> page.moved(1) <= i <= page.selected_index,
        page.moved(-1) >= page.selected_index ==> page.selected_index <= i <= page.moved(-1),
        is_actionable(page.rows()[page.moved(1)]),
        is_actionable(page.rows()[page.moved(-1)]),
{
    let flags = page.flags();
    let stops = page.stops();
    let n = stops.len() as int;
    let here = page.selected_index as int;
    all_up_places(flags, flags.len() as int);
    assert(flags[here] && flags[i]);
    assert(stops.contains(here) && stops.contains(i));
    first_of_place(stops, here);
    let current = first_of(stops, here)->0;
    let k = choose|k: int| 0 <= k < n && stops[k] == i;
    steps_go_to_the_neighbour(current, n);
    if current + 1 < n {
        vstd::arithmetic::div_mod::lemma_small_mod((current + 1) as nat, n as nat);
    } else {
        vstd::arithmetic::div_mod::lemma_mod_self_0(n);
    }
    if current > 0 {
        vstd::arithmetic::div_mod::lemma_small_mod((current - 1) as nat, n as nat);
    } else {
        vstd::arithmetic::div_mod::lemma_fundamental_div_mod_converse(-1, n, -1, n - 1);
    }
    if k > current {
        assert(stops[current] < stops[k]);
        assert(current + 1 < n);
        if k > current + 1 {
            assert(stops[current + 1] < stops[k]);
        }
        assert(stops[current] < stops[current + 1]);
        if k < n - 1 {
            assert(stops[k] < stops[n - 1]);
        }
    } else if k < current {
        assert(stops[k] < stops[current]);
        if k < current - 1 {
            assert(stops[k] < stops[current - 1]);
        }
        assert(stops[current - 1] < stops[current]);
        if k > 0 {
            assert(stops[0] < stops[k]);
        }
    }
    if current > 0 {
        assert(stops[0] < stops[current]);
    }
    if current < n - 1 {
        assert(stops[current] < stops[n - 1]);
    }
}

/// Every agent without a task has a row, in the order of the agents; where there
/// is none, a row says so.
pub proof fn agents_have_rows(page: ProjectDetail, i: int)
    requires
        0 <= i < page.agents@.len(),
    ensures
        page.rows()[3 + i] == RowShape::UnattachedAgent(i),
        3 + i < page.tasks_start(),
{
    assert(page.rows()[3 + i] == page.agent_rows()[i]);
}

/// Where the row of a task stands.
pub open spec fn task_place(page: ProjectDetail, task: int) -> int {
    page.tasks_start() + 3 + page.task_rows(task).len()
}

/// Every task has a row, in the order of the tasks, with a row for each of its
/// agents below it under a header.
pub proof fn tasks_have_rows(page: ProjectDetail, task: int, k: int)
    requires
        0 <= task < page.tasks@.len(),
    ensures
        task_place(page, task) < page.rows().len(),
        page.rows()[task_place(page, task)] == RowShape::Task(task),
        0 <= k < page.attached(task).len() ==> page.rows()[task_place(page, task) + 1]
            is AttachedAgentsHeader && page.rows()[task_place(page, task) + 2 + k]
            == RowShape::AttachedAgent(task, k),
        task + 1 < page.tasks@.len() ==> task_place(page, task) + (if page.attached(task).len()
            == 0 {
            0
        } else {
            page.attached(task).len() + 1
        }) + 2 == task_place(page, task + 1),
{
    let n = page.tasks@.len() as int;
    let group = page.task_group(task);
    let start = page.task_rows(task).len() as int;
    rows_hold_groups(page, task, n);
    let section = page.tasks_section();
    let above = agents_header() + page.agent_rows() + tasks_header();
    assert(above.len() == page.tasks_start() + 3);
    assert(section[start] == group[0]);
    assert(page.rows()[above.len() + start] == section[start]);
    if 0 <= k < page.attached(task).len() {
        assert(group[1] is AttachedAgentsHeader);
        assert(group[2 + k] == RowShape::AttachedAgent(task, k));
        assert(section[start + 1] == group[1]);
        assert(section[start + 2 + k] == group[2 + k]);
        assert(page.rows()[above.len() + start + 1] == section[start + 1]);
        assert(page.rows()[above.len() + start + 2 + k] == section[start + 2 + k]);
    }
    assert(page.task_rows(task + 1) == page.task_rows(task) + group);
}

proof fn rows_hold_groups(page: ProjectDetail, task: int, n: int)
    requires
        0 <= task < n,
    ensures
        page.task_rows(task).len() + page.task_group(task).len() <= page.task_rows(n).len(),
        forall|i: int|
            0 <= i < page.task_group(task).len() ==> page.task_rows(n)[page.task_rows(task).len()
                + i] == #[trigger] page.task_group(task)[i],
    decreases n,
{
    assert(page.task_rows(n) == page.task_rows(n - 1) + page.task_group(n - 1));
    if task < n - 1 {
        rows_hold_groups(page, task, n - 1);
    }
}

/// What is selected is what the selected row is about: a task, an agent of a
/// task or an agent without one.
pub proof fn the_selected_row_is_acted_on(page: ProjectDetail, i: int, k: int)
    requires
        page.selected_index < page.rows().len(),
    ensures
        page.rows()[page.selected_index as int] == RowShape::Task(i) ==> page.spec_selected_task()
            == Some(i) && page.spec_selected_agent() is None,
        page.rows()[page.selected_index as int] == RowShape::UnattachedAgent(i)
            ==> page.spec_selected_agent() == Some(page.agents@[i]) && page.spec_selected_task()
            is None,
        page.rows()[page.selected_index as int] == RowShape::AttachedAgent(i, k)
            ==> page.spec_selected_agent() == Some(page.attached(i)[k])
            && page.spec_selected_task() is None,
        !is_actionable(page.rows()[page.selected_index as int]) ==> page.spec_selected_agent()
            is None && page.spec_selected_task() is None,
        is_actionable(RowShape::Task(i)) && is_actionable(RowShape::UnattachedAgent(i))
            && is_actionable(RowShape::AttachedAgent(i, k)),
        !is_actionable(RowShape::TasksSectionHeader) && !is_actionable(
            RowShape::AgentsSectionHeader,
        ) && !is_actionable(RowShape::TaskGroupSpacer) && !is_actionable(RowShape::EmptyTasks)
            && !is_actionable(RowShape::EmptyAgents) && !is_actionable(RowShape::SectionSpacer)
            && !is_actionable(RowShape::AttachedAgentsHeader) && !is_actionable(
            RowShape::SectionColumnSpacer,
        ) && !is_actionable(RowShape::TasksColumnsHeader) && !is_actionable(
            RowShape::AgentsColumnsHeader,
        ),
{
}

/// The agents of a task are those that were read for its name.
pub proof fn agents_are_attached_by_name(
    before: ProjectDetail,
    after: ProjectDetail,
    tasks: Seq<Task>,
    attached: Table<Vec<AgentRecord>>,
    i: int,
)
    requires
        after.holds_tasks(before, tasks, attached),
        0 <= i < tasks.len(),
    ensures
        after.tasks@ == tasks,
        attached.at(tasks[i].meta.id@) matches Some(agents) ==> after.attached(i) == agents@,
        attached.at(tasks[i].meta.id@) is None ==> after.attached(i).len() == 0,
        after.agents == before.agents,
        after.current_project == before.current_project,
{
    assert(has_task(tasks, tasks[i].meta.id@));
}

/// The next section goes to the first row of the other section that something
/// can be done with, from the agents to the tasks and back.
pub proof fn sections_are_changed(page: ProjectDetail)
    requires
        page.selected_index < page.rows().len(),
    ensures
        page.selected_index < page.tasks_start() && page.tasks@.len() > 0 ==> page.next_section()
            == task_place(page, 0),
        page.selected_index >= page.tasks_start() && page.agents@.len() > 0 ==> page.next_section()
            == 3,
        page.selected_index > page.tasks_start() && page.agents@.len() > 0
            ==> page.previous_section() == 3,
        page.selected_index <= page.tasks_start() && page.tasks@.len() > 0
            ==> page.previous_section() == task_place(page, 0),
        page.selected_index < page.tasks_start() && page.tasks@.len() == 0 ==> page.next_section()
            == page.selected_index,
        page.selected_index >= page.tasks_start() && page.agents@.len() == 0 ==> page.next_section()
            == page.selected_index,
{
    let flags = page.flags();
    let start = page.tasks_start();
    let n = page.rows().len() as int;
    let above = agents_header() + page.agent_rows() + tasks_header();
    assert(above.len() == start + 3);
    assert forall|i: int| 0 <= i < above.len() implies page.rows()[i] == above[i] by {}
    first_up_place(flags, start + 1, n);
    first_up_place(flags, 1, start);
    assert(!flags[start + 1]);
    assert(!flags[start + 2]);
    assert(!flags[1] && !flags[2]);
    if page.tasks@.len() > 0 {
        tasks_have_rows(page, 0, 0);
        assert(page.task_rows(0).len() == 0);
        assert(flags[start + 3]);
    } else {
        assert(page.rows()[start + 3] is EmptyTasks);
        assert(n == start + 4);
        assert(!flags[start + 3]);
    }
    if page.agents@.len() > 0 {
        agents_have_rows(page, 0);
        assert(flags[3]);
    } else {
        assert(page.rows()[3] is EmptyAgents);
        assert(page.rows()[4] is SectionSpacer);
        assert(start == 5);
        assert(!flags[3] && !flags[4]);
    }
}

/// A task is in the scope of its own project, in that of the tasks without a
/// project if it has none, and always where nothing is chosen.
pub proof fn tasks_are_in_the_scope_of_their_project(task: Task, name: String)
    requires
        name@ != "(unassigned)"@,
    ensures
        in_scope(task, None),
        task.meta.project == Some(name) ==> in_scope(task, Some(name@)) && !in_scope(
            task,
            Some("(unassigned)"@),
        ),
        task.meta.project is None ==> in_scope(task, Some("(unassigned)"@)) && !in_scope(
            task,
            Some(name@),
        ),
        in_scope(task, Some(name@)) ==> (task.meta.project matches Some(p) && p@ == name@),
{
}

/// The agents shown are exactly those that are not archived, the newest first.
pub proof fn agents_shown_are_not_archived(agents: Seq<AgentRecord>, agent: AgentRecord, i: int, j: int)
    ensures
        ProjectDetail::shown_agents(agents).contains(agent) <==> agents.contains(agent)
            && agent.meta.status != AgentStatus::Archived,
        0 <= i < j < ProjectDetail::shown_agents(agents).len() ==> ProjectDetail::shown_agents(
            agents,
        )[i].meta.created_at >= ProjectDetail::shown_agents(agents)[j].meta.created_at,
{
    let keep = |a: AgentRecord| a.meta.status != AgentStatus::Archived;
    let kept = agents.filter(keep);
    crate::order::kept_elements(agents, keep, agent);
    crate::order::sorted_elements(kept, newer_agent(), agent);
    crate::order::sorted_by_keeps_elements(kept, newer_agent());
    if 0 <= i < j < ProjectDetail::shown_agents(agents).len() {
        crate::order::sorted_agents_go_back_in_time(kept, i, j);
    }
}

/// A selection that cannot stay goes to the nearest row above where it is to be
/// that something can be done with, or else to the first below.
pub proof fn clamping_goes_to_the_nearest_row_above(page: ProjectDetail, preferred: int, i: int)
    requires
        0 <= preferred < page.rows().len(),
        page.selected_index >= page.rows().len() || !is_actionable(
            page.rows()[page.selected_index as int],
        ),
        0 <= i < page.rows().len(),
        is_actionable(page.rows()[i]),
    ensures
        i <= preferred ==> i <= page.clamp_target(preferred) <= preferred,
        page.clamp_target(preferred) > preferred ==> preferred < page.clamp_target(preferred) <= i,
{
    let flags = page.flags();
    assert(flags[i]);
    last_up_place(flags, preferred + 1);
    first_up_place(flags, preferred + 1, flags.len() as int);
}

} // verus!
