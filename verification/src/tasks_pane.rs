//! How the tasks of a project are drawn.

use crate::activity::{classify_agent_status, is_working, WorkingIdle};
use crate::app::App;
use crate::cells::{
    byte_len, can_cut, can_truncate, cut_off, left_aligned, len_in_bytes, pad_left, pad_right,
    right_aligned, truncate_to_width,
};
use crate::detail::{ProjectDetailRow, ProjectTaskRow, RowShape};
use crate::list::ProjectList;
use crate::model::{agent_kind_label, agent_session_name, AgentRecord, LinkedPr, Task};
use crate::project_pane::{held_between, hold_between};
use crate::status_bar::ProjectPaneFocus;
use crate::style::{
    colored, items_view, no_items, no_spans, one_line, plain, push_one_line, push_owned, push_span,
    spans_view, Color, Item, ItemView, Line, Style,
};
use crate::text::{concat, decimal, has_text, middle_stands, number, repeated};
use crate::times::{ago, time_since_datetime};
use vstd::prelude::*;
use vstd::view::View as _;

verus! {

pub const MIN_REPO_WIDTH: usize = 4;

pub const MAX_REPO_WIDTH: usize = 20;

pub const MIN_BRANCH_WIDTH: usize = 6;

/// Room for a number and the name of an author.
pub const PR_WIDTH: usize = 25;

pub const UPDATED_WIDTH: usize = 10;

/// The space between columns.
#[verifier::allow_in_spec]
pub fn col_gap() -> &'static str
    returns
        "    ",
{
    "    "
}

/// The style of the title of a pane.
#[verifier::allow_in_spec]
pub fn title_style(focused: bool) -> Style
    returns
        (if focused {
            colored(Color::LightCyan).bold()
        } else {
            colored(Color::Gray)
        }),
{
    if focused {
        colored(Color::LightCyan).bold()
    } else {
        colored(Color::Gray)
    }
}

/// The colour of the border of a pane.
#[verifier::allow_in_spec]
pub fn border_color(focused: bool) -> Color
    returns
        (if focused {
            Color::LightCyan
        } else {
            Color::DarkGray
        }),
{
    if focused {
        Color::LightCyan
    } else {
        Color::DarkGray
    }
}

/// The background of a row of a pane.
#[verifier::allow_in_spec]
pub fn pane_row_style(selected: bool) -> Style
    returns
        (if selected {
            plain().bg(Color::Rgb(40, 40, 50))
        } else {
            plain()
        }),
{
    if selected {
        plain().bg(Color::Rgb(40, 40, 50))
    } else {
        plain()
    }
}

/// The style of the name of an agent.
#[verifier::allow_in_spec]
pub fn agent_text_style(selected: bool) -> Style
    returns
        (if selected {
            colored(Color::White).bold()
        } else {
            colored(Color::Gray)
        }),
{
    if selected {
        colored(Color::White).bold()
    } else {
        colored(Color::Gray)
    }
}

/// The style of the name of a task.
#[verifier::allow_in_spec]
pub fn task_text_style(selected: bool) -> Style
    returns
        (if selected {
            colored(Color::White).bold()
        } else {
            colored(Color::Rgb(140, 140, 140))
        }),
{
    if selected {
        colored(Color::White).bold()
    } else {
        colored(Color::Rgb(140, 140, 140))
    }
}

/// What a task is listed as.
pub open spec fn repo_label(task: Task) -> Seq<char> {
    if task.meta.multi_repo {
        "[M] "@ + task.meta.name@
    } else {
        task.meta.name@
    }
}

fn repo_text(task: &Task) -> (label: String)
    ensures
        label@ == repo_label(*task),
{
    if task.meta.is_multi_repo() {
        concat("[M] ", task.meta.name.as_str())
    } else {
        task.meta.name.clone()
    }
}

/// How long a text is; with the mark of a task on several repositories.
pub open spec fn repo_len(task: Task) -> nat {
    byte_len(task.meta.name@) + if task.meta.multi_repo {
        4nat
    } else {
        0
    }
}

/// The larger of two lengths.
pub open spec fn larger(a: nat, b: nat) -> nat {
    if a > b {
        a
    } else {
        b
    }
}

/// The length of the longest entry of the column of repositories, up to its
/// bound.
pub open spec fn longest_repo(tasks: Seq<Task>) -> nat
    decreases tasks.len(),
{
    if tasks.len() == 0 {
        0
    } else {
        larger(longest_repo(tasks.drop_last()), repo_len(tasks.last()))
    }
}

/// The length of the longest branch name.
pub open spec fn longest_branch(tasks: Seq<Task>) -> nat
    decreases tasks.len(),
{
    if tasks.len() == 0 {
        0
    } else {
        larger(longest_branch(tasks.drop_last()), byte_len(tasks.last().meta.branch_name@))
    }
}

/// The widths of the columns.
#[derive(Clone, Copy)]
pub struct TaskColumns {
    pub repo: usize,
    pub branch: usize,
}

/// The columns are as wide as their longest entries, the first within its
/// bounds, the second as far as there is room.
pub open spec fn columns_of(tasks: Seq<Task>, width: u16) -> TaskColumns {
    let repo = held_between(
        longest_repo(tasks) as int,
        MIN_REPO_WIDTH as int,
        MAX_REPO_WIDTH as int,
    );
    let taken = 5 + 12 + repo + PR_WIDTH + UPDATED_WIDTH;
    let left = if width - taken > MIN_BRANCH_WIDTH {
        width - taken
    } else {
        MIN_BRANCH_WIDTH as int
    };
    let longest = larger(longest_branch(tasks), MIN_BRANCH_WIDTH as nat);
    TaskColumns {
        repo: repo as usize,
        branch: (if longest < left {
            longest as int
        } else {
            left
        }) as usize,
    }
}

impl TaskColumns {
    /// The column of agents goes over the first two columns.
    pub open spec fn agent(self) -> int {
        self.repo + self.branch + 4
    }
}

/// The widths of the columns for given tasks and a given width.
pub fn task_columns(tasks: &Vec<Task>, width: u16) -> (columns: TaskColumns)
    ensures
        columns == columns_of(tasks@, width),
        columns.repo + columns.branch <= 100_000,
{
    let mut repo: usize = 0;
    let mut branch: usize = 0;
    let mut i: usize = 0;
    while i < tasks.len()
        invariant
            i <= tasks.len(),
            repo == if longest_repo(tasks@.take(i as int)) < MAX_REPO_WIDTH {
                longest_repo(tasks@.take(i as int))
            } else {
                MAX_REPO_WIDTH as nat
            },
            branch == longest_branch(tasks@.take(i as int)),
        decreases tasks.len() - i,
    {
        assert(tasks@.take(i + 1).drop_last() =~= tasks@.take(i as int));
        let name = len_in_bytes(tasks[i].meta.name.as_str());
        let mark = if tasks[i].meta.is_multi_repo() {
            4usize
        } else {
            0usize
        };
        if name >= MAX_REPO_WIDTH - mark {
            repo = MAX_REPO_WIDTH;
        } else if name + mark > repo {
            repo = name + mark;
        }
        let len = len_in_bytes(tasks[i].meta.branch_name.as_str());
        if len > branch {
            branch = len;
        }
        i += 1;
    }
    assert(tasks@.take(i as int) =~= tasks@);
    let repo = hold_between(repo, MIN_REPO_WIDTH, MAX_REPO_WIDTH);
    let taken = 5 + 12 + repo + PR_WIDTH + UPDATED_WIDTH;
    let mut left = MIN_BRANCH_WIDTH;
    if width as usize > taken && width as usize - taken > MIN_BRANCH_WIDTH {
        left = width as usize - taken;
    }
    if branch < MIN_BRANCH_WIDTH {
        branch = MIN_BRANCH_WIDTH;
    }
    if branch > left {
        branch = left;
    }
    TaskColumns { repo, branch }
}

/// What is shown of the pull request of a task.
pub open spec fn pr_label(pr: Option<LinkedPr>) -> Seq<char> {
    match pr {
        Some(pr) => {
            let number = "#"@ + right_aligned(decimal(pr.number as nat), 5);
            if pr.owned {
                number + " mine"@
            } else {
                number + " ("@ + (match pr.author {
                    Some(author) => author@,
                    None => "ext"@,
                }) + ")"@
            }
        },
        None => Seq::empty(),
    }
}

/// The style in which a pull request is shown.
pub open spec fn pr_style(pr: Option<LinkedPr>) -> Style {
    match pr {
        Some(pr) => if pr.owned {
            colored(Color::LightMagenta)
        } else {
            colored(Color::Gray)
        },
        None => plain(),
    }
}

fn pr_text(pr: &Option<LinkedPr>) -> (label: String)
    ensures
        label@ == pr_label(*pr),
{
    match pr {
        Some(pr) => {
            let mut label = "#".to_owned();
            label.append(pad_left(number(pr.number).as_str(), 5).as_str());
            if pr.owned {
                label.append(" mine");
            } else {
                label.append(" (");
                match &pr.author {
                    Some(author) => label.append(author.as_str()),
                    None => label.append("ext"),
                }
                label.append(")");
            }
            label
        },
        None => String::new(),
    }
}

fn style_of_pr(pr: &Option<LinkedPr>) -> (style: Style)
    ensures
        style == pr_style(*pr),
{
    match pr {
        Some(pr) => if pr.owned {
            colored(Color::LightMagenta)
        } else {
            colored(Color::Gray)
        },
        None => plain(),
    }
}

/// What is shown of an agent that works for a task.
pub open spec fn agent_label(agent: AgentRecord) -> Seq<char> {
    agent.meta.kind.word() + " "@ + agent.meta.name@
}

fn agent_text(agent: &AgentRecord) -> (label: String)
    ensures
        label@ == agent_label(*agent),
{
    let mut label = agent_kind_label(agent.meta.kind);
    label.append(" ");
    label.append(agent.meta.name.as_str());
    label
}

/// The word, the sign and the colour of what an agent is doing.
pub open spec fn runtime_status(working: bool) -> (Seq<char>, Seq<char>, Color) {
    if working {
        ("working"@, "●"@, Color::LightGreen)
    } else {
        ("idle"@, "○"@, Color::DarkGray)
    }
}

impl ProjectList {
    /// An agent is working.
    pub open spec fn works(self, agent: AgentRecord, now: i64) -> bool {
        is_working(now, self.agent_activity.at(agent.meta.session_name@))
    }

    /// The word, the sign and the colour of what an agent is doing.
    pub fn agent_runtime_status(&self, agent: &AgentRecord, now: i64) -> (status: (
        &'static str,
        &'static str,
        Color,
    ))
        ensures
            (status.0@, status.1@, status.2) == runtime_status(self.works(*agent, now)),
    {
        let session_name = agent_session_name(agent);
        match classify_agent_status(now, self.agent_activity.get(session_name.as_str())) {
            WorkingIdle::Working => ("working", "●", Color::LightGreen),
            WorkingIdle::Idle => ("idle", "○", Color::DarkGray),
        }
    }
}

/// The row of a task.
pub open spec fn task_row(
    task: Task,
    updated: Seq<char>,
    selected: bool,
    columns: TaskColumns,
) -> ItemView {
    let gap = (col_gap()@, plain());
    let repo = cut_off(repo_label(task), columns.repo as int);
    let branch = cut_off(task.meta.branch_name@, columns.branch as int);
    let pr = cut_off(pr_label(task.meta.linked_pr), PR_WIDTH as int);
    one_line(
        seq![
            ("     "@, plain()),
            (left_aligned(repo, columns.repo as int), task_text_style(selected)),
            gap,
            (left_aligned(branch, columns.branch as int), task_text_style(selected)),
            gap,
            (left_aligned(pr, PR_WIDTH as int), pr_style(task.meta.linked_pr)),
            gap,
            (updated, colored(Color::DarkGray)),
        ],
        pane_row_style(selected),
    )
}

/// The texts of a task can be cut off where their columns end.
pub open spec fn task_fits(task: Task, columns: TaskColumns) -> bool {
    &&& can_cut(repo_label(task), columns.repo as int)
    &&& can_cut(task.meta.branch_name@, columns.branch as int)
    &&& can_cut(pr_label(task.meta.linked_pr), PR_WIDTH as int)
}

fn push_task_row(
    items: &mut Vec<Item>,
    task: &Task,
    updated: &str,
    selected: bool,
    columns: TaskColumns,
)
    requires
        task_fits(*task, columns),
    ensures
        items_view(final(items)@) == items_view(old(items)@).push(
            task_row(*task, updated@, selected, columns),
        ),
{
    let repo = truncate_to_width(repo_text(task).as_str(), columns.repo);
    let branch = truncate_to_width(task.meta.branch_name.as_str(), columns.branch);
    let pr = truncate_to_width(pr_text(&task.meta.linked_pr).as_str(), PR_WIDTH);
    let style = task_text_style(selected);
    let mut spans = no_spans();
    push_span(&mut spans, "     ", plain());
    push_owned(&mut spans, pad_right(repo.as_str(), columns.repo), style);
    push_span(&mut spans, col_gap(), plain());
    push_owned(&mut spans, pad_right(branch.as_str(), columns.branch), style);
    push_span(&mut spans, col_gap(), plain());
    push_owned(&mut spans, pad_right(pr.as_str(), PR_WIDTH), style_of_pr(&task.meta.linked_pr));
    push_span(&mut spans, col_gap(), plain());
    push_span(&mut spans, updated, colored(Color::DarkGray));
    assert(spans_view(spans@) =~= task_row(*task, updated@, selected, columns).lines[0]);
    push_one_line(items, spans, pane_row_style(selected));
}

/// The row of an agent that works for a task.
pub open spec fn attached_row(
    agent: AgentRecord,
    working: bool,
    selected: bool,
    columns: TaskColumns,
    now_epoch: i64,
) -> ItemView {
    let status = runtime_status(working);
    let gap = (col_gap()@, plain());
    one_line(
        seq![
            ("       "@, plain()),
            (status.1, colored(status.2)),
            (" "@, plain()),
            (
                left_aligned(cut_off(agent_label(agent), columns.agent()), columns.agent()),
                agent_text_style(selected),
            ),
            gap,
            (left_aligned(status.0, PR_WIDTH as int), colored(status.2)),
            gap,
            (ago(now_epoch - agent.meta.created_at), colored(Color::DarkGray)),
        ],
        pane_row_style(selected),
    )
}

fn push_attached_row(
    items: &mut Vec<Item>,
    agent: &AgentRecord,
    status: (&'static str, &'static str, Color),
    selected: bool,
    columns: TaskColumns,
    now_epoch: i64,
    Ghost(working): Ghost<bool>,
)
    requires
        can_cut(agent_label(*agent), columns.agent()),
        columns.agent() <= usize::MAX,
        (status.0@, status.1@, status.2) == runtime_status(working),
    ensures
        items_view(final(items)@) == items_view(old(items)@).push(
            attached_row(*agent, working, selected, columns, now_epoch),
        ),
{
    let width = columns.repo + columns.branch + 4;
    let label = truncate_to_width(agent_text(agent).as_str(), width);
    let mut spans = no_spans();
    push_span(&mut spans, "       ", plain());
    push_span(&mut spans, status.1, colored(status.2));
    push_span(&mut spans, " ", plain());
    push_owned(&mut spans, pad_right(label.as_str(), width), agent_text_style(selected));
    push_span(&mut spans, col_gap(), plain());
    push_owned(&mut spans, pad_right(status.0, PR_WIDTH), colored(status.2));
    push_span(&mut spans, col_gap(), plain());
    push_owned(
        &mut spans,
        time_since_datetime(agent.meta.created_at, now_epoch),
        colored(Color::DarkGray),
    );
    assert(spans_view(spans@) =~= attached_row(
        *agent,
        working,
        selected,
        columns,
        now_epoch,
    ).lines[0]);
    push_one_line(items, spans, pane_row_style(selected));
}

impl App {
    /// A row of the page is drawn as an entry of the pane; headers and spaces
    /// between rows are not.
    pub open spec fn task_entry(
        self,
        row: int,
        updated: Seq<String>,
        columns: TaskColumns,
        now: i64,
        now_epoch: i64,
    ) -> Option<ItemView> {
        let selected = self.detail.focus() is Tasks && row == self.detail.selected_index;
        match self.detail.rows()[row] {
            RowShape::Task(i) => Some(
                task_row(self.detail.tasks@[i], updated[i]@, selected, columns),
            ),
            RowShape::AttachedAgent(i, k) => {
                let agent = self.detail.attached(i)[k];
                let working = self.list.works(agent, now);
                Some(attached_row(agent, working, selected, columns, now_epoch))
            },
            _ => None,
        }
    }

    /// The entries of the pane, for the first rows of the page.
    pub open spec fn task_entries(
        self,
        n: nat,
        updated: Seq<String>,
        columns: TaskColumns,
        now: i64,
        now_epoch: i64,
    ) -> Seq<ItemView>
        decreases n,
    {
        if n == 0 {
            Seq::empty()
        } else {
            let before = self.task_entries((n - 1) as nat, updated, columns, now, now_epoch);
            match self.task_entry(n - 1, updated, columns, now, now_epoch) {
                Some(entry) => before.push(entry),
                None => before,
            }
        }
    }

    /// The texts of a row can be cut off where their columns end.
    pub open spec fn row_fits(self, row: int, columns: TaskColumns) -> bool {
        match self.detail.rows()[row] {
            RowShape::Task(i) => task_fits(self.detail.tasks@[i], columns),
            RowShape::AttachedAgent(i, k) => can_cut(
                agent_label(self.detail.attached(i)[k]),
                columns.agent(),
            ),
            _ => true,
        }
    }

    /// No text has a character where its column ends that would be split.
    pub open spec fn tasks_fit(self, columns: TaskColumns) -> bool {
        forall|row: int|
            0 <= row < self.detail.rows().len() ==> #[trigger] self.row_fits(row, columns)
    }

    /// Whether the tasks can be drawn in a given width: no text has a character
    /// where its column ends that would be split.
    pub fn tasks_pane_fits(&self, width: u16) -> (fits: bool)
        ensures
            fits == self.tasks_fit(columns_of(self.detail.tasks@, width)),
    {
        let columns = task_columns(&self.detail.tasks, width);
        let rows = self.detail.project_detail_rows();
        let mut i: usize = 0;
        while i < rows.len()
            invariant
                i <= rows.len(),
                columns.repo + columns.branch <= 100_000,
                columns == columns_of(self.detail.tasks@, width),
                self.detail.all_shaped(rows@, self.detail.rows()),
                forall|row: int| 0 <= row < i ==> #[trigger] self.row_fits(row, columns),
            decreases rows.len() - i,
        {
            assert(self.detail.shaped(rows@[i as int], self.detail.rows()[i as int]));
            let fits = match rows[i] {
                ProjectDetailRow::Task(ProjectTaskRow::Task { task_index, task }) => {
                    can_truncate(repo_text(task).as_str(), columns.repo) && can_truncate(
                        task.meta.branch_name.as_str(),
                        columns.branch,
                    ) && can_truncate(pr_text(&task.meta.linked_pr).as_str(), PR_WIDTH)
                },
                ProjectDetailRow::AttachedAgent(ProjectTaskRow::Agent { task_index, agent }) => {
                    can_truncate(
                        agent_text(agent).as_str(),
                        columns.repo + columns.branch + 4,
                    )
                },
                _ => true,
            };
            assert(fits == self.row_fits(i as int, columns));
            if !fits {
                return false;
            }
            i += 1;
        }
        true
    }
}

/// The header above the tasks.
pub open spec fn tasks_header(columns: TaskColumns) -> Seq<(Seq<char>, Style)> {
    let style = colored(Color::White).bold();
    let gap = (col_gap()@, plain());
    seq![
        ("     "@, plain()),
        (left_aligned("REPO"@, columns.repo as int), style),
        gap,
        (left_aligned("BRANCH"@, columns.branch as int), style),
        gap,
        (left_aligned("PR"@, PR_WIDTH as int), style),
        gap,
        ("UPDATED"@, style),
    ]
}

fn tasks_header_line(columns: TaskColumns) -> (line: Line)
    ensures
        line@ == tasks_header(columns),
{
    let style = colored(Color::White).bold();
    let mut spans = no_spans();
    push_span(&mut spans, "     ", plain());
    push_owned(&mut spans, pad_right("REPO", columns.repo), style);
    push_span(&mut spans, col_gap(), plain());
    push_owned(&mut spans, pad_right("BRANCH", columns.branch), style);
    push_span(&mut spans, col_gap(), plain());
    push_owned(&mut spans, pad_right("PR", PR_WIDTH), style);
    push_span(&mut spans, col_gap(), plain());
    push_span(&mut spans, "UPDATED", style);
    Line { spans }
}

/// A pane of the page of a project as it is drawn.
pub struct Pane {
    pub title: Line,
    pub border: Color,
    /// The header above the entries, if there is one.
    pub header: Option<Line>,
    /// What is said in place of entries where there are none.
    pub empty: Option<String>,
    pub items: Vec<Item>,
}

/// The title of a pane: its name and how much it holds.
pub open spec fn pane_title(name: Seq<char>, focused: bool, n: nat, unit: Seq<char>) -> Seq<
    (Seq<char>, Style),
> {
    seq![
        (name, title_style(focused)),
        ("("@ + decimal(n) + unit, colored(Color::DarkGray)),
    ]
}

/// The title of a pane: its name and how much it holds.
pub fn title_line(name: &str, focused: bool, n: usize, unit: &str) -> (line: Line)
    ensures
        line@ == pane_title(name@, focused, n as nat, unit@),
{
    let mut spans = no_spans();
    push_span(&mut spans, name, title_style(focused));
    let mut count = "(".to_owned();
    count.append(number(n as u64).as_str());
    count.append(unit);
    push_owned(&mut spans, count, colored(Color::DarkGray));
    Line { spans }
}

impl App {
    /// The tasks of a project as they are drawn in a given width. For each task
    /// it is given how long ago it was updated.
    pub fn tasks_pane(&self, width: u16, updated: &Vec<String>, now: i64, now_epoch: i64) -> (pane:
        Pane)
        requires
            updated@.len() == self.detail.tasks@.len(),
            self.tasks_fit(columns_of(self.detail.tasks@, width)),
        ensures
            ({
                let focused = self.detail.focus() is Tasks;
                let tasks = self.detail.tasks@;
                let columns = columns_of(tasks, width);
                &&& pane.title@ == pane_title(" Tasks "@, focused, tasks.len(), " tasks) "@)
                &&& pane.border == border_color(focused)
                &&& pane.header matches Some(header) && header@ == tasks_header(columns)
                &&& items_view(pane.items@) == if tasks.len() == 0 {
                    Seq::empty()
                } else {
                    self.task_entries(
                        self.detail.rows().len(),
                        updated@,
                        columns,
                        now,
                        now_epoch,
                    )
                }
                &&& match pane.empty {
                    Some(message) => tasks.len() == 0 && message@ == "No tasks"@,
                    None => tasks.len() > 0,
                }
            }),
    {
        let columns = task_columns(&self.detail.tasks, width);
        let focused = matches!(self.detail.pane_focus(), ProjectPaneFocus::Tasks);
        let title = title_line(" Tasks ", focused, self.detail.tasks.len(), " tasks) ");
        let border = border_color(focused);
        let header = Some(tasks_header_line(columns));
        let mut items = no_items();
        if self.detail.tasks.len() == 0 {
            return Pane { title, border, header, empty: Some("No tasks".to_owned()), items };
        }
        let rows = self.detail.project_detail_rows();
        let mut i: usize = 0;
        while i < rows.len()
            invariant
                i <= rows.len(),
                focused == (self.detail.focus() is Tasks),
                updated@.len() == self.detail.tasks@.len(),
                columns.repo + columns.branch <= 100_000,
                self.tasks_fit(columns),
                self.detail.all_shaped(rows@, self.detail.rows()),
                items_view(items@) == self.task_entries(
                    i as nat,
                    updated@,
                    columns,
                    now,
                    now_epoch,
                ),
            decreases rows.len() - i,
        {
            assert(self.detail.shaped(rows@[i as int], self.detail.rows()[i as int]));
            assert(self.row_fits(i as int, columns));
            let selected = focused && i == self.detail.selected_index;
            match rows[i] {
                ProjectDetailRow::Task(ProjectTaskRow::Task { task_index, task }) => {
                    push_task_row(
                        &mut items,
                        task,
                        updated[task_index].as_str(),
                        selected,
                        columns,
                    );
                },
                ProjectDetailRow::AttachedAgent(ProjectTaskRow::Agent { task_index, agent }) => {
                    let status = self.list.agent_runtime_status(agent, now);
                    push_attached_row(
                        &mut items,
                        agent,
                        status,
                        selected,
                        columns,
                        now_epoch,
                        Ghost(self.list.works(*agent, now)),
                    );
                },
                _ => {},
            }
            i += 1;
        }
        Pane { title, border, header, empty: None, items }
    }
}

/// The row of a task tells its repository, with a mark for several, its branch,
/// its pull request and when it was updated, as far as they fit; the selected one
/// stands out.
pub proof fn rows_tell_of_their_task(
    task: Task,
    updated: Seq<char>,
    selected: bool,
    columns: TaskColumns,
)
    ensures
        ({
            let row = task_row(task, updated, selected, columns);
            let line = row.lines[0];
            let repo = if task.meta.multi_repo {
                "[M] "@ + task.meta.name@
            } else {
                task.meta.name@
            };
            let branch = task.meta.branch_name@;
            &&& 0 < columns.repo && byte_len(repo) <= columns.repo ==> line[1].0 == left_aligned(
                repo,
                columns.repo as int,
            )
            &&& 0 < columns.branch && byte_len(branch) <= columns.branch ==> line[3].0
                == left_aligned(branch, columns.branch as int)
            &&& task.meta.linked_pr is None ==> line[5].0 == repeated(' ', 25)
            &&& line[7].0 == updated
            &&& row.style == pane_row_style(selected)
        }),
{
    if task.meta.linked_pr is None {
        assert(pr_label(task.meta.linked_pr) =~= Seq::empty());
        vstd::utf8::encode_utf8_valid_utf8(Seq::empty());
        assert(byte_len(Seq::empty()) == 0) by {
            assert(vstd::utf8::encode_utf8(Seq::<char>::empty()).len() == 0);
        }
        assert(left_aligned(Seq::empty(), 25) =~= repeated(' ', 25));
    }
}

/// A pull request is told by its number and whose it is: one's own, or that of
/// its author.
pub proof fn pull_requests_are_told_by_number_and_owner(pr: LinkedPr)
    ensures
        has_text(pr_label(Some(pr)), decimal(pr.number as nat)),
        pr.owned ==> has_text(pr_label(Some(pr)), "mine"@) && pr_style(Some(pr)).fg == Some(
            Color::LightMagenta,
        ),
        !pr.owned ==> pr_style(Some(pr)).fg == Some(Color::Gray),
        !pr.owned ==> (pr.author matches Some(author) ==> has_text(pr_label(Some(pr)), author@)),
{
    let n = decimal(pr.number as nat);
    if pr.owned {
        number_stands("#"@, n, " mine"@);
        owner_stands("#"@ + right_aligned(n, 5));
    } else {
        let who = match pr.author {
            Some(author) => author@,
            None => "ext"@,
        };
        number_stands("#"@, n, " ("@ + who + ")"@);
        assert("#"@ + right_aligned(n, 5) + " ("@ + who + ")"@ =~= "#"@ + right_aligned(n, 5) + (
        " ("@ + who + ")"@));
        middle_stands("#"@ + right_aligned(n, 5) + " ("@, who, ")"@);
    }
}

proof fn number_stands(sign: Seq<char>, n: Seq<char>, rest: Seq<char>)
    ensures
        has_text(sign + right_aligned(n, 5) + rest, n),
{
    let pad = if n.len() < 5 {
        repeated(' ', (5 - n.len()) as nat)
    } else {
        Seq::empty()
    };
    assert(right_aligned(n, 5) =~= pad + n);
    middle_stands(sign + pad, n, rest);
    assert(sign + right_aligned(n, 5) + rest =~= sign + pad + n + rest);
}

proof fn owner_stands(start: Seq<char>)
    ensures
        has_text(start + " mine"@, "mine"@),
{
    reveal_strlit(" mine");
    reveal_strlit("mine");
    assert(" mine"@ =~= seq![' '] + "mine"@);
    middle_stands(start + seq![' '], "mine"@, Seq::empty());
    assert(start + " mine"@ =~= start + seq![' '] + "mine"@ + Seq::<char>::empty());
}

/// The row of an agent tells its kind and name and whether it works, in green if
/// it does.
pub proof fn agents_tell_whether_they_work(
    agent: AgentRecord,
    working: bool,
    selected: bool,
    columns: TaskColumns,
    now_epoch: i64,
)
    ensures
        ({
            let line = attached_row(agent, working, selected, columns, now_epoch).lines[0];
            let label = agent.meta.kind.word() + " "@ + agent.meta.name@;
            &&& working ==> line[1] == ("●"@, colored(Color::LightGreen)) && line[5].0
                == left_aligned("working"@, 25)
            &&& !working ==> line[1] == ("○"@, colored(Color::DarkGray)) && line[5].0
                == left_aligned("idle"@, 25)
            &&& byte_len(label) <= columns.repo + columns.branch + 4 ==> line[3].0 == left_aligned(
                label,
                columns.repo + columns.branch + 4,
            )
        }),
{
}

/// The columns are wide enough for the longest repository, between four and
/// twenty, and for the longest branch as far as there is room.
pub proof fn columns_fit_their_entries(tasks: Seq<Task>, width: u16, i: int)
    requires
        0 <= i < tasks.len(),
    ensures
        4 <= columns_of(tasks, width).repo <= 20,
        repo_len(tasks[i]) <= 20 ==> repo_len(tasks[i]) <= columns_of(tasks, width).repo,
        columns_of(tasks, width).branch >= 6,
        byte_len(tasks[i].meta.branch_name@) + columns_of(tasks, width).repo + 52 <= width
            ==> byte_len(tasks[i].meta.branch_name@) <= columns_of(tasks, width).branch,
{
    no_entry_is_longer(tasks, i);
}

proof fn no_entry_is_longer(tasks: Seq<Task>, i: int)
    requires
        0 <= i < tasks.len(),
    ensures
        repo_len(tasks[i]) <= longest_repo(tasks),
        byte_len(tasks[i].meta.branch_name@) <= longest_branch(tasks),
    decreases tasks.len(),
{
    if i < tasks.len() - 1 {
        no_entry_is_longer(tasks.drop_last(), i);
    }
}

impl App {
    /// Each row that has an entry adds it behind those of the rows above, and no
    /// other row adds any.
    pub proof fn rows_are_drawn_in_order(
        self,
        n: nat,
        updated: Seq<String>,
        columns: TaskColumns,
        now: i64,
        now_epoch: i64,
    )
        ensures
            self.task_entries(0, updated, columns, now, now_epoch).len() == 0,
            ({
                let above = self.task_entries(n, updated, columns, now, now_epoch);
                let with_row = self.task_entries(n + 1, updated, columns, now, now_epoch);
                &&& with_row.len() <= above.len() + 1
                &&& forall|k: int| 0 <= k < above.len() ==> #[trigger] with_row[k] == above[k]
                &&& self.task_entry(n as int, updated, columns, now, now_epoch) matches Some(entry)
                    ==> with_row.last() == entry && with_row.len() == above.len() + 1
            }),
    {
    }
}

} // verus!
