//! How the project list is drawn.

use crate::app::App;
use crate::cells::{
    active_count_style, byte_len, count_cell, dim_count_style, left_aligned, len_in_bytes, pad_left,
    pad_right,
    push_project_blank_cell, push_project_count_cell, right_aligned, shortened,
    truncate_with_ellipsis,
};
use crate::inbox::is_stalled;
use crate::list::ProjectList;
use crate::model::{unassigned, Project};
use crate::style::{
    colored, items_view, lines_view, no_items, no_lines, no_spans, one_line, plain, push_item,
    push_line, push_one_line, push_owned, push_span, spans_view, Color, Item, ItemView, Line, Span,
    Style,
};
use crate::table::{contains_string, has_string, Table};
use crate::text::{chars_of, decimal, number, repeat_char, repeated};
use vstd::prelude::*;
use vstd::view::View as _;

verus! {

/// The width of the column of tasks.
pub const PROJECT_TASK_COUNT_WIDTH: usize = 8;

/// The width of the column of agents.
pub const PROJECT_ASSISTANT_COUNT_WIDTH: usize = 10;

pub const MIN_PROJECT_WIDTH: usize = 10;

pub const MAX_PROJECT_WIDTH: usize = 25;

/// The space between columns.
#[verifier::allow_in_spec]
pub fn project_col_gap() -> &'static str
    returns
        "    ",
{
    "    "
}

/// A value held between two bounds.
pub open spec fn held_between(n: int, low: int, high: int) -> int {
    if n < low {
        low
    } else if n > high {
        high
    } else {
        n
    }
}

/// Holds a value between two bounds.
pub fn hold_between(n: usize, low: usize, high: usize) -> (held: usize)
    ensures
        held == held_between(n as int, low as int, high as int),
{
    if n < low {
        low
    } else if n > high {
        high
    } else {
        n
    }
}

/// The length in bytes of the longest name of the first projects.
pub open spec fn longest_name(projects: Seq<Project>) -> nat
    decreases projects.len(),
{
    if projects.len() == 0 {
        0
    } else {
        let rest = longest_name(projects.drop_last());
        let len = byte_len(projects.last().meta.name@);
        if len > rest {
            len
        } else {
            rest
        }
    }
}

/// The width of the column of names: that of the longest name, within bounds.
pub open spec fn name_column(list: ProjectList) -> int {
    let names = if list.projects@.len() == 0 {
        MIN_PROJECT_WIDTH as int
    } else {
        longest_name(list.projects@) as int
    };
    let label = byte_len(unassigned()) as int;
    let longest = if list.unassigned_task_count > 0 && label > names {
        label
    } else {
        names
    };
    held_between(longest, MIN_PROJECT_WIDTH as int, MAX_PROJECT_WIDTH as int)
}

/// The width that is left for descriptions.
pub open spec fn description_column(list: ProjectList, width: u16) -> int {
    let taken = 4 + name_column(list) + PROJECT_TASK_COUNT_WIDTH + PROJECT_ASSISTANT_COUNT_WIDTH
        + 3 * 4;
    if width > taken {
        width - taken
    } else {
        0
    }
}

fn longest_of(projects: &Vec<Project>) -> (n: usize)
    ensures
        n == longest_name(projects@),
{
    let mut n: usize = 0;
    let mut i: usize = 0;
    while i < projects.len()
        invariant
            i <= projects.len(),
            n == longest_name(projects@.take(i as int)),
        decreases projects.len() - i,
    {
        assert(projects@.take(i + 1).drop_last() =~= projects@.take(i as int));
        let len = len_in_bytes(projects[i].meta.name.as_str());
        if len > n {
            n = len;
        }
        i += 1;
    }
    assert(projects@.take(i as int) =~= projects@);
    n
}

/// The width of the column of names.
fn name_width(list: &ProjectList) -> (n: usize)
    ensures
        n == name_column(*list),
        MIN_PROJECT_WIDTH <= n <= MAX_PROJECT_WIDTH,
{
    let mut longest = if list.projects.len() == 0 {
        MIN_PROJECT_WIDTH
    } else {
        longest_of(&list.projects)
    };
    if list.unassigned_task_count > 0 {
        let label = len_in_bytes("(unassigned)");
        if label > longest {
            longest = label;
        }
    }
    hold_between(longest, MIN_PROJECT_WIDTH, MAX_PROJECT_WIDTH)
}

/// The background of a row.
#[verifier::allow_in_spec]
pub fn row_style(selected: bool) -> Style
    returns
        (if selected {
            plain().bg(Color::Rgb(40, 40, 60))
        } else {
            plain()
        }),
{
    if selected {
        plain().bg(Color::Rgb(40, 40, 60))
    } else {
        plain()
    }
}

/// The mark before a row.
#[verifier::allow_in_spec]
pub fn row_mark(selected: bool) -> &'static str
    returns
        (if selected {
            "> "
        } else {
            "  "
        }),
{
    if selected {
        "> "
    } else {
        "  "
    }
}

/// A name in its column.
pub open spec fn fitted(name: Seq<char>, width: int) -> Seq<char> {
    if name.len() > width {
        shortened(name, width)
    } else {
        left_aligned(name, width)
    }
}

fn fit(name: &str, width: usize) -> (s: String)
    ensures
        s@ == fitted(name@, width as int),
{
    if chars_of(name).len() > width {
        truncate_with_ellipsis(name, width)
    } else {
        pad_right(name, width)
    }
}

/// The description of a project in its column.
pub open spec fn description_span(description: Seq<char>, width: int) -> (Seq<char>, Style) {
    if width == 0 {
        (""@, plain())
    } else if description.len() == 0 {
        ("No description"@, colored(Color::DarkGray).italic())
    } else {
        (shortened(description, width), colored(Color::DarkGray))
    }
}

fn push_description(spans: &mut Vec<Span>, description: &str, width: usize)
    ensures
        spans_view(final(spans)@) == spans_view(old(spans)@).push(
            description_span(description@, width as int),
        ),
{
    if width == 0 {
        push_span(spans, "", plain());
    } else if description.is_empty() {
        push_span(spans, "No description", colored(Color::DarkGray).italic());
    } else {
        push_owned(
            spans,
            truncate_with_ellipsis(description, width),
            colored(Color::DarkGray),
        );
    }
}

/// What a table counts for a name.
pub open spec fn count_of(counts: Table<usize>, name: Seq<char>) -> usize {
    match counts.at(name) {
        Some(n) => n,
        None => 0,
    }
}

fn count(counts: &Table<usize>, name: &str) -> (n: usize)
    ensures
        n == count_of(*counts, name@),
{
    match counts.get(name) {
        Some(n) => *n,
        None => 0,
    }
}

/// The row of a project.
pub open spec fn project_row(
    list: ProjectList,
    stalls: Table<u32>,
    i: int,
    held: bool,
    width: u16,
) -> ItemView {
    let project = list.projects@[i].meta;
    let gap = (project_col_gap()@, plain());
    let selected = i == list.selected_project_index;
    let total = count_of(list.project_task_counts, project.name@);
    let line = seq![
        ("  "@, plain()),
        (row_mark(selected)@, colored(Color::LightCyan)),
        (
            fitted(project.name@, name_column(list)),
            if held {
                colored(Color::Gray)
            } else {
                colored(Color::White).bold()
            },
        ),
        gap,
    ] + count_cell(total, total, PROJECT_TASK_COUNT_WIDTH) + seq![gap] + count_cell(
        count_of(list.project_active_agent_counts, project.name@),
        count_of(list.project_agent_counts, project.name@),
        PROJECT_ASSISTANT_COUNT_WIDTH,
    ) + seq![gap, description_span(project.description@, description_column(list, width))] + (
    if is_stalled(stalls, project.name@) {
        seq![("  ⚠ stalled"@, colored(Color::Yellow))]
    } else {
        seq![]
    });
    ItemView { lines: seq![line, seq![]], style: row_style(selected) }
}

/// Two lines, of which the second is empty.
fn spaced(spans: Vec<Span>) -> (lines: Vec<Line>)
    ensures
        lines_view(lines@) == seq![spans_view(spans@), seq![]],
{
    let mut lines = no_lines();
    push_line(&mut lines, spans);
    push_line(&mut lines, no_spans());
    lines
}

/// Adds the row of a project.
fn render_project_row(
    items: &mut Vec<Item>,
    list: &ProjectList,
    stalled: &Vec<String>,
    i: usize,
    held: bool,
    project_width: usize,
    desc_width: usize,
    Ghost(stalls): Ghost<Table<u32>>,
    Ghost(width): Ghost<u16>,
)
    requires
        i < list.projects@.len(),
        project_width == name_column(*list),
        desc_width == description_column(*list, width),
        forall|t: Seq<char>| #[trigger] has_string(stalled@, t) == is_stalled(stalls, t),
    ensures
        items_view(final(items)@) == items_view(old(items)@).push(
            project_row(*list, stalls, i as int, held, width),
        ),
{
    let project = &list.projects[i].meta;
    let name = project.name.as_str();
    let total = count(&list.project_task_counts, name);
    let selected = i == list.selected_project_index;
    let mut spans = no_spans();
    push_span(&mut spans, "  ", plain());
    push_span(&mut spans, row_mark(selected), colored(Color::LightCyan));
    push_owned(
        &mut spans,
        fit(name, project_width),
        if held {
            colored(Color::Gray)
        } else {
            colored(Color::White).bold()
        },
    );
    push_span(&mut spans, project_col_gap(), plain());
    push_project_count_cell(&mut spans, total, total, PROJECT_TASK_COUNT_WIDTH);
    push_span(&mut spans, project_col_gap(), plain());
    push_project_count_cell(
        &mut spans,
        count(&list.project_active_agent_counts, name),
        count(&list.project_agent_counts, name),
        PROJECT_ASSISTANT_COUNT_WIDTH,
    );
    push_span(&mut spans, project_col_gap(), plain());
    push_description(&mut spans, project.description.as_str(), desc_width);
    if contains_string(stalled, name) {
        push_span(&mut spans, "  ⚠ stalled", colored(Color::Yellow));
    }
    assert(spans_view(spans@) =~= project_row(*list, stalls, i as int, held, width).lines[0]);
    push_item(items, spaced(spans), row_style(selected));
}

/// How many projects come before the first that is on hold.
pub open spec fn active_len(projects: Seq<Project>) -> int
    decreases projects.len(),
{
    if projects.len() == 0 || projects[0].meta.held {
        0
    } else {
        1 + active_len(projects.drop_first())
    }
}

/// The rows of the projects on hold, among the first ones.
pub open spec fn held_rows(
    list: ProjectList,
    stalls: Table<u32>,
    n: nat,
    width: u16,
) -> Seq<ItemView>
    decreases n,
{
    if n == 0 {
        Seq::empty()
    } else {
        let rows = held_rows(list, stalls, (n - 1) as nat, width);
        if list.projects@[n - 1].meta.held {
            rows.push(project_row(list, stalls, n - 1, true, width))
        } else {
            rows
        }
    }
}

/// How many projects are on hold, among the first ones.
pub open spec fn held_count(projects: Seq<Project>, n: nat) -> nat
    decreases n,
{
    if n == 0 {
        0
    } else {
        held_count(projects, (n - 1) as nat) + if projects[n - 1].meta.held {
            1nat
        } else {
            0
        }
    }
}

/// The header of the section of projects on hold.
pub open spec fn hold_header(held: nat, width: u16) -> Seq<(Seq<char>, Style)> {
    let label = "── On Hold ("@ + decimal(held) + ") "@;
    seq![
        (label, colored(Color::Rgb(180, 140, 60)).bold()),
        (
            repeated(
                '─',
                if width > byte_len(label) {
                    (width - byte_len(label)) as nat
                } else {
                    0
                },
            ),
            colored(Color::Rgb(60, 60, 60)),
        ),
    ]
}

/// The section of projects on hold, where there are any.
pub open spec fn hold_section(list: ProjectList, stalls: Table<u32>, width: u16) -> Seq<ItemView> {
    let n = list.projects@.len();
    let held = held_count(list.projects@, n);
    if held > 0 {
        seq![
            one_line(hold_header(held, width), plain()),
            one_line(seq![], plain()),
        ] + held_rows(list, stalls, n, width)
    } else {
        seq![]
    }
}

/// The row of the tasks without a project, where there are any.
pub open spec fn unassigned_rows(list: ProjectList) -> Seq<ItemView> {
    if list.unassigned_task_count > 0 {
        let n = list.unassigned_task_count;
        let gap = (project_col_gap()@, plain());
        let selected = list.projects@.len() == list.selected_project_index;
        let line = seq![
            ("  "@, plain()),
            (row_mark(selected)@, colored(Color::LightCyan)),
            (left_aligned(unassigned(), name_column(list)), colored(Color::DarkGray)),
            gap,
        ] + count_cell(n, n, PROJECT_TASK_COUNT_WIDTH) + seq![
            gap,
            (repeated(' ', PROJECT_ASSISTANT_COUNT_WIDTH as nat), dim_count_style()),
        ];
        seq![ItemView { lines: seq![line, seq![]], style: row_style(selected) }]
    } else {
        seq![]
    }
}

/// The rows of the list, in the order in which they are reached: the active
/// projects, those on hold, and the tasks without a project.
pub open spec fn project_rows(list: ProjectList, stalls: Table<u32>, width: u16) -> Seq<ItemView> {
    Seq::new(
        active_len(list.projects@) as nat,
        |i: int| project_row(list, stalls, i, false, width),
    ) + hold_section(list, stalls, width) + unassigned_rows(list)
}

proof fn active_prefix(projects: Seq<Project>, i: int)
    requires
        0 <= i <= projects.len(),
        forall|j: int| 0 <= j < i ==> !(#[trigger] projects[j]).meta.held,
        i < projects.len() ==> projects[i].meta.held,
    ensures
        active_len(projects) == i,
    decreases projects.len(),
{
    if projects.len() > 0 && !projects[0].meta.held {
        let rest = projects.drop_first();
        assert forall|j: int| 0 <= j < i - 1 implies !(#[trigger] rest[j]).meta.held by {
            assert(rest[j] == projects[j + 1]);
        }
        active_prefix(rest, i - 1);
    }
}

fn push_hold_section(
    items: &mut Vec<Item>,
    list: &ProjectList,
    stalled: &Vec<String>,
    project_width: usize,
    desc_width: usize,
    width: u16,
    Ghost(stalls): Ghost<Table<u32>>,
)
    requires
        project_width == name_column(*list),
        desc_width == description_column(*list, width),
        forall|t: Seq<char>| #[trigger] has_string(stalled@, t) == is_stalled(stalls, t),
    ensures
        items_view(final(items)@) == items_view(old(items)@) + hold_section(*list, stalls, width),
{
    let ghost before = items_view(items@);
    let ghost section = hold_section(*list, stalls, width);
    let mut held: usize = 0;
    let mut i: usize = 0;
    while i < list.projects.len()
        invariant
            i <= list.projects.len(),
            held <= i,
            held == held_count(list.projects@, i as nat),
        decreases list.projects.len() - i,
    {
        if list.projects[i].meta.held {
            held += 1;
        }
        i += 1;
    }
    if held == 0 {
        assert(items_view(items@) =~= before + section);
        return;
    }
    let mut label = "── On Hold (".to_owned();
    label.append(number(held as u64).as_str());
    label.append(") ");
    let len = len_in_bytes(label.as_str());
    let fill = if width as usize > len {
        width as usize - len
    } else {
        0
    };
    let mut spans = no_spans();
    push_owned(&mut spans, label, colored(Color::Rgb(180, 140, 60)).bold());
    push_owned(&mut spans, repeat_char('─', fill), colored(Color::Rgb(60, 60, 60)));
    assert(spans_view(spans@) =~= hold_header(held as nat, width));
    push_one_line(items, spans, plain());
    push_one_line(items, no_spans(), plain());
    let ghost start = items_view(items@);
    assert(start =~= start + held_rows(*list, stalls, 0, width));
    let mut i: usize = 0;
    while i < list.projects.len()
        invariant
            i <= list.projects.len(),
            project_width == name_column(*list),
            desc_width == description_column(*list, width),
            forall|t: Seq<char>| #[trigger] has_string(stalled@, t) == is_stalled(stalls, t),
            items_view(items@) == start + held_rows(*list, stalls, i as nat, width),
        decreases list.projects.len() - i,
    {
        if list.projects[i].meta.held {
            render_project_row(
                items,
                list,
                stalled,
                i,
                true,
                project_width,
                desc_width,
                Ghost(stalls),
                Ghost(width),
            );
        }
        assert(items_view(items@) =~= start + held_rows(*list, stalls, (i + 1) as nat, width));
        i += 1;
    }
    assert(i == list.projects@.len());
    assert(items_view(items@) =~= before + section);
}

fn push_unassigned_row(items: &mut Vec<Item>, list: &ProjectList, project_width: usize)
    requires
        project_width == name_column(*list),
    ensures
        items_view(final(items)@) == items_view(old(items)@) + unassigned_rows(*list),
{
    let ghost before = items_view(items@);
    if list.unassigned_task_count > 0 {
        let n = list.unassigned_task_count;
        let selected = list.projects.len() == list.selected_project_index;
        let mut spans = no_spans();
        push_span(&mut spans, "  ", plain());
        push_span(&mut spans, row_mark(selected), colored(Color::LightCyan));
        push_owned(
            &mut spans,
            pad_right("(unassigned)", project_width),
            colored(Color::DarkGray),
        );
        push_span(&mut spans, project_col_gap(), plain());
        push_project_count_cell(&mut spans, n, n, PROJECT_TASK_COUNT_WIDTH);
        push_span(&mut spans, project_col_gap(), plain());
        push_project_blank_cell(&mut spans, PROJECT_ASSISTANT_COUNT_WIDTH);
        assert(spans_view(spans@) =~= unassigned_rows(*list)[0].lines[0]);
        push_item(items, spaced(spans), row_style(selected));
    }
    assert(items_view(items@) =~= before + unassigned_rows(*list));
}

/// The rows of the project list.
fn project_items(
    list: &ProjectList,
    stalled: &Vec<String>,
    width: u16,
    Ghost(stalls): Ghost<Table<u32>>,
) -> (items: Vec<Item>)
    requires
        forall|t: Seq<char>| #[trigger] has_string(stalled@, t) == is_stalled(stalls, t),
    ensures
        items_view(items@) == project_rows(*list, stalls, width),
{
    let project_width = name_width(list);
    let taken = 4 + project_width + PROJECT_TASK_COUNT_WIDTH + PROJECT_ASSISTANT_COUNT_WIDTH + 3
        * 4;
    let desc_width = if width as usize > taken {
        width as usize - taken
    } else {
        0
    };
    let mut items = no_items();
    let mut i: usize = 0;
    let ghost all = Seq::new(
        list.projects@.len(),
        |i: int| project_row(*list, stalls, i, false, width),
    );
    assert(items_view(items@) =~= all.take(0));
    while i < list.projects.len() && !list.projects[i].meta.held
        invariant
            i <= list.projects.len(),
            all == Seq::new(
                list.projects@.len(),
                |i: int| project_row(*list, stalls, i, false, width),
            ),
            project_width == name_column(*list),
            desc_width == description_column(*list, width),
            forall|t: Seq<char>| #[trigger] has_string(stalled@, t) == is_stalled(stalls, t),
            forall|j: int| 0 <= j < i ==> !(#[trigger] list.projects@[j]).meta.held,
            items_view(items@) == all.take(i as int),
        decreases list.projects.len() - i,
    {
        render_project_row(
            &mut items,
            list,
            stalled,
            i,
            false,
            project_width,
            desc_width,
            Ghost(stalls),
            Ghost(width),
        );
        assert(items_view(items@) =~= all.take(i + 1));
        i += 1;
    }
    proof {
        active_prefix(list.projects@, i as int);
    }
    push_hold_section(
        &mut items,
        list,
        stalled,
        project_width,
        desc_width,
        width,
        Ghost(stalls),
    );
    push_unassigned_row(&mut items, list, project_width);
    assert(items_view(items@) =~= project_rows(*list, stalls, width));
    items
}

/// Projects on hold come after all others.
pub open spec fn holds_come_last(projects: Seq<Project>) -> bool {
    forall|i: int, j: int|
        0 <= i <= j < projects.len() && (#[trigger] projects[i]).meta.held ==> (
        #[trigger] projects[j]).meta.held
}

/// A list in which projects on hold were sorted to the bottom is such a list.
pub proof fn sorted_holds_come_last(projects: Seq<Project>)
    ensures
        holds_come_last(crate::activity::held_last(projects)),
{
    let free = |p: Project| !p.meta.held;
    let held = |p: Project| p.meta.held;
    let sorted = crate::activity::held_last(projects);
    let first = projects.filter(free).len();
    assert forall|i: int, j: int|
        0 <= i <= j < sorted.len() && (#[trigger] sorted[i]).meta.held implies (
    #[trigger] sorted[j]).meta.held by {
        if i < first {
            projects.lemma_filter_pred(free, i);
        }
        projects.lemma_filter_pred(held, j - first);
    }
}

proof fn held_rows_follow(list: ProjectList, stalls: Table<u32>, n: nat, width: u16)
    requires
        holds_come_last(list.projects@),
        n <= list.projects@.len(),
    ensures
        ({
            let a = active_len(list.projects@);
            held_rows(list, stalls, n, width) == Seq::new(
                (if n > a {
                    n - a
                } else {
                    0
                }) as nat,
                |k: int| project_row(list, stalls, a + k, true, width),
            )
        }),
    decreases n,
{
    let projects = list.projects@;
    active_is_prefix(projects);
    let a = active_len(projects);
    let expected = Seq::new(
        (if n > a {
            n - a
        } else {
            0
        }) as nat,
        |k: int| project_row(list, stalls, a + k, true, width),
    );
    if n > 0 {
        held_rows_follow(list, stalls, (n - 1) as nat, width);
        if n - 1 < a {
            assert(!projects[n - 1].meta.held);
        } else {
            assert(projects[a].meta.held);
            assert(projects[n - 1].meta.held);
        }
    }
    assert(held_rows(list, stalls, n, width) =~= expected);
}

proof fn active_is_prefix(projects: Seq<Project>)
    ensures
        0 <= active_len(projects) <= projects.len(),
        forall|j: int| 0 <= j < active_len(projects) ==> !(#[trigger] projects[j]).meta.held,
        active_len(projects) < projects.len() ==> projects[active_len(projects)].meta.held,
    decreases projects.len(),
{
    if projects.len() > 0 && !projects[0].meta.held {
        let rest = projects.drop_first();
        active_is_prefix(rest);
        assert forall|j: int| 0 <= j < active_len(projects) implies !(
        #[trigger] projects[j]).meta.held by {
            if j > 0 {
                assert(rest[j - 1] == projects[j]);
            }
        }
        if active_len(projects) < projects.len() {
            assert(rest[active_len(rest)] == projects[active_len(projects)]);
        }
    }
}

/// Where the projects on hold come last, the rows follow the order in which
/// they are reached: every project has one row, the rows of the active ones
/// come first, and those on hold stand below one header and an empty line.
pub proof fn rows_follow_navigation(list: ProjectList, stalls: Table<u32>, width: u16)
    requires
        holds_come_last(list.projects@),
    ensures
        ({
            let n = list.projects@.len() as int;
            let a = active_len(list.projects@);
            let rows = project_rows(list, stalls, width);
            let shift: int = if a < n {
                2
            } else {
                0
            };
            &&& 0 <= a <= n
            &&& rows.len() == list.entries() + shift
            &&& forall|i: int|
                0 <= i < a ==> #[trigger] rows[i] == project_row(list, stalls, i, false, width)
            &&& forall|i: int|
                a <= i < n ==> #[trigger] rows[i + shift] == project_row(
                    list,
                    stalls,
                    i,
                    true,
                    width,
                )
        }),
{
    let projects = list.projects@;
    let n = projects.len();
    active_is_prefix(projects);
    held_rows_follow(list, stalls, n, width);
    held_count_follows(projects, n);
    let a = active_len(projects);
    let rows = project_rows(list, stalls, width);
    let section = hold_section(list, stalls, width);
    let shift: int = if a < n {
        2
    } else {
        0
    };
    assert forall|i: int| a <= i < n implies #[trigger] rows[i + shift] == project_row(
        list,
        stalls,
        i,
        true,
        width,
    ) by {
        assert(rows[i + shift] == section[i - a + shift]);
        assert(section[i - a + shift] == held_rows(list, stalls, n, width)[i - a]);
    }
}

proof fn held_count_follows(projects: Seq<Project>, n: nat)
    requires
        holds_come_last(projects),
        n <= projects.len(),
    ensures
        held_count(projects, n) == if n > active_len(projects) {
            n - active_len(projects)
        } else {
            0
        },
    decreases n,
{
    active_is_prefix(projects);
    if n > 0 {
        held_count_follows(projects, (n - 1) as nat);
        if n - 1 >= active_len(projects) {
            assert(projects[active_len(projects)].meta.held);
            assert(projects[n - 1].meta.held);
        }
    }
}

/// The header above the rows.
pub open spec fn header_line(list: ProjectList) -> Seq<(Seq<char>, Style)> {
    let style = colored(Color::White).bold();
    let gap = (project_col_gap()@, plain());
    seq![
        ("    "@, plain()),
        (left_aligned("PROJECT"@, name_column(list)), style),
        gap,
        (right_aligned("TASKS"@, PROJECT_TASK_COUNT_WIDTH as int), style),
        gap,
        (right_aligned("AGENTS"@, PROJECT_ASSISTANT_COUNT_WIDTH as int), style),
        gap,
        ("DESCRIPTION"@, style),
    ]
}

fn project_header(list: &ProjectList) -> (line: Line)
    ensures
        line@ == header_line(*list),
{
    let style = colored(Color::White).bold();
    let mut spans = no_spans();
    push_span(&mut spans, "    ", plain());
    push_owned(&mut spans, pad_right("PROJECT", name_width(list)), style);
    push_span(&mut spans, project_col_gap(), plain());
    push_owned(&mut spans, pad_left("TASKS", PROJECT_TASK_COUNT_WIDTH), style);
    push_span(&mut spans, project_col_gap(), plain());
    push_owned(&mut spans, pad_left("AGENTS", PROJECT_ASSISTANT_COUNT_WIDTH), style);
    push_span(&mut spans, project_col_gap(), plain());
    push_span(&mut spans, "DESCRIPTION", style);
    Line { spans }
}

/// What stands below the title of the project list.
pub enum ProjectListBody {
    /// There is nothing to list, and this is said.
    Empty(String),
    Rows { banner: Option<Line>, header: Line, items: Vec<Item> },
}

/// The project list as it is drawn.
pub struct ProjectListPane {
    pub title: Line,
    pub body: ProjectListBody,
}

impl App {
    /// The project list as it is drawn in a given width. A warning is shown
    /// where messages cannot be delivered to the chief of staff.
    pub fn project_list_pane(&self, width: u16) -> (pane: ProjectListPane)
        ensures
            pane.title@ == seq![
                (" agman "@, colored(Color::LightCyan).bold()),
                (
                    "("@ + decimal(self.list.projects@.len()) + " projects) "@,
                    colored(Color::DarkGray),
                ),
            ],
            ({
                let stalls = self.inbox.readings.stuck_skip_counts;
                match pane.body {
                    ProjectListBody::Empty(message) => self.list.entries() == 0 && message@
                        == "No projects. Press 'c' to start Chief of Staff, or create a project via CLI."@,
                    ProjectListBody::Rows { banner, header, items } => {
                        &&& self.list.entries() > 0
                        &&& header@ == header_line(self.list)
                        &&& items_view(items@) == project_rows(self.list, stalls, width)
                        &&& match banner {
                            Some(line) => is_stalled(stalls, "chief-of-staff"@) && line@ == seq![
                                ("⚠ CoS stalled"@, colored(Color::Yellow)),
                            ],
                            None => !is_stalled(stalls, "chief-of-staff"@),
                        }
                    },
                }
            }),
    {
        let list = &self.list;
        let mut spans = no_spans();
        push_span(&mut spans, " agman ", colored(Color::LightCyan).bold());
        let mut count = "(".to_owned();
        count.append(number(list.projects.len() as u64).as_str());
        count.append(" projects) ");
        push_owned(&mut spans, count, colored(Color::DarkGray));
        let title = Line { spans };
        if list.projects.len() == 0 && list.unassigned_task_count == 0 {
            let message = "No projects. Press 'c' to start Chief of Staff, or create a project via CLI.";
            return ProjectListPane { title, body: ProjectListBody::Empty(message.to_owned()) };
        }
        let stalled = self.inbox.stalled_targets();
        let banner = if contains_string(&stalled, "chief-of-staff") {
            let mut spans = no_spans();
            push_span(&mut spans, "⚠ CoS stalled", colored(Color::Yellow));
            Some(Line { spans })
        } else {
            None
        };
        let header = project_header(list);
        let items = project_items(
            list,
            &stalled,
            width,
            Ghost(self.inbox.readings.stuck_skip_counts),
        );
        ProjectListPane { title, body: ProjectListBody::Rows { banner, header, items } }
    }
}

/// The row of a project tells its name, how many tasks and agents it has, and how
/// many of its agents work. The selected one is marked, and one whose manager's
/// inbox is stalled is marked as well.
pub proof fn rows_tell_names_and_counts(
    list: ProjectList,
    stalls: Table<u32>,
    i: int,
    held: bool,
    width: u16,
)
    requires
        0 <= i < list.projects@.len(),
    ensures
        ({
            let meta = list.projects@[i].meta;
            let row = project_row(list, stalls, i, held, width);
            let line = row.lines[0];
            let tasks = match list.project_task_counts.at(meta.name@) {
                Some(n) => n,
                None => 0,
            };
            let agents = match list.project_agent_counts.at(meta.name@) {
                Some(n) => n,
                None => 0,
            };
            let active = match list.project_active_agent_counts.at(meta.name@) {
                Some(n) => n,
                None => 0,
            };
            &&& meta.name@.len() <= name_column(list) ==> line[2].0.take(meta.name@.len() as int)
                == meta.name@
            &&& line.contains(("/"@ + decimal(tasks as nat), dim_count_style()))
            &&& line.contains(("/"@ + decimal(agents as nat), dim_count_style()))
            &&& line.contains((decimal(active as nat), active_count_style(active)))
            &&& i == list.selected_project_index ==> line[1].0 == "> "@ && row.style.bg == Some(
                Color::Rgb(40, 40, 60),
            )
            &&& i != list.selected_project_index ==> line[1].0 == "  "@ && row.style.bg is None
            &&& line[2].1.bold == !held
            &&& (stalls.at(meta.name@) matches Some(n) && n >= 5) ==> line.last().0
                == "  ⚠ stalled"@
            &&& !(stalls.at(meta.name@) matches Some(n) && n >= 5)
                && meta.description@.len() > 0 && description_column(list, width)
                >= meta.description@.len() ==> line.last().0 == meta.description@
        }),
{
    let meta = list.projects@[i].meta;
    let line = project_row(list, stalls, i, held, width).lines[0];
    let tasks = count_of(list.project_task_counts, meta.name@);
    let agents = count_of(list.project_agent_counts, meta.name@);
    let active = count_of(list.project_active_agent_counts, meta.name@);
    if meta.name@.len() <= name_column(list) {
        assert(line[2].0.take(meta.name@.len() as int) =~= meta.name@);
    }
    let first = count_cell(tasks, tasks, PROJECT_TASK_COUNT_WIDTH);
    let second = count_cell(active, agents, PROJECT_ASSISTANT_COUNT_WIDTH);
    let k = first.len() as int;
    let m = second.len() as int;
    assert(first[k - 1] == ("/"@ + decimal(tasks as nat), dim_count_style()));
    assert(second[m - 1] == ("/"@ + decimal(agents as nat), dim_count_style()));
    assert(second[m - 2] == (decimal(active as nat), active_count_style(active)));
    assert(line[4 + k - 1] == first[k - 1]);
    assert(line[4 + k + 1 + m - 1] == second[m - 1]);
    assert(line[4 + k + 1 + m - 2] == second[m - 2]);
}

/// The tasks without a project have a row of their own behind the others, exactly
/// where there are any, which tells how many.
pub proof fn tasks_without_a_project_have_a_row(list: ProjectList, stalls: Table<u32>, width: u16)
    ensures
        list.unassigned_task_count == 0 ==> unassigned_rows(list).len() == 0,
        list.unassigned_task_count > 0 ==> ({
            let rows = project_rows(list, stalls, width);
            let row = rows.last();
            let n = list.unassigned_task_count as nat;
            &&& rows.len() > 0
            &&& row == unassigned_rows(list)[0]
            &&& row.lines[0].contains(("/"@ + decimal(n), dim_count_style()))
            &&& row.style.bg is Some <==> list.selected_project_index == list.projects@.len()
        }),
{
    if list.unassigned_task_count > 0 {
        let n = list.unassigned_task_count;
        let line = unassigned_rows(list)[0].lines[0];
        let cell = count_cell(n, n, PROJECT_TASK_COUNT_WIDTH);
        let k = cell.len() as int;
        assert(cell[k - 1] == ("/"@ + decimal(n as nat), dim_count_style()));
        assert(line[4 + k - 1] == cell[k - 1]);
        assert(project_rows(list, stalls, width).last() == unassigned_rows(list).last());
    }
}

/// The column of names is as wide as the longest name, between ten and
/// twenty-five.
pub proof fn the_column_of_names_fits(list: ProjectList, i: int)
    requires
        0 <= i < list.projects@.len(),
    ensures
        10 <= name_column(list) <= 25,
        byte_len(list.projects@[i].meta.name@) <= 25 ==> byte_len(list.projects@[i].meta.name@)
            <= name_column(list),
{
    no_name_is_longer(list.projects@, i);
}

proof fn no_name_is_longer(projects: Seq<Project>, i: int)
    requires
        0 <= i < projects.len(),
    ensures
        byte_len(projects[i].meta.name@) <= longest_name(projects),
    decreases projects.len(),
{
    if i < projects.len() - 1 {
        no_name_is_longer(projects.drop_last(), i);
    }
}

} // verus!
