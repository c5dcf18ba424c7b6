//! How the agents of a project are drawn.

use crate::activity::is_working;
use crate::app::App;
use crate::cells::{
    byte_len, can_cut, can_truncate, cut_off, left_aligned, len_in_bytes, pad_right,
    truncate_to_width,
};
use crate::detail::{agents_come_before_tasks, ProjectDetail, RowShape};
use crate::model::{agent_kind_label, AgentRecord};
use crate::project_pane::{held_between, hold_between};
use crate::status_bar::ProjectPaneFocus;
use crate::style::{
    colored, items_view, no_items, no_spans, one_line, plain, push_one_line, push_owned,
    push_span, spans_view, Color, Item, ItemView, Line, Style,
};
use crate::tasks_pane::{
    agent_text_style, border_color, larger, pane_row_style, pane_title, runtime_status,
    title_line, Pane,
};
use crate::times::{ago, time_since_datetime};
use vstd::prelude::*;
use vstd::view::View as _;

verus! {

pub const MIN_NAME_WIDTH: usize = 4;

pub const MAX_NAME_WIDTH: usize = 56;

pub const TYPE_WIDTH: usize = 10;

pub const STATUS_WIDTH: usize = 10;

pub const CREATED_WIDTH: usize = 10;

/// The space between columns.
#[verifier::allow_in_spec]
pub fn agent_col_gap() -> &'static str
    returns
        "   ",
{
    "   "
}

/// The length of the longest name.
pub open spec fn longest_agent(agents: Seq<AgentRecord>) -> nat
    decreases agents.len(),
{
    if agents.len() == 0 {
        0
    } else {
        larger(longest_agent(agents.drop_last()), byte_len(agents.last().meta.name@))
    }
}

/// The width of the column of names: that of the longest one, as far as there
/// is room, within bounds.
pub open spec fn agent_column(agents: Seq<AgentRecord>, width: u16) -> int {
    let taken = 4 + 3 * 3 + TYPE_WIDTH + STATUS_WIDTH + CREATED_WIDTH;
    let room = held_between(width - taken, MIN_NAME_WIDTH as int, MAX_NAME_WIDTH as int);
    held_between(longest_agent(agents) as int, MIN_NAME_WIDTH as int, room)
}

/// The width of the column of names.
fn agent_width(agents: &Vec<AgentRecord>, width: u16) -> (n: usize)
    ensures
        n == agent_column(agents@, width),
{
    let mut longest: usize = 0;
    let mut i: usize = 0;
    while i < agents.len()
        invariant
            i <= agents.len(),
            longest == longest_agent(agents@.take(i as int)),
        decreases agents.len() - i,
    {
        assert(agents@.take(i + 1).drop_last() =~= agents@.take(i as int));
        let len = len_in_bytes(agents[i].meta.name.as_str());
        if len > longest {
            longest = len;
        }
        i += 1;
    }
    assert(agents@.take(i as int) =~= agents@);
    let taken = 4 + 3 * 3 + TYPE_WIDTH + STATUS_WIDTH + CREATED_WIDTH;
    let left = if width as usize > taken {
        width as usize - taken
    } else {
        0
    };
    let room = hold_between(left, MIN_NAME_WIDTH, MAX_NAME_WIDTH);
    hold_between(longest, MIN_NAME_WIDTH, room)
}

/// The row of an agent.
pub open spec fn agent_row(
    agent: AgentRecord,
    working: bool,
    selected: bool,
    width: int,
    now_epoch: i64,
) -> ItemView {
    let status = runtime_status(working);
    let gap = (agent_col_gap()@, plain());
    one_line(
        seq![
            (" "@, plain()),
            (status.1, colored(status.2)),
            ("  "@, plain()),
            (
                left_aligned(cut_off(agent.meta.name@, width), width),
                agent_text_style(selected),
            ),
            gap,
            (
                left_aligned(agent.meta.kind.word(), TYPE_WIDTH as int),
                colored(Color::LightMagenta),
            ),
            gap,
            (left_aligned(status.0, STATUS_WIDTH as int), colored(status.2)),
            gap,
            (
                left_aligned(ago(now_epoch - agent.meta.created_at), CREATED_WIDTH as int),
                colored(Color::DarkGray),
            ),
        ],
        pane_row_style(selected),
    )
}

fn push_agent_row(
    items: &mut Vec<Item>,
    agent: &AgentRecord,
    status: (&'static str, &'static str, Color),
    selected: bool,
    width: usize,
    now_epoch: i64,
    Ghost(working): Ghost<bool>,
)
    requires
        can_cut(agent.meta.name@, width as int),
        (status.0@, status.1@, status.2) == runtime_status(working),
    ensures
        items_view(final(items)@) == items_view(old(items)@).push(
            agent_row(*agent, working, selected, width as int, now_epoch),
        ),
{
    let name = truncate_to_width(agent.meta.name.as_str(), width);
    let created = time_since_datetime(agent.meta.created_at, now_epoch);
    let mut spans = no_spans();
    push_span(&mut spans, " ", plain());
    push_span(&mut spans, status.1, colored(status.2));
    push_span(&mut spans, "  ", plain());
    push_owned(&mut spans, pad_right(name.as_str(), width), agent_text_style(selected));
    push_span(&mut spans, agent_col_gap(), plain());
    push_owned(
        &mut spans,
        pad_right(agent_kind_label(agent.meta.kind).as_str(), TYPE_WIDTH),
        colored(Color::LightMagenta),
    );
    push_span(&mut spans, agent_col_gap(), plain());
    push_owned(&mut spans, pad_right(status.0, STATUS_WIDTH), colored(status.2));
    push_span(&mut spans, agent_col_gap(), plain());
    push_owned(
        &mut spans,
        pad_right(created.as_str(), CREATED_WIDTH),
        colored(Color::DarkGray),
    );
    assert(spans_view(spans@) =~= agent_row(
        *agent,
        working,
        selected,
        width as int,
        now_epoch,
    ).lines[0]);
    push_one_line(items, spans, pane_row_style(selected));
}

/// The header above the agents.
pub open spec fn agents_header(width: int) -> Seq<(Seq<char>, Style)> {
    let style = colored(Color::White).bold();
    let gap = (agent_col_gap()@, plain());
    seq![
        ("    "@, plain()),
        (left_aligned("NAME"@, width), style),
        gap,
        (left_aligned("TYPE"@, TYPE_WIDTH as int), style),
        gap,
        (left_aligned("STATUS"@, STATUS_WIDTH as int), style),
        gap,
        (left_aligned("CREATED"@, CREATED_WIDTH as int), style),
    ]
}

fn agents_header_line(width: usize) -> (line: Line)
    ensures
        line@ == agents_header(width as int),
{
    let style = colored(Color::White).bold();
    let mut spans = no_spans();
    push_span(&mut spans, "    ", plain());
    push_owned(&mut spans, pad_right("NAME", width), style);
    push_span(&mut spans, agent_col_gap(), plain());
    push_owned(&mut spans, pad_right("TYPE", TYPE_WIDTH), style);
    push_span(&mut spans, agent_col_gap(), plain());
    push_owned(&mut spans, pad_right("STATUS", STATUS_WIDTH), style);
    push_span(&mut spans, agent_col_gap(), plain());
    push_owned(&mut spans, pad_right("CREATED", CREATED_WIDTH), style);
    Line { spans }
}

impl ProjectDetail {
    /// The place of the selected agent in the pane of agents.
    pub open spec fn agent_selection(self) -> Option<int> {
        match self.selected_row() {
            Some(RowShape::UnattachedAgent(i)) => Some(i),
            _ => None,
        }
    }

    /// The rows of the agents stand behind the headers of their section.
    proof fn agent_place(self)
        requires
            self.focus() is Agents,
        ensures
            self.selected_index >= 3,
            self.agent_selection() == Some(self.selected_index - 3),
    {
        agents_come_before_tasks(self, self.selected_index as int);
    }
}

impl App {
    /// The entry of an agent.
    pub open spec fn agent_entry(self, i: int, width: u16, now: i64, now_epoch: i64) -> ItemView {
        let agents = self.detail.agents@;
        agent_row(
            agents[i],
            self.list.works(agents[i], now),
            self.detail.agent_selection() == Some(i),
            agent_column(agents, width),
            now_epoch,
        )
    }

    /// No name has a character where its column ends that would be split.
    pub open spec fn agents_fit(self, width: u16) -> bool {
        forall|i: int|
            0 <= i < self.detail.agents@.len() ==> can_cut(
                (#[trigger] self.detail.agents@[i]).meta.name@,
                agent_column(self.detail.agents@, width),
            )
    }

    /// Whether the agents can be drawn in a given width: no name has a character
    /// where its column ends that would be split.
    pub fn agents_pane_fits(&self, width: u16) -> (fits: bool)
        ensures
            fits == self.agents_fit(width),
    {
        let agents = &self.detail.agents;
        let column = agent_width(agents, width);
        let mut i: usize = 0;
        while i < agents.len()
            invariant
                i <= agents.len(),
                agents == &self.detail.agents,
                column == agent_column(agents@, width),
                forall|j: int|
                    0 <= j < i ==> can_cut((#[trigger] agents@[j]).meta.name@, column as int),
            decreases agents.len() - i,
        {
            if !can_truncate(agents[i].meta.name.as_str(), column) {
                assert(!can_cut(self.detail.agents@[i as int].meta.name@, column as int));
                return false;
            }
            i += 1;
        }
        true
    }

    /// The agents of a project as they are drawn in a given width.
    pub fn agents_pane(&self, width: u16, now: i64, now_epoch: i64) -> (pane: Pane)
        requires
            self.agents_fit(width),
        ensures
            ({
                let focused = self.detail.focus() is Agents;
                let agents = self.detail.agents@;
                &&& pane.title@ == pane_title(" Agents "@, focused, agents.len(), " agents) "@)
                &&& pane.border == border_color(focused)
                &&& match pane.header {
                    Some(header) => agents.len() > 0 && header@ == agents_header(
                        agent_column(agents, width),
                    ),
                    None => agents.len() == 0,
                }
                &&& match pane.empty {
                    Some(message) => agents.len() == 0 && message@ == "No agents"@,
                    None => agents.len() > 0,
                }
                &&& items_view(pane.items@) == Seq::new(
                    agents.len(),
                    |i: int| self.agent_entry(i, width, now, now_epoch),
                )
            }),
    {
        let agents = &self.detail.agents;
        let focused = matches!(self.detail.pane_focus(), ProjectPaneFocus::Agents);
        let title = title_line(" Agents ", focused, agents.len(), " agents) ");
        let border = border_color(focused);
        let mut items = no_items();
        let ghost all = Seq::new(
            agents@.len(),
            |i: int| self.agent_entry(i, width, now, now_epoch),
        );
        assert(items_view(items@) =~= all.take(0));
        if agents.len() == 0 {
            assert(all.take(0) =~= all);
            return Pane {
                title,
                border,
                header: None,
                empty: Some("No agents".to_owned()),
                items,
            };
        }
        let column = agent_width(agents, width);
        let selection = self.detail.selected_index;
        let mut i: usize = 0;
        while i < agents.len()
            invariant
                i <= agents.len(),
                agents == &self.detail.agents,
                focused == (self.detail.focus() is Agents),
                selection == self.detail.selected_index,
                column == agent_column(agents@, width),
                self.agents_fit(width),
                all == Seq::new(
                    agents@.len(),
                    |i: int| self.agent_entry(i, width, now, now_epoch),
                ),
                items_view(items@) == all.take(i as int),
            decreases agents.len() - i,
        {
            proof {
                if self.detail.focus() is Agents {
                    self.detail.agent_place();
                }
            }
            let selected = focused && selection >= 3 && selection - 3 == i;
            let agent = &agents[i];
            assert(can_cut(self.detail.agents@[i as int].meta.name@, column as int));
            push_agent_row(
                &mut items,
                agent,
                self.list.agent_runtime_status(agent, now),
                selected,
                column,
                now_epoch,
                Ghost(self.list.works(*agent, now)),
            );
            assert(items_view(items@) =~= all.take(i + 1));
            i += 1;
        }
        assert(all.take(i as int) =~= all);
        Pane { title, border, header: Some(agents_header_line(column)), empty: None, items }
    }
}

/// The row of an agent tells its name as far as it fits, the word for its kind
/// and whether it works; the selected one is the one whose row is selected on the
/// page.
pub proof fn agent_rows_tell_name_kind_and_status(
    app: App,
    i: int,
    width: u16,
    now: i64,
    now_epoch: i64,
)
    requires
        0 <= i < app.detail.agents@.len(),
    ensures
        ({
            let agent = app.detail.agents@[i];
            let line = app.agent_entry(i, width, now, now_epoch).lines[0];
            let working = is_working(now, app.list.agent_activity.at(agent.meta.session_name@));
            let column = agent_column(app.detail.agents@, width);
            &&& byte_len(agent.meta.name@) <= column ==> line[3].0 == left_aligned(
                agent.meta.name@,
                column,
            )
            &&& line[5].0 == left_aligned(agent.meta.kind.word(), 10)
            &&& working ==> line[7].0 == left_aligned("working"@, 10) && line[7].1.fg == Some(
                Color::LightGreen,
            )
            &&& !working ==> line[7].0 == left_aligned("idle"@, 10) && line[7].1.fg == Some(
                Color::DarkGray,
            )
            &&& 4 <= column <= 56
        }),
{
}

} // verus!
