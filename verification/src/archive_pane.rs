//! How the archive is drawn.

use crate::archive::{Archive, ArchiveKind};
use crate::detail::all_up_places;
use crate::highlight::{each_lower, highlight_segments, highlighted, push_highlighted, segments};
use crate::model::{agent_kind_label, AgentRecord, Task};
use crate::select::{clamp, clamped};
use crate::style::{
    colored, items_view, lines_view, no_items, no_lines, no_spans, one_line, plain, push_line,
    push_one_line, push_owned, push_span, spans_view, Color, Item, ItemView, Line, Span, Style,
};
use crate::text::{
    concat, decimal, has_text, lines_of_text, lowercase, middle_stands, number, split_lines,
    split_words, texts, to_lowercase,
};
use crate::times::{archived_ago, format_time_ago};
use crate::wizard::joined_line;
use vstd::prelude::*;

verus! {

/// When a task was archived, where that is known.
pub open spec fn archived_text(task: Task, now: i64) -> Seq<char> {
    match task.meta.archived_at {
        Some(at) => archived_ago(now - at),
        None => Seq::empty(),
    }
}

/// A text in which what is searched for stands out.
pub open spec fn marked(text: Seq<char>, terms: Seq<Seq<char>>) -> Seq<(Seq<char>, Style)> {
    highlighted(segments(text, lowercase(text), each_lower(text), terms))
}

/// Adds a text in which what is searched for stands out.
fn push_marked(spans: &mut Vec<Span>, text: &str, terms: &Vec<String>)
    ensures
        spans_view(final(spans)@) == spans_view(old(spans)@) + marked(text@, texts(terms@)),
{
    push_highlighted(spans, highlight_segments(text, terms));
}

impl Archive {
    /// What an entry is called.
    pub open spec fn name(self, i: int) -> Seq<char> {
        match self.kind {
            ArchiveKind::Tasks => self.tasks@[i].0.id(),
            ArchiveKind::Agents => self.agents@[i].0.meta.name@,
        }
    }

    /// An entry: its name, in which what is searched for stands out, and what
    /// else is known of it.
    pub open spec fn entry(self, i: int, now: i64) -> Seq<(Seq<char>, Style)> {
        let name = marked(self.name(i), self.terms());
        match self.kind {
            ArchiveKind::Tasks => {
                let task = self.tasks@[i].0;
                name + seq![
                    ("  "@ + archived_text(task, now), colored(Color::DarkGray)),
                ] + (if task.meta.saved {
                    seq![("  [SAVED]"@, colored(Color::Cyan).bold())]
                } else {
                    seq![]
                })
            },
            ArchiveKind::Agents => {
                let agent = self.agents@[i].0.meta;
                name + seq![
                    ("  "@ + agent.kind.word(), colored(Color::LightMagenta)),
                    ("  "@ + agent.project@, colored(Color::DarkGray)),
                    ("  "@ + archived_ago(now - agent.updated_at), colored(Color::DarkGray)),
                ]
            },
        }
    }

    /// The entries that are found, in their order.
    pub open spec fn entries(self, now: i64) -> Seq<ItemView> {
        Seq::new(
            self.filtered().len(),
            |k: int| one_line(self.entry(self.filtered()[k], now), plain()),
        )
    }

    /// The words that are searched for.
    fn search_terms(&self) -> (terms: Vec<String>)
        ensures
            texts(terms@) == self.terms(),
    {
        let query = to_lowercase(joined_line(&self.search).as_str());
        split_words(query.as_str())
    }

    fn push_entry(&self, items: &mut Vec<Item>, i: usize, terms: &Vec<String>, now: i64)
        requires
            i < self.found().len(),
            texts(terms@) == self.terms(),
        ensures
            items_view(final(items)@) == items_view(old(items)@).push(
                one_line(self.entry(i as int, now), plain()),
            ),
    {
        let mut spans = no_spans();
        match self.kind {
            ArchiveKind::Tasks => {
                let task = &self.tasks[i].0;
                push_marked(&mut spans, task.meta.id.as_str(), terms);
                let time = match task.meta.archived_at {
                    Some(at) => format_time_ago(at, now),
                    None => String::new(),
                };
                push_owned(&mut spans, concat("  ", time.as_str()), colored(Color::DarkGray));
                if task.meta.saved {
                    push_span(&mut spans, "  [SAVED]", colored(Color::Cyan).bold());
                }
            },
            ArchiveKind::Agents => {
                let agent = &self.agents[i].0.meta;
                push_marked(&mut spans, agent.name.as_str(), terms);
                push_owned(
                    &mut spans,
                    concat("  ", agent_kind_label(agent.kind).as_str()),
                    colored(Color::LightMagenta),
                );
                push_owned(
                    &mut spans,
                    concat("  ", agent.project.as_str()),
                    colored(Color::DarkGray),
                );
                let time = format_time_ago(agent.updated_at, now);
                push_owned(&mut spans, concat("  ", time.as_str()), colored(Color::DarkGray));
            },
        }
        assert(spans_view(spans@) =~= self.entry(i as int, now));
        push_one_line(items, spans, plain());
    }

    /// The entries that are found, as they are drawn.
    pub fn entry_items(&self, now: i64) -> (items: Vec<Item>)
        ensures
            items_view(items@) == self.entries(now),
    {
        let found = self.archive_filtered_indices();
        let terms = self.search_terms();
        let mut items = no_items();
        let mut k: usize = 0;
        assert(items_view(items@) =~= self.entries(now).take(0));
        while k < found.len()
            invariant
                k <= found.len(),
                found@.len() == self.filtered().len(),
                forall|j: int|
                    0 <= j < found@.len() ==> (#[trigger] found@[j]) as int == self.filtered()[j],
                forall|j: int| 0 <= j < found@.len() ==> (#[trigger] found@[j]) < self.found().len(),
                texts(terms@) == self.terms(),
                items_view(items@) == self.entries(now).take(k as int),
            decreases found.len() - k,
        {
            let i = found[k];
            assert(i as int == self.filtered()[k as int]);
            self.push_entry(&mut items, i, &terms, now);
            assert(items_view(items@) =~= self.entries(now).take(k + 1));
            k += 1;
        }
        assert(self.entries(now).take(k as int) =~= self.entries(now));
        items
    }

    /// The title above the entries.
    pub fn list_title(&self) -> (title: String)
        ensures
            title@ == (match self.kind {
                ArchiveKind::Tasks => " Task Archive ("@,
                ArchiveKind::Agents => " AgentRecord Archive ("@,
            }) + decimal(self.filtered().len()) + ") "@,
    {
        let n = self.archive_filtered_indices().len();
        let start = match self.kind {
            ArchiveKind::Tasks => " Task Archive (",
            ArchiveKind::Agents => " AgentRecord Archive (",
        };
        let mut title = concat(start, number(n as u64).as_str());
        title.append(") ");
        title
    }

    /// The title of the search.
    pub fn search_title(&self) -> (title: &'static str)
        ensures
            title@ == match self.kind {
                ArchiveKind::Tasks => " Task Archive Search "@,
                ArchiveKind::Agents => " AgentRecord Archive Search "@,
            },
    {
        match self.kind {
            ArchiveKind::Tasks => " Task Archive Search ",
            ArchiveKind::Agents => " AgentRecord Archive Search ",
        }
    }

    /// Keeps the selection among the entries that are found, and gives the one
    /// that is highlighted.
    pub fn highlighted_entry(&mut self) -> (selected: Option<usize>)
        ensures
            *final(self) == (Archive {
                selected: clamped(
                    old(self).selected as int,
                    old(self).filtered().len() as int,
                ) as usize,
                ..*old(self)
            }),
            selected == if old(self).filtered().len() == 0 {
                None
            } else {
                Some(final(self).selected)
            },
    {
        let n = self.archive_filtered_indices().len();
        self.selected = clamp(self.selected, n);
        if n == 0 {
            None
        } else {
            Some(self.selected)
        }
    }

    /// The agent that is selected among those found.
    pub open spec fn agent(self) -> Option<AgentRecord> {
        let found = self.filtered();
        if self.selected < found.len() && 0 <= found[self.selected as int] < self.agents@.len() {
            Some(self.agents@[found[self.selected as int]].0)
        } else {
            None
        }
    }

    /// The title of the preview.
    pub open spec fn preview_heading(self) -> Seq<char> {
        match self.kind {
            ArchiveKind::Tasks => " "@ + (match self.task() {
                Some(task) => task.id(),
                None => Seq::empty(),
            }) + (if self.task_saved() {
                " [SAVED] "@
            } else {
                " "@
            }),
            ArchiveKind::Agents => match self.agent() {
                Some(agent) => " "@ + agent.meta.kind.word() + " "@ + agent.meta.project@ + "--"@
                    + agent.meta.name@ + " "@,
                None => " AgentRecord Archive "@,
            },
        }
    }

    /// The title of the preview.
    pub fn preview_title(&self) -> (title: String)
        ensures
            title@ == self.preview_heading(),
    {
        match self.kind {
            ArchiveKind::Tasks => {
                let mut title = " ".to_owned();
                let mut saved = false;
                if let Some(task) = self.found_task() {
                    title.append(task.meta.id.as_str());
                    saved = task.meta.saved;
                } else {
                    assert(" "@ + Seq::<char>::empty() =~= " "@);
                }
                if saved {
                    title.append(" [SAVED] ");
                } else {
                    title.append(" ");
                }
                title
            },
            ArchiveKind::Agents => {
                let found = self.archive_filtered_indices();
                if self.selected < found.len() {
                    let i = found[self.selected];
                    if i < self.agents.len() {
                        let agent = &self.agents[i].0.meta;
                        let mut title = " ".to_owned();
                        title.append(agent_kind_label(agent.kind).as_str());
                        title.append(" ");
                        title.append(agent.project.as_str());
                        title.append("--");
                        title.append(agent.name.as_str());
                        title.append(" ");
                        return title;
                    }
                }
                " AgentRecord Archive ".to_owned()
            },
        }
    }

    /// The lines of the preview, in which what is searched for stands out.
    pub open spec fn preview_view(self, content: Seq<char>) -> Seq<Seq<(Seq<char>, Style)>> {
        let lines = lines_of_text(content);
        Seq::new(lines.len(), |i: int| marked(lines[i], self.terms()))
    }

    /// The lines of the preview of a text, as they are drawn.
    pub fn preview_lines(&self, content: &str) -> (lines: Vec<Line>)
        ensures
            lines_view(lines@) == self.preview_view(content@),
    {
        let terms = self.search_terms();
        let texts_of = split_lines(content);
        let ghost all = self.preview_view(content@);
        let mut lines = no_lines();
        let mut i: usize = 0;
        assert(lines_view(lines@) =~= all.take(0));
        while i < texts_of.len()
            invariant
                i <= texts_of.len(),
                texts(texts_of@) == lines_of_text(content@),
                texts(terms@) == self.terms(),
                all == self.preview_view(content@),
                lines_view(lines@) == all.take(i as int),
            decreases texts_of.len() - i,
        {
            assert(texts(texts_of@)[i as int] == texts_of@[i as int]@);
            let mut spans = no_spans();
            push_marked(&mut spans, texts_of[i].as_str(), &terms);
            assert(spans_view(spans@) =~= all[i as int]);
            push_line(&mut lines, spans);
            assert(lines_view(lines@) =~= all.take(i + 1));
            i += 1;
        }
        assert(all.take(i as int) =~= all);
        lines
    }

    /// Scrolls back as far as needed so that the end of the preview is not
    /// passed. The height is that of the frame, of which two lines are border.
    pub fn clamp_scroll(&mut self, lines: usize, height: u16)
        ensures
            ({
                let total = lines % 0x1_0000;
                let shown = if height > 2 {
                    height - 2
                } else {
                    0
                };
                let last = if total > shown {
                    total - shown
                } else {
                    0
                };
                *final(self) == (Archive {
                    scroll: if old(self).scroll > last {
                        last as u16
                    } else {
                        old(self).scroll
                    },
                    ..*old(self)
                })
            }),
    {
        let total: u16 = (lines % 0x1_0000) as u16;
        let shown = height.saturating_sub(2);
        let last = total.saturating_sub(shown);
        if self.scroll > last {
            self.scroll = last;
        }
    }
}

/// Each row of the archive is about the entry that is found at its place: it
/// ends with the mark of a saved task exactly where the task is saved, and tells
/// kind and project of an agent.
pub proof fn archive_rows_are_about_what_is_found(archive: Archive, k: int, now: i64)
    requires
        0 <= k < archive.filtered().len(),
    ensures
        archive.entries(now).len() == archive.filtered().len(),
        ({
            let i = archive.filtered()[k];
            let row = archive.entries(now)[k].lines[0];
            &&& archive.kind is Tasks ==> {
                &&& archive.tasks@[i].0.meta.saved <==> row.last().0 == "  [SAVED]"@ && row.last().1
                    == colored(Color::Cyan).bold()
                &&& row.subrange(0, marked(archive.tasks@[i].0.id(), archive.terms()).len() as int)
                    == marked(archive.tasks@[i].0.id(), archive.terms())
            }
            &&& archive.kind is Agents ==> {
                let agent = archive.agents@[i].0.meta;
                let n = marked(agent.name@, archive.terms()).len() as int;
                &&& row.subrange(0, n) == marked(agent.name@, archive.terms())
                &&& row[n].0 == "  "@ + agent.kind.word()
                &&& row[n + 1].0 == "  "@ + agent.project@
                &&& row.len() == n + 3
            }
        }),
{
    let i = archive.filtered()[k];
    let row = archive.entries(now)[k].lines[0];
    match archive.kind {
        ArchiveKind::Tasks => {
            let name = marked(archive.tasks@[i].0.id(), archive.terms());
            assert(row.subrange(0, name.len() as int) =~= name);
            if !archive.tasks@[i].0.meta.saved {
                assert(row.last().1 == colored(Color::DarkGray));
            }
        },
        ArchiveKind::Agents => {
            let name = marked(archive.agents@[i].0.meta.name@, archive.terms());
            assert(row.subrange(0, name.len() as int) =~= name);
        },
    }
}

/// The title of the preview names the selected entry: a task by its id, an agent
/// by project and name.
pub proof fn previews_are_titled_by_their_entry(archive: Archive)
    ensures
        archive.kind is Tasks ==> (archive.task() matches Some(task) ==> has_text(
            archive.preview_heading(),
            task.id(),
        )),
        archive.kind is Agents ==> (archive.agent() matches Some(agent) ==> has_text(
            archive.preview_heading(),
            agent.meta.project@ + "--"@ + agent.meta.name@,
        )),
        archive.selected < archive.filtered().len() && archive.kind is Agents
            ==> archive.agent() == Some(archive.agents@[archive.filtered()[archive.selected as int]].0),
{
    if archive.kind is Tasks {
        if let Some(task) = archive.task() {
            middle_stands(
                " "@,
                task.id(),
                if archive.task_saved() {
                    " [SAVED] "@
                } else {
                    " "@
                },
            );
        }
    } else {
        if let Some(agent) = archive.agent() {
            let head = " "@ + agent.meta.kind.word() + " "@;
            let name = agent.meta.project@ + "--"@ + agent.meta.name@;
            middle_stands(head, name, " "@);
            assert(archive.preview_heading() =~= head + name + " "@);
        }
        if archive.selected < archive.filtered().len() {
            all_up_places(archive.found(), archive.found().len() as int);
        }
    }
}

/// The preview shows every line of the text, in order, and no other.
pub proof fn previews_show_the_whole_text(archive: Archive, content: Seq<char>, i: int)
    requires
        0 <= i < lines_of_text(content).len(),
    ensures
        archive.preview_view(content).len() == lines_of_text(content).len(),
        archive.preview_view(content)[i] == marked(lines_of_text(content)[i], archive.terms()),
{
}

} // verus!
