//! How confirmations, pickers, the output and the preview of a task are drawn.

use crate::detail::ProjectDetail;
use crate::model::Task;
use crate::notes_pane::vim_mode_color;
use crate::preview::{Preview, PreviewPane};
use crate::respawn::Respawn;
use crate::sessions::SessionPicker;
use crate::style::{
    colored, items_view, lines_view, no_items, no_lines, no_spans, one_line, plain, push_line,
    push_one_line, push_owned, push_span, spans_view, Color, Item, ItemView, Line, Style,
};
use crate::text::{
    concat, contains_text, ends_are_recognised, has_suffix, has_text, lowercase, middle_stands,
    to_lowercase,
};
use crate::vim::VimMode;
use crate::wizard::ProjectPicker;
use vstd::prelude::*;
use vstd::view::View as _;

verus! {

/// A line in one style.
pub open spec fn text_line(text: Seq<char>, style: Style) -> Seq<(Seq<char>, Style)> {
    seq![(text, style)]
}

/// Adds a line in one style.
pub fn push_text(lines: &mut Vec<Line>, text: &str, style: Style)
    ensures
        lines_view(final(lines)@) == lines_view(old(lines)@).push(text_line(text@, style)),
{
    let mut spans = no_spans();
    push_span(&mut spans, text, style);
    assert(spans_view(spans@) =~= text_line(text@, style));
    push_line(lines, spans);
}

/// Adds an empty line.
pub fn push_blank(lines: &mut Vec<Line>)
    ensures
        lines_view(final(lines)@) == lines_view(old(lines)@).push(seq![]),
{
    push_line(lines, no_spans());
}

impl ProjectDetail {
    /// What is to be archived: its kind, and its name.
    pub open spec fn archive_subject(self) -> (Seq<char>, Seq<char>) {
        match self.spec_selected_agent() {
            Some(agent) => ("agent"@, agent.meta.project@ + "--"@ + agent.meta.name@),
            None => (
                "task"@,
                match self.task() {
                    Some(task) => task.id(),
                    None => "unknown"@,
                },
            ),
        }
    }

    /// The text of the confirmation before something is archived.
    pub open spec fn archive_text(self) -> Seq<Seq<(Seq<char>, Style)>> {
        let subject = self.archive_subject();
        seq![
            seq![],
            text_line(
                "  Archive this "@ + subject.0 + "?"@,
                colored(Color::White).bold(),
            ),
            seq![],
            text_line("  "@ + subject.1, colored(Color::LightCyan)),
            seq![],
            text_line(
                "  This moves the item to the archive. Permanent delete remains"@,
                colored(Color::LightBlue),
            ),
            text_line("  available from the archive view."@, colored(Color::LightBlue)),
            seq![],
            text_line("  [Enter] archive   [Esc] cancel"@, colored(Color::DarkGray)),
        ]
    }

    /// The text of the confirmation before something is archived.
    pub fn delete_confirm(&self) -> (lines: Vec<Line>)
        ensures
            lines_view(lines@) == self.archive_text(),
    {
        let (kind, subject) = match self.selected_project_detail_agent() {
            Some(agent) => {
                let mut subject = concat(agent.meta.project.as_str(), "--");
                subject.append(agent.meta.name.as_str());
                ("agent", subject)
            },
            None => {
                let subject = match self.selected_task() {
                    Some(task) => task.meta.task_id(),
                    None => "unknown".to_owned(),
                };
                ("task", subject)
            },
        };
        let mut lines = no_lines();
        push_blank(&mut lines);
        let mut question = concat("  Archive this ", kind);
        question.append("?");
        push_text(&mut lines, question.as_str(), colored(Color::White).bold());
        push_blank(&mut lines);
        push_text(
            &mut lines,
            concat("  ", subject.as_str()).as_str(),
            colored(Color::LightCyan),
        );
        push_blank(&mut lines);
        push_text(
            &mut lines,
            "  This moves the item to the archive. Permanent delete remains",
            colored(Color::LightBlue),
        );
        push_text(&mut lines, "  available from the archive view.", colored(Color::LightBlue));
        push_blank(&mut lines);
        push_text(&mut lines, "  [Enter] archive   [Esc] cancel", colored(Color::DarkGray));
        assert(lines_view(lines@) =~= self.archive_text());
        lines
    }
}

/// The text of the confirmation before a project is deleted.
pub open spec fn delete_text(project: Seq<char>) -> Seq<Seq<(Seq<char>, Style)>> {
    seq![
        seq![],
        text_line("  Delete project '"@ + project + "'?"@, colored(Color::White).bold()),
        seq![],
        text_line(
            "  All tasks will be archived (not permanently deleted)."@,
            colored(Color::LightBlue),
        ),
        text_line("  Branches and task files are preserved."@, colored(Color::LightBlue)),
        seq![],
        text_line("  [Enter] confirm   [Esc] cancel"@, colored(Color::DarkGray)),
    ]
}

/// The text of the confirmation before a project is deleted.
pub fn project_delete_confirm(project: &Option<String>) -> (lines: Vec<Line>)
    ensures
        lines_view(lines@) == delete_text(
            match project {
                Some(name) => name@,
                None => "unknown"@,
            },
        ),
{
    let mut question = "  Delete project '".to_owned();
    match project {
        Some(name) => question.append(name.as_str()),
        None => question.append("unknown"),
    }
    question.append("'?");
    let mut lines = no_lines();
    push_blank(&mut lines);
    push_text(&mut lines, question.as_str(), colored(Color::White).bold());
    push_blank(&mut lines);
    push_text(
        &mut lines,
        "  All tasks will be archived (not permanently deleted).",
        colored(Color::LightBlue),
    );
    push_text(&mut lines, "  Branches and task files are preserved.", colored(Color::LightBlue));
    push_blank(&mut lines);
    push_text(&mut lines, "  [Enter] confirm   [Esc] cancel", colored(Color::DarkGray));
    lines
}

/// The style of a choice.
#[verifier::allow_in_spec]
pub fn choice_style(selected: bool) -> Style
    returns
        (if selected {
            colored(Color::White).bg(Color::Rgb(30, 40, 60)).bold()
        } else {
            colored(Color::Gray)
        }),
{
    if selected {
        colored(Color::White).bg(Color::Rgb(30, 40, 60)).bold()
    } else {
        colored(Color::Gray)
    }
}

/// The mark before a choice.
#[verifier::allow_in_spec]
pub fn choice_mark(selected: bool) -> &'static str
    returns
        (if selected {
            "▸ "
        } else {
            "  "
        }),
{
    if selected {
        "▸ "
    } else {
        "  "
    }
}

/// The line of a choice.
pub open spec fn choice(text: Seq<char>, selected: bool) -> Seq<(Seq<char>, Style)> {
    text_line(choice_mark(selected)@ + text, choice_style(selected))
}

fn push_choice(lines: &mut Vec<Line>, text: &str, selected: bool)
    ensures
        lines_view(final(lines)@) == lines_view(old(lines)@).push(choice(text@, selected)),
{
    push_text(lines, concat(choice_mark(selected), text).as_str(), choice_style(selected));
}

impl Respawn {
    /// The text of the confirmation before agents are started anew.
    pub open spec fn confirm_text(self) -> Seq<Seq<(Seq<char>, Style)>> {
        let first = self.confirm_index == 0;
        let second = self.confirm_index == 1;
        if self.confirm_is_chief_of_staff {
            seq![
                seq![],
                choice("CoS only"@, first),
                seq![],
                choice("CoS + all PMs"@, second),
            ]
        } else {
            let target = match self.confirm_target {
                Some(target) => target@,
                None => "unknown"@,
            };
            seq![
                seq![],
                text_line(
                    "  Respawn PM for '"@ + target + "'?"@,
                    colored(Color::White).bold(),
                ),
                seq![],
                choice("Respawn"@, first),
                seq![],
                choice("Cancel"@, second),
            ]
        }
    }

    /// The title and the text of the confirmation before agents are started
    /// anew.
    pub fn confirm_dialog(&self) -> (dialog: (&'static str, Vec<Line>))
        ensures
            dialog.0@ == if self.confirm_is_chief_of_staff {
                " Respawn Chief of Staff "@
            } else {
                " Respawn PM "@
            },
            lines_view(dialog.1@) == self.confirm_text(),
    {
        let first = self.confirm_index == 0;
        let second = self.confirm_index == 1;
        let mut lines = no_lines();
        push_blank(&mut lines);
        if self.confirm_is_chief_of_staff {
            push_choice(&mut lines, "CoS only", first);
            push_blank(&mut lines);
            push_choice(&mut lines, "CoS + all PMs", second);
            assert(lines_view(lines@) =~= self.confirm_text());
            return (" Respawn Chief of Staff ", lines);
        }
        let mut question = "  Respawn PM for '".to_owned();
        match &self.confirm_target {
            Some(target) => question.append(target.as_str()),
            None => question.append("unknown"),
        }
        question.append("'?");
        push_text(&mut lines, question.as_str(), colored(Color::White).bold());
        push_blank(&mut lines);
        push_choice(&mut lines, "Respawn", first);
        push_blank(&mut lines);
        push_choice(&mut lines, "Cancel", second);
        assert(lines_view(lines@) =~= self.confirm_text());
        (" Respawn PM ", lines)
    }
}

/// A line of output that tells of a failure, by its lower case.
pub open spec fn tells_of_failure(lower: Seq<char>) -> bool {
    has_text(lower, "error"@) || has_text(lower, "failed"@) || has_text(lower, "[stderr]"@)
}

/// Whether a line of output tells of a failure, by its lower case.
pub fn is_failure(lower: &str) -> (yes: bool)
    ensures
        yes == tells_of_failure(lower@),
{
    contains_text(lower, "error") || contains_text(lower, "failed") || contains_text(
        lower,
        "[stderr]",
    )
}

/// A line of output; failures stand out.
pub open spec fn output_line(line: Seq<char>) -> Seq<(Seq<char>, Style)> {
    text_line(
        line,
        colored(
            if tells_of_failure(lowercase(line)) {
                Color::LightRed
            } else {
                Color::Gray
            },
        ),
    )
}

/// The lines of the output pane.
pub fn output_pane(log: &Vec<String>) -> (lines: Vec<Line>)
    ensures
        lines_view(lines@) == Seq::new(log@.len(), |i: int| output_line(log@[i]@)),
{
    let ghost all = Seq::new(log@.len(), |i: int| output_line(log@[i]@));
    let mut lines = no_lines();
    let mut i: usize = 0;
    assert(lines_view(lines@) =~= all.take(0));
    while i < log.len()
        invariant
            i <= log.len(),
            all == Seq::new(log@.len(), |i: int| output_line(log@[i]@)),
            lines_view(lines@) == all.take(i as int),
        decreases log.len() - i,
    {
        let line = log[i].as_str();
        let color = if is_failure(to_lowercase(line).as_str()) {
            Color::LightRed
        } else {
            Color::Gray
        };
        push_text(&mut lines, line, colored(color));
        assert(lines_view(lines@) =~= all.take(i + 1));
        i += 1;
    }
    assert(all.take(i as int) =~= all);
    lines
}

/// The style of an entry of a picker.
#[verifier::allow_in_spec]
pub fn pick_style(selected: bool) -> Style
    returns
        (if selected {
            colored(Color::White).bg(Color::Rgb(40, 40, 60)).bold()
        } else {
            colored(Color::Gray)
        }),
{
    if selected {
        colored(Color::White).bg(Color::Rgb(40, 40, 60)).bold()
    } else {
        colored(Color::Gray)
    }
}

/// An entry of a picker, with a mark before the selected one.
pub open spec fn pick(name: Seq<char>, selected: bool) -> Seq<(Seq<char>, Style)> {
    seq![
        (choice_mark(selected)@, pick_style(selected)),
        (name, pick_style(selected)),
    ]
}

impl ProjectPicker {
    /// The entries of the picker.
    pub open spec fn entries(self) -> Seq<ItemView> {
        Seq::new(
            self.projects@.len(),
            |i: int|
                one_line(
                    text_line("  "@ + self.projects@[i]@, pick_style(i == self.selected)),
                    plain(),
                ),
        )
    }

    /// The entries of the picker as they are drawn.
    pub fn items(&self) -> (items: Vec<Item>)
        ensures
            items_view(items@) == self.entries(),
    {
        let mut items = no_items();
        let mut i: usize = 0;
        assert(items_view(items@) =~= self.entries().take(0));
        while i < self.projects.len()
            invariant
                i <= self.projects.len(),
                items_view(items@) == self.entries().take(i as int),
            decreases self.projects.len() - i,
        {
            let mut spans = no_spans();
            push_owned(
                &mut spans,
                concat("  ", self.projects[i].as_str()),
                pick_style(i == self.selected),
            );
            assert(spans_view(spans@) =~= self.entries()[i as int].lines[0]);
            push_one_line(&mut items, spans, plain());
            assert(items_view(items@) =~= self.entries().take(i + 1));
            i += 1;
        }
        assert(self.entries().take(i as int) =~= self.entries());
        items
    }
}

impl SessionPicker {
    /// The entries of the picker.
    pub open spec fn entries(self) -> Seq<ItemView> {
        Seq::new(
            self.sessions@.len(),
            |i: int| one_line(pick(self.sessions@[i].0@, i == self.selected), plain()),
        )
    }

    /// The entries of the picker as they are drawn.
    pub fn items(&self) -> (items: Vec<Item>)
        ensures
            items_view(items@) == self.entries(),
    {
        let mut items = no_items();
        let mut i: usize = 0;
        assert(items_view(items@) =~= self.entries().take(0));
        while i < self.sessions.len()
            invariant
                i <= self.sessions.len(),
                items_view(items@) == self.entries().take(i as int),
            decreases self.sessions.len() - i,
        {
            let selected = i == self.selected;
            let mut spans = no_spans();
            push_span(&mut spans, choice_mark(selected), pick_style(selected));
            push_span(&mut spans, self.sessions[i].0.as_str(), pick_style(selected));
            assert(spans_view(spans@) =~= self.entries()[i as int].lines[0]);
            push_one_line(&mut items, spans, plain());
            assert(items_view(items@) =~= self.entries().take(i + 1));
            i += 1;
        }
        assert(self.entries().take(i as int) =~= self.entries());
        items
    }
}

/// A line that names a task.
pub open spec fn task_line(id: Seq<char>) -> Seq<(Seq<char>, Style)> {
    seq![("Task: "@, colored(Color::DarkGray)), (id, colored(Color::White).bold())]
}

impl ProjectDetail {
    /// The line that names the selected task; none where none is selected.
    pub fn task_header(&self) -> (line: Option<Line>)
        ensures
            match line {
                Some(l) => self.task() matches Some(task) && l@ == task_line(task.id()),
                None => self.task() is None,
            },
    {
        match self.selected_task() {
            Some(task) => {
                let mut spans = no_spans();
                push_span(&mut spans, "Task: ", colored(Color::DarkGray));
                push_span(&mut spans, task.meta.id.as_str(), colored(Color::White).bold());
                Some(Line { spans })
            },
            None => None,
        }
    }

    /// The line above the sessions of the selected task.
    pub fn session_header(&self) -> (line: Line)
        ensures
            line@ == task_line(
                match self.task() {
                    Some(task) => task.id(),
                    None => "unknown"@,
                },
            ),
    {
        match self.task_header() {
            Some(line) => line,
            None => {
                let mut spans = no_spans();
                push_span(&mut spans, "Task: ", colored(Color::DarkGray));
                push_span(&mut spans, "unknown", colored(Color::White).bold());
                Line { spans }
            },
        }
    }

    /// The header of the page of a project.
    pub fn page_header(&self) -> (name: &str)
        ensures
            name@ == match self.current_project {
                Some(project) => project@,
                None => "Project"@,
            },
    {
        match &self.current_project {
            Some(project) => project.as_str(),
            None => "Project",
        }
    }
}

/// The frame of an editor.
pub struct EditorFrame {
    pub title: String,
    pub title_style: Style,
    pub border: Color,
    /// The style of the cursor, where it is set.
    pub cursor: Option<Style>,
}

/// A panel of the preview: where it has the focus, its title tells the mode in
/// the colour of the mode.
pub open spec fn framed_as(
    frame: EditorFrame,
    name: Seq<char>,
    mode: VimMode,
    focused: bool,
    cursor: Style,
) -> bool {
    let color = if focused {
        vim_mode_color(mode)
    } else {
        Color::DarkGray
    };
    &&& frame.title@ == if focused {
        " "@ + name + " ["@ + mode.word() + "] "@
    } else {
        " "@ + name + " "@
    }
    &&& frame.title_style == if focused {
        colored(color).bold()
    } else {
        colored(color)
    }
    &&& frame.border == color
    &&& frame.cursor == Some(cursor)
}

fn panel(name: &str, mode: VimMode, focused: bool, cursor: Style) -> (frame: EditorFrame)
    ensures
        framed_as(frame, name@, mode, focused, cursor),
{
    let mut title = concat(" ", name);
    if focused {
        let color = vim_mode_color(mode);
        title.append(" [");
        title.append(mode.indicator());
        title.append("] ");
        EditorFrame {
            title,
            title_style: colored(color).bold(),
            border: color,
            cursor: Some(cursor),
        }
    } else {
        title.append(" ");
        EditorFrame {
            title,
            title_style: colored(Color::DarkGray),
            border: Color::DarkGray,
            cursor: Some(cursor),
        }
    }
}

/// The cursor where nothing can be typed.
#[verifier::allow_in_spec]
pub fn resting_cursor() -> Style
    returns
        colored(Color::White).bg(Color::DarkGray),
{
    colored(Color::White).bg(Color::DarkGray)
}

/// The cursor where text is typed.
#[verifier::allow_in_spec]
pub fn typing_cursor() -> Style
    returns
        colored(Color::Black).bg(Color::White),
{
    colored(Color::Black).bg(Color::White)
}

impl Preview {
    /// The panel of the log.
    pub fn logs_panel(&self) -> (frame: EditorFrame)
        ensures
            framed_as(
                frame,
                "Logs"@,
                self.logs_editor.vim.mode,
                self.pane is Logs,
                resting_cursor(),
            ),
    {
        panel(
            "Logs",
            self.logs_editor.mode(),
            matches!(self.pane, PreviewPane::Logs),
            resting_cursor(),
        )
    }

    /// The panel of the notes.
    pub fn notes_panel(&self) -> (frame: EditorFrame)
        ensures
            framed_as(
                frame,
                "Notes"@,
                self.notes_editor.vim.mode,
                self.pane is Notes,
                if self.notes_editing {
                    typing_cursor()
                } else {
                    resting_cursor()
                },
            ),
    {
        let cursor = if self.notes_editing {
            typing_cursor()
        } else {
            resting_cursor()
        };
        panel(
            "Notes",
            self.notes_editor.mode(),
            matches!(self.pane, PreviewPane::Notes),
            cursor,
        )
    }
}

/// The question before something is archived names the row that is selected: an
/// agent where it is one, else the task.
pub proof fn confirmations_name_what_is_selected(page: ProjectDetail)
    ensures
        page.spec_selected_agent() matches Some(agent) ==> has_text(
            page.archive_text()[1][0].0,
            "agent"@,
        ) && has_suffix(page.archive_text()[3][0].0, agent.meta.name@) && has_text(
            page.archive_text()[3][0].0,
            agent.meta.project@,
        ),
        page.spec_selected_agent() is None ==> has_text(page.archive_text()[1][0].0, "task"@) && (
        page.task() matches Some(task) ==> has_suffix(page.archive_text()[3][0].0, task.id())),
{
    let subject = page.archive_subject();
    middle_stands("  Archive this "@, subject.0, "?"@);
    ends_are_recognised("  "@, subject.1);
    if let Some(agent) = page.spec_selected_agent() {
        named_by_both("  "@, agent.meta.project@, "--"@, agent.meta.name@);
    }
}

/// A text made of two names holds the first and ends with the second.
proof fn named_by_both(a: Seq<char>, first: Seq<char>, b: Seq<char>, second: Seq<char>)
    ensures
        has_text(a + (first + b + second), first),
        has_suffix(a + (first + b + second), second),
{
    let whole = a + (first + b + second);
    let rest = b + second;
    let head = a + first + b;
    assert(whole =~= a + first + rest);
    assert(whole =~= head + second);
    assert(has_text(whole, first)) by {
        middle_stands(a, first, rest);
    }
    assert(has_suffix(whole, second)) by {
        ends_are_recognised(head, second);
    }
}

/// The question before a project is deleted names it.
pub proof fn deletions_name_the_project(project: Seq<char>)
    ensures
        has_text(delete_text(project)[1][0].0, project),
{
    middle_stands("  Delete project '"@, project, "'?"@);
}

/// Of the two choices of a respawn exactly the selected one stands out, and the
/// question names whose manager it is.
pub proof fn the_selected_choice_stands_out(respawn: Respawn)
    ensures
        respawn.confirm_is_chief_of_staff ==> ({
            let lines = respawn.confirm_text();
            &&& (lines[1][0].1.bg is Some) == (respawn.confirm_index == 0)
            &&& (lines[3][0].1.bg is Some) == (respawn.confirm_index == 1)
            &&& has_suffix(lines[1][0].0, "CoS only"@)
            &&& has_suffix(lines[3][0].0, "CoS + all PMs"@)
        }),
        !respawn.confirm_is_chief_of_staff ==> ({
            let lines = respawn.confirm_text();
            &&& (lines[3][0].1.bg is Some) == (respawn.confirm_index == 0)
            &&& (lines[5][0].1.bg is Some) == (respawn.confirm_index == 1)
            &&& has_suffix(lines[3][0].0, "Respawn"@)
            &&& has_suffix(lines[5][0].0, "Cancel"@)
            &&& respawn.confirm_target matches Some(target) ==> has_text(lines[1][0].0, target@)
        }),
{
    ends_are_recognised(choice_mark(respawn.confirm_index == 0)@, "CoS only"@);
    ends_are_recognised(choice_mark(respawn.confirm_index == 1)@, "CoS + all PMs"@);
    ends_are_recognised(choice_mark(respawn.confirm_index == 0)@, "Respawn"@);
    ends_are_recognised(choice_mark(respawn.confirm_index == 1)@, "Cancel"@);
    if let Some(target) = respawn.confirm_target {
        middle_stands("  Respawn PM for '"@, target@, "'?"@);
    }
}

/// A line of output is shown as it is, in red exactly where it speaks of an error
/// or a failure, or comes from where errors are written to, in whatever case.
pub proof fn failures_stand_out_in_the_output(line: Seq<char>)
    ensures
        output_line(line)[0].0 == line,
        output_line(line).len() == 1,
        has_text(lowercase(line), "error"@) ==> output_line(line)[0].1.fg == Some(Color::LightRed),
        has_text(lowercase(line), "failed"@) ==> output_line(line)[0].1.fg == Some(
            Color::LightRed,
        ),
        has_text(lowercase(line), "[stderr]"@) ==> output_line(line)[0].1.fg == Some(
            Color::LightRed,
        ),
        output_line(line)[0].1.fg == Some(Color::LightRed) ==> has_text(lowercase(line), "error"@)
            || has_text(lowercase(line), "failed"@) || has_text(lowercase(line), "[stderr]"@),
{
}

/// A picker lists what there is to pick from in order, and exactly the selected
/// entry stands out.
pub proof fn pickers_list_what_can_be_picked(
    projects: ProjectPicker,
    sessions: SessionPicker,
    i: int,
)
    ensures
        projects.entries().len() == projects.projects@.len(),
        0 <= i < projects.projects@.len() ==> has_suffix(
            projects.entries()[i].lines[0][0].0,
            projects.projects@[i]@,
        ) && (projects.entries()[i].lines[0][0].1.bg is Some) == (i == projects.selected),
        sessions.entries().len() == sessions.sessions@.len(),
        0 <= i < sessions.sessions@.len() ==> sessions.entries()[i].lines[0].last().0
            == sessions.sessions@[i].0@ && (sessions.entries()[i].lines[0].last().1.bg is Some) == (i
            == sessions.selected),
{
    if 0 <= i < projects.projects@.len() {
        ends_are_recognised("  "@, projects.projects@[i]@);
    }
}

} // verus!
