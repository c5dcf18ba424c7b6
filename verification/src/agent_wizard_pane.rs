//! How the wizard for a new agent is drawn.

use crate::cells::{left_aligned, pad_right};
use crate::dialogs::{text_line, typing_cursor, EditorFrame};
use crate::hints::{hint, hint_line, hints_of, hints_view, push_hint_line, Hint, HintView};
use crate::model::HarnessKind;
use crate::style::{colored, no_spans, push_owned, push_span, spans_view, Color, Line, Style};
use crate::text::{concat, decimal, number};
use crate::wizard::{AgentWizard, AgentWizardKind, AgentWizardStep};
use crate::wizard_pane::{error_or_hints, field_color, field_cursor};
use vstd::prelude::*;

verus! {

impl AgentWizardKind {
    /// What agents of the kind are for.
    #[verifier::allow_in_spec]
    pub fn purpose(self) -> &'static str
        returns
            (match self {
                AgentWizardKind::Researcher =>
                    "—  long-lived investigator scoped to one task/branch ",
                AgentWizardKind::Reviewer =>
                    "—  scoped to one or more (repo, branch) worktrees ",
                AgentWizardKind::Tester =>
                    "—  runs tests and exercises behavior in worktrees ",
                AgentWizardKind::Operator =>
                    "—  takes action in external systems and reports back ",
            }),
    {
        match self {
            AgentWizardKind::Researcher => "—  long-lived investigator scoped to one task/branch ",
            AgentWizardKind::Reviewer => "—  scoped to one or more (repo, branch) worktrees ",
            AgentWizardKind::Tester => "—  runs tests and exercises behavior in worktrees ",
            AgentWizardKind::Operator => "—  takes action in external systems and reports back ",
        }
    }

    /// The line on the kind: its name, and what its agents are for.
    pub open spec fn described(self) -> Seq<char> {
        " "@ + left_aligned(self.label(), 12) + self.purpose()@
    }

    fn describe(self) -> (text: String)
        ensures
            text@ == self.described(),
    {
        let mut text = concat(" ", pad_right(self.name().as_str(), 12).as_str());
        text.append(self.purpose());
        text
    }
}

/// The kinds from the top to the bottom of the list.
pub open spec fn kinds() -> Seq<AgentWizardKind> {
    seq![
        AgentWizardKind::Researcher,
        AgentWizardKind::Reviewer,
        AgentWizardKind::Tester,
        AgentWizardKind::Operator,
    ]
}

/// A framed line of text.
pub struct FramedLine {
    pub line: Line,
    pub border: Color,
}

/// The style of a choice that stands in a frame.
#[verifier::allow_in_spec]
pub fn framed_choice_style(selected: bool) -> Style
    returns
        (if selected {
            colored(Color::Black).bg(Color::LightCyan).bold()
        } else {
            colored(Color::Gray)
        }),
{
    if selected {
        colored(Color::Black).bg(Color::LightCyan).bold()
    } else {
        colored(Color::Gray)
    }
}

/// A line shows a kind, which stands out where it is selected.
pub open spec fn shows_kind(choice: FramedLine, kind: AgentWizardKind, selected: bool) -> bool {
    &&& choice.line@ == text_line(kind.described(), framed_choice_style(selected))
    &&& choice.border == field_color(selected)
}

fn kind_choice(kind: AgentWizardKind, selected: bool) -> (choice: FramedLine)
    ensures
        shows_kind(choice, kind, selected),
{
    let mut spans = no_spans();
    push_owned(&mut spans, kind.describe(), framed_choice_style(selected));
    FramedLine { line: Line { spans }, border: field_color(selected) }
}

/// The colour of the border of a field in a row of worktrees.
#[verifier::allow_in_spec]
pub fn row_field_color(focused: bool, selected: bool) -> Color
    returns
        (if focused {
            Color::LightCyan
        } else if selected {
            Color::Cyan
        } else {
            Color::DarkGray
        }),
{
    if focused {
        Color::LightCyan
    } else if selected {
        Color::Cyan
    } else {
        Color::DarkGray
    }
}

/// The frame of a field in a row of worktrees.
pub open spec fn row_frame(
    frame: EditorFrame,
    title: Seq<char>,
    focused: bool,
    selected: bool,
) -> bool {
    &&& frame.title@ == title
    &&& frame.title_style == colored(field_color(selected))
    &&& frame.border == row_field_color(focused, selected)
    &&& frame.cursor == Some(field_cursor(focused))
}

fn row_field(title: String, focused: bool, selected: bool) -> (frame: EditorFrame)
    ensures
        row_frame(frame, title@, focused, selected),
{
    EditorFrame {
        title,
        title_style: colored(field_color(selected)),
        border: row_field_color(focused, selected),
        cursor: Some(field_cursor(focused)),
    }
}

/// The hints on a step.
pub open spec fn step_hints(step: AgentWizardStep) -> Seq<HintView> {
    match step {
        AgentWizardStep::Kind => seq![
            hint("←/→", Color::LightCyan, " switch  "),
            hint("Enter", Color::LightGreen, " next  "),
            hint("Esc", Color::LightCyan, " cancel"),
        ],
        AgentWizardStep::Name => seq![
            hint("Enter", Color::LightGreen, " next  "),
            hint("Ctrl+S", Color::LightGreen, " create  "),
            hint("Esc", Color::LightCyan, " cancel"),
        ],
        AgentWizardStep::Worktrees => seq![
            hint("Tab", Color::LightCyan, " next field  "),
            hint("Ctrl+A", Color::LightGreen, " add row  "),
            hint("Ctrl+D", Color::LightRed, " remove row  "),
            hint("Ctrl+S", Color::LightGreen, " create  "),
            hint("Esc", Color::LightCyan, " back"),
        ],
        AgentWizardStep::Capabilities => seq![
            hint("Space", Color::LightCyan, " toggle  "),
            hint("Enter", Color::LightGreen, " next  "),
            hint("Ctrl+S", Color::LightGreen, " create  "),
            hint("Esc", Color::LightCyan, " back"),
        ],
        AgentWizardStep::Description => seq![
            hint("Ctrl+S", Color::LightGreen, " create  "),
            hint("Esc Esc", Color::LightCyan, " back"),
        ],
    }
}

fn step_hint_table(step: AgentWizardStep) -> (hints: Vec<Hint>)
    ensures
        hints_view(hints@) == step_hints(step),
{
    let hints = match step {
        AgentWizardStep::Kind => hints_of(
            &[
                ("←/→", Color::LightCyan, " switch  "),
                ("Enter", Color::LightGreen, " next  "),
                ("Esc", Color::LightCyan, " cancel"),
            ],
        ),
        AgentWizardStep::Name => hints_of(
            &[
                ("Enter", Color::LightGreen, " next  "),
                ("Ctrl+S", Color::LightGreen, " create  "),
                ("Esc", Color::LightCyan, " cancel"),
            ],
        ),
        AgentWizardStep::Worktrees => hints_of(
            &[
                ("Tab", Color::LightCyan, " next field  "),
                ("Ctrl+A", Color::LightGreen, " add row  "),
                ("Ctrl+D", Color::LightRed, " remove row  "),
                ("Ctrl+S", Color::LightGreen, " create  "),
                ("Esc", Color::LightCyan, " back"),
            ],
        ),
        AgentWizardStep::Capabilities => hints_of(
            &[
                ("Space", Color::LightCyan, " toggle  "),
                ("Enter", Color::LightGreen, " next  "),
                ("Ctrl+S", Color::LightGreen, " create  "),
                ("Esc", Color::LightCyan, " back"),
            ],
        ),
        AgentWizardStep::Description => hints_of(
            &[
                ("Ctrl+S", Color::LightGreen, " create  "),
                ("Esc Esc", Color::LightCyan, " back"),
            ],
        ),
    };
    assert(hints_view(hints@) =~= step_hints(step));
    hints
}

impl AgentWizard {
    /// The title of the wizard.
    pub fn title(&self) -> (title: String)
        ensures
            title@ == " New "@ + self.kind.label() + " — "@ + self.project@ + " "@,
    {
        let mut title = " New ".to_owned();
        title.append(self.kind.name().as_str());
        title.append(" — ");
        title.append(self.project.as_str());
        title.append(" ");
        title
    }

    /// The kinds that can be chosen, as they are drawn.
    pub fn kind_choices(&self) -> (choices: Vec<FramedLine>)
        ensures
            choices@.len() == kinds().len(),
            forall|i: int|
                0 <= i < choices@.len() ==> shows_kind(
                    #[trigger] choices@[i],
                    kinds()[i],
                    self.kind == kinds()[i],
                ),
    {
        let choices = vec![
            kind_choice(
                AgentWizardKind::Researcher,
                matches!(self.kind, AgentWizardKind::Researcher),
            ),
            kind_choice(
                AgentWizardKind::Reviewer,
                matches!(self.kind, AgentWizardKind::Reviewer),
            ),
            kind_choice(AgentWizardKind::Tester, matches!(self.kind, AgentWizardKind::Tester)),
            kind_choice(
                AgentWizardKind::Operator,
                matches!(self.kind, AgentWizardKind::Operator),
            ),
        ];
        choices
    }

    /// The frame of the name.
    pub fn name_frame(&self) -> (frame: EditorFrame)
        ensures
            frame.title@ == " Name "@,
            frame.title_style == colored(Color::LightCyan),
            frame.border == Color::LightCyan,
            frame.cursor == Some(field_cursor(true)),
    {
        EditorFrame {
            title: " Name ".to_owned(),
            title_style: colored(Color::LightCyan),
            border: Color::LightCyan,
            cursor: Some(field_cursor(true)),
        }
    }

    /// The frames of the fields for a repository and a branch in each row.
    pub fn worktree_frames(&self) -> (frames: Vec<(EditorFrame, EditorFrame)>)
        ensures
            frames@.len() == self.worktree_rows@.len(),
            forall|i: int|
                0 <= i < frames@.len() ==> {
                    let selected = i == self.selected_row;
                    let in_branch = self.worktree_rows@[i].branch_focus;
                    &&& row_frame(
                        (#[trigger] frames@[i]).0,
                        " repo #"@ + decimal((i + 1) as nat) + " "@,
                        selected && !in_branch,
                        selected,
                    )
                    &&& row_frame(frames@[i].1, " branch "@, selected && in_branch, selected)
                },
    {
        let mut frames: Vec<(EditorFrame, EditorFrame)> = Vec::new();
        let mut i: usize = 0;
        while i < self.worktree_rows.len()
            invariant
                i <= self.worktree_rows.len(),
                frames@.len() == i,
                forall|j: int|
                    0 <= j < i ==> {
                        let selected = j == self.selected_row;
                        let in_branch = self.worktree_rows@[j].branch_focus;
                        &&& row_frame(
                            (#[trigger] frames@[j]).0,
                            " repo #"@ + decimal((j + 1) as nat) + " "@,
                            selected && !in_branch,
                            selected,
                        )
                        &&& row_frame(frames@[j].1, " branch "@, selected && in_branch, selected)
                    },
            decreases self.worktree_rows.len() - i,
        {
            let selected = i == self.selected_row;
            let in_branch = self.worktree_rows[i].branch_focus;
            let mut title = concat(" repo #", number((i + 1) as u64).as_str());
            title.append(" ");
            frames.push(
                (
                    row_field(title, selected && !in_branch, selected),
                    row_field(" branch ".to_owned(), selected && in_branch, selected),
                ),
            );
            i += 1;
        }
        frames
    }

    /// The line on the browser, which not every harness has.
    pub fn capability(&self, harness: HarnessKind, harness_name: &str) -> (line: FramedLine)
        ensures
            ({
                let label = if self.browser_capability {
                    " Browser: on "@
                } else {
                    " Browser: off "@
                };
                &&& line.line@ == if harness.supports_browser() {
                    seq![(label, framed_choice_style(true))]
                } else {
                    seq![
                        (label, colored(Color::DarkGray)),
                        (
                            " (not supported on "@ + harness_name@ + ")"@,
                            colored(Color::Yellow),
                        ),
                    ]
                }
                &&& line.border == field_color(harness.supports_browser())
            }),
    {
        let label = if self.browser_capability {
            " Browser: on "
        } else {
            " Browser: off "
        };
        let mut spans = no_spans();
        if harness.supports_browser() {
            push_span(&mut spans, label, framed_choice_style(true));
        } else {
            push_span(&mut spans, label, colored(Color::DarkGray));
            let mut note = concat(" (not supported on ", harness_name);
            note.append(")");
            push_owned(&mut spans, note, colored(Color::Yellow));
        }
        FramedLine { line: Line { spans }, border: field_color(harness.supports_browser()) }
    }

    /// The frame of the description.
    pub fn description_frame(&self) -> (frame: EditorFrame)
        ensures
            frame.title@ == " Description ["@ + self.description_editor.vim.mode.word() + "] "@,
            frame.title_style == colored(Color::LightCyan),
            frame.border == Color::LightCyan,
            frame.cursor == Some(typing_cursor()),
    {
        let mut title = concat(" Description [", self.description_editor.mode().indicator());
        title.append("] ");
        EditorFrame {
            title,
            title_style: colored(Color::LightCyan),
            border: Color::LightCyan,
            cursor: Some(typing_cursor()),
        }
    }

    /// The line below the wizard.
    pub fn footer(&self) -> (line: Line)
        ensures
            line@ == error_or_hints(self.error_message, step_hints(self.step)),
    {
        let mut spans = no_spans();
        match &self.error_message {
            Some(error) => {
                push_span(&mut spans, error.as_str(), colored(Color::LightRed));
            },
            None => {
                push_hint_line(&mut spans, step_hint_table(self.step));
                assert(spans_view(spans@) =~= hint_line(step_hints(self.step)));
            },
        }
        Line { spans }
    }
}

} // verus!
