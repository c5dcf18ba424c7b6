//! How the wizards for tasks and projects are drawn.

use crate::dialogs::{choice_mark, pick, pick_style, text_line, typing_cursor, EditorFrame};
use crate::hints::{hint, hint_line, hints_of, hints_view, push_hint_line, HintView};
use crate::layout::Limit;
use crate::notes_pane::vim_mode_color;
use crate::style::{
    colored, items_view, no_items, no_spans, one_line, plain, push_one_line, push_owned,
    push_span, spans_view, Color, Item, ItemView, Line, Style,
};
use crate::text::{concat, has_text, middle_stands};
use crate::wizard::{BranchSource, NewTaskWizard, ProjectWizard, WizardStep};
use vstd::prelude::*;

verus! {

/// The style of a tab: the open one stands out, and one with nothing to choose
/// steps back.
#[verifier::allow_in_spec]
pub fn tab_style(open: bool, has_choice: bool) -> Style
    returns
        (if open {
            colored(Color::LightCyan).bold()
        } else if has_choice {
            colored(Color::DarkGray)
        } else {
            colored(Color::Rgb(60, 60, 60))
        }),
{
    if open {
        colored(Color::LightCyan).bold()
    } else if has_choice {
        colored(Color::DarkGray)
    } else {
        colored(Color::Rgb(60, 60, 60))
    }
}

/// The frame of a field of the tab for a new branch.
pub open spec fn field_frame(frame: EditorFrame, title: Seq<char>, focused: bool) -> bool {
    let color = if focused {
        Color::LightGreen
    } else {
        Color::DarkGray
    };
    &&& frame.title@ == title
    &&& frame.title_style == colored(color)
    &&& frame.border == color
    &&& frame.cursor == Some(
        if focused {
            typing_cursor()
        } else {
            plain()
        },
    )
}

fn field(title: &str, focused: bool) -> (frame: EditorFrame)
    ensures
        field_frame(frame, title@, focused),
{
    let color = if focused {
        Color::LightGreen
    } else {
        Color::DarkGray
    };
    let cursor = if focused {
        typing_cursor()
    } else {
        plain()
    };
    EditorFrame {
        title: title.to_owned(),
        title_style: colored(color),
        border: color,
        cursor: Some(cursor),
    }
}

/// What the open tab shows.
pub enum BranchContent {
    /// The fields for the names of the branch and of its base.
    Fields { branch: EditorFrame, base: EditorFrame },
    /// There is nothing to choose, and this is said.
    Nothing { title: &'static str, message: &'static str },
    Choices { title: &'static str, items: Vec<Item> },
}

/// The tabs for choosing a branch as they are drawn.
pub struct BranchTabs {
    pub tabs: Line,
    pub selected: usize,
    /// The room that the open tab asks for.
    pub limit: Limit,
    pub content: BranchContent,
}

impl NewTaskWizard {
    /// The names of the tabs.
    pub open spec fn tab_spans(self) -> Seq<(Seq<char>, Style)> {
        seq![
            (" New Branch "@, tab_style(self.branch_source is NewBranch, true)),
            (
                " Existing Branch "@,
                tab_style(
                    self.branch_source is ExistingBranch,
                    self.existing_branches@.len() > 0,
                ),
            ),
            (
                " Existing Worktree "@,
                tab_style(
                    self.branch_source is ExistingWorktree,
                    self.existing_worktrees@.len() > 0,
                ),
            ),
        ]
    }

    /// The branches that can be chosen.
    pub open spec fn branch_entries(self) -> Seq<ItemView> {
        Seq::new(
            self.existing_branches@.len(),
            |i: int|
                one_line(
                    pick(self.existing_branches@[i]@, i == self.selected_branch_index),
                    plain(),
                ),
        )
    }

    /// The worktrees that can be chosen, with their paths.
    pub open spec fn worktree_entries(self) -> Seq<ItemView> {
        Seq::new(
            self.existing_worktrees@.len(),
            |i: int|
                one_line(
                    pick(self.existing_worktrees@[i].0@, i == self.selected_worktree_index).push(
                        (
                            "  ("@ + self.existing_worktrees@[i].1@ + ")"@,
                            colored(Color::DarkGray),
                        ),
                    ),
                    plain(),
                ),
        )
    }

    /// What the open tab shows.
    pub open spec fn shows(self, content: BranchContent) -> bool {
        match (self.branch_source, content) {
            (BranchSource::NewBranch, BranchContent::Fields { branch, base }) => {
                &&& field_frame(
                    branch,
                    " Enter branch name (creates new branch + worktree) "@,
                    !self.base_branch_focus,
                )
                &&& field_frame(base, " Base branch (↑↓ to switch) "@, self.base_branch_focus)
            },
            (BranchSource::ExistingBranch, BranchContent::Nothing { title, message }) => {
                &&& self.existing_branches@.len() == 0
                &&& title@ == " Existing Branches "@
                &&& message@ == "No available branches (all have tasks or repo is empty)"@
            },
            (BranchSource::ExistingBranch, BranchContent::Choices { title, items }) => {
                &&& self.existing_branches@.len() > 0
                &&& title@ == " Select branch (creates new worktree) "@
                &&& items_view(items@) == self.branch_entries()
            },
            (BranchSource::ExistingWorktree, BranchContent::Nothing { title, message }) => {
                &&& self.existing_worktrees@.len() == 0
                &&& title@ == " Existing Worktrees "@
                &&& message@ == "No existing worktrees without tasks for this repository."@
            },
            (BranchSource::ExistingWorktree, BranchContent::Choices { title, items }) => {
                &&& self.existing_worktrees@.len() > 0
                &&& title@ == " Select worktree (uses existing worktree) "@
                &&& items_view(items@) == self.worktree_entries()
            },
            _ => false,
        }
    }

    fn branch_items(&self) -> (items: Vec<Item>)
        ensures
            items_view(items@) == self.branch_entries(),
    {
        let mut items = no_items();
        let mut i: usize = 0;
        assert(items_view(items@) =~= self.branch_entries().take(0));
        while i < self.existing_branches.len()
            invariant
                i <= self.existing_branches.len(),
                items_view(items@) == self.branch_entries().take(i as int),
            decreases self.existing_branches.len() - i,
        {
            let selected = i == self.selected_branch_index;
            let mut spans = no_spans();
            push_span(&mut spans, choice_mark(selected), pick_style(selected));
            push_span(&mut spans, self.existing_branches[i].as_str(), pick_style(selected));
            assert(spans_view(spans@) =~= self.branch_entries()[i as int].lines[0]);
            push_one_line(&mut items, spans, plain());
            assert(items_view(items@) =~= self.branch_entries().take(i + 1));
            i += 1;
        }
        assert(self.branch_entries().take(i as int) =~= self.branch_entries());
        items
    }

    fn worktree_items(&self) -> (items: Vec<Item>)
        ensures
            items_view(items@) == self.worktree_entries(),
    {
        let mut items = no_items();
        let mut i: usize = 0;
        assert(items_view(items@) =~= self.worktree_entries().take(0));
        while i < self.existing_worktrees.len()
            invariant
                i <= self.existing_worktrees.len(),
                items_view(items@) == self.worktree_entries().take(i as int),
            decreases self.existing_worktrees.len() - i,
        {
            let selected = i == self.selected_worktree_index;
            let mut path = concat("  (", self.existing_worktrees[i].1.as_str());
            path.append(")");
            let mut spans = no_spans();
            push_span(&mut spans, choice_mark(selected), pick_style(selected));
            push_span(&mut spans, self.existing_worktrees[i].0.as_str(), pick_style(selected));
            push_owned(&mut spans, path, colored(Color::DarkGray));
            assert(spans_view(spans@) =~= self.worktree_entries()[i as int].lines[0]);
            push_one_line(&mut items, spans, plain());
            assert(items_view(items@) =~= self.worktree_entries().take(i + 1));
            i += 1;
        }
        assert(self.worktree_entries().take(i as int) =~= self.worktree_entries());
        items
    }

    fn tab_content(&self) -> (content: BranchContent)
        ensures
            self.shows(content),
    {
        match self.branch_source {
            BranchSource::NewBranch => BranchContent::Fields {
                branch: field(
                    " Enter branch name (creates new branch + worktree) ",
                    !self.base_branch_focus,
                ),
                base: field(" Base branch (↑↓ to switch) ", self.base_branch_focus),
            },
            BranchSource::ExistingBranch => if self.existing_branches.len() == 0 {
                BranchContent::Nothing {
                    title: " Existing Branches ",
                    message: "No available branches (all have tasks or repo is empty)",
                }
            } else {
                BranchContent::Choices {
                    title: " Select branch (creates new worktree) ",
                    items: self.branch_items(),
                }
            },
            BranchSource::ExistingWorktree => if self.existing_worktrees.len() == 0 {
                BranchContent::Nothing {
                    title: " Existing Worktrees ",
                    message: "No existing worktrees without tasks for this repository.",
                }
            } else {
                BranchContent::Choices {
                    title: " Select worktree (uses existing worktree) ",
                    items: self.worktree_items(),
                }
            },
        }
    }

    /// The tabs for choosing a branch as they are drawn.
    pub fn branch_tabs(&self) -> (tabs: BranchTabs)
        ensures
            tabs.tabs@ == self.tab_spans(),
            tabs.selected == match self.branch_source {
                BranchSource::NewBranch => 0int,
                BranchSource::ExistingBranch => 1,
                BranchSource::ExistingWorktree => 2,
            },
            tabs.limit == if self.branch_source is NewBranch {
                Limit::Length(7)
            } else {
                Limit::Min(3)
            },
            self.shows(tabs.content),
    {
        let source = self.branch_source;
        let mut spans = no_spans();
        push_span(
            &mut spans,
            " New Branch ",
            tab_style(matches!(source, BranchSource::NewBranch), true),
        );
        push_span(
            &mut spans,
            " Existing Branch ",
            tab_style(
                matches!(source, BranchSource::ExistingBranch),
                self.existing_branches.len() > 0,
            ),
        );
        push_span(
            &mut spans,
            " Existing Worktree ",
            tab_style(
                matches!(source, BranchSource::ExistingWorktree),
                self.existing_worktrees.len() > 0,
            ),
        );
        let (selected, limit) = match source {
            BranchSource::NewBranch => (0usize, Limit::Length(7)),
            BranchSource::ExistingBranch => (1usize, Limit::Min(3)),
            BranchSource::ExistingWorktree => (2usize, Limit::Min(3)),
        };
        BranchTabs { tabs: Line { spans }, selected, limit, content: self.tab_content() }
    }

    /// The title of the wizard: the repository and the step.
    pub open spec fn heading(self) -> Seq<char> {
        " New Task: "@ + (if self.is_multi_repo {
            "[multi] "@
        } else {
            Seq::empty()
        }) + self.selected_repo@ + (match self.step {
            WizardStep::SelectBranch => " [1/2] Branch / Worktree "@,
            WizardStep::EnterDescription => " [2/2] Task Description "@,
        })
    }

    /// The title of the wizard.
    pub fn title(&self) -> (title: String)
        ensures
            title@ == self.heading(),
    {
        let mut title = " New Task: ".to_owned();
        if self.is_multi_repo {
            title.append("[multi] ");
        }
        title.append(self.selected_repo.as_str());
        match self.step {
            WizardStep::SelectBranch => title.append(" [1/2] Branch / Worktree "),
            WizardStep::EnterDescription => title.append(" [2/2] Task Description "),
        }
        assert(title@ =~= self.heading());
        title
    }

    /// The frame of the description.
    pub fn description_frame(&self) -> (frame: EditorFrame)
        ensures
            ({
                let mode = self.description_editor.vim.mode;
                let color = vim_mode_color(mode);
                &&& frame.title@ == " Describe task goal (empty = setup only) ["@ + mode.word()
                    + "] (Ctrl+S to continue) "@
                &&& frame.title_style == colored(color)
                &&& frame.border == color
                &&& frame.cursor == Some(typing_cursor())
            }),
    {
        let mode = self.description_editor.mode();
        let color = vim_mode_color(mode);
        let mut title = concat(" Describe task goal (empty = setup only) [", mode.indicator());
        title.append("] (Ctrl+S to continue) ");
        EditorFrame {
            title,
            title_style: colored(color),
            border: color,
            cursor: Some(typing_cursor()),
        }
    }

    /// The line below the wizard: what went wrong, or what keys do.
    pub fn footer(&self) -> (line: Line)
        ensures
            line@ == match self.error_message {
                Some(error) => seq![
                    ("Error: "@, colored(Color::LightRed)),
                    (error@, colored(Color::LightRed)),
                ],
                None => text_line(
                    match self.step {
                        WizardStep::SelectBranch =>
                            "Tab: switch mode  j/k: navigate  Enter: next  Esc: back"@,
                        WizardStep::EnterDescription =>
                            "Ctrl+S: create task (empty = setup only)  Esc: back"@,
                    },
                    colored(Color::DarkGray),
                ),
            },
    {
        let mut spans = no_spans();
        match &self.error_message {
            Some(error) => {
                push_span(&mut spans, "Error: ", colored(Color::LightRed));
                push_span(&mut spans, error.as_str(), colored(Color::LightRed));
            },
            None => {
                let help = match self.step {
                    WizardStep::SelectBranch =>
                        "Tab: switch mode  j/k: navigate  Enter: next  Esc: back",
                    WizardStep::EnterDescription =>
                        "Ctrl+S: create task (empty = setup only)  Esc: back",
                };
                push_span(&mut spans, help, colored(Color::DarkGray));
            },
        }
        Line { spans }
    }
}

/// The line below a dialog: what went wrong, or what keys do.
pub open spec fn error_or_hints(error: Option<String>, hints: Seq<HintView>) -> Seq<
    (Seq<char>, Style),
> {
    match error {
        Some(error) => text_line(error@, colored(Color::LightRed)),
        None => hint_line(hints),
    }
}

/// How high the line below a dialog is: an error may need a second line.
pub fn footer_height(error: &Option<String>) -> (height: u16)
    ensures
        height == if error is Some {
            2int
        } else {
            1
        },
{
    if error.is_some() {
        2
    } else {
        1
    }
}

/// The colour of the border of a field.
#[verifier::allow_in_spec]
pub fn field_color(focused: bool) -> Color
    returns
        (if focused {
            Color::LightCyan
        } else {
            Color::DarkGray
        }),
{
    if focused {
        Color::LightCyan
    } else {
        Color::DarkGray
    }
}

/// The cursor of a short field.
#[verifier::allow_in_spec]
pub fn field_cursor(focused: bool) -> Style
    returns
        (if focused {
            colored(Color::Black).bg(Color::LightCyan)
        } else {
            plain()
        }),
{
    if focused {
        colored(Color::Black).bg(Color::LightCyan)
    } else {
        plain()
    }
}

impl ProjectWizard {
    /// The frame of the name.
    pub fn name_frame(&self) -> (frame: EditorFrame)
        ensures
            frame.title@ == " New Project — Name "@,
            frame.title_style == colored(Color::LightMagenta).bold(),
            frame.border == field_color(!self.description_focus),
            frame.cursor == Some(field_cursor(!self.description_focus)),
    {
        EditorFrame {
            title: " New Project — Name ".to_owned(),
            title_style: colored(Color::LightMagenta).bold(),
            border: field_color(!self.description_focus),
            cursor: Some(field_cursor(!self.description_focus)),
        }
    }

    /// What stands in the field of the name while it is empty.
    pub fn name_placeholder() -> (text: &'static str)
        ensures
            text@ == "project-name"@,
    {
        "project-name"
    }

    /// The frame of the description, which tells the mode where it has the
    /// focus.
    pub fn description_frame(&self) -> (frame: EditorFrame)
        ensures
            frame.title@ == if self.description_focus {
                " Description ["@ + self.description_editor.vim.mode.word() + "] "@
            } else {
                " Description"@
            },
            frame.title_style == colored(Color::DarkGray),
            frame.border == field_color(self.description_focus),
            frame.cursor == if self.description_focus {
                Some(typing_cursor())
            } else {
                None
            },
    {
        let title_style = colored(Color::DarkGray);
        let border = field_color(self.description_focus);
        if self.description_focus {
            let mut title = concat(
                " Description [",
                self.description_editor.mode().indicator(),
            );
            title.append("] ");
            EditorFrame { title, title_style, border, cursor: Some(typing_cursor()) }
        } else {
            EditorFrame { title: " Description".to_owned(), title_style, border, cursor: None }
        }
    }

    /// The line below the wizard.
    pub fn footer(&self) -> (line: Line)
        ensures
            line@ == error_or_hints(
                self.error_message,
                seq![
                    hint("Tab", Color::LightCyan, " switch field  "),
                    hint("Ctrl+S", Color::LightGreen, " create  "),
                    hint("Esc", Color::LightCyan, " cancel"),
                ],
            ),
    {
        let mut spans = no_spans();
        match &self.error_message {
            Some(error) => {
                push_span(&mut spans, error.as_str(), colored(Color::LightRed));
            },
            None => {
                let hints = hints_of(
                    &[
                        ("Tab", Color::LightCyan, " switch field  "),
                        ("Ctrl+S", Color::LightGreen, " create  "),
                        ("Esc", Color::LightCyan, " cancel"),
                    ],
                );
                assert(hints_view(hints@) =~= seq![
                    hint("Tab", Color::LightCyan, " switch field  "),
                    hint("Ctrl+S", Color::LightGreen, " create  "),
                    hint("Esc", Color::LightCyan, " cancel"),
                ]);
                push_hint_line(&mut spans, hints);
                assert(spans_view(spans@) =~= hint_line(hints_view(hints@)));
            },
        }
        Line { spans }
    }
}

/// The branches and worktrees to choose from are listed in order, and exactly the
/// chosen one stands out; a worktree is listed with its path.
pub proof fn choices_are_listed(wizard: NewTaskWizard, i: int)
    ensures
        wizard.branch_entries().len() == wizard.existing_branches@.len(),
        0 <= i < wizard.existing_branches@.len() ==> ({
            let row = wizard.branch_entries()[i].lines[0];
            &&& row[1].0 == wizard.existing_branches@[i]@
            &&& (row[1].1.bg is Some) == (i == wizard.selected_branch_index)
        }),
        wizard.worktree_entries().len() == wizard.existing_worktrees@.len(),
        0 <= i < wizard.existing_worktrees@.len() ==> ({
            let row = wizard.worktree_entries()[i].lines[0];
            &&& row[1].0 == wizard.existing_worktrees@[i].0@
            &&& has_text(row[2].0, wizard.existing_worktrees@[i].1@)
            &&& (row[1].1.bg is Some) == (i == wizard.selected_worktree_index)
        }),
{
    if 0 <= i < wizard.existing_worktrees@.len() {
        middle_stands("  ("@, wizard.existing_worktrees@[i].1@, ")"@);
    }
}

/// The title names the repository; where something is wrong it is said in place
/// of the hints.
pub proof fn wizards_say_what_is_wrong(
    wizard: NewTaskWizard,
    error: Option<String>,
    hints: Seq<HintView>,
)
    ensures
        has_text(wizard.heading(), wizard.selected_repo@),
        error matches Some(text) ==> error_or_hints(error, hints).last().0 == text@ && error_or_hints(
            error,
            hints,
        ).last().1.fg == Some(Color::LightRed),
{
    titles_name_the_repo(
        " New Task: "@,
        if wizard.is_multi_repo {
            "[multi] "@
        } else {
            Seq::empty()
        },
        wizard.selected_repo@,
        match wizard.step {
            WizardStep::SelectBranch => " [1/2] Branch / Worktree "@,
            WizardStep::EnterDescription => " [2/2] Task Description "@,
        },
    );
}

proof fn titles_name_the_repo(a: Seq<char>, b: Seq<char>, repo: Seq<char>, c: Seq<char>)
    ensures
        has_text(a + b + repo + c, repo),
{
    middle_stands(a + b, repo, c);
}

} // verus!
