//! The steps of the wizard for a new agent.

use crate::keys::{KeyCode, KeyPress};
use crate::model::HarnessKind;
use crate::task_wizard::{copied_from, edited, some_view};
use crate::text::{join_with, trim, trimmed};
use crate::textarea::{area_state, fresh_state, type_into, Key};
use crate::vim::{fresh_vim, Vim, VimMode, VimTextArea};
use crate::wizard::{
    line_text, plain_editor, trimmed_line, AgentWizard, AgentWizardKind, AgentWizardStep,
    ReviewerWorktreeRow,
};
use vstd::prelude::*;

verus! {

/// An agent to be created.
pub struct AgentRequest {
    pub kind: AgentWizardKind,
    pub project: String,
    pub name: String,
    pub description: String,
    /// The repositories and branches that the agent works on.
    pub branches: Vec<(String, String)>,
    /// Whether a tester drives a browser.
    pub browser: bool,
}

/// An agent to be created, as contracts see it.
#[verifier::ext_equal]
pub struct AgentPlan {
    pub kind: AgentWizardKind,
    pub project: Seq<char>,
    pub name: Seq<char>,
    pub description: Seq<char>,
    pub branches: Seq<(Seq<char>, Seq<char>)>,
    pub browser: bool,
}

pub open spec fn pairs_view(pairs: Seq<(String, String)>) -> Seq<(Seq<char>, Seq<char>)> {
    Seq::new(pairs.len(), |i: int| (pairs[i].0@, pairs[i].1@))
}

impl View for AgentRequest {
    type V = AgentPlan;

    open spec fn view(&self) -> AgentPlan {
        AgentPlan {
            kind: self.kind,
            project: self.project@,
            name: self.name@,
            description: self.description@,
            branches: pairs_view(self.branches@),
            browser: self.browser,
        }
    }
}

/// What a key does in the wizard.
pub enum AgentOutcome<T> {
    Nothing,
    /// Leave the wizard.
    Leave,
    /// Text that was yanked.
    Copied(T),
}

/// A row with a repository but no branch, or the other way round.
pub open spec fn is_half_filled(row: ReviewerWorktreeRow) -> bool {
    (row.spec_repo().len() == 0) != (row.spec_branch().len() == 0)
}

pub open spec fn some_half_filled(rows: Seq<ReviewerWorktreeRow>) -> bool {
    exists|i: int| 0 <= i < rows.len() && is_half_filled(#[trigger] rows[i])
}

/// The repositories and branches of the rows that are filled in.
pub open spec fn filled_rows(rows: Seq<ReviewerWorktreeRow>) -> Seq<(Seq<char>, Seq<char>)>
    decreases rows.len(),
{
    if rows.len() == 0 {
        Seq::empty()
    } else {
        let row = rows.last();
        let before = filled_rows(rows.drop_last());
        if row.spec_repo().len() == 0 && row.spec_branch().len() == 0 {
            before
        } else {
            before.push((row.spec_repo(), row.spec_branch()))
        }
    }
}

/// The filled rows, unless one is half filled.
fn collect_rows(rows: &Vec<ReviewerWorktreeRow>) -> (pairs: Option<Vec<(String, String)>>)
    ensures
        match pairs {
            Some(p) => !some_half_filled(rows@) && pairs_view(p@) == filled_rows(rows@),
            None => some_half_filled(rows@),
        },
{
    let mut pairs: Vec<(String, String)> = Vec::new();
    let mut i: usize = 0;
    assert(pairs_view(pairs@) == filled_rows(rows@.take(0)));
    while i < rows.len()
        invariant
            i <= rows.len(),
            forall|k: int| 0 <= k < i ==> !is_half_filled(#[trigger] rows@[k]),
            pairs_view(pairs@) == filled_rows(rows@.take(i as int)),
        decreases rows.len() - i,
    {
        assert(rows@.take(i + 1).drop_last() == rows@.take(i as int));
        let repo = rows[i].repo();
        let branch = rows[i].branch();
        let no_repo = repo.as_str().is_empty();
        let no_branch = branch.as_str().is_empty();
        let ghost before = pairs_view(pairs@);
        if no_repo != no_branch {
            assert(is_half_filled(rows@[i as int]));
            return None;
        }
        if !no_repo {
            pairs.push((repo, branch));
            assert(pairs_view(pairs@) == before.push((repo@, branch@)));
        }
        i += 1;
    }
    assert(rows@.take(i as int) == rows@);
    Some(pairs)
}

impl AgentWizard {
    /// The agent to be created.
    pub open spec fn plan(self) -> AgentPlan {
        AgentPlan {
            kind: self.kind,
            project: self.project@,
            name: trimmed(line_text(self.name_editor)),
            description: trimmed(join_with(self.description_editor.area().lines, '\n')),
            branches: if self.kind.needs_worktrees() {
                filled_rows(self.worktree_rows@)
            } else {
                Seq::empty()
            },
            browser: self.kind is Tester && self.browser_capability,
        }
    }

    /// What is wrong with what was entered, and the step to put it right.
    pub open spec fn problem(self) -> Option<(Seq<char>, AgentWizardStep)> {
        if self.plan().name.len() == 0 {
            Some(("AgentRecord name is required"@, AgentWizardStep::Name))
        } else if !self.kind.needs_worktrees() {
            None
        } else if some_half_filled(self.worktree_rows@) {
            Some(
                (
                    "Each row needs both a repo and a branch (Ctrl+D to remove)"@,
                    AgentWizardStep::Worktrees,
                ),
            )
        } else if self.plan().branches.len() == 0 {
            Some(
                (
                    self.kind.label() + " needs at least one (repo, branch) pair"@,
                    AgentWizardStep::Worktrees,
                ),
            )
        } else {
            None
        }
    }

    /// The wizard shows an error at a step.
    pub open spec fn shows_error(
        self,
        before: AgentWizard,
        message: Seq<char>,
        step: AgentWizardStep,
    ) -> bool {
        &&& self == (AgentWizard { error_message: self.error_message, step, ..before })
        &&& some_view(self.error_message) == Some(message)
    }

    fn fail(&mut self, message: &str, step: AgentWizardStep)
        requires
            old(self).wf(),
        ensures
            final(self).wf(),
            final(self).shows_error(*old(self), message@, step),
    {
        self.error_message = Some(message.to_owned());
        self.step = step;
    }

    /// Validate and submit the agent wizard: the agent to be created, or an
    /// error message that is surfaced inline so the user can correct and resubmit.
    pub fn submit_agent_wizard(&mut self) -> (request: Option<AgentRequest>)
        requires
            old(self).wf(),
        ensures
            final(self).wf(),
            match old(self).problem() {
                Some(problem) => request is None && final(self).shows_error(
                    *old(self),
                    problem.0,
                    problem.1,
                ),
                None => *final(self) == *old(self) && (request matches Some(r) && r@
                    == old(self).plan()),
            },
    {
        let name = trimmed_line(&self.name_editor);
        let description = trim(self.description_editor.lines_joined().as_str());
        if name.as_str().is_empty() {
            self.fail("AgentRecord name is required", AgentWizardStep::Name);
            return None;
        }
        let branches: Vec<(String, String)> = if self.kind.needs_worktrees() {
            match collect_rows(&self.worktree_rows) {
                None => {
                    self.fail(
                        "Each row needs both a repo and a branch (Ctrl+D to remove)",
                        AgentWizardStep::Worktrees,
                    );
                    return None;
                },
                Some(pairs) => {
                    if pairs.len() == 0 {
                        let mut message = self.kind.name();
                        message.append(" needs at least one (repo, branch) pair");
                        self.fail(message.as_str(), AgentWizardStep::Worktrees);
                        return None;
                    }
                    pairs
                },
            }
        } else {
            let none: Vec<(String, String)> = Vec::new();
            assert(pairs_view(none@) == Seq::<(Seq<char>, Seq<char>)>::empty());
            none
        };
        let browser = matches!(self.kind, AgentWizardKind::Tester) && self.browser_capability;
        let request = AgentRequest {
            kind: self.kind,
            project: self.project.clone(),
            name,
            description,
            branches,
            browser,
        };
        assert(request@ == old(self).plan());
        Some(request)
    }

    /// Creating the agent failed: the error is shown, for an agent with
    /// worktrees at the step that names them.
    pub fn creation_failed(&mut self, error: String)
        requires
            old(self).wf(),
        ensures
            final(self).wf(),
            *final(self) == (AgentWizard {
                error_message: Some(error),
                step: if old(self).kind.needs_worktrees() {
                    AgentWizardStep::Worktrees
                } else {
                    old(self).step
                },
                ..*old(self)
            }),
    {
        self.error_message = Some(error);
        if self.kind.needs_worktrees() {
            self.step = AgentWizardStep::Worktrees;
        }
    }

    /// A key that goes on to the next kind.
    pub open spec fn next_kind_key(code: KeyCode) -> bool {
        ||| code == KeyCode::Char('j') || code is Down
        ||| code == KeyCode::Char('l') || code is Right
        ||| code is Tab
    }

    /// A key that goes back to the previous kind.
    pub open spec fn previous_kind_key(code: KeyCode) -> bool {
        ||| code == KeyCode::Char('k') || code is Up
        ||| code == KeyCode::Char('h') || code is Left
        ||| code is BackTab
    }

    /// The wizard at a step; entering the description starts in insert mode.
    pub open spec fn at_step(self, step: AgentWizardStep) -> AgentWizard {
        if step is Description {
            AgentWizard {
                step,
                description_editor: VimTextArea {
                    vim: Vim { mode: VimMode::Insert, ..self.description_editor.vim },
                    ..self.description_editor
                },
                ..self
            }
        } else {
            AgentWizard { step, ..self }
        }
    }

    fn go_to_step(&mut self, step: AgentWizardStep)
        requires
            old(self).wf(),
        ensures
            final(self).wf(),
            *final(self) == old(self).at_step(step),
    {
        self.step = step;
        if matches!(step, AgentWizardStep::Description) {
            self.description_editor.set_insert_mode();
        }
    }

    /// The wizard after a key at the choice of the kind.
    pub open spec fn after_kind_key(self, key: KeyPress) -> AgentWizard {
        let code = key.code;
        if AgentWizard::next_kind_key(code) {
            AgentWizard { kind: self.kind.next(), ..self }
        } else if AgentWizard::previous_kind_key(code) {
            AgentWizard { kind: self.kind.previous(), ..self }
        } else if code is Enter {
            AgentWizard { step: AgentWizardStep::Name, ..self }
        } else {
            self
        }
    }

    /// The wizard after a key at the name.
    pub open spec fn after_name_key(self, key: KeyPress, after: AgentWizard) -> bool {
        if key.code is Esc {
            after == self
        } else if key.code is Enter {
            after == self.at_step(self.kind.step_after_name())
        } else {
            &&& after == (AgentWizard { name_editor: after.name_editor, ..self })
            &&& area_state(self.name_editor).typed(key.input(), area_state(after.name_editor))
        }
    }

    /// The rows with the focus of one of them changed.
    pub open spec fn refocused(self, row: int, branch_focus: bool) -> Seq<ReviewerWorktreeRow> {
        self.worktree_rows@.update(
            row,
            ReviewerWorktreeRow { branch_focus, ..self.worktree_rows@[row] },
        )
    }

    /// The wizard after going on from a field of the rows: to the branch, to
    /// the next row, or after the last field to the next step.
    pub open spec fn after_field(self, after: AgentWizard) -> bool {
        let row = self.selected_row as int;
        if !self.worktree_rows@[row].branch_focus {
            &&& after.worktree_rows@ == self.refocused(row, true)
            &&& after == (AgentWizard { worktree_rows: after.worktree_rows, ..self })
        } else if row + 1 < self.worktree_rows@.len() {
            &&& after.worktree_rows@ == self.refocused(row, false)
            &&& after == (AgentWizard {
                worktree_rows: after.worktree_rows,
                selected_row: (row + 1) as usize,
                ..self
            })
        } else {
            after == self.at_step(self.kind.step_after_worktrees())
        }
    }

    /// The wizard after going back from a field of the rows.
    pub open spec fn before_field(self, after: AgentWizard) -> bool {
        let row = self.selected_row as int;
        if self.worktree_rows@[row].branch_focus {
            &&& after.worktree_rows@ == self.refocused(row, false)
            &&& after == (AgentWizard { worktree_rows: after.worktree_rows, ..self })
        } else if row > 0 {
            &&& after.worktree_rows@ == self.refocused(row - 1, true)
            &&& after == (AgentWizard {
                worktree_rows: after.worktree_rows,
                selected_row: (row - 1) as usize,
                ..self
            })
        } else {
            after == self
        }
    }

    /// The wizard after a key at the rows of worktrees.
    pub open spec fn after_rows_key(self, key: KeyPress, after: AgentWizard) -> bool {
        let row = self.selected_row as int;
        let rows = self.worktree_rows@;
        match key.code {
            KeyCode::Esc => after == (AgentWizard { step: AgentWizardStep::Name, ..self }),
            KeyCode::Tab | KeyCode::Enter => self.after_field(after),
            KeyCode::BackTab => self.before_field(after),
            _ => if key.is_ctrl('a') {
                &&& after.worktree_rows@.len() == rows.len() + 1
                &&& after.worktree_rows@[row + 1].is_blank()
                &&& after.worktree_rows@ == rows.insert(row + 1, after.worktree_rows@[row + 1])
                &&& after == (AgentWizard {
                    worktree_rows: after.worktree_rows,
                    selected_row: (row + 1) as usize,
                    ..self
                })
            } else if key.is_ctrl('d') {
                if rows.len() > 1 {
                    &&& after.worktree_rows@ == rows.remove(row)
                    &&& after == (AgentWizard {
                        worktree_rows: after.worktree_rows,
                        selected_row: if row == rows.len() - 1 {
                            (row - 1) as usize
                        } else {
                            row as usize
                        },
                        ..self
                    })
                } else {
                    after == self
                }
            } else {
                let held = rows[row];
                let next = after.worktree_rows@[row];
                &&& after.worktree_rows@ == rows.update(row, next)
                &&& after == (AgentWizard { worktree_rows: after.worktree_rows, ..self })
                &&& if held.branch_focus {
                    &&& next == (ReviewerWorktreeRow { branch_editor: next.branch_editor, ..held })
                    &&& area_state(held.branch_editor).typed(
                        key.input(),
                        area_state(next.branch_editor),
                    )
                } else {
                    &&& next == (ReviewerWorktreeRow { repo_editor: next.repo_editor, ..held })
                    &&& area_state(held.repo_editor).typed(
                        key.input(),
                        area_state(next.repo_editor),
                    )
                }
            },
        }
    }

    fn next_field(&mut self)
        requires
            old(self).wf(),
        ensures
            final(self).wf(),
            old(self).after_field(*final(self)),
    {
        let row = self.selected_row;
        assert(row < self.worktree_rows.len());
        if !self.worktree_rows[row].branch_focus {
            self.worktree_rows[row].branch_focus = true;
        } else if row + 1 < self.worktree_rows.len() {
            self.worktree_rows[row].branch_focus = false;
            self.selected_row = row + 1;
        } else {
            let step = self.kind.step_after_worktrees();
            self.go_to_step(step);
        }
    }

    fn previous_field(&mut self)
        requires
            old(self).wf(),
        ensures
            final(self).wf(),
            old(self).before_field(*final(self)),
    {
        let row = self.selected_row;
        if self.worktree_rows[row].branch_focus {
            self.worktree_rows[row].branch_focus = false;
        } else if row > 0 {
            self.selected_row = row - 1;
            self.worktree_rows[row - 1].branch_focus = true;
        }
    }

    fn add_row(&mut self)
        requires
            old(self).wf(),
        ensures
            final(self).wf(),
            final(self).worktree_rows@.len() == old(self).worktree_rows@.len() + 1,
            final(self).worktree_rows@[old(self).selected_row + 1].is_blank(),
            final(self).worktree_rows@ == old(self).worktree_rows@.insert(
                old(self).selected_row + 1,
                final(self).worktree_rows@[old(self).selected_row + 1],
            ),
            *final(self) == (AgentWizard {
                worktree_rows: final(self).worktree_rows,
                selected_row: (old(self).selected_row + 1) as usize,
                ..*old(self)
            }),
    {
        let row = ReviewerWorktreeRow::new();
        assert(self.selected_row < self.worktree_rows.len());
        self.worktree_rows.insert(self.selected_row + 1, row);
        self.selected_row += 1;
        assert forall|i: int| 0 <= i < self.worktree_rows@.len() implies (
        #[trigger] self.worktree_rows@[i]).wf() by {
            if i < self.selected_row {
                assert(self.worktree_rows@[i] == old(self).worktree_rows@[i]);
            } else if i > self.selected_row {
                assert(self.worktree_rows@[i] == old(self).worktree_rows@[i - 1]);
            }
        }
    }

    fn remove_row(&mut self)
        requires
            old(self).wf(),
        ensures
            final(self).wf(),
            if old(self).worktree_rows@.len() > 1 {
                &&& final(self).worktree_rows@ == old(self).worktree_rows@.remove(
                    old(self).selected_row as int,
                )
                &&& *final(self) == (AgentWizard {
                    worktree_rows: final(self).worktree_rows,
                    selected_row: if old(self).selected_row == old(self).worktree_rows@.len() - 1 {
                        (old(self).selected_row - 1) as usize
                    } else {
                        old(self).selected_row
                    },
                    ..*old(self)
                })
            } else {
                *final(self) == *old(self)
            },
    {
        if self.worktree_rows.len() > 1 {
            self.worktree_rows.remove(self.selected_row);
            if self.selected_row >= self.worktree_rows.len() {
                self.selected_row = self.worktree_rows.len() - 1;
            }
            assert forall|i: int| 0 <= i < self.worktree_rows@.len() implies (
            #[trigger] self.worktree_rows@[i]).wf() by {
                if i < old(self).selected_row {
                    assert(self.worktree_rows@[i] == old(self).worktree_rows@[i]);
                } else {
                    assert(self.worktree_rows@[i] == old(self).worktree_rows@[i + 1]);
                }
            }
        }
    }

    fn handle_rows_key(&mut self, key: KeyPress)
        requires
            old(self).wf(),
        ensures
            final(self).wf(),
            old(self).after_rows_key(key, *final(self)),
    {
        match key.code {
            KeyCode::Esc => {
                self.step = AgentWizardStep::Name;
            },
            KeyCode::Tab | KeyCode::Enter => self.next_field(),
            KeyCode::BackTab => self.previous_field(),
            _ => {
                if key.is_ctrl('a') {
                    self.add_row();
                } else if key.is_ctrl('d') {
                    self.remove_row();
                } else {
                    let row = self.selected_row;
                    if self.worktree_rows[row].branch_focus {
                        type_into(&mut self.worktree_rows[row].branch_editor, key.input());
                    } else {
                        type_into(&mut self.worktree_rows[row].repo_editor, key.input());
                    }
                }
            },
        }
    }

    /// A key that switches the browser on or off.
    pub open spec fn toggles(code: KeyCode) -> bool {
        ||| code == KeyCode::Char(' ')
        ||| code == KeyCode::Char('h') || code == KeyCode::Char('l')
        ||| code is Left || code is Right
    }

    /// The wizard after a key at the capabilities.
    pub open spec fn after_capabilities_key(self, key: KeyPress, harness: HarnessKind) -> AgentWizard {
        match key.code {
            KeyCode::Esc | KeyCode::BackTab => self.at_step(AgentWizardStep::Worktrees),
            KeyCode::Enter | KeyCode::Tab => self.at_step(AgentWizardStep::Description),
            _ => if AgentWizard::toggles(key.code) && harness.supports_browser() {
                AgentWizard { browser_capability: !self.browser_capability, ..self }
            } else {
                self
            },
        }
    }

    /// The wizard after a key at the description; escape in normal mode goes
    /// back a step.
    pub open spec fn after_description_key(
        self,
        key: KeyPress,
        clipboard: Option<Seq<char>>,
        after: AgentWizard,
    ) -> bool {
        &&& after == (AgentWizard {
            description_editor: after.description_editor,
            step: if key.input().key is Esc && !(self.description_editor.vim.mode is Insert) {
                self.kind.step_before_description()
            } else {
                self.step
            },
            ..self
        })
        &&& edited(self.description_editor, key, clipboard, after.description_editor)
    }

    /// The wizard after a key; every key takes an error away.
    pub open spec fn after_key(
        self,
        key: KeyPress,
        clipboard: Option<Seq<char>>,
        harness: HarnessKind,
        after: AgentWizard,
    ) -> bool {
        let cleared = AgentWizard { error_message: None, ..self };
        match self.step {
            AgentWizardStep::Kind => after == cleared.after_kind_key(key),
            AgentWizardStep::Name => cleared.after_name_key(key, after),
            AgentWizardStep::Worktrees => cleared.after_rows_key(key, after),
            AgentWizardStep::Capabilities => after == cleared.after_capabilities_key(key, harness),
            AgentWizardStep::Description => cleared.after_description_key(key, clipboard, after),
        }
    }

    /// What a key asks for: escape at the kind or at the name leaves the wizard.
    pub open spec fn outcome(
        self,
        key: KeyPress,
        clipboard: Option<Seq<char>>,
        after: AgentWizard,
    ) -> AgentOutcome<Seq<char>> {
        match self.step {
            AgentWizardStep::Kind | AgentWizardStep::Name => if key.code is Esc {
                AgentOutcome::Leave
            } else {
                AgentOutcome::Nothing
            },
            AgentWizardStep::Description => match copied_from(
                self.description_editor,
                key,
                clipboard,
                after.description_editor,
            ) {
                Some(text) => AgentOutcome::Copied(text),
                None => AgentOutcome::Nothing,
            },
            _ => AgentOutcome::Nothing,
        }
    }

    /// A key in the wizard.
    pub fn handle_key(&mut self, key: KeyPress, clipboard: Option<String>, harness: HarnessKind) -> (
        outcome: AgentOutcome<String>)
        requires
            old(self).wf(),
        ensures
            final(self).wf(),
            old(self).after_key(key, some_view(clipboard), harness, *final(self)),
            old(self).outcome(key, some_view(clipboard), *final(self)) == match outcome {
                AgentOutcome::Nothing => AgentOutcome::<Seq<char>>::Nothing,
                AgentOutcome::Leave => AgentOutcome::Leave,
                AgentOutcome::Copied(text) => AgentOutcome::Copied(text@),
            },
    {
        self.error_message = None;
        match self.step {
            AgentWizardStep::Kind => {
                match key.code {
                    KeyCode::Esc => {
                        return AgentOutcome::Leave;
                    },
                    KeyCode::Char('j') | KeyCode::Down | KeyCode::Char('l') | KeyCode::Right
                    | KeyCode::Tab => {
                        self.kind = self.kind.next();
                    },
                    KeyCode::Char('k') | KeyCode::Up | KeyCode::Char('h') | KeyCode::Left
                    | KeyCode::BackTab => {
                        self.kind = self.kind.previous();
                    },
                    KeyCode::Enter => {
                        self.step = AgentWizardStep::Name;
                    },
                    _ => {},
                }
                AgentOutcome::Nothing
            },
            AgentWizardStep::Name => {
                match key.code {
                    KeyCode::Esc => {
                        return AgentOutcome::Leave;
                    },
                    KeyCode::Enter => {
                        let step = self.kind.step_after_name();
                        self.go_to_step(step);
                    },
                    _ => type_into(&mut self.name_editor, key.input()),
                }
                AgentOutcome::Nothing
            },
            AgentWizardStep::Worktrees => {
                self.handle_rows_key(key);
                AgentOutcome::Nothing
            },
            AgentWizardStep::Capabilities => {
                match key.code {
                    KeyCode::Esc | KeyCode::BackTab => {
                        self.step = AgentWizardStep::Worktrees;
                    },
                    KeyCode::Enter | KeyCode::Tab => {
                        self.go_to_step(AgentWizardStep::Description);
                    },
                    KeyCode::Char(' ') | KeyCode::Char('h') | KeyCode::Char('l') | KeyCode::Left
                    | KeyCode::Right => {
                        if harness.supports_browser() {
                            self.browser_capability = !self.browser_capability;
                        }
                    },
                    _ => {},
                }
                AgentOutcome::Nothing
            },
            AgentWizardStep::Description => {
                let input = key.input();
                let was_insert = self.description_editor.mode() == VimMode::Insert;
                let copied = self.description_editor.input_with_clipboard(input, clipboard);
                let is_normal_now = self.description_editor.mode() == VimMode::Normal;
                if input.key == Key::Esc && !was_insert && is_normal_now {
                    self.step = self.kind.step_before_description();
                }
                match copied {
                    Some(text) => AgentOutcome::Copied(text),
                    None => AgentOutcome::Nothing,
                }
            },
        }
    }

    /// Nothing is entered yet.
    pub open spec fn is_blank(self) -> bool {
        &&& self.kind is Researcher
        &&& self.step is Kind
        &&& area_state(self.name_editor) == fresh_state(Seq::empty())
        &&& self.description_editor.area() == fresh_state(Seq::empty())
        &&& self.description_editor.vim == fresh_vim(VimMode::Normal, false)
        &&& self.worktree_rows@.len() == 1
        &&& self.worktree_rows@[0].is_blank()
        &&& self.selected_row == 0
        &&& !self.browser_capability
        &&& self.error_message is None
    }

    /// The wizard for an agent of a project.
    pub fn start(project: String) -> (wizard: AgentWizard)
        ensures
            wizard.wf(),
            wizard.is_blank(),
            wizard.project == project,
    {
        let mut worktree_rows: Vec<ReviewerWorktreeRow> = Vec::new();
        worktree_rows.push(ReviewerWorktreeRow::new());
        AgentWizard {
            kind: AgentWizardKind::Researcher,
            step: AgentWizardStep::Kind,
            name_editor: plain_editor(),
            description_editor: VimTextArea::new(),
            worktree_rows,
            selected_row: 0,
            browser_capability: false,
            error_message: None,
            project,
        }
    }
}

/// The last row can never be removed.
pub proof fn a_row_always_remains(before: AgentWizard, key: KeyPress, after: AgentWizard)
    requires
        before.wf(),
        before.after_rows_key(key, after),
        after.wf(),
    ensures
        after.worktree_rows@.len() >= 1,
        after.selected_row < after.worktree_rows@.len(),
{
}

/// What is submitted names the agent, and names each repository and branch of
/// an agent that works in worktrees.
pub proof fn submitted_plans_are_complete(wizard: AgentWizard)
    requires
        wizard.problem() is None,
    ensures
        wizard.plan().name.len() > 0,
        wizard.kind.needs_worktrees() ==> wizard.plan().branches.len() > 0,
        forall|i: int|
            0 <= i < wizard.plan().branches.len() ==> (
            #[trigger] wizard.plan().branches[i]).0.len() > 0
                && wizard.plan().branches[i].1.len() > 0,
{
    if wizard.kind.needs_worktrees() {
        filled_rows_are_filled(wizard.worktree_rows@);
    }
}

proof fn filled_rows_are_filled(rows: Seq<ReviewerWorktreeRow>)
    requires
        !some_half_filled(rows),
    ensures
        forall|i: int|
            0 <= i < filled_rows(rows).len() ==> (#[trigger] filled_rows(rows)[i]).0.len() > 0
                && filled_rows(rows)[i].1.len() > 0,
    decreases rows.len(),
{
    if rows.len() > 0 {
        let rest = rows.drop_last();
        assert(!some_half_filled(rest)) by {
            if some_half_filled(rest) {
                let i = choose|i: int| 0 <= i < rest.len() && is_half_filled(#[trigger] rest[i]);
                assert(is_half_filled(rows[i]));
            }
        }
        filled_rows_are_filled(rest);
        assert(!is_half_filled(rows[rows.len() - 1]));
        let before = filled_rows(rest);
        let all = filled_rows(rows);
        assert forall|i: int| 0 <= i < all.len() implies (#[trigger] all[i]).0.len() > 0
            && all[i].1.len() > 0 by {
            if i < before.len() {
                assert(all[i] == before[i]);
            }
        }
    }
}

/// What is wrong with what was entered is exactly this: there is no name, or the
/// agent reviews or tests and has a row with only one of repository and branch,
/// or no row with both.
pub proof fn agents_need_a_name_and_worktrees(wizard: AgentWizard)
    ensures
        ({
            let name = trimmed(line_text(wizard.name_editor));
            let works_in = wizard.kind is Reviewer || wizard.kind is Tester;
            let rows = wizard.worktree_rows@;
            let half = exists|i: int|
                0 <= i < rows.len() && (trimmed(line_text((#[trigger] rows[i]).repo_editor)).len()
                    == 0) != (trimmed(line_text(rows[i].branch_editor)).len() == 0);
            let full = exists|i: int|
                0 <= i < rows.len() && trimmed(line_text((#[trigger] rows[i]).repo_editor)).len()
                    > 0 && trimmed(line_text(rows[i].branch_editor)).len() > 0;
            &&& wizard.problem() is None <==> name.len() > 0 && (works_in ==> !half && full)
            &&& name.len() == 0 ==> (wizard.problem() matches Some(problem) && problem.1 is Name)
            &&& name.len() > 0 && works_in && (half || !full) ==> (wizard.problem() matches Some(
                problem,
            ) && problem.1 is Worktrees)
        }),
{
    let rows = wizard.worktree_rows@;
    if some_half_filled(rows) {
        let i = choose|i: int| 0 <= i < rows.len() && is_half_filled(#[trigger] rows[i]);
        assert((trimmed(line_text(rows[i].repo_editor)).len() == 0) != (trimmed(
            line_text(rows[i].branch_editor),
        ).len() == 0));
    } else {
        assert forall|i: int| 0 <= i < rows.len() implies !is_half_filled(#[trigger] rows[i]) by {}
        rows_are_filled_where_some_row_is(rows);
    }
}

proof fn rows_are_filled_where_some_row_is(rows: Seq<ReviewerWorktreeRow>)
    requires
        !some_half_filled(rows),
    ensures
        filled_rows(rows).len() > 0 <==> exists|i: int|
            0 <= i < rows.len() && trimmed(line_text((#[trigger] rows[i]).repo_editor)).len() > 0
                && trimmed(line_text(rows[i].branch_editor)).len() > 0,
    decreases rows.len(),
{
    if rows.len() > 0 {
        let rest = rows.drop_last();
        assert(!some_half_filled(rest)) by {
            if some_half_filled(rest) {
                let i = choose|i: int| 0 <= i < rest.len() && is_half_filled(#[trigger] rest[i]);
                assert(is_half_filled(rows[i]));
            }
        }
        rows_are_filled_where_some_row_is(rest);
        assert(!is_half_filled(rows[rows.len() - 1]));
        if filled_rows(rest).len() > 0 {
            let i = choose|i: int|
                0 <= i < rest.len() && trimmed(line_text((#[trigger] rest[i]).repo_editor)).len()
                    > 0 && trimmed(line_text(rest[i].branch_editor)).len() > 0;
            assert(rows[i] == rest[i]);
        }
        if exists|i: int|
            0 <= i < rows.len() && trimmed(line_text((#[trigger] rows[i]).repo_editor)).len() > 0
                && trimmed(line_text(rows[i].branch_editor)).len() > 0 {
            let i = choose|i: int|
                0 <= i < rows.len() && trimmed(line_text((#[trigger] rows[i]).repo_editor)).len()
                    > 0 && trimmed(line_text(rows[i].branch_editor)).len() > 0;
            if i < rest.len() {
                assert(rest[i] == rows[i]);
            }
        }
    }
}

/// The agent that is created is what was entered: its kind, the project, the
/// name and the description without the white space around them, every row that
/// is filled, and the browser for a tester only.
pub proof fn the_plan_holds_what_was_entered(wizard: AgentWizard, i: int)
    ensures
        ({
            let plan = wizard.plan();
            &&& plan.kind == wizard.kind
            &&& plan.project == wizard.project@
            &&& plan.name == trimmed(line_text(wizard.name_editor))
            &&& plan.description == trimmed(
                join_with(wizard.description_editor.area().lines, '\n'),
            )
            &&& wizard.kind is Tester ==> plan.browser == wizard.browser_capability
            &&& !(wizard.kind is Tester) ==> !plan.browser
            &&& wizard.kind is Researcher || wizard.kind is Operator ==> plan.branches.len() == 0
        }),
        (wizard.kind is Tester || wizard.kind is Reviewer) && 0 <= i < wizard.worktree_rows@.len()
            && trimmed(line_text(wizard.worktree_rows@[i].repo_editor)).len() > 0
            ==> wizard.plan().branches.contains(
            (
                trimmed(line_text(wizard.worktree_rows@[i].repo_editor)),
                trimmed(line_text(wizard.worktree_rows@[i].branch_editor)),
            ),
        ),
{
    let rows = wizard.worktree_rows@;
    if 0 <= i < rows.len() && trimmed(line_text(rows[i].repo_editor)).len() > 0 {
        filled_rows_are_listed(rows, i);
    }
}

proof fn filled_rows_are_listed(rows: Seq<ReviewerWorktreeRow>, i: int)
    requires
        0 <= i < rows.len(),
        rows[i].spec_repo().len() > 0,
    ensures
        filled_rows(rows).contains((rows[i].spec_repo(), rows[i].spec_branch())),
    decreases rows.len(),
{
    let rest = rows.drop_last();
    let before = filled_rows(rest);
    let after = filled_rows(rows);
    let pair = (rows[i].spec_repo(), rows[i].spec_branch());
    if i < rest.len() {
        assert(rest[i] == rows[i]);
        filled_rows_are_listed(rest, i);
        let k = choose|k: int| 0 <= k < before.len() && before[k] == pair;
        assert(after[k] == pair);
    } else {
        assert(after[after.len() - 1] == pair);
    }
}

/// The steps for a new agent: the kind, the name, for one that reviews or tests
/// the worktrees, for one that tests the capabilities, and the description.
pub proof fn steps_follow_the_kind(
    before: AgentWizard,
    key: KeyPress,
    clipboard: Option<Seq<char>>,
    harness: HarnessKind,
    after: AgentWizard,
)
    requires
        before.wf(),
        !key.ctrl,
        !key.released,
        before.after_key(key, clipboard, harness, after),
    ensures
        ({
            let kind = before.kind;
            let works_in = kind is Reviewer || kind is Tester;
            let enter = key.code is Enter;
            &&& before.step is Kind && enter ==> after.step is Name
            &&& before.step is Name && enter && works_in ==> after.step is Worktrees
            &&& before.step is Name && enter && !works_in ==> after.step is Description
            &&& before.step is Worktrees && key.code is Esc ==> after.step is Name
            &&& before.step is Capabilities && enter ==> after.step is Description
            &&& before.step is Capabilities && key.code is Esc ==> after.step is Worktrees
            &&& before.step is Description && key.code is Esc
                && before.description_editor.vim.mode is Normal ==> after.step == (match kind {
                AgentWizardKind::Researcher | AgentWizardKind::Operator => AgentWizardStep::Name,
                AgentWizardKind::Reviewer => AgentWizardStep::Worktrees,
                AgentWizardKind::Tester => AgentWizardStep::Capabilities,
            })
            &&& before.step is Worktrees && enter && before.selected_row + 1
                == before.worktree_rows@.len()
                && before.worktree_rows@[before.selected_row as int].branch_focus ==> after.step
                == (if kind is Tester {
                AgentWizardStep::Capabilities
            } else {
                AgentWizardStep::Description
            })
            &&& !(before.step is Description) && after.step is Description
                ==> after.description_editor.vim.mode is Insert
            &&& after.error_message is None
        }),
{
}

/// At the choice of the kind, the keys go through the kinds in their order, and
/// at no other step does the kind change.
pub proof fn kinds_are_gone_through(
    before: AgentWizard,
    key: KeyPress,
    clipboard: Option<Seq<char>>,
    harness: HarnessKind,
    after: AgentWizard,
)
    requires
        before.after_key(key, clipboard, harness, after),
    ensures
        !(before.step is Kind) ==> after.kind == before.kind,
        before.step is Kind && (key.code is Down || key.code == KeyCode::Char('j') || key.code
            is Tab) ==> after.kind == (match before.kind {
            AgentWizardKind::Researcher => AgentWizardKind::Reviewer,
            AgentWizardKind::Reviewer => AgentWizardKind::Tester,
            AgentWizardKind::Tester => AgentWizardKind::Operator,
            AgentWizardKind::Operator => AgentWizardKind::Researcher,
        }),
        before.step is Kind && (key.code is Up || key.code == KeyCode::Char('k') || key.code
            is BackTab) ==> before.kind == (match after.kind {
            AgentWizardKind::Researcher => AgentWizardKind::Reviewer,
            AgentWizardKind::Reviewer => AgentWizardKind::Tester,
            AgentWizardKind::Tester => AgentWizardKind::Operator,
            AgentWizardKind::Operator => AgentWizardKind::Researcher,
        }),
{
}

/// At the worktrees, enter and tab go from the repository to the branch and on to
/// the next row, Ctrl-A puts a blank row behind the selected one, and Ctrl-D
/// takes the selected one out unless it is the only one. What is typed goes into
/// the field that has the focus.
pub proof fn rows_are_edited_where_the_focus_is(
    before: AgentWizard,
    key: KeyPress,
    clipboard: Option<Seq<char>>,
    harness: HarnessKind,
    after: AgentWizard,
    k: int,
)
    requires
        before.wf(),
        before.step is Worktrees,
        before.worktree_rows@.len() < usize::MAX,
        before.after_key(key, clipboard, harness, after),
        0 <= k < before.worktree_rows@.len(),
    ensures
        ({
            let i = before.selected_row as int;
            let rows = before.worktree_rows@;
            let next = after.worktree_rows@;
            let on = key.code is Enter || key.code is Tab;
            let adds = key.ctrl && key.code == KeyCode::Char('a');
            let removes = key.ctrl && key.code == KeyCode::Char('d');
            let types = key.code is Char && !key.ctrl;
            &&& on && !rows[i].branch_focus ==> next[i].branch_focus && after.selected_row == i
            &&& on && rows[i].branch_focus && i + 1 < rows.len() ==> after.selected_row == i + 1
            &&& adds ==> next.len() == rows.len() + 1 && after.selected_row == i + 1 && next[i
                + 1].is_blank() && next[if k <= i {
                k
            } else {
                k + 1
            }] == rows[k]
            &&& removes && rows.len() > 1 ==> next == rows.remove(i)
            &&& removes && rows.len() == 1 ==> next == rows
            &&& types && k != i ==> next[k] == rows[k]
            &&& types && rows[i].branch_focus ==> next[i].repo_editor == rows[i].repo_editor
                && area_state(rows[i].branch_editor).typed(
                key.input(),
                area_state(next[i].branch_editor),
            )
            &&& types && !rows[i].branch_focus ==> next[i].branch_editor == rows[i].branch_editor
                && area_state(rows[i].repo_editor).typed(
                key.input(),
                area_state(next[i].repo_editor),
            )
        }),
{
    let i = before.selected_row as int;
    assert(before.worktree_rows.len() == before.worktree_rows@.len());
}

/// The browser is switched at the capabilities, where the harness has one.
pub proof fn the_browser_is_switched(
    before: AgentWizard,
    key: KeyPress,
    clipboard: Option<Seq<char>>,
    harness: HarnessKind,
    after: AgentWizard,
)
    requires
        before.after_key(key, clipboard, harness, after),
    ensures
        before.step is Capabilities && key.code == KeyCode::Char(' ') && (harness is Claude
            || harness is Codex) ==> after.browser_capability != before.browser_capability,
        harness is Goose || harness is Pi ==> after.browser_capability
            == before.browser_capability,
        !(before.step is Capabilities) ==> after.browser_capability == before.browser_capability,
{
}

/// Back-tab goes back through the fields as tab goes on through them, and stays
/// at the first one.
pub proof fn fields_are_gone_back_through(
    before: AgentWizard,
    key: KeyPress,
    clipboard: Option<Seq<char>>,
    harness: HarnessKind,
    after: AgentWizard,
)
    requires
        before.wf(),
        before.step is Worktrees,
        key.code is BackTab,
        before.after_key(key, clipboard, harness, after),
    ensures
        ({
            let i = before.selected_row as int;
            let rows = before.worktree_rows@;
            let next = after.worktree_rows@;
            &&& rows[i].branch_focus ==> after.selected_row == i && !next[i].branch_focus
            &&& !rows[i].branch_focus && i > 0 ==> after.selected_row == i - 1 && next[i
                - 1].branch_focus
            &&& !rows[i].branch_focus && i == 0 ==> after.selected_row == 0 && !next[0].branch_focus
            &&& next.len() == rows.len()
            &&& forall|k: int|
                0 <= k < rows.len() ==> (#[trigger] next[k]).repo_editor == rows[k].repo_editor
                    && next[k].branch_editor == rows[k].branch_editor
            &&& after.step is Worktrees
        }),
{
}

/// Going on from the branch of a row leaves its focus at the repository, so that
/// the row is entered at its start when it is come back to.
pub proof fn a_row_is_left_at_its_start(
    before: AgentWizard,
    key: KeyPress,
    clipboard: Option<Seq<char>>,
    harness: HarnessKind,
    after: AgentWizard,
)
    requires
        before.wf(),
        before.step is Worktrees,
        key.code is Tab || key.code is Enter,
        before.worktree_rows@[before.selected_row as int].branch_focus,
        before.after_key(key, clipboard, harness, after),
    ensures
        before.selected_row + 1 < before.worktree_rows@.len()
            ==> !after.worktree_rows@[before.selected_row as int].branch_focus && after.step
            is Worktrees,
        before.selected_row + 1 == before.worktree_rows@.len() ==> !(after.step is Worktrees),
{
}

/// The keys that switch the browser are the space and those for left and right;
/// no other does.
pub proof fn these_keys_switch_the_browser(
    before: AgentWizard,
    key: KeyPress,
    clipboard: Option<Seq<char>>,
    harness: HarnessKind,
    after: AgentWizard,
)
    requires
        before.step is Capabilities,
        harness is Claude || harness is Codex,
        before.after_key(key, clipboard, harness, after),
    ensures
        (after.browser_capability != before.browser_capability) <==> (key.code == KeyCode::Char(' ')
            || key.code == KeyCode::Char('h') || key.code == KeyCode::Char('l') || key.code is Left
            || key.code is Right),
{
}

/// A new wizard starts with the kind, nothing entered, one empty row and no
/// browser; its description is not typed into yet.
pub proof fn a_new_wizard_is_empty(wizard: AgentWizard)
    requires
        wizard.is_blank(),
    ensures
        wizard.step is Kind && wizard.kind is Researcher,
        line_text(wizard.name_editor).len() == 0,
        wizard.description_editor.vim.mode is Normal && !wizard.description_editor.vim.read_only,
        wizard.worktree_rows@.len() == 1 && wizard.selected_row == 0,
        !wizard.browser_capability && wizard.error_message is None,
        wizard.problem() is Some,
{
    let lines = crate::textarea::area_lines(wizard.name_editor);
    crate::wizard::one_line_is_its_text(Seq::empty(), Seq::empty());
    if lines.len() == 1 {
        assert(lines =~= seq![Seq::<char>::empty()]);
    } else {
        assert(lines =~= Seq::empty());
    }
}

} // verus!
