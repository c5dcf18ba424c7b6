//! The steps of the wizard for a new task.

use crate::keys::{KeyCode, KeyPress};
use crate::model::{is_unassigned, unassigned, Task};
use crate::picker::{parent_of, parent_path, paths_equal, same_path};
use crate::select::{
    next_round, previous_round, steps_go_to_the_neighbour, wrap_next, wrap_previous,
};
use crate::text::{
    concat, contains_text, ends_with, has_prefix, has_suffix, has_text, join_with, occurs_at,
    starts_with, trim, trimmed,
};
use crate::textarea::{area_state, fresh_state, insert_str, text_pieces, type_into, Key};
use crate::vim::{fresh_vim, step, VimMode, VimTextArea};
use crate::wizard::{line_text, plain_editor, trimmed_line, BranchSource, NewTaskWizard, WizardStep};
use vstd::prelude::*;

verus! {

/// Where the code of a new task comes from.
pub enum WorktreeSource<T> {
    ExistingWorktree(T),
    NewBranch { base_branch: Option<T> },
    ExistingBranch,
}

/// A task to be created.
pub struct TaskRequest<T> {
    pub name: T,
    pub branch: T,
    pub description: T,
    pub source: WorktreeSource<T>,
    pub repo_path: T,
    pub multi_repo: bool,
    /// Set where the repository is not in the directory of repositories.
    pub parent_dir: Option<T>,
    pub project: Option<T>,
}

pub open spec fn some_view(text: Option<String>) -> Option<Seq<char>> {
    match text {
        Some(t) => Some(t@),
        None => None,
    }
}

pub open spec fn source_view(source: WorktreeSource<String>) -> WorktreeSource<Seq<char>> {
    match source {
        WorktreeSource::ExistingWorktree(path) => WorktreeSource::ExistingWorktree(path@),
        WorktreeSource::NewBranch { base_branch } => WorktreeSource::NewBranch {
            base_branch: some_view(base_branch),
        },
        WorktreeSource::ExistingBranch => WorktreeSource::ExistingBranch,
    }
}

pub open spec fn request_view(request: TaskRequest<String>) -> TaskRequest<Seq<char>> {
    TaskRequest {
        name: request.name@,
        branch: request.branch@,
        description: request.description@,
        source: source_view(request.source),
        repo_path: request.repo_path@,
        multi_repo: request.multi_repo,
        parent_dir: some_view(request.parent_dir),
        project: some_view(request.project),
    }
}

/// What a key does in the wizard.
pub enum WizardOutcome<T> {
    Nothing,
    /// Back to the choice of the repository.
    PickRepo,
    /// Find out whether there is a task of this branch.
    CheckBranch(T),
    /// Create the task.
    Create,
    /// Text that was yanked.
    Copied(T),
}

pub open spec fn outcome_view(outcome: WizardOutcome<String>) -> WizardOutcome<Seq<char>> {
    match outcome {
        WizardOutcome::Nothing => WizardOutcome::Nothing,
        WizardOutcome::PickRepo => WizardOutcome::PickRepo,
        WizardOutcome::CheckBranch(branch) => WizardOutcome::CheckBranch(branch@),
        WizardOutcome::Create => WizardOutcome::Create,
        WizardOutcome::Copied(text) => WizardOutcome::Copied(text@),
    }
}

/// A name that git would not take for a branch.
pub open spec fn is_bad_branch(name: Seq<char>) -> bool {
    has_text(name, " "@) || has_text(name, ".."@) || has_prefix(name, "/"@) || has_suffix(
        name,
        "/"@,
    )
}

impl NewTaskWizard {
    /// The branch that was chosen, or what is wrong with the choice.
    pub open spec fn chosen_branch(self) -> Result<Seq<char>, Seq<char>> {
        match self.branch_source {
            BranchSource::NewBranch => {
                let name = trimmed(line_text(self.new_branch_editor));
                if name.len() == 0 {
                    Err("Branch name cannot be empty"@)
                } else if is_bad_branch(name) {
                    Err("Invalid branch name format"@)
                } else {
                    Ok(name)
                }
            },
            BranchSource::ExistingBranch => if self.existing_branches@.len() == 0 {
                Err("No existing branches available"@)
            } else {
                Ok(self.existing_branches@[self.selected_branch_index as int]@)
            },
            BranchSource::ExistingWorktree => if self.existing_worktrees@.len() == 0 {
                Err("No existing worktrees without tasks"@)
            } else {
                Ok(self.existing_worktrees@[self.selected_worktree_index as int].0@)
            },
        }
    }

    /// The branch that was chosen, or what is wrong with the choice.
    pub fn choose_branch(&self) -> (branch: Result<String, String>)
        requires
            self.wf(),
        ensures
            self.chosen_branch() == match branch {
                Ok(b) => Ok(b@),
                Err(e) => Err(e@),
            },
    {
        match self.branch_source {
            BranchSource::NewBranch => {
                let name = trimmed_line(&self.new_branch_editor);
                if name.as_str().is_empty() {
                    return Err("Branch name cannot be empty".to_owned());
                }
                if contains_text(name.as_str(), " ") || contains_text(name.as_str(), "..")
                    || starts_with(name.as_str(), "/") || ends_with(name.as_str(), "/") {
                    return Err("Invalid branch name format".to_owned());
                }
                Ok(name)
            },
            BranchSource::ExistingBranch => {
                if self.existing_branches.len() == 0 {
                    return Err("No existing branches available".to_owned());
                }
                Ok(self.existing_branches[self.selected_branch_index].clone())
            },
            BranchSource::ExistingWorktree => {
                if self.existing_worktrees.len() == 0 {
                    return Err("No existing worktrees without tasks".to_owned());
                }
                Ok(self.existing_worktrees[self.selected_worktree_index].0.clone())
            },
        }
    }

    /// The wizard with an error in place of the one it had.
    pub open spec fn with_error(self, before: NewTaskWizard, message: Option<Seq<char>>) -> bool {
        &&& self == (NewTaskWizard { error_message: self.error_message, ..before })
        &&& some_view(self.error_message) == message
    }

    /// What going on from the choice of a branch asks for.
    pub open spec fn branch_outcome(self) -> WizardOutcome<Seq<char>> {
        match self.chosen_branch() {
            Ok(branch) => WizardOutcome::CheckBranch(branch),
            Err(_) => WizardOutcome::Nothing,
        }
    }

    /// What is wrong, if anything, after going on from the choice of a branch.
    pub open spec fn branch_error(self) -> Option<Seq<char>> {
        match self.chosen_branch() {
            Ok(_) => None,
            Err(message) => Some(message),
        }
    }

    /// Whether the description that was entered is enough.
    pub open spec fn lacks_description(self) -> bool {
        self.is_multi_repo && trimmed(join_with(self.description_editor.area().lines, '\n')).len()
            == 0
    }

    /// Goes on to the next step, as far as what was entered allows.
    pub fn wizard_next_step(&mut self) -> (outcome: WizardOutcome<String>)
        requires
            old(self).wf(),
        ensures
            final(self).wf(),
            match old(self).step {
                WizardStep::SelectBranch => {
                    &&& final(self).with_error(*old(self), old(self).branch_error())
                    &&& outcome_view(outcome) == old(self).branch_outcome()
                },
                WizardStep::EnterDescription => if old(self).lacks_description() {
                    &&& final(self).with_error(
                        *old(self),
                        Some("Multi-repo tasks require a description"@),
                    )
                    &&& outcome is Nothing
                } else {
                    &&& final(self).with_error(*old(self), None)
                    &&& outcome is Create
                },
            },
    {
        self.error_message = None;
        match self.step {
            WizardStep::SelectBranch => match self.choose_branch() {
                Ok(branch) => WizardOutcome::CheckBranch(branch),
                Err(message) => {
                    self.error_message = Some(message);
                    WizardOutcome::Nothing
                },
            },
            WizardStep::EnterDescription => {
                let description = trim(self.description_editor.lines_joined().as_str());
                if description.as_str().is_empty() && self.is_multi_repo {
                    self.error_message = Some("Multi-repo tasks require a description".to_owned());
                    WizardOutcome::Nothing
                } else {
                    WizardOutcome::Create
                }
            },
        }
    }

    /// It was found out whether there is a task of the chosen branch: if there
    /// is none, the description comes next.
    pub fn branch_checked(&mut self, branch: &str, taken: bool)
        requires
            old(self).wf(),
            old(self).has_choice(),
        ensures
            final(self).wf(),
            if taken {
                final(self).with_error(
                    *old(self),
                    Some(
                        "Task '"@ + old(self).selected_repo@ + "--"@ + branch@
                            + "' already exists"@,
                    ),
                )
            } else {
                *final(self) == (NewTaskWizard { step: WizardStep::EnterDescription, ..*old(self) })
            },
    {
        if taken {
            let mut message = concat("Task '", self.selected_repo.as_str());
            message.append("--");
            message.append(branch);
            message.append("' already exists");
            self.error_message = Some(message);
        } else {
            self.step = WizardStep::EnterDescription;
        }
    }

    /// Goes back a step; from the first one to the choice of the repository.
    pub fn wizard_prev_step(&mut self) -> (outcome: WizardOutcome<String>)
        requires
            old(self).wf(),
        ensures
            final(self).wf(),
            *final(self) == (NewTaskWizard {
                error_message: None,
                step: WizardStep::SelectBranch,
                ..*old(self)
            }),
            outcome is PickRepo <==> old(self).step is SelectBranch,
            outcome is PickRepo || outcome is Nothing,
    {
        self.error_message = None;
        match self.step {
            WizardStep::SelectBranch => WizardOutcome::PickRepo,
            WizardStep::EnterDescription => {
                self.step = WizardStep::SelectBranch;
                WizardOutcome::Nothing
            },
        }
    }

    /// A key that switches between the two fields of a new branch.
    pub open spec fn switches_field(key: KeyPress) -> bool {
        key.is_ctrl('b') || key.code is Up || key.code is Down
    }

    /// The wizard after a key in the choice of a branch, other than those that
    /// leave it.
    pub open spec fn after_branch_key(self, key: KeyPress, after: NewTaskWizard) -> bool {
        let cleared = NewTaskWizard { error_message: None, ..self };
        match key.code {
            KeyCode::Tab => after == if self.is_multi_repo {
                cleared
            } else {
                NewTaskWizard { branch_source: self.branch_source.next(), ..cleared }
            },
            KeyCode::BackTab => after == if self.is_multi_repo {
                cleared
            } else {
                NewTaskWizard { branch_source: self.branch_source.previous(), ..cleared }
            },
            _ => match self.branch_source {
                BranchSource::NewBranch => if NewTaskWizard::switches_field(key) {
                    after == (NewTaskWizard {
                        base_branch_focus: !self.base_branch_focus,
                        ..cleared
                    })
                } else if self.base_branch_focus {
                    &&& after == (NewTaskWizard {
                        base_branch_editor: after.base_branch_editor,
                        ..cleared
                    })
                    &&& area_state(self.base_branch_editor).typed(
                        key.input(),
                        area_state(after.base_branch_editor),
                    )
                } else {
                    &&& after == (NewTaskWizard {
                        new_branch_editor: after.new_branch_editor,
                        ..cleared
                    })
                    &&& area_state(self.new_branch_editor).typed(
                        key.input(),
                        area_state(after.new_branch_editor),
                    )
                },
                BranchSource::ExistingBranch => {
                    let total = self.existing_branches@.len() as int;
                    let i = self.selected_branch_index as int;
                    after == (NewTaskWizard {
                        selected_branch_index: match key.code {
                            KeyCode::Char('j') | KeyCode::Down => next_round(i, total) as usize,
                            KeyCode::Char('k') | KeyCode::Up => previous_round(
                                i,
                                total,
                            ) as usize,
                            _ => self.selected_branch_index,
                        },
                        ..cleared
                    })
                },
                BranchSource::ExistingWorktree => {
                    let total = self.existing_worktrees@.len() as int;
                    let i = self.selected_worktree_index as int;
                    after == (NewTaskWizard {
                        selected_worktree_index: match key.code {
                            KeyCode::Char('j') | KeyCode::Down => next_round(i, total) as usize,
                            KeyCode::Char('k') | KeyCode::Up => previous_round(
                                i,
                                total,
                            ) as usize,
                            _ => self.selected_worktree_index,
                        },
                        ..cleared
                    })
                },
            },
        }
    }

    fn handle_branch_key(&mut self, key: KeyPress)
        requires
            old(self).wf(),
            old(self).step is SelectBranch,
        ensures
            final(self).wf(),
            old(self).after_branch_key(key, *final(self)),
    {
        self.error_message = None;
        match key.code {
            KeyCode::Tab => {
                if !self.is_multi_repo {
                    self.branch_source = self.branch_source.next();
                }
            },
            KeyCode::BackTab => {
                if !self.is_multi_repo {
                    self.branch_source = self.branch_source.previous();
                }
            },
            _ => match self.branch_source {
                BranchSource::NewBranch => {
                    if key.is_ctrl('b') || matches!(key.code, KeyCode::Up | KeyCode::Down) {
                        self.base_branch_focus = !self.base_branch_focus;
                    } else if self.base_branch_focus {
                        type_into(&mut self.base_branch_editor, key.input());
                    } else {
                        type_into(&mut self.new_branch_editor, key.input());
                    }
                },
                BranchSource::ExistingBranch => {
                    let total = self.existing_branches.len();
                    proof {
                        if total > 0 {
                            crate::select::round_and_back(
                                self.selected_branch_index as int,
                                total as int,
                            );
                        }
                    }
                    match key.code {
                        KeyCode::Char('j') | KeyCode::Down => {
                            self.selected_branch_index = wrap_next(
                                self.selected_branch_index,
                                total,
                            );
                        },
                        KeyCode::Char('k') | KeyCode::Up => {
                            self.selected_branch_index = wrap_previous(
                                self.selected_branch_index,
                                total,
                            );
                        },
                        _ => {},
                    }
                },
                BranchSource::ExistingWorktree => {
                    let total = self.existing_worktrees.len();
                    proof {
                        if total > 0 {
                            crate::select::round_and_back(
                                self.selected_worktree_index as int,
                                total as int,
                            );
                        }
                    }
                    match key.code {
                        KeyCode::Char('j') | KeyCode::Down => {
                            self.selected_worktree_index = wrap_next(
                                self.selected_worktree_index,
                                total,
                            );
                        },
                        KeyCode::Char('k') | KeyCode::Up => {
                            self.selected_worktree_index = wrap_previous(
                                self.selected_worktree_index,
                                total,
                            );
                        },
                        _ => {},
                    }
                },
            },
        }
    }

    /// A key in the description that leaves it: escape in normal mode.
    pub open spec fn leaves_description(self, key: KeyPress) -> bool {
        key.input().key is Esc && !(self.description_editor.vim.mode is Insert)
    }

    /// The wizard after a key in the description, but for those that submit.
    pub open spec fn after_description_key(
        self,
        key: KeyPress,
        clipboard: Option<Seq<char>>,
        after: NewTaskWizard,
    ) -> bool {
        &&& after == (NewTaskWizard {
            error_message: None,
            step: if self.leaves_description(key) {
                WizardStep::SelectBranch
            } else {
                self.step
            },
            description_editor: after.description_editor,
            ..self
        })
        &&& edited(self.description_editor, key, clipboard, after.description_editor)
    }

    fn handle_description_key(&mut self, key: KeyPress, clipboard: Option<String>) -> (outcome:
        WizardOutcome<String>)
        requires
            old(self).wf(),
            old(self).step is EnterDescription,
        ensures
            final(self).wf(),
            old(self).after_description_key(key, some_view(clipboard), *final(self)),
            copied_from(
                old(self).description_editor,
                key,
                some_view(clipboard),
                final(self).description_editor,
            ) == match outcome {
                WizardOutcome::Copied(text) => Some(text@),
                _ => None,
            },
            outcome is Nothing || outcome is Copied,
    {
        self.error_message = None;
        let input = key.input();
        let was_insert = self.description_editor.mode() == VimMode::Insert;
        let copied = self.description_editor.input_with_clipboard(input, clipboard);
        let is_normal_now = self.description_editor.mode() == VimMode::Normal;
        if input.key == Key::Esc && !was_insert && is_normal_now {
            self.step = WizardStep::SelectBranch;
        }
        match copied {
            Some(text) => WizardOutcome::Copied(text),
            None => WizardOutcome::Nothing,
        }
    }

    /// The wizard after a key.
    pub open spec fn after_key(
        self,
        key: KeyPress,
        clipboard: Option<Seq<char>>,
        after: NewTaskWizard,
    ) -> bool {
        match self.step {
            WizardStep::SelectBranch => match key.code {
                KeyCode::Esc => after == (NewTaskWizard { error_message: None, ..self }),
                KeyCode::Enter => after.with_error(self, self.branch_error()),
                _ => self.after_branch_key(key, after),
            },
            WizardStep::EnterDescription => if key.is_ctrl('s') {
                &&& after == (NewTaskWizard {
                    error_message: after.error_message,
                    description_editor: after.description_editor,
                    ..self
                })
                &&& after.description_editor.area() == self.description_editor.area().deselected()
                &&& after.description_editor.vim == (crate::vim::Vim {
                    mode: VimMode::Normal,
                    ..self.description_editor.vim
                })
                &&& some_view(after.error_message) == if self.lacks_description() {
                    Some("Multi-repo tasks require a description"@)
                } else {
                    None
                }
            } else {
                self.after_description_key(key, clipboard, after)
            },
        }
    }

    /// What a key asks for.
    pub open spec fn outcome(
        self,
        key: KeyPress,
        clipboard: Option<Seq<char>>,
        after: NewTaskWizard,
    ) -> WizardOutcome<Seq<char>> {
        match self.step {
            WizardStep::SelectBranch => match key.code {
                KeyCode::Esc => WizardOutcome::PickRepo,
                KeyCode::Enter => self.branch_outcome(),
                _ => WizardOutcome::Nothing,
            },
            WizardStep::EnterDescription => if key.is_ctrl('s') {
                if self.lacks_description() {
                    WizardOutcome::Nothing
                } else {
                    WizardOutcome::Create
                }
            } else {
                match copied_from(
                    self.description_editor,
                    key,
                    clipboard,
                    after.description_editor,
                ) {
                    Some(text) => WizardOutcome::Copied(text),
                    None => WizardOutcome::Nothing,
                }
            },
        }
    }

    pub fn handle_key(&mut self, key: KeyPress, clipboard: Option<String>) -> (outcome:
        WizardOutcome<String>)
        requires
            old(self).wf(),
        ensures
            final(self).wf(),
            old(self).after_key(key, some_view(clipboard), *final(self)),
            outcome_view(outcome) == old(self).outcome(key, some_view(clipboard), *final(self)),
    {
        match self.step {
            WizardStep::SelectBranch => match key.code {
                KeyCode::Esc => self.wizard_prev_step(),
                KeyCode::Enter => self.wizard_next_step(),
                _ => {
                    self.handle_branch_key(key);
                    WizardOutcome::Nothing
                },
            },
            WizardStep::EnterDescription => {
                if key.is_ctrl('s') {
                    self.description_editor.set_normal_mode();
                    self.wizard_next_step()
                } else {
                    self.handle_description_key(key, clipboard)
                }
            },
        }
    }
}

/// A project that a task can be assigned to.
pub open spec fn assignable(project: Option<Seq<char>>) -> Option<Seq<char>> {
    match project {
        Some(name) => if name == unassigned() {
            None
        } else {
            Some(name)
        },
        None => None,
    }
}

/// The directory that a repository is in, unless it is the one of all repositories.
pub open spec fn outside_dir(repo_path: Seq<char>, repos_dir: Seq<char>) -> Option<Seq<char>> {
    match parent_path(repo_path) {
        Some(dir) => if same_path(dir, repos_dir) {
            None
        } else {
            Some(dir)
        },
        None => None,
    }
}

impl NewTaskWizard {
    /// The branch of the task to be created.
    pub open spec fn request_branch(self) -> Seq<char> {
        match self.branch_source {
            BranchSource::NewBranch => trimmed(line_text(self.new_branch_editor)),
            BranchSource::ExistingBranch => self.existing_branches@[self.selected_branch_index as int]@,
            BranchSource::ExistingWorktree => {
                self.existing_worktrees@[self.selected_worktree_index as int].0@
            },
        }
    }

    /// Where the code of the task to be created comes from.
    pub open spec fn request_source(self) -> WorktreeSource<Seq<char>> {
        match self.branch_source {
            BranchSource::NewBranch => WorktreeSource::NewBranch {
                base_branch: crate::settings::unless_empty(
                    trimmed(line_text(self.base_branch_editor)),
                ),
            },
            BranchSource::ExistingBranch => WorktreeSource::ExistingBranch,
            BranchSource::ExistingWorktree => WorktreeSource::ExistingWorktree(
                self.existing_worktrees@[self.selected_worktree_index as int].1@,
            ),
        }
    }

    /// The task to be created.
    pub open spec fn request(self, project: Option<Seq<char>>, repos_dir: Seq<char>) -> TaskRequest<
        Seq<char>,
    > {
        TaskRequest {
            name: self.selected_repo@,
            branch: self.request_branch(),
            description: trimmed(join_with(self.description_editor.area().lines, '\n')),
            source: self.request_source(),
            repo_path: self.selected_repo_path@,
            multi_repo: self.is_multi_repo,
            parent_dir: if self.is_multi_repo {
                None
            } else {
                outside_dir(self.selected_repo_path@, repos_dir)
            },
            project: assignable(project),
        }
    }

    /// The task to be created.
    pub fn task_request(&self, project: &Option<String>, repos_dir: &str) -> (request: TaskRequest<
        String,
    >)
        requires
            self.wf(),
            self.has_choice(),
        ensures
            request_view(request) == self.request(some_view(*project), repos_dir@),
    {
        let (branch, source) = match self.branch_source {
            BranchSource::NewBranch => {
                let base = trimmed_line(&self.base_branch_editor);
                let base_branch = if base.as_str().is_empty() {
                    None
                } else {
                    Some(base)
                };
                (
                    trimmed_line(&self.new_branch_editor),
                    WorktreeSource::NewBranch { base_branch },
                )
            },
            BranchSource::ExistingBranch => (
                self.existing_branches[self.selected_branch_index].clone(),
                WorktreeSource::ExistingBranch,
            ),
            BranchSource::ExistingWorktree => {
                let chosen = &self.existing_worktrees[self.selected_worktree_index];
                (chosen.0.clone(), WorktreeSource::ExistingWorktree(chosen.1.clone()))
            },
        };
        let parent_dir = if self.is_multi_repo {
            None
        } else {
            match parent_of(self.selected_repo_path.as_str()) {
                Some(dir) => if paths_equal(dir.as_str(), repos_dir) {
                    None
                } else {
                    Some(dir)
                },
                None => None,
            }
        };
        let project = match project {
            Some(name) => if is_unassigned(name.as_str()) {
                None
            } else {
                Some(name.clone())
            },
            None => None,
        };
        TaskRequest {
            name: self.selected_repo.clone(),
            branch,
            description: trim(self.description_editor.lines_joined().as_str()),
            source,
            repo_path: self.selected_repo_path.clone(),
            multi_repo: self.is_multi_repo,
            parent_dir,
            project,
        }
    }

    /// A wizard on a repository whose branches and worktrees were read.
    pub open spec fn starts_on(
        self,
        repo: Seq<char>,
        path: Seq<char>,
        multi_repo: bool,
        base: Seq<char>,
    ) -> bool {
        &&& self.step is SelectBranch
        &&& self.selected_repo@ == repo
        &&& self.selected_repo_path@ == path
        &&& self.branch_source is NewBranch
        &&& self.selected_worktree_index == 0
        &&& self.selected_branch_index == 0
        &&& area_state(self.new_branch_editor) == fresh_state(Seq::empty())
        &&& area_state(self.base_branch_editor) == fresh_state(Seq::empty()).replaced(
            text_pieces(
                if multi_repo {
                    "origin/main"@
                } else {
                    base
                },
            ),
        )
        &&& !self.base_branch_focus
        &&& self.description_editor.area() == fresh_state(Seq::empty())
        &&& self.description_editor.vim == fresh_vim(VimMode::Insert, false)
        &&& self.error_message is None
        &&& self.is_multi_repo == multi_repo
    }

    /// The wizard for a repository. A directory of several repositories has
    /// neither branches nor worktrees to choose from.
    pub fn create_wizard_from_picker(
        repo_name: String,
        repo_path: String,
        is_multi: bool,
        base_ref: &str,
        branches: Vec<String>,
        worktrees: Vec<(String, String)>,
    ) -> (wizard: NewTaskWizard)
        ensures
            wizard.wf(),
            wizard.starts_on(repo_name@, repo_path@, is_multi, base_ref@),
            wizard.existing_branches@ == if is_multi {
                Seq::empty()
            } else {
                branches@
            },
            wizard.existing_worktrees@ == if is_multi {
                Seq::empty()
            } else {
                worktrees@
            },
    {
        let mut base_branch_editor = plain_editor();
        if is_multi {
            insert_str(&mut base_branch_editor, "origin/main");
        } else {
            insert_str(&mut base_branch_editor, base_ref);
        }
        let mut description_editor = VimTextArea::new();
        description_editor.set_insert_mode();
        NewTaskWizard {
            step: WizardStep::SelectBranch,
            selected_repo: repo_name,
            selected_repo_path: repo_path,
            branch_source: BranchSource::NewBranch,
            existing_worktrees: if is_multi {
                Vec::new()
            } else {
                worktrees
            },
            selected_worktree_index: 0,
            existing_branches: if is_multi {
                Vec::new()
            } else {
                branches
            },
            selected_branch_index: 0,
            new_branch_editor: plain_editor(),
            base_branch_editor,
            base_branch_focus: false,
            description_editor,
            error_message: None,
            is_multi_repo: is_multi,
        }
    }
}

/// Some task of the repository works on the branch.
pub open spec fn has_task_on(tasks: Seq<Task>, repo: Seq<char>, branch: Seq<char>) -> bool {
    exists|i: int|
        0 <= i < tasks.len() && (#[trigger] tasks[i]).meta.name@ == repo
            && tasks[i].meta.branch_name@ == branch
}

fn is_taken(tasks: &Vec<Task>, repo: &String, branch: &String) -> (taken: bool)
    ensures
        taken == has_task_on(tasks@, repo@, branch@),
{
    let mut i: usize = 0;
    while i < tasks.len()
        invariant
            i <= tasks.len(),
            forall|j: int|
                0 <= j < i ==> !((#[trigger] tasks@[j]).meta.name@ == repo@
                    && tasks@[j].meta.branch_name@ == branch@),
        decreases tasks.len() - i,
    {
        if tasks[i].meta.name == *repo && tasks[i].meta.branch_name == *branch {
            assert(tasks@[i as int].meta.name@ == repo@);
            return true;
        }
        i += 1;
    }
    false
}

/// The branches of a repository, as git lists them line by line, that no task
/// works on, by name.
pub open spec fn free_branches(
    listing: Seq<char>,
    tasks: Seq<Task>,
    repo: Seq<char>,
    branches: Seq<(String, ())>,
) -> bool {
    exists|lines: Seq<String>|
        crate::text::texts(lines) == crate::text::lines_of_text(listing) && branches
            == crate::order::sorted_by(
            #[trigger] unclaimed(lines, tasks, repo),
            crate::order::name_before::<()>(),
        )
}

/// The lines that name no branch that a task works on.
pub open spec fn unclaimed(lines: Seq<String>, tasks: Seq<Task>, repo: Seq<char>) -> Seq<(
    String,
    (),
)> {
    let kept = lines.filter(|l: String| !has_task_on(tasks, repo, l@));
    Seq::new(kept.len(), |i: int| (kept[i], ()))
}

/// The branches of a repository that no task works on, by name, from the
/// output of git; none if git failed.
pub fn scan_branches(listing: Option<&str>, tasks: &Vec<Task>, repo_name: &String) -> (branches:
    Vec<String>)
    ensures
        match listing {
            Some(text) => exists|pairs: Seq<(String, ())>|
                #[trigger] free_branches(text@, tasks@, repo_name@, pairs) && branches@
                    == Seq::new(pairs.len(), |i: int| pairs[i].0),
            None => branches@.len() == 0,
        },
{
    let mut branches: Vec<String> = Vec::new();
    if let Some(text) = listing {
        let lines = crate::text::split_lines(text);
        let ghost all = lines@;
        let ghost free = |l: String| !has_task_on(tasks@, repo_name@, l@);
        let mut kept: Vec<(String, ())> = Vec::new();
        for line in it: lines
            invariant
                it.seq() == all,
                free == (|l: String| !has_task_on(tasks@, repo_name@, l@)),
                kept@ == unclaimed(all.take(it.index() as int), tasks@, repo_name@),
        {
            proof {
                let here = all.take(it.index() as int);
                assert(all.take(it.index() + 1) == here.push(line));
                here.lemma_filter_push(line, free);
            }
            let ghost before = kept@;
            if !is_taken(tasks, repo_name, &line) {
                kept.push((line, ()));
                assert(kept@ == before.push((line, ())));
            }
        }
        assert(all.take(all.len() as int) == all);
        let sorted = crate::order::sort_by_name(kept);
        let ghost pairs = sorted@;
        assert(free_branches(text@, tasks@, repo_name@, pairs));
        for pair in it: sorted
            invariant
                it.seq() == pairs,
                branches@ == Seq::new(it.index() as nat, |i: int| pairs[i].0),
        {
            branches.push(pair.0);
        }
        assert(branches@ == Seq::new(pairs.len(), |i: int| pairs[i].0));
    }
    branches
}

/// A worktree that git lists: its branch, its path, and whether it is the
/// repository itself.
pub struct ListedWorktree {
    pub branch: String,
    pub path: String,
    pub is_main: bool,
}

/// The worktrees that a task could take over: not the repository itself, and
/// none that a task works in.
pub open spec fn is_orphan(tasks: Seq<Task>, repo: Seq<char>) -> spec_fn(ListedWorktree) -> bool {
    |w: ListedWorktree| !w.is_main && !has_task_on(tasks, repo, w.branch@)
}

pub open spec fn orphans(listed: Seq<ListedWorktree>, tasks: Seq<Task>, repo: Seq<char>) -> Seq<(
    String,
    String,
)> {
    let kept = listed.filter(is_orphan(tasks, repo));
    Seq::new(kept.len(), |i: int| (kept[i].branch, kept[i].path))
}

/// The worktrees that a task could take over.
pub fn scan_existing_worktrees(
    listed: Vec<ListedWorktree>,
    tasks: &Vec<Task>,
    repo_name: &String,
) -> (worktrees: Vec<(String, String)>)
    ensures
        worktrees@ == orphans(listed@, tasks@, repo_name@),
{
    let ghost all = listed@;
    let ghost wanted = is_orphan(tasks@, repo_name@);
    let mut worktrees: Vec<(String, String)> = Vec::new();
    for w in it: listed
        invariant
            it.seq() == all,
            wanted == is_orphan(tasks@, repo_name@),
            worktrees@ == orphans(all.take(it.index() as int), tasks@, repo_name@),
    {
        proof {
            let here = all.take(it.index() as int);
            assert(all.take(it.index() + 1) == here.push(w));
            here.lemma_filter_push(w, wanted);
        }
        let ghost before = worktrees@;
        if !w.is_main && !is_taken(tasks, repo_name, &w.branch) {
            assert(wanted(w));
            worktrees.push((w.branch, w.path));
            assert(worktrees@ == before.push((w.branch, w.path)));
        }
    }
    assert(all.take(all.len() as int) == all);
    worktrees
}

/// An editor with vim modes after a key.
pub open spec fn edited(
    before: VimTextArea<'_>,
    key: KeyPress,
    clipboard: Option<Seq<char>>,
    after: VimTextArea<'_>,
) -> bool {
    step(
        before.vim,
        key.input(),
        before.pulled(key.input(), clipboard),
        after.vim,
        after.area(),
    )
}

/// What a key yanked in an editor with vim modes.
pub open spec fn copied_from(
    before: VimTextArea<'_>,
    key: KeyPress,
    clipboard: Option<Seq<char>>,
    after: VimTextArea<'_>,
) -> Option<Seq<char>> {
    let held = join_with(before.pulled(key.input(), clipboard).yank, '\n');
    if after.yanked() != held && after.yanked().len() > 0 {
        Some(after.yanked())
    } else {
        None
    }
}

/// The task that is created is on the branch that was chosen and checked at the
/// branch step. For an existing branch that is the selected one, for an existing
/// worktree the selected one's, with its path, and for a new branch the name that
/// was entered, without the white space around it.
pub proof fn the_chosen_branch_is_requested(
    wizard: NewTaskWizard,
    project: Option<Seq<char>>,
    repos_dir: Seq<char>,
)
    requires
        wizard.wf(),
        wizard.has_choice(),
    ensures
        wizard.chosen_branch() matches Ok(branch) ==> wizard.request(project, repos_dir).branch
            == branch,
        wizard.branch_source is ExistingBranch ==> ({
            let chosen = wizard.existing_branches@[wizard.selected_branch_index as int];
            &&& wizard.chosen_branch() == Ok::<Seq<char>, Seq<char>>(chosen@)
            &&& wizard.request(project, repos_dir).branch == chosen@
            &&& wizard.request(project, repos_dir).source is ExistingBranch
        }),
        wizard.branch_source is ExistingWorktree ==> ({
            let chosen = wizard.existing_worktrees@[wizard.selected_worktree_index as int];
            &&& wizard.chosen_branch() == Ok::<Seq<char>, Seq<char>>(chosen.0@)
            &&& wizard.request(project, repos_dir).branch == chosen.0@
            &&& wizard.request(project, repos_dir).source == WorktreeSource::ExistingWorktree(
                chosen.1@,
            )
        }),
        wizard.branch_source is NewBranch ==> ({
            let entered = trimmed(line_text(wizard.new_branch_editor));
            let base = trimmed(line_text(wizard.base_branch_editor));
            &&& wizard.request(project, repos_dir).branch == entered
            &&& base.len() > 0 ==> wizard.request(project, repos_dir).source
                == (WorktreeSource::NewBranch { base_branch: Some(base) })
            &&& base.len() == 0 ==> wizard.request(project, repos_dir).source
                == (WorktreeSource::NewBranch { base_branch: None::<Seq<char>> })
        }),
{
}

/// What the task is created with is what was entered and chosen: the repository
/// and its path, the description without the white space around it, the project
/// that is open unless it is the one of tasks without a project, and the
/// directory of a repository that lies outside of the one of all repositories.
pub proof fn the_request_holds_what_was_entered(
    wizard: NewTaskWizard,
    project: Option<Seq<char>>,
    repos_dir: Seq<char>,
)
    ensures
        ({
            let request = wizard.request(project, repos_dir);
            &&& request.name == wizard.selected_repo@
            &&& request.repo_path == wizard.selected_repo_path@
            &&& request.multi_repo == wizard.is_multi_repo
            &&& request.description == trimmed(
                join_with(wizard.description_editor.area().lines, '\n'),
            )
            &&& project == Some("(unassigned)"@) || project is None ==> request.project is None
            &&& project matches Some(name) ==> name != "(unassigned)"@ ==> request.project == Some(
                name,
            )
            &&& wizard.is_multi_repo ==> request.parent_dir is None
            &&& !wizard.is_multi_repo ==> (parent_path(wizard.selected_repo_path@) matches Some(dir)
                ==> request.parent_dir == if same_path(dir, repos_dir) {
                None
            } else {
                Some(dir)
            })
        }),
{
}

/// A name for a new branch is refused exactly if it is empty, holds a space or
/// two dots in a row, or starts or ends with a slash; nothing is checked then.
pub proof fn bad_branch_names_are_refused(wizard: NewTaskWizard)
    requires
        wizard.branch_source is NewBranch,
    ensures
        ({
            let name = trimmed(line_text(wizard.new_branch_editor));
            let bad = name.len() == 0 || name.contains(' ') || (exists|i: int|
                0 <= i < name.len() - 1 && #[trigger] name[i] == '.' && name[i + 1] == '.')
                || name[0] == '/' || name.last() == '/';
            &&& wizard.chosen_branch() is Err <==> bad
            &&& bad ==> wizard.branch_outcome() is Nothing && wizard.branch_error() is Some
            &&& !bad ==> wizard.branch_outcome() == WizardOutcome::CheckBranch(name)
                && wizard.branch_error() is None
        }),
{
    let name = trimmed(line_text(wizard.new_branch_editor));
    reveal_strlit(" ");
    reveal_strlit("..");
    reveal_strlit("/");
    if name.contains(' ') {
        let i = choose|i: int| 0 <= i < name.len() && name[i] == ' ';
        assert(name.subrange(i, i + 1) =~= " "@);
        assert(occurs_at(name, " "@, i));
    }
    if has_text(name, " "@) {
        let i = choose|i: int| occurs_at(name, " "@, i);
        assert(name.subrange(i, i + 1)[0] == ' ');
        assert(name[i] == ' ');
    }
    if has_text(name, ".."@) {
        let i = choose|i: int| occurs_at(name, ".."@, i);
        assert(name.subrange(i, i + 2)[0] == '.' && name.subrange(i, i + 2)[1] == '.');
        assert(name[i] == '.' && name[i + 1] == '.');
    }
    if exists|i: int|
        0 <= i < name.len() - 1 && #[trigger] name[i] == '.' && name[i + 1] == '.' {
        let i = choose|i: int|
            0 <= i < name.len() - 1 && #[trigger] name[i] == '.' && name[i + 1] == '.';
        assert(name.subrange(i, i + 2) =~= ".."@);
        assert(occurs_at(name, ".."@, i));
    }
    if name.len() > 0 {
        let first = name.subrange(0, 1);
        let last = name.subrange(name.len() - 1, name.len() as int);
        assert(first[0] == name[0] && last[0] == name.last());
        if name[0] == '/' {
            assert(first =~= "/"@);
        }
        if name.last() == '/' {
            assert(last =~= "/"@);
        }
        assert("/"@[0] == '/');
        if has_suffix(name, "/"@) {
            assert(last == "/"@);
        }
    }
}

/// Nothing to choose from is an error, and only then.
pub proof fn empty_lists_offer_no_branch(wizard: NewTaskWizard)
    ensures
        wizard.branch_source is ExistingBranch ==> (wizard.chosen_branch() is Err
            <==> wizard.existing_branches@.len() == 0),
        wizard.branch_source is ExistingWorktree ==> (wizard.chosen_branch() is Err
            <==> wizard.existing_worktrees@.len() == 0),
{
}

/// `j` and `k` choose the next and the previous entry of the list that is shown,
/// round its ends, and leave the other list and the fields alone.
pub proof fn choosing_goes_through_the_list_shown(
    before: NewTaskWizard,
    key: KeyPress,
    after: NewTaskWizard,
    down: bool,
)
    requires
        before.wf(),
        before.step is SelectBranch,
        key.code == if down {
            KeyCode::Char('j')
        } else {
            KeyCode::Char('k')
        },
        before.after_key(key, None, after),
    ensures
        before.branch_source is ExistingBranch ==> after.selected_worktree_index
            == before.selected_worktree_index && ({
            let n = before.existing_branches@.len();
            let i = before.selected_branch_index;
            &&& down && i + 1 < n ==> after.selected_branch_index == i + 1
            &&& down && n > 0 && i + 1 == n ==> after.selected_branch_index == 0
            &&& !down && 0 < i < n ==> after.selected_branch_index == i - 1
            &&& !down && n > 0 && i == 0 ==> after.selected_branch_index == n - 1
        }),
        before.branch_source is ExistingWorktree ==> after.selected_branch_index
            == before.selected_branch_index && ({
            let n = before.existing_worktrees@.len();
            let i = before.selected_worktree_index;
            &&& down && i + 1 < n ==> after.selected_worktree_index == i + 1
            &&& down && n > 0 && i + 1 == n ==> after.selected_worktree_index == 0
            &&& !down && 0 < i < n ==> after.selected_worktree_index == i - 1
            &&& !down && n > 0 && i == 0 ==> after.selected_worktree_index == n - 1
        }),
        after.branch_source == before.branch_source,
        after.step == before.step,
{
    let branches = before.existing_branches.len() as int;
    let worktrees = before.existing_worktrees.len() as int;
    if before.branch_source is ExistingBranch && before.selected_branch_index < branches {
        steps_go_to_the_neighbour(before.selected_branch_index as int, branches);
    }
    if before.branch_source is ExistingWorktree && before.selected_worktree_index < worktrees {
        steps_go_to_the_neighbour(before.selected_worktree_index as int, worktrees);
    }
}

/// The tabs go from a new branch over existing branches to existing worktrees
/// and round; for several repositories only a new branch can be chosen.
pub proof fn tabs_follow_their_order(before: NewTaskWizard, key: KeyPress, after: NewTaskWizard)
    requires
        before.step is SelectBranch,
        key.code is Tab || key.code is BackTab,
        before.after_key(key, None, after),
    ensures
        before.is_multi_repo ==> after.branch_source == before.branch_source,
        !before.is_multi_repo && key.code is Tab ==> ({
            &&& before.branch_source is NewBranch ==> after.branch_source is ExistingBranch
            &&& before.branch_source is ExistingBranch ==> after.branch_source is ExistingWorktree
            &&& before.branch_source is ExistingWorktree ==> after.branch_source is NewBranch
        }),
        !before.is_multi_repo && key.code is BackTab ==> ({
            &&& after.branch_source is NewBranch ==> before.branch_source is ExistingBranch
            &&& after.branch_source is ExistingBranch ==> before.branch_source is ExistingWorktree
            &&& after.branch_source is ExistingWorktree ==> before.branch_source is NewBranch
        }),
{
}

/// What is typed at the branch step goes into the field that has the focus, and
/// up, down and Ctrl-B switch between the two fields.
pub proof fn typing_goes_into_the_focused_field(
    before: NewTaskWizard,
    key: KeyPress,
    after: NewTaskWizard,
)
    requires
        before.step is SelectBranch,
        before.branch_source is NewBranch,
        key.code is Char || key.code is Up || key.code is Down || key.code is Backspace,
        before.after_key(key, None, after),
    ensures
        ({
            let switches = key.code is Up || key.code is Down || (key.code == KeyCode::Char('b')
                && key.ctrl);
            &&& switches ==> after.base_branch_focus == !before.base_branch_focus
                && after.new_branch_editor == before.new_branch_editor
                && after.base_branch_editor == before.base_branch_editor
            &&& !switches && before.base_branch_focus ==> after.new_branch_editor
                == before.new_branch_editor && area_state(before.base_branch_editor).typed(
                key.input(),
                area_state(after.base_branch_editor),
            )
            &&& !switches && !before.base_branch_focus ==> after.base_branch_editor
                == before.base_branch_editor && area_state(before.new_branch_editor).typed(
                key.input(),
                area_state(after.new_branch_editor),
            )
        }),
{
}

/// A task is created by Ctrl-S at the description alone. One of several
/// repositories needs a description, one of a single repository does not.
pub proof fn tasks_are_created_from_the_description(
    before: NewTaskWizard,
    key: KeyPress,
    clipboard: Option<Seq<char>>,
    after: NewTaskWizard,
)
    requires
        before.after_key(key, clipboard, after),
    ensures
        ({
            let text = trimmed(join_with(before.description_editor.area().lines, '\n'));
            let submits = before.step is EnterDescription && key.ctrl && key.code == KeyCode::Char(
                's',
            );
            &&& before.outcome(key, clipboard, after) is Create <==> submits && (
            !before.is_multi_repo || text.len() > 0)
            &&& submits && before.is_multi_repo && text.len() == 0 ==> after.error_message is Some
            &&& submits ==> after.description_editor.area().lines
                == before.description_editor.area().lines
        }),
{
}

/// Escape at the branch step goes back to the choice of the repository, and
/// escape in normal mode at the description back to the branch step.
pub proof fn escape_goes_a_step_back(
    before: NewTaskWizard,
    key: KeyPress,
    clipboard: Option<Seq<char>>,
    after: NewTaskWizard,
)
    requires
        key.code is Esc,
        !key.released,
        before.after_key(key, clipboard, after),
    ensures
        before.step is SelectBranch ==> before.outcome(key, clipboard, after) is PickRepo,
        before.step is EnterDescription && before.description_editor.vim.mode is Normal
            ==> after.step is SelectBranch,
        before.step is EnterDescription && before.description_editor.vim.mode is Insert
            ==> after.step is EnterDescription && after.description_editor.vim.mode is Normal,
{
}

/// A branch is offered exactly if git lists it and no task of the repository
/// works on it.
pub proof fn free_branches_are_offered(
    listing: Seq<char>,
    tasks: Seq<Task>,
    repo: Seq<char>,
    branches: Seq<(String, ())>,
    name: Seq<char>,
)
    requires
        free_branches(listing, tasks, repo, branches),
    ensures
        (exists|i: int| 0 <= i < branches.len() && #[trigger] branches[i].0@ == name) <==> (exists|
            i: int,
        |
            0 <= i < crate::text::lines_of_text(listing).len() && #[trigger]
            crate::text::lines_of_text(listing)[i] == name) && !(exists|i: int|
            0 <= i < tasks.len() && (#[trigger] tasks[i]).meta.name@ == repo
                && tasks[i].meta.branch_name@ == name),
{
    let lines = choose|lines: Seq<String>|
        crate::text::texts(lines) == crate::text::lines_of_text(listing) && branches
            == crate::order::sorted_by(
            #[trigger] unclaimed(lines, tasks, repo),
            crate::order::name_before::<()>(),
        );
    let free = unclaimed(lines, tasks, repo);
    let keep = |l: String| !has_task_on(tasks, repo, l@);
    let kept = lines.filter(keep);
    let before = crate::order::name_before::<()>();
    let listed = crate::text::lines_of_text(listing);
    if exists|i: int| 0 <= i < branches.len() && #[trigger] branches[i].0@ == name {
        let i = choose|i: int| 0 <= i < branches.len() && #[trigger] branches[i].0@ == name;
        let pair = branches[i];
        crate::order::sorted_elements(free, before, pair);
        let k = choose|k: int| 0 <= k < free.len() && free[k] == pair;
        assert(kept[k] == pair.0);
        crate::order::kept_elements(lines, keep, pair.0);
        let l = choose|l: int| 0 <= l < lines.len() && lines[l] == pair.0;
        assert(listed[l] == name);
    }
    if (exists|i: int| 0 <= i < listed.len() && #[trigger] listed[i] == name) && !has_task_on(
        tasks,
        repo,
        name,
    ) {
        let l = choose|l: int| 0 <= l < listed.len() && #[trigger] listed[l] == name;
        let line = lines[l];
        assert(crate::text::texts(lines)[l] == line@);
        crate::order::kept_elements(lines, keep, line);
        let k = choose|k: int| 0 <= k < kept.len() && kept[k] == line;
        assert(free[k] == (line, ()));
        crate::order::sorted_elements(free, before, (line, ()));
        let i = choose|i: int| 0 <= i < branches.len() && branches[i] == (line, ());
        assert(branches[i].0@ == name);
    }
}

/// A worktree is offered exactly if it is not the repository itself and no task
/// of the repository works on its branch.
pub proof fn free_worktrees_are_offered(
    listed: Seq<ListedWorktree>,
    tasks: Seq<Task>,
    repo: Seq<char>,
    i: int,
)
    requires
        0 <= i < listed.len(),
        !listed[i].is_main,
        !(exists|k: int|
            0 <= k < tasks.len() && (#[trigger] tasks[k]).meta.name@ == repo
                && tasks[k].meta.branch_name@ == listed[i].branch@),
    ensures
        orphans(listed, tasks, repo).contains((listed[i].branch, listed[i].path)),
{
    let keep = is_orphan(tasks, repo);
    let kept = listed.filter(keep);
    crate::order::kept_elements(listed, keep, listed[i]);
    let k = choose|k: int| 0 <= k < kept.len() && kept[k] == listed[i];
    assert(orphans(listed, tasks, repo)[k] == (listed[i].branch, listed[i].path));
}

/// No worktree is offered that is the repository itself or that a task works in.
pub proof fn taken_worktrees_are_not_offered(
    listed: Seq<ListedWorktree>,
    tasks: Seq<Task>,
    repo: Seq<char>,
    i: int,
)
    requires
        0 <= i < orphans(listed, tasks, repo).len(),
    ensures
        exists|k: int|
            0 <= k < listed.len() && !(#[trigger] listed[k]).is_main && (
            listed[k].branch, listed[k].path) == orphans(listed, tasks, repo)[i] && !(exists|t: int|
                0 <= t < tasks.len() && (#[trigger] tasks[t]).meta.name@ == repo
                    && tasks[t].meta.branch_name@ == listed[k].branch@),
{
    let keep = is_orphan(tasks, repo);
    let kept = listed.filter(keep);
    crate::order::kept_elements(listed, keep, kept[i]);
    let k = choose|k: int| 0 <= k < listed.len() && listed[k] == kept[i];
    assert(keep(listed[k]));
}

/// Going on from the choice of a branch shows what is wrong with it, and takes an
/// older error away where nothing is.
pub proof fn errors_are_shown_and_taken_away(
    before: NewTaskWizard,
    key: KeyPress,
    clipboard: Option<Seq<char>>,
    after: NewTaskWizard,
)
    requires
        before.step is SelectBranch,
        key.code is Enter,
        !key.ctrl,
        before.after_key(key, clipboard, after),
    ensures
        before.chosen_branch() is Ok ==> after.error_message is None,
        before.chosen_branch() is Err ==> after.error_message is Some && after.step
            is SelectBranch,
        before.chosen_branch() matches Err(problem) ==> some_view(after.error_message) == Some(
            problem,
        ),
{
}

} // verus!
