//! The wizards and the directory picker, as part of the whole.

use crate::agent_wizard::AgentOutcome;
use crate::app::{Action, App};
use crate::keys::{KeyCode, KeyPress};
use crate::model::agent_kind_label;
use crate::picker::{
    fits, joined_path, parent_path, DirKind, DirPickerOrigin, DirectoryPicker, FoundEntry,
};
use crate::screen::View;
use crate::task_wizard::{
    free_branches, orphans, request_view, scan_branches, scan_existing_worktrees, some_view,
    ListedWorktree, WizardOutcome,
};
use crate::text::concat;
use crate::textarea::{fresh_state, insert_str, text_pieces};
use crate::wizard::{AgentWizard, NewTaskWizard};
use vstd::prelude::*;
use vstd::view::View as _;

verus! {

/// What was found of the directory that the wizard for a new task starts in.
pub enum WizardStart {
    /// The directory of repositories, with the favourites and whether each is
    /// checked out there.
    Repos { favorites: Vec<(String, u64, bool)>, found: Option<Vec<FoundEntry>> },
    /// There is none: some other directory to look for it.
    Elsewhere { dir: String, found: Option<Vec<FoundEntry>> },
}

/// What was found as a sequence.
pub open spec fn found_view(found: Option<Vec<FoundEntry>>) -> Option<Seq<FoundEntry>> {
    match found {
        Some(list) => Some(list@),
        None => None,
    }
}

impl App {
    /// The directory picker is opened: on the directory of repositories, or
    /// where there is none, to choose it.
    pub fn start_wizard(&mut self, start: WizardStart, now: i64)
        requires
            old(self).wf(),
            start matches WizardStart::Repos { favorites, found } ==> fits(
                favorites@.len() as int,
                found,
            ),
        ensures
            final(self).wf(),
            match start {
                WizardStart::Repos { favorites, found } => {
                    &&& *final(self) == (App {
                        dir_picker: final(self).dir_picker,
                        view: View::DirectoryPicker,
                        ..*old(self)
                    })
                    &&& final(self).dir_picker matches Some(p) && p.current_dir
                        == old(self).config.repos_dir && p.repos_dir
                        == old(self).config.repos_dir && p.origin is RepoSelect
                        && p.favorite_repos@ == crate::picker::checked_out(favorites@)
                        && p.shows(found_view(found))
                },
                WizardStart::Elsewhere { dir, found } => {
                    &&& final(self).says(
                        (App {
                            dir_picker: final(self).dir_picker,
                            view: View::DirectoryPicker,
                            ..*old(self)
                        }),
                        "No repos found in "@ + old(self).config.repos_dir@
                            + ". Pick a repos directory (s to select, h/l to navigate)."@,
                        now,
                    )
                    &&& final(self).dir_picker matches Some(p) && p.current_dir == dir && p.origin
                        is NewTask && p.favorite_repos@.len() == 0 && p.repos_dir@.len() == 0 && p.shows(
                        found_view(found),
                    )
                },
            },
    {
        match start {
            WizardStart::Repos { favorites, found } => {
                self.dir_picker = Some(
                    DirectoryPicker::new_with_favorites(
                        self.config.repos_dir.clone(),
                        DirPickerOrigin::RepoSelect,
                        favorites,
                        self.config.repos_dir.clone(),
                        found,
                    ),
                );
                self.view = View::DirectoryPicker;
            },
            WizardStart::Elsewhere { dir, found } => {
                self.dir_picker = Some(DirectoryPicker::new(dir, DirPickerOrigin::NewTask, found));
                self.view = View::DirectoryPicker;
                let mut message = concat("No repos found in ", self.config.repos_dir.as_str());
                message.append(". Pick a repos directory (s to select, h/l to navigate).");
                self.set_status(message, now);
            },
        }
    }

    /// What entering the selected directory asks for.
    pub open spec fn enter_action(picker: DirectoryPicker, action: Action) -> bool {
        match picker.entry() {
            Some(name) => action matches Action::ListDir(dir) && dir@ == joined_path(
                picker.current_dir@,
                name,
            ),
            None => action is Nothing,
        }
    }

    fn enter_selected(picker: &DirectoryPicker) -> (action: Action)
        ensures
            App::enter_action(*picker, action),
    {
        match picker.entered_dir() {
            Some(dir) => Action::ListDir(dir),
            None => Action::Nothing,
        }
    }

    /// What choosing the selected entry leads to: a repository or a directory of
    /// several is taken, any other directory is entered.
    pub open spec fn after_select_repo(self, picker: DirectoryPicker, after: App, action: Action) -> bool {
        let kind = picker.spec_entry_kind();
        match picker.spec_selected_path() {
            None => after == self && action is Nothing,
            Some(path) => if picker.origin is RepoSelect && (kind == Some(DirKind::GitRepo) || kind
                == Some(DirKind::MultiRepoParent)) {
                &&& after == (App { dir_picker: None, ..self })
                &&& action matches Action::ScanRepo { name, path: p, multi_repo } && p@ == path
                    && Some(name@) == picker.spec_selected_name() && multi_repo == (kind == Some(
                    DirKind::MultiRepoParent,
                ))
            } else {
                after == self && App::enter_action(picker, action)
            },
        }
    }

    /// Handle a repo selection from the directory picker.
    fn select_repo_from_picker(&mut self) -> (action: Action)
        requires
            old(self).wf(),
        ensures
            final(self).wf(),
            match old(self).dir_picker {
                Some(picker) => old(self).after_select_repo(picker, *final(self), action),
                None => *final(self) == *old(self) && action is Nothing,
            },
    {
        let (path, name, multi_repo) = match &self.dir_picker {
            None => {
                return Action::Nothing;
            },
            Some(picker) => {
                let path = match picker.selected_path() {
                    Some(path) => path,
                    None => {
                        return Action::Nothing;
                    },
                };
                let name = match picker.selected_name() {
                    Some(name) => name,
                    None => String::new(),
                };
                let takes = match (picker.origin, picker.selected_entry_kind()) {
                    (DirPickerOrigin::RepoSelect, Some(DirKind::GitRepo)) => Some(false),
                    (DirPickerOrigin::RepoSelect, Some(DirKind::MultiRepoParent)) => Some(true),
                    _ => None,
                };
                match takes {
                    Some(multi_repo) => (path, name, multi_repo),
                    None => {
                        return App::enter_selected(picker);
                    },
                }
            },
        };
        self.dir_picker = None;
        Action::ScanRepo { name, path, multi_repo }
    }

    /// Enter takes a repository or a favourite at once where one is chosen.
    pub open spec fn enter_takes(picker: DirectoryPicker) -> bool {
        picker.origin is RepoSelect && (picker.selected_index < picker.favorite_repos@.len()
            || picker.spec_entry_kind() == Some(DirKind::GitRepo))
    }

    /// What a key in the directory picker leads to.
    pub open spec fn after_dir_key(self, key: KeyPress, now: i64, after: App, action: Action) -> bool {
        if key.is_ctrl('c') {
            after == (App { should_quit: true, ..self }) && action is Nothing
        } else if key.code is Esc || key.code == KeyCode::Char('q') {
            action is Nothing && after.says(
                (App { dir_picker: None, view: View::TaskList, ..self }),
                "Directory selection cancelled"@,
                now,
            )
        } else {
            match self.dir_picker {
                None => after == self && action is Nothing,
                Some(picker) => match key.code {
                    KeyCode::Char('j') | KeyCode::Down => action is Nothing && after == (App {
                        dir_picker: Some(
                            DirectoryPicker {
                                selected_index: crate::select::next_round(
                                    picker.selected_index as int,
                                    picker.items() as int,
                                ) as usize,
                                ..picker
                            },
                        ),
                        ..self
                    }),
                    KeyCode::Char('k') | KeyCode::Up => action is Nothing && after == (App {
                        dir_picker: Some(
                            DirectoryPicker {
                                selected_index: crate::select::previous_round(
                                    picker.selected_index as int,
                                    picker.items() as int,
                                ) as usize,
                                ..picker
                            },
                        ),
                        ..self
                    }),
                    KeyCode::Char('l') | KeyCode::Enter => if App::enter_takes(picker) {
                        self.after_select_repo(picker, after, action)
                    } else {
                        after == self && App::enter_action(picker, action)
                    },
                    KeyCode::Char('h') | KeyCode::Backspace => after == self && match parent_path(
                        picker.current_dir@,
                    ) {
                        Some(dir) => action matches Action::ListDir(d) && d@ == dir,
                        None => action is Nothing,
                    },
                    KeyCode::Char('s') => match picker.origin {
                        DirPickerOrigin::RepoSelect => self.after_select_repo(
                            picker,
                            after,
                            action,
                        ),
                        DirPickerOrigin::NewTask => after == (App { dir_picker: None, ..self }) && (
                        action matches Action::SaveReposDir(dir) && dir == picker.current_dir),
                    },
                    _ => after == self && action is Nothing,
                },
            }
        }
    }

    pub fn handle_directory_picker_event(&mut self, key: KeyPress, now: i64) -> (action: Action)
        requires
            old(self).wf(),
        ensures
            final(self).wf(),
            old(self).after_dir_key(key, now, *final(self), action),
    {
        if key.is_ctrl('c') {
            self.should_quit = true;
            return Action::Nothing;
        }
        match key.code {
            KeyCode::Esc | KeyCode::Char('q') => {
                self.dir_picker = None;
                self.view = View::TaskList;
                self.say("Directory selection cancelled", now);
                Action::Nothing
            },
            KeyCode::Char('j') | KeyCode::Down => {
                if let Some(picker) = &mut self.dir_picker {
                    picker.select_next();
                }
                Action::Nothing
            },
            KeyCode::Char('k') | KeyCode::Up => {
                if let Some(picker) = &mut self.dir_picker {
                    picker.select_previous();
                }
                Action::Nothing
            },
            KeyCode::Char('l') | KeyCode::Enter => {
                let takes = match &self.dir_picker {
                    Some(picker) => picker.is_repo_select_mode() && (picker.is_favorite_selected()
                        || picker.selected_entry_kind() == Some(DirKind::GitRepo)),
                    None => false,
                };
                if takes {
                    self.select_repo_from_picker()
                } else {
                    match &self.dir_picker {
                        Some(picker) => App::enter_selected(picker),
                        None => Action::Nothing,
                    }
                }
            },
            KeyCode::Char('h') | KeyCode::Backspace => match &self.dir_picker {
                Some(picker) => match picker.upper_dir() {
                    Some(dir) => Action::ListDir(dir),
                    None => Action::Nothing,
                },
                None => Action::Nothing,
            },
            KeyCode::Char('s') => {
                let chooses = match &self.dir_picker {
                    Some(picker) => picker.is_repo_select_mode(),
                    None => false,
                };
                if chooses {
                    return self.select_repo_from_picker();
                }
                match self.dir_picker.take() {
                    Some(picker) => Action::SaveReposDir(picker.current_dir),
                    None => Action::Nothing,
                }
            },
            _ => Action::Nothing,
        }
    }

    /// A directory was read for the picker.
    pub fn on_dir_listed(&mut self, dir: String, found: Option<Vec<FoundEntry>>)
        requires
            old(self).wf(),
            old(self).dir_picker matches Some(p) ==> fits(p.favorite_repos@.len() as int, found),
        ensures
            final(self).wf(),
            *final(self) == (App { dir_picker: final(self).dir_picker, ..*old(self) }),
            match old(self).dir_picker {
                Some(before) => final(self).dir_picker matches Some(p) && p.same_place(before)
                    && p.current_dir == dir && p.shows(found_view(found)),
                None => final(self).dir_picker is None,
            },
    {
        if let Some(picker) = &mut self.dir_picker {
            picker.go_to(dir, found);
        }
    }

    /// The directory of repositories was saved, or could not be.
    pub fn on_repos_dir_saved(&mut self, dir: String, result: Result<(), String>, now: i64) -> (action:
        Action)
        requires
            old(self).wf(),
        ensures
            final(self).wf(),
            match result {
                Ok(_) => action is StartWizard && *final(self) == (App {
                    config: crate::app::Config { repos_dir: dir, ..old(self).config },
                    ..*old(self)
                }),
                Err(e) => action is Nothing && final(self).says(
                    (App { view: View::TaskList, ..*old(self) }),
                    "Failed to save config: "@ + e@,
                    now,
                ),
            },
    {
        match result {
            Ok(_) => {
                self.config.repos_dir = dir;
                Action::StartWizard
            },
            Err(e) => {
                self.say_of("Failed to save config: ", e.as_str(), now);
                self.view = View::TaskList;
                Action::Nothing
            },
        }
    }

    /// The wizard for a task in a repository whose branches and worktrees were
    /// read; the description may start with a text.
    pub fn on_repo_scanned(
        &mut self,
        name: String,
        path: String,
        multi_repo: bool,
        base_ref: &str,
        branch_listing: Option<&str>,
        listed: Vec<ListedWorktree>,
        description: Option<String>,
    )
        requires
            old(self).wf(),
        ensures
            final(self).wf(),
            *final(self) == (App {
                wizard: final(self).wizard,
                view: View::NewTaskWizard,
                ..*old(self)
            }),
            final(self).wizard matches Some(w) && exists|blank: NewTaskWizard| #[trigger]
                blank.starts_on(name@, path@, multi_repo, base_ref@) && w == (NewTaskWizard {
                    description_editor: w.description_editor,
                    ..blank
                }) && w.description_editor.vim == blank.description_editor.vim
                && w.description_editor.area() == match description {
                Some(text) => fresh_state(Seq::empty()).replaced(text_pieces(text@)),
                None => fresh_state(Seq::empty()),
            },
            final(self).wizard matches Some(w) && w.existing_worktrees@ == if multi_repo {
                Seq::empty()
            } else {
                orphans(listed@, old(self).detail.tasks@, name@)
            },
            final(self).wizard matches Some(w) && (match branch_listing {
                Some(text) if !multi_repo => exists|pairs: Seq<(String, ())>| #[trigger]
                    free_branches(text@, old(self).detail.tasks@, name@, pairs)
                        && w.existing_branches@ == Seq::new(pairs.len(), |i: int| pairs[i].0),
                _ => w.existing_branches@.len() == 0,
            }),
    {
        let branches = scan_branches(branch_listing, &self.detail.tasks, &name);
        let worktrees = scan_existing_worktrees(listed, &self.detail.tasks, &name);
        let mut wizard = NewTaskWizard::create_wizard_from_picker(
            name,
            path,
            multi_repo,
            base_ref,
            branches,
            worktrees,
        );
        assert(wizard.starts_on(name@, path@, multi_repo, base_ref@));
        if let Some(text) = description {
            insert_str(&mut wizard.description_editor.textarea, text.as_str());
        }
        self.wizard = Some(wizard);
        self.view = View::NewTaskWizard;
    }

    /// What a key in the wizard for a new task leads to.
    pub open spec fn after_wizard_key(
        self,
        key: KeyPress,
        clipboard: Option<Seq<char>>,
        now: i64,
        after: App,
        action: Action,
    ) -> bool {
        if key.is_ctrl('c') {
            after == (App { should_quit: true, ..self }) && action is Nothing
        } else {
            match self.wizard {
                None => after == (App { view: View::TaskList, ..self }) && action is Nothing,
                Some(wizard) => exists|next: NewTaskWizard| #[trigger]
                    wizard.after_key(key, clipboard, next) && {
                        let open = App { wizard: Some(next), ..self };
                        match wizard.outcome(key, clipboard, next) {
                            WizardOutcome::Nothing => after == open && action is Nothing,
                            WizardOutcome::PickRepo => after == (App { wizard: None, ..self })
                                && action is StartWizard,
                            WizardOutcome::CheckBranch(branch) => after == open && (
                            action matches Action::CheckTask { repo, branch: b } && repo
                                == wizard.selected_repo && b@ == branch),
                            WizardOutcome::Create => self.creates(next, now, after, action),
                            WizardOutcome::Copied(text) => after == open && (
                            action matches Action::CopyText(t) && t@ == text),
                        }
                    },
            }
        }
    }

    /// The task that was described is to be created.
    pub open spec fn creates(self, wizard: NewTaskWizard, now: i64, after: App, action: Action) -> bool {
        let request = wizard.request(self.detail.scope(), self.config.repos_dir@);
        &&& after.logs(
            (App { wizard: Some(wizard), ..self }),
            "Creating task "@ + request.name + "--"@ + request.branch + "..."@,
            now,
        )
        &&& action matches Action::CreateTask(r) && request_view(r) == request
    }

    fn create_task_from_wizard(&mut self, wizard: NewTaskWizard, now: i64) -> (action: Action)
        requires
            old(self).wf(),
            wizard.wf(),
            wizard.has_choice(),
        ensures
            final(self).wf(),
            old(self).creates(wizard, now, *final(self), action),
    {
        let request = wizard.task_request(
            &self.detail.current_project,
            self.config.repos_dir.as_str(),
        );
        self.wizard = Some(wizard);
        let mut line = concat("Creating task ", request.name.as_str());
        line.append("--");
        line.append(request.branch.as_str());
        line.append("...");
        self.log_output(line, now);
        Action::CreateTask(request)
    }

    pub fn handle_wizard_event(&mut self, key: KeyPress, clipboard: Option<String>, now: i64) -> (action:
        Action)
        requires
            old(self).wf(),
        ensures
            final(self).wf(),
            old(self).after_wizard_key(key, some_view(clipboard), now, *final(self), action),
    {
        if key.is_ctrl('c') {
            self.should_quit = true;
            return Action::Nothing;
        }
        let mut wizard = match self.wizard.take() {
            Some(wizard) => wizard,
            None => {
                self.view = View::TaskList;
                return Action::Nothing;
            },
        };
        let ghost before = wizard;
        let outcome = wizard.handle_key(key, clipboard);
        assert(before.after_key(key, some_view(clipboard), wizard));
        match outcome {
            WizardOutcome::Nothing => {
                self.wizard = Some(wizard);
                Action::Nothing
            },
            WizardOutcome::PickRepo => Action::StartWizard,
            WizardOutcome::CheckBranch(branch) => {
                let repo = wizard.selected_repo.clone();
                self.wizard = Some(wizard);
                Action::CheckTask { repo, branch }
            },
            WizardOutcome::Create => {
                let ghost held = App { wizard: None, ..*old(self) };
                assert(*self == held);
                let action = self.create_task_from_wizard(wizard, now);
                assert(held.creates(wizard, now, *self, action));
                assert(old(self).creates(wizard, now, *self, action));
                action
            },
            WizardOutcome::Copied(text) => {
                self.wizard = Some(wizard);
                Action::CopyText(text)
            },
        }
    }

    /// It was found out whether there is a task of the chosen branch.
    pub fn on_branch_checked(&mut self, taken: bool)
        requires
            old(self).wf(),
        ensures
            final(self).wf(),
            *final(self) == (App { wizard: final(self).wizard, ..*old(self) }),
            match old(self).wizard {
                None => final(self).wizard is None,
                Some(wizard) => final(self).wizard matches Some(next) && (
                match wizard.chosen_branch() {
                    Ok(branch) => if taken {
                        next.with_error(
                            wizard,
                            Some(
                                "Task '"@ + wizard.selected_repo@ + "--"@ + branch
                                    + "' already exists"@,
                            ),
                        )
                    } else {
                        next == (NewTaskWizard {
                            step: crate::wizard::WizardStep::EnterDescription,
                            ..wizard
                        })
                    },
                    Err(_) => next == wizard,
                }),
            },
    {
        if let Some(wizard) = &mut self.wizard {
            if let Ok(branch) = wizard.choose_branch() {
                wizard.branch_checked(branch.as_str(), taken);
            }
        }
    }

    /// The wizard shows that something failed, and the output pane why.
    pub open spec fn fails_in_wizard(
        self,
        what: Seq<char>,
        error: Seq<char>,
        now: i64,
        after: App,
    ) -> bool {
        &&& after.output.logs(self.output, "  Error: "@ + error, now)
        &&& after == (App { output: after.output, wizard: after.wizard, ..self })
        &&& match self.wizard {
            Some(wizard) => after.wizard matches Some(next) && next.with_error(
                wizard,
                Some(what + error),
            ),
            None => after.wizard is None,
        }
    }

    fn fail_in_wizard(&mut self, what: &str, error: &str, now: i64)
        requires
            old(self).wf(),
        ensures
            final(self).wf(),
            old(self).fails_in_wizard(what@, error@, now, *final(self)),
    {
        self.log_output(concat("  Error: ", error), now);
        if let Some(wizard) = &mut self.wizard {
            wizard.error_message = Some(concat(what, error));
        }
    }

    /// A task was created and is to be launched, or it could not be created.
    pub fn on_task_created(&mut self, result: Result<String, String>, now: i64) -> (action: Action)
        requires
            old(self).wf(),
        ensures
            final(self).wf(),
            match result {
                Ok(id) => (action matches Action::LaunchTask(i) && i == id) && final(self).logs(
                    *old(self),
                    "  Launching engineer via supervisor..."@,
                    now,
                ),
                Err(e) => action is Nothing && old(self).fails_in_wizard(
                    "Failed to create task: "@,
                    e@,
                    now,
                    *final(self),
                ),
            },
    {
        match result {
            Ok(id) => {
                self.log_output("  Launching engineer via supervisor...".to_owned(), now);
                Action::LaunchTask(id)
            },
            Err(e) => {
                self.fail_in_wizard("Failed to create task: ", e.as_str(), now);
                Action::Nothing
            },
        }
    }

    /// A new task was launched, or could not be.
    pub fn on_task_launched(&mut self, task_id: &str, result: Result<(), String>, now: i64) -> (action:
        Action)
        requires
            old(self).wf(),
        ensures
            final(self).wf(),
            match result {
                Ok(_) => {
                    let multi = old(self).wizard matches Some(w) && w.is_multi_repo;
                    &&& final(self).says(
                        (App { wizard: None, view: View::TaskList, ..*old(self) }),
                        if multi {
                            "Created multi-repo task: "@ + task_id@
                        } else {
                            "Created task: "@ + task_id@
                        },
                        now,
                    )
                    &&& if old(self).detail.current_project is Some {
                        action is RefreshTasks
                    } else {
                        action matches Action::RefreshAndSelect(id) && id@ == task_id@
                    }
                },
                Err(e) => action is Nothing && old(self).fails_in_wizard(
                    "Failed to launch engineer: "@,
                    e@,
                    now,
                    *final(self),
                ),
            },
    {
        match result {
            Ok(_) => {
                let multi = match &self.wizard {
                    Some(wizard) => wizard.is_multi_repo,
                    None => false,
                };
                self.wizard = None;
                self.view = View::TaskList;
                if multi {
                    self.say_of("Created multi-repo task: ", task_id, now);
                } else {
                    self.say_of("Created task: ", task_id, now);
                }
                if self.detail.current_project.is_some() {
                    Action::RefreshTasks
                } else {
                    Action::RefreshAndSelect(task_id.to_owned())
                }
            },
            Err(e) => {
                self.fail_in_wizard("Failed to launch engineer: ", e.as_str(), now);
                Action::Nothing
            },
        }
    }

    /// The wizard for a new agent is left, and the agents are read again.
    pub open spec fn leaves_agent_wizard(self, after: App, action: Action) -> bool {
        &&& after == (App { agent_wizard: None, view: View::TaskList, ..self })
        &&& action is RefreshAgents
    }

    /// What a key in the wizard for a new agent leads to.
    pub open spec fn after_agent_wizard_key(
        self,
        key: KeyPress,
        clipboard: Option<Seq<char>>,
        after: App,
        action: Action,
    ) -> bool {
        if key.is_ctrl('c') {
            after == (App { should_quit: true, ..self }) && action is Nothing
        } else {
            match self.agent_wizard {
                None => after == self && action is Nothing,
                Some(wizard) => if key.is_ctrl('s') {
                    match wizard.problem() {
                        Some(problem) => {
                            &&& action is Nothing
                            &&& after == (App { agent_wizard: after.agent_wizard, ..self })
                            &&& after.agent_wizard matches Some(next) && next.shows_error(
                                wizard,
                                problem.0,
                                problem.1,
                            )
                        },
                        None => after == self && (action matches Action::CreateAgent(r) && r@
                            == wizard.plan()),
                    }
                } else {
                    exists|next: AgentWizard| #[trigger]
                        wizard.after_key(key, clipboard, self.config.harness, next) && {
                            let open = App { agent_wizard: Some(next), ..self };
                            match wizard.outcome(key, clipboard, next) {
                                AgentOutcome::Nothing => after == open && action is Nothing,
                                AgentOutcome::Leave => self.leaves_agent_wizard(after, action),
                                AgentOutcome::Copied(text) => after == open && (
                                action matches Action::CopyText(t) && t@ == text),
                            }
                        }
                },
            }
        }
    }

    pub fn handle_agent_wizard_event(&mut self, key: KeyPress, clipboard: Option<String>) -> (action:
        Action)
        requires
            old(self).wf(),
        ensures
            final(self).wf(),
            old(self).after_agent_wizard_key(key, some_view(clipboard), *final(self), action),
    {
        if key.is_ctrl('c') {
            self.should_quit = true;
            return Action::Nothing;
        }
        let mut wizard = match self.agent_wizard.take() {
            Some(wizard) => wizard,
            None => {
                return Action::Nothing;
            },
        };
        if key.is_ctrl('s') {
            let request = wizard.submit_agent_wizard();
            self.agent_wizard = Some(wizard);
            return match request {
                Some(request) => Action::CreateAgent(request),
                None => Action::Nothing,
            };
        }
        let ghost before = wizard;
        let harness = self.config.harness;
        let outcome = wizard.handle_key(key, clipboard, harness);
        assert(before.after_key(key, some_view(clipboard), harness, wizard));
        match outcome {
            AgentOutcome::Nothing => {
                self.agent_wizard = Some(wizard);
                Action::Nothing
            },
            AgentOutcome::Leave => {
                self.view = View::TaskList;
                Action::RefreshAgents
            },
            AgentOutcome::Copied(text) => {
                self.agent_wizard = Some(wizard);
                Action::CopyText(text)
            },
        }
    }

    /// The word for the kind of agent that the wizard is about.
    pub open spec fn wizard_kind_word(wizard: AgentWizard) -> Seq<char> {
        wizard.kind.agent_kind().word()
    }

    /// An agent was created, or could not be.
    pub fn on_agent_created(&mut self, name: &str, result: Result<(), String>, now: i64) -> (action:
        Action)
        requires
            old(self).wf(),
        ensures
            final(self).wf(),
            match old(self).agent_wizard {
                None => *final(self) == *old(self) && action is Nothing,
                Some(wizard) => match result {
                    Ok(_) => action is RefreshAgents && final(self).says(
                        (App { agent_wizard: None, view: View::TaskList, ..*old(self) }),
                        "Created "@ + App::wizard_kind_word(wizard) + ": "@ + name@,
                        now,
                    ),
                    Err(e) => action is Nothing && *final(self) == (App {
                        agent_wizard: Some(
                            AgentWizard {
                                error_message: Some(e),
                                step: if wizard.kind.needs_worktrees() {
                                    crate::wizard::AgentWizardStep::Worktrees
                                } else {
                                    wizard.step
                                },
                                ..wizard
                            },
                        ),
                        ..*old(self)
                    }),
                },
            },
    {
        let mut wizard = match self.agent_wizard.take() {
            Some(wizard) => wizard,
            None => {
                return Action::Nothing;
            },
        };
        match result {
            Ok(_) => {
                let word = agent_kind_label(wizard.kind.agent_kind());
                let mut message = concat("Created ", word.as_str());
                message.append(": ");
                message.append(name);
                self.set_status(message, now);
                self.view = View::TaskList;
                Action::RefreshAgents
            },
            Err(e) => {
                wizard.creation_failed(e);
                self.agent_wizard = Some(wizard);
                Action::Nothing
            },
        }
    }
}

/// In the directory picker `s` and, on a repository or a favourite, enter take
/// what is selected where a repository is chosen; enter goes into any other
/// directory, and `h` up. Where the directory of repositories is chosen, `s`
/// takes the one that is shown.
pub proof fn the_selected_directory_is_taken(
    before: App,
    picker: DirectoryPicker,
    key: KeyPress,
    now: i64,
    after: App,
    action: Action,
)
    requires
        before.dir_picker == Some(picker),
        !key.ctrl,
        before.after_dir_key(key, now, after, action),
    ensures
        ({
            let repos = picker.origin is RepoSelect;
            let kind = picker.spec_entry_kind();
            let enter = key.code is Enter || key.code == KeyCode::Char('l');
            let takes = key.code == KeyCode::Char('s');
            let repo = kind == Some(DirKind::GitRepo);
            let several = kind == Some(DirKind::MultiRepoParent);
            let path = picker.spec_selected_path();
            &&& repos && (takes && (repo || several) || enter && repo) && path is Some ==> (
            action matches Action::ScanRepo { name, path: p, multi_repo } && Some(p@) == path
                && Some(name@) == picker.spec_selected_name() && multi_repo == several)
                && after.dir_picker is None
            &&& enter && !(repos && repo) ==> (picker.entry() matches Some(name) ==> (
            action matches Action::ListDir(dir) && dir@ == joined_path(picker.current_dir@, name)))
            &&& !repos && takes ==> (action matches Action::SaveReposDir(dir) && dir@
                == picker.current_dir@)
            &&& key.code == KeyCode::Char('h') ==> (parent_path(picker.current_dir@) matches Some(
                above,
            ) ==> (action matches Action::ListDir(dir) && dir@ == above))
            &&& key.code is Esc || key.code == KeyCode::Char('q') ==> after.dir_picker is None
                && after.view is TaskList && action is Nothing
        }),
{
}

/// The directory picker is gone through by the keys for up and down, round the
/// ends.
pub proof fn the_directory_picker_is_gone_through(
    before: App,
    picker: DirectoryPicker,
    key: KeyPress,
    now: i64,
    after: App,
    action: Action,
)
    requires
        before.dir_picker == Some(picker),
        picker.wf(),
        picker.selected_index < picker.items(),
        !key.ctrl,
        before.after_dir_key(key, now, after, action),
    ensures
        key.code is Down || key.code == KeyCode::Char('j') ==> (after.dir_picker matches Some(p)
            && p.selected_index == if picker.selected_index + 1 < picker.items() {
            picker.selected_index + 1
        } else {
            0
        }),
        key.code is Up || key.code == KeyCode::Char('k') ==> (after.dir_picker matches Some(p)
            && p.selected_index == if picker.selected_index > 0 {
            picker.selected_index - 1
        } else {
            picker.items() - 1
        }),
{
    crate::select::steps_go_to_the_neighbour(
        picker.selected_index as int,
        picker.items() as int,
    );
}

/// A task is created only with a request for what was entered in the wizard, in
/// the project that is open; before that, the chosen branch was asked about.
pub proof fn created_tasks_are_those_of_the_wizard(
    before: App,
    wizard: NewTaskWizard,
    key: KeyPress,
    clipboard: Option<Seq<char>>,
    now: i64,
    after: App,
    action: Action,
)
    requires
        before.wizard == Some(wizard),
        before.after_wizard_key(key, clipboard, now, after, action),
    ensures
        action matches Action::CreateTask(request) ==> ({
            &&& wizard.step is EnterDescription
            &&& key.ctrl && key.code == KeyCode::Char('s')
            &&& request.name@ == wizard.selected_repo@
            &&& request.branch@ == wizard.request_branch()
            &&& request.multi_repo == wizard.is_multi_repo
            &&& request.repo_path@ == wizard.selected_repo_path@
            &&& after.wizard is Some
        }),
        action matches Action::CheckTask { repo, branch } ==> ({
            &&& wizard.step is SelectBranch
            &&& key.code is Enter
            &&& repo@ == wizard.selected_repo@
            &&& wizard.chosen_branch() == Ok::<Seq<char>, Seq<char>>(branch@)
        }),
        wizard.step is SelectBranch && !key.ctrl && key.code is Enter ==> (
        wizard.chosen_branch() is Ok <==> action is CheckTask),
{
}

/// An agent is created only with what was entered in its wizard, where nothing
/// is wrong with it; what is wrong is shown in the wizard.
pub proof fn created_agents_are_those_of_the_wizard(
    before: App,
    wizard: AgentWizard,
    key: KeyPress,
    clipboard: Option<Seq<char>>,
    after: App,
    action: Action,
)
    requires
        before.agent_wizard == Some(wizard),
        before.after_agent_wizard_key(key, clipboard, after, action),
    ensures
        action matches Action::CreateAgent(request) ==> key.ctrl && key.code == KeyCode::Char('s')
            && request@ == wizard.plan() && wizard.problem() is None,
        key.ctrl && key.code == KeyCode::Char('s') && wizard.problem() is None ==> action
            is CreateAgent,
        key.ctrl && key.code == KeyCode::Char('s') && wizard.problem() is Some ==> action is Nothing
            && (after.agent_wizard matches Some(w) && w.error_message is Some),
        !key.ctrl && key.code is Esc && (wizard.step is Kind || wizard.step is Name) ==> after.view
            is TaskList && after.agent_wizard is None && action is RefreshAgents,
{
}

} // verus!
