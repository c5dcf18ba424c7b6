//! The dialogs that create tasks, projects and agents.

use crate::model::AgentKind;
use crate::text::{concat, texts, trim, trimmed};
use crate::textarea::{
    area_lines, area_state, fresh_state, lines_of, new_area, plain_cursor_line, TextArea,
};
use crate::vim::VimTextArea;
use vstd::prelude::*;

verus! {

#[derive(Debug, Clone, Copy, PartialEq, Eq, Structural)]
pub enum WizardStep {
    SelectBranch,
    EnterDescription,
}

#[derive(Debug, Clone, Copy, PartialEq, Eq, Structural)]
pub enum BranchSource {
    NewBranch,
    ExistingBranch,
    ExistingWorktree,
}

impl BranchSource {
    /// The next tab.
    #[verifier::allow_in_spec]
    pub fn next(self) -> BranchSource
        returns
            (match self {
                BranchSource::NewBranch => BranchSource::ExistingBranch,
                BranchSource::ExistingBranch => BranchSource::ExistingWorktree,
                BranchSource::ExistingWorktree => BranchSource::NewBranch,
            }),
    {
        match self {
            BranchSource::NewBranch => BranchSource::ExistingBranch,
            BranchSource::ExistingBranch => BranchSource::ExistingWorktree,
            BranchSource::ExistingWorktree => BranchSource::NewBranch,
        }
    }

    /// The previous tab.
    #[verifier::allow_in_spec]
    pub fn previous(self) -> BranchSource
        returns
            (match self {
                BranchSource::NewBranch => BranchSource::ExistingWorktree,
                BranchSource::ExistingBranch => BranchSource::NewBranch,
                BranchSource::ExistingWorktree => BranchSource::ExistingBranch,
            }),
    {
        match self {
            BranchSource::NewBranch => BranchSource::ExistingWorktree,
            BranchSource::ExistingBranch => BranchSource::NewBranch,
            BranchSource::ExistingWorktree => BranchSource::ExistingBranch,
        }
    }
}

/// Going forward and back through the tabs leads back.
pub proof fn branch_tabs_go_round(source: BranchSource)
    ensures
        source.next().previous() == source,
        source.previous().next() == source,
        source.next().next().next() == source,
{
}

/// The text of an editor for one line.
pub open spec fn line_text(area: TextArea<'_>) -> Seq<char> {
    concat_all(area_lines(area))
}

/// Texts one after the other.
pub open spec fn concat_all(parts: Seq<Seq<char>>) -> Seq<char>
    decreases parts.len(),
{
    if parts.len() == 0 {
        Seq::empty()
    } else {
        concat_all(parts.drop_last()) + parts.last()
    }
}

/// The lines of an editor one after the other.
pub fn joined_line(area: &TextArea<'_>) -> (s: String)
    ensures
        s@ == line_text(*area),
{
    let lines = lines_of(area);
    let mut s = String::new();
    let mut i: usize = 0;
    assert(texts(lines@).take(0) == Seq::<Seq<char>>::empty());
    while i < lines.len()
        invariant
            i <= lines.len(),
            s@ == concat_all(texts(lines@).take(i as int)),
        decreases lines.len() - i,
    {
        assert(texts(lines@).take(i + 1).drop_last() == texts(lines@).take(i as int));
        s.append(lines[i].as_str());
        i += 1;
    }
    assert(texts(lines@).take(i as int) == texts(lines@));
    s
}

/// The lines of an editor one after the other, without white space around them.
pub fn trimmed_line(area: &TextArea<'_>) -> (s: String)
    ensures
        s@ == trimmed(line_text(*area)),
{
    trim(joined_line(area).as_str())
}

/// An empty editor that underlines the cursor's line.
pub fn underlined_editor() -> (area: TextArea<'static>)
    ensures
        area_state(area) == fresh_state(Seq::empty()),
        area_state(area).wf(),
{
    let lines: Vec<String> = Vec::new();
    assert(texts(lines@) == Seq::<Seq<char>>::empty());
    new_area(lines)
}

/// An empty editor.
pub fn plain_editor() -> (area: TextArea<'static>)
    ensures
        area_state(area) == fresh_state(Seq::empty()),
        area_state(area).wf(),
{
    let lines: Vec<String> = Vec::new();
    assert(texts(lines@) == Seq::<Seq<char>>::empty());
    let mut area = new_area(lines);
    plain_cursor_line(&mut area);
    area
}

pub struct NewTaskWizard {
    pub step: WizardStep,
    /// The selected repo name (directory basename).
    pub selected_repo: String,
    /// The full path to the selected repo/parent directory.
    pub selected_repo_path: String,
    pub branch_source: BranchSource,
    pub existing_worktrees: Vec<(String, String)>,
    pub selected_worktree_index: usize,
    pub existing_branches: Vec<String>,
    pub selected_branch_index: usize,
    pub new_branch_editor: TextArea<'static>,
    pub base_branch_editor: TextArea<'static>,
    /// Which field has focus in the NewBranch tab: false = branch name, true = base branch.
    pub base_branch_focus: bool,
    pub description_editor: VimTextArea<'static>,
    pub error_message: Option<String>,
    /// True when a multi-repo parent directory was selected (not a git repo).
    pub is_multi_repo: bool,
}

impl NewTaskWizard {
    /// The editors are well-formed, the selections lie in their lists, and a
    /// description is entered only once a branch was chosen.
    pub open spec fn wf(self) -> bool {
        &&& area_state(self.new_branch_editor).wf()
        &&& area_state(self.base_branch_editor).wf()
        &&& self.description_editor.wf()
        &&& in_list(self.selected_worktree_index as int, self.existing_worktrees@.len() as int)
        &&& in_list(self.selected_branch_index as int, self.existing_branches@.len() as int)
        &&& (self.step is EnterDescription ==> self.has_choice())
    }

    /// There is something to choose from on the tab that is open.
    pub open spec fn has_choice(self) -> bool {
        match self.branch_source {
            BranchSource::NewBranch => true,
            BranchSource::ExistingBranch => self.existing_branches@.len() > 0,
            BranchSource::ExistingWorktree => self.existing_worktrees@.len() > 0,
        }
    }

    /// The selected repo name.
    pub fn selected_repo_name(&self) -> (name: &str)
        ensures
            name@ == self.selected_repo@,
    {
        self.selected_repo.as_str()
    }
}

/// An index lies in a list, or is the first one of an empty list.
pub open spec fn in_list(index: int, total: int) -> bool {
    0 <= index && (index < total || (index == 0 && total == 0))
}

/// What triggered the project picker modal.
#[derive(Debug, Clone, Copy, PartialEq, Eq, Structural)]
pub enum ProjectPickerAction {
    /// Migrate all unassigned tasks to the selected project.
    MigrateAllUnassigned,
}

pub struct ProjectPicker {
    pub projects: Vec<String>,
    pub selected: usize,
    pub action: ProjectPickerAction,
}

impl ProjectPicker {
    pub open spec fn wf(self) -> bool {
        in_list(self.selected as int, self.projects@.len() as int)
    }
}

pub struct ProjectWizard {
    pub name_editor: TextArea<'static>,
    pub description_editor: VimTextArea<'static>,
    /// false = name field focused, true = description field focused
    pub description_focus: bool,
    pub error_message: Option<String>,
}

impl ProjectWizard {
    pub open spec fn wf(self) -> bool {
        area_state(self.name_editor).wf() && self.description_editor.wf()
    }
}

/// Steps in the create-agent wizard.
///
/// Researchers and operators go directly from `Name` to `Description`.
/// Worktree-backed agents insert a `Worktrees` step; testers add an optional
/// capabilities step before description.
#[derive(Debug, Clone, Copy, PartialEq, Eq, Structural)]
pub enum AgentWizardStep {
    /// Pick the kind.
    Kind,
    /// Enter the agent name.
    Name,
    /// For kinds that work in worktrees: edit the (repo, branch) row list.
    Worktrees,
    /// Tester only: optional capability toggles.
    Capabilities,
    /// Final step: enter the description.
    Description,
}

#[derive(Debug, Clone, Copy, PartialEq, Eq, Structural)]
pub enum AgentWizardKind {
    Researcher,
    Reviewer,
    Tester,
    Operator,
}

impl AgentWizardKind {
    /// The kind that agents of the wizard have.
    #[verifier::allow_in_spec]
    pub fn agent_kind(self) -> AgentKind
        returns
            (match self {
                AgentWizardKind::Researcher => AgentKind::Researcher,
                AgentWizardKind::Reviewer => AgentKind::Reviewer,
                AgentWizardKind::Tester => AgentKind::Tester,
                AgentWizardKind::Operator => AgentKind::Operator,
            }),
    {
        match self {
            AgentWizardKind::Researcher => AgentKind::Researcher,
            AgentWizardKind::Reviewer => AgentKind::Reviewer,
            AgentWizardKind::Tester => AgentKind::Tester,
            AgentWizardKind::Operator => AgentKind::Operator,
        }
    }

    /// The stem of the name of the kind.
    #[verifier::allow_in_spec]
    pub fn stem(self) -> &'static str
        returns
            (match self {
                AgentWizardKind::Researcher => "Research",
                AgentWizardKind::Reviewer => "Review",
                AgentWizardKind::Tester => "Test",
                AgentWizardKind::Operator => "Operat",
            }),
    {
        match self {
            AgentWizardKind::Researcher => "Research",
            AgentWizardKind::Reviewer => "Review",
            AgentWizardKind::Tester => "Test",
            AgentWizardKind::Operator => "Operat",
        }
    }

    /// The name of the kind, with a capital letter.
    pub open spec fn label(self) -> Seq<char> {
        self.stem()@ + self.agent_kind().ending()@
    }

    /// The name of the kind, with a capital letter.
    pub fn name(self) -> (name: String)
        ensures
            name@ == self.label(),
    {
        concat(self.stem(), self.agent_kind().ending())
    }

    /// The next kind in the list, round.
    #[verifier::allow_in_spec]
    pub fn next(self) -> AgentWizardKind
        returns
            (match self {
                AgentWizardKind::Researcher => AgentWizardKind::Reviewer,
                AgentWizardKind::Reviewer => AgentWizardKind::Tester,
                AgentWizardKind::Tester => AgentWizardKind::Operator,
                AgentWizardKind::Operator => AgentWizardKind::Researcher,
            }),
    {
        match self {
            AgentWizardKind::Researcher => AgentWizardKind::Reviewer,
            AgentWizardKind::Reviewer => AgentWizardKind::Tester,
            AgentWizardKind::Tester => AgentWizardKind::Operator,
            AgentWizardKind::Operator => AgentWizardKind::Researcher,
        }
    }

    /// The previous kind in the list, round.
    #[verifier::allow_in_spec]
    pub fn previous(self) -> AgentWizardKind
        returns
            (match self {
                AgentWizardKind::Researcher => AgentWizardKind::Operator,
                AgentWizardKind::Reviewer => AgentWizardKind::Researcher,
                AgentWizardKind::Tester => AgentWizardKind::Reviewer,
                AgentWizardKind::Operator => AgentWizardKind::Tester,
            }),
    {
        match self {
            AgentWizardKind::Researcher => AgentWizardKind::Operator,
            AgentWizardKind::Reviewer => AgentWizardKind::Researcher,
            AgentWizardKind::Tester => AgentWizardKind::Reviewer,
            AgentWizardKind::Operator => AgentWizardKind::Tester,
        }
    }

    /// Whether agents of the kind work in worktrees that have to be named.
    #[verifier::allow_in_spec]
    pub fn needs_worktrees(self) -> bool
        returns
            (self is Reviewer || self is Tester),
    {
        matches!(self, AgentWizardKind::Reviewer | AgentWizardKind::Tester)
    }

    /// The step after the name.
    #[verifier::allow_in_spec]
    pub fn step_after_name(self) -> AgentWizardStep
        returns
            (if self.needs_worktrees() {
                AgentWizardStep::Worktrees
            } else {
                AgentWizardStep::Description
            }),
    {
        if self.needs_worktrees() {
            AgentWizardStep::Worktrees
        } else {
            AgentWizardStep::Description
        }
    }

    /// The step after the worktrees.
    #[verifier::allow_in_spec]
    pub fn step_after_worktrees(self) -> AgentWizardStep
        returns
            (if self is Tester {
                AgentWizardStep::Capabilities
            } else {
                AgentWizardStep::Description
            }),
    {
        if matches!(self, AgentWizardKind::Tester) {
            AgentWizardStep::Capabilities
        } else {
            AgentWizardStep::Description
        }
    }

    /// The step before the description.
    #[verifier::allow_in_spec]
    pub fn step_before_description(self) -> AgentWizardStep
        returns
            (match self {
                AgentWizardKind::Researcher | AgentWizardKind::Operator => AgentWizardStep::Name,
                AgentWizardKind::Reviewer => AgentWizardStep::Worktrees,
                AgentWizardKind::Tester => AgentWizardStep::Capabilities,
            }),
    {
        match self {
            AgentWizardKind::Researcher | AgentWizardKind::Operator => AgentWizardStep::Name,
            AgentWizardKind::Reviewer => AgentWizardStep::Worktrees,
            AgentWizardKind::Tester => AgentWizardStep::Capabilities,
        }
    }
}

/// Going forward and back through the kinds leads back, and four steps lead round.
pub proof fn agent_kinds_go_round(kind: AgentWizardKind)
    ensures
        kind.next().previous() == kind,
        kind.previous().next() == kind,
        kind.next().next().next().next() == kind,
{
}

/// The step before the description is the one that leads to it.
pub proof fn steps_back_lead_where_they_came_from(kind: AgentWizardKind)
    ensures
        kind.step_before_description() is Name <==> kind.step_after_name() is Description,
        kind.step_before_description() is Worktrees <==> kind.step_after_name() is Worktrees
            && kind.step_after_worktrees() is Description,
        kind.step_before_description() is Capabilities <==> kind.step_after_worktrees()
            is Capabilities,
{
}

/// One editable `(repo, branch)` row of the wizard.
pub struct ReviewerWorktreeRow {
    pub repo_editor: TextArea<'static>,
    pub branch_editor: TextArea<'static>,
    /// false = repo focused, true = branch focused
    pub branch_focus: bool,
}

impl ReviewerWorktreeRow {
    pub open spec fn wf(self) -> bool {
        area_state(self.repo_editor).wf() && area_state(self.branch_editor).wf()
    }

    pub fn new() -> (row: Self)
        ensures
            row.is_blank(),
            row.wf(),
    {
        ReviewerWorktreeRow {
            repo_editor: plain_editor(),
            branch_editor: plain_editor(),
            branch_focus: false,
        }
    }

    /// Nothing was entered yet.
    pub open spec fn is_blank(self) -> bool {
        &&& area_state(self.repo_editor) == fresh_state(Seq::empty())
        &&& area_state(self.branch_editor) == fresh_state(Seq::empty())
        &&& !self.branch_focus
    }

    pub open spec fn spec_repo(self) -> Seq<char> {
        trimmed(line_text(self.repo_editor))
    }

    pub open spec fn spec_branch(self) -> Seq<char> {
        trimmed(line_text(self.branch_editor))
    }

    pub fn repo(&self) -> (s: String)
        ensures
            s@ == self.spec_repo(),
    {
        trimmed_line(&self.repo_editor)
    }

    pub fn branch(&self) -> (s: String)
        ensures
            s@ == self.spec_branch(),
    {
        trimmed_line(&self.branch_editor)
    }
}

pub struct AgentWizard {
    pub kind: AgentWizardKind,
    pub step: AgentWizardStep,
    pub name_editor: TextArea<'static>,
    pub description_editor: VimTextArea<'static>,
    /// Editable `(repo, branch)` rows, for kinds that work in worktrees. The `selected_row` is
    /// the row currently focused for navigation in the worktrees step.
    pub worktree_rows: Vec<ReviewerWorktreeRow>,
    pub selected_row: usize,
    pub browser_capability: bool,
    pub error_message: Option<String>,
    pub project: String,
}

impl AgentWizard {
    /// There is always a row, one of them is selected, and the editors are well-formed.
    pub open spec fn wf(self) -> bool {
        &&& area_state(self.name_editor).wf()
        &&& self.description_editor.wf()
        &&& self.selected_row < self.worktree_rows@.len()
        &&& forall|i: int| 0 <= i < self.worktree_rows@.len() ==> (#[trigger]
            self.worktree_rows@[i]).wf()
    }
}

/// The text of an editor that holds one line is that line, and one without lines
/// holds none.
pub proof fn one_line_is_its_text(line: Seq<char>, parts: Seq<Seq<char>>)
    ensures
        concat_all(seq![line]) == line,
        concat_all(Seq::empty()) == Seq::<char>::empty(),
        concat_all(parts.push(line)) == concat_all(parts) + line,
{
    assert(seq![line].drop_last() =~= Seq::<Seq<char>>::empty());
    assert(concat_all(seq![line].drop_last()) == Seq::<char>::empty());
    assert(concat_all(seq![line]) =~= line);
    assert(parts.push(line).drop_last() =~= parts);
}

} // verus!
