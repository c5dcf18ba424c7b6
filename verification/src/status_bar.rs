//! The status bar: hints on keys, the last message, and how messaging fares.

use crate::app::App;
use crate::archive::{Archive, ArchiveKind};
use crate::detail::{ProjectDetail, ProjectDetailRow, RowShape};
use crate::hints::{
    hint, hint_line, hints_of, hints_view, no_hints, push_hint, push_hint_line, push_hints, Hint,
    HintView,
};
use crate::list::ProjectList;
use crate::model::{unassigned, GithubNotification, Task};
use crate::notes::NotesFocus;
use crate::notifs::Notifications;
use crate::screen::View;
use crate::style::{
    append_spans, colored, no_spans, push_owned, push_span, spans_view, Color, Line, Span, Style,
};
use crate::text::{decimal, number};
use crate::wizard::{NewTaskWizard, WizardStep};
use vstd::prelude::*;
use vstd::view::View as _;

verus! {

/// How the Telegram bot fares.
#[derive(Clone, Copy, Debug, PartialEq, Eq, Structural)]
pub enum TelegramHealth {
    Disabled,
    Healthy,
    Stale,
    Dead,
    NeverPolled,
}

/// The pane of a project that has the focus.
#[derive(Clone, Copy, Debug, PartialEq, Eq, Structural)]
pub enum ProjectPaneFocus {
    Tasks,
    Agents,
}

impl ProjectDetail {
    /// The pane in which the selected row stands.
    pub open spec fn focus(self) -> ProjectPaneFocus {
        match self.selected_row() {
            Some(RowShape::UnattachedAgent(_)) => ProjectPaneFocus::Agents,
            _ => ProjectPaneFocus::Tasks,
        }
    }

    /// The pane in which the selected row stands.
    pub fn pane_focus(&self) -> (focus: ProjectPaneFocus)
        ensures
            focus == self.focus(),
    {
        match self.selected_project_detail_row() {
            Some(ProjectDetailRow::UnattachedAgent { .. }) => ProjectPaneFocus::Agents,
            _ => ProjectPaneFocus::Tasks,
        }
    }

    /// A project is shown, not the tasks without one.
    pub open spec fn shows_project(self) -> bool {
        self.current_project matches Some(p) && p@ != unassigned()
    }

    fn is_project(&self) -> (yes: bool)
        ensures
            yes == self.shows_project(),
    {
        match &self.current_project {
            Some(p) => !crate::model::is_unassigned(p.as_str()),
            None => false,
        }
    }
}

/// Whether a notification is unread.
pub open spec fn is_unread() -> spec_fn(GithubNotification) -> bool {
    |n: GithubNotification| n.unread
}

impl Notifications {
    /// How many notifications are unread.
    pub open spec fn unread(self) -> nat {
        self.list@.filter(is_unread()).len()
    }

    /// How many notifications are unread.
    pub fn unread_count(&self) -> (n: usize)
        ensures
            n == self.unread(),
    {
        let mut n: usize = 0;
        let mut i: usize = 0;
        assert(self.list@.take(0).filter(is_unread()).len() == 0) by {
            reveal(Seq::filter);
        }
        while i < self.list.len()
            invariant
                i <= self.list.len(),
                n <= i,
                n == self.list@.take(i as int).filter(is_unread()).len(),
            decreases self.list.len() - i,
        {
            proof {
                let ghost next = self.list@.take(i + 1);
                assert(next.drop_last() =~= self.list@.take(i as int));
                reveal(Seq::filter);
            }
            if self.list[i].unread {
                n += 1;
            }
            i += 1;
        }
        assert(self.list@.take(i as int) =~= self.list@);
        n
    }

    /// What the hint on the notifications says.
    pub open spec fn inbox_label(self) -> Seq<char> {
        if self.unread() > 0 {
            " inbox("@ + decimal(self.unread()) + ")  "@
        } else if !self.first_poll_done {
            " inbox(...)  "@
        } else {
            " inbox  "@
        }
    }

    fn label(&self) -> (label: String)
        ensures
            label@ == self.inbox_label(),
    {
        let unread = self.unread_count();
        if unread > 0 {
            let mut label = " inbox(".to_owned();
            label.append(number(unread as u64).as_str());
            label.append(")  ");
            label
        } else if !self.first_poll_done {
            " inbox(...)  ".to_owned()
        } else {
            " inbox  ".to_owned()
        }
    }
}

/// The hints on the project list. What can be done with the selected entry is
/// shown for it alone.
pub open spec fn list_hints(list: ProjectList, inbox: Seq<char>) -> Seq<HintView> {
    let i = list.selected_project_index as int;
    let n = list.projects@.len();
    seq![
        hint("j/k", Color::LightCyan, " nav  "),
        hint("enter", Color::LightGreen, " open  "),
        hint("n", Color::LightGreen, " new  "),
        hint("c", Color::LightYellow, " CoS chat  "),
    ] + (if i >= n && list.unassigned_task_count > 0 {
        seq![hint("m", Color::LightMagenta, " migrate  ")]
    } else {
        seq![]
    }) + (if i < n {
        seq![
            hint("d", Color::LightRed, " delete  "),
            hint(
                "h",
                Color::LightYellow,
                if list.projects@[i].meta.held {
                    " unhold  "
                } else {
                    " hold  "
                },
            ),
        ]
    } else {
        seq![]
    }) + seq![
        hint("e", Color::LightMagenta, " respawn  "),
        hint("o", Color::LightYellow, " notes  "),
        ("i"@, Color::LightYellow, inbox),
        hint("p", Color::LightYellow, " prs  "),
        hint(",", Color::LightYellow, " settings  "),
    ]
}

fn list_hint_table(list: &ProjectList, inbox: String) -> (hints: Vec<Hint>)
    ensures
        hints_view(hints@) == list_hints(*list, inbox@),
{
    let i = list.selected_project_index;
    let mut hints = hints_of(
        &[
            ("j/k", Color::LightCyan, " nav  "),
            ("enter", Color::LightGreen, " open  "),
            ("n", Color::LightGreen, " new  "),
            ("c", Color::LightYellow, " CoS chat  "),
        ],
    );
    if i >= list.projects.len() && list.unassigned_task_count > 0 {
        push_hints(&mut hints, &[("m", Color::LightMagenta, " migrate  ")]);
    }
    if i < list.projects.len() {
        let hold = if list.projects[i].meta.held {
            " unhold  "
        } else {
            " hold  "
        };
        push_hints(
            &mut hints,
            &[("d", Color::LightRed, " delete  "), ("h", Color::LightYellow, hold)],
        );
    }
    push_hints(
        &mut hints,
        &[("e", Color::LightMagenta, " respawn  "), ("o", Color::LightYellow, " notes  ")],
    );
    push_hint(&mut hints, "i", Color::LightYellow, inbox);
    push_hints(
        &mut hints,
        &[("p", Color::LightYellow, " prs  "), (",", Color::LightYellow, " settings  ")],
    );
    assert(hints_view(hints@) =~= list_hints(*list, inbox@));
    hints
}

/// The hints on a selected task.
pub open spec fn task_hints(task: Option<Task>) -> Seq<HintView> {
    match task {
        Some(task) => (if task.meta.linked_pr is Some {
            seq![hint("o", Color::LightYellow, " open pr  ")]
        } else {
            seq![]
        }) + seq![hint("r", Color::LightMagenta, " rerun  ")],
        None => seq![],
    }
}

fn push_task_hints(hints: &mut Vec<Hint>, task: Option<&Task>)
    ensures
        hints_view(final(hints)@) == hints_view(old(hints)@) + task_hints(
            match task {
                Some(t) => Some(*t),
                None => None,
            },
        ),
{
    let ghost before = hints_view(hints@);
    if let Some(task) = task {
        if task.meta.linked_pr.is_some() {
            push_hints(hints, &[("o", Color::LightYellow, " open pr  ")]);
        }
        push_hints(hints, &[("r", Color::LightMagenta, " rerun  ")]);
        assert(hints_view(hints@) =~= before + task_hints(Some(*task)));
    } else {
        assert(hints_view(hints@) =~= before + task_hints(None));
    }
}

impl ProjectDetail {
    /// The task that is selected.
    pub open spec fn task(self) -> Option<Task> {
        match self.spec_selected_task() {
            Some(i) => Some(self.tasks@[i]),
            None => None,
        }
    }

    /// The hints on the page of a project.
    pub open spec fn hints(self) -> Seq<HintView> {
        let project = self.shows_project();
        let respawn = if project {
            seq![hint("e", Color::LightMagenta, " respawn  ")]
        } else {
            seq![]
        };
        seq![
            hint("Tab", Color::LightCyan, " pane  "),
            hint("j/k", Color::LightCyan, " nav  "),
            hint("n", Color::LightGreen, " new  "),
        ] + (if project {
            seq![hint("c", Color::LightYellow, " PM chat  ")]
        } else {
            seq![]
        }) + (match self.focus() {
            ProjectPaneFocus::Agents => seq![
                hint("enter", Color::LightGreen, " attach  "),
                hint("d", Color::LightRed, " archive  "),
                hint("z", Color::LightYellow, " archived  "),
            ] + respawn,
            ProjectPaneFocus::Tasks => task_hints(self.task()) + (if self.task() is Some {
                seq![hint("d", Color::LightRed, " archive  ")]
            } else {
                seq![]
            }) + respawn + seq![hint("z", Color::LightYellow, " archived  ")],
        }) + (if self.current_project is Some {
            seq![hint("q", Color::LightCyan, " back")]
        } else {
            seq![]
        })
    }

    fn push_respawn(&self, hints: &mut Vec<Hint>)
        ensures
            hints_view(final(hints)@) == hints_view(old(hints)@) + (if self.shows_project() {
                seq![hint("e", Color::LightMagenta, " respawn  ")]
            } else {
                seq![]
            }),
    {
        let ghost before = hints_view(hints@);
        if self.is_project() {
            push_hints(hints, &[("e", Color::LightMagenta, " respawn  ")]);
            assert(hints_view(hints@) =~= before + seq![
                hint("e", Color::LightMagenta, " respawn  "),
            ]);
        } else {
            assert(hints_view(hints@) =~= before + seq![]);
        }
    }

    fn hint_table(&self) -> (hints: Vec<Hint>)
        ensures
            hints_view(hints@) == self.hints(),
    {
        let mut hints = hints_of(
            &[
                ("Tab", Color::LightCyan, " pane  "),
                ("j/k", Color::LightCyan, " nav  "),
                ("n", Color::LightGreen, " new  "),
            ],
        );
        if self.is_project() {
            push_hints(&mut hints, &[("c", Color::LightYellow, " PM chat  ")]);
        }
        match self.pane_focus() {
            ProjectPaneFocus::Agents => {
                push_hints(
                    &mut hints,
                    &[
                        ("enter", Color::LightGreen, " attach  "),
                        ("d", Color::LightRed, " archive  "),
                        ("z", Color::LightYellow, " archived  "),
                    ],
                );
                self.push_respawn(&mut hints);
            },
            ProjectPaneFocus::Tasks => {
                let task = self.selected_task();
                push_task_hints(&mut hints, task);
                if task.is_some() {
                    push_hints(&mut hints, &[("d", Color::LightRed, " archive  ")]);
                }
                self.push_respawn(&mut hints);
                push_hints(&mut hints, &[("z", Color::LightYellow, " archived  ")]);
            },
        }
        if self.current_project.is_some() {
            push_hints(&mut hints, &[("q", Color::LightCyan, " back")]);
        }
        assert(hints_view(hints@) =~= self.hints());
        hints
    }
}

/// The hints on the preview of a task.
pub open spec fn preview_hints(editing: bool, task: Option<Task>) -> Seq<HintView> {
    if editing {
        seq![hint("Esc", Color::LightGreen, " save & exit editing")]
    } else {
        seq![hint("Tab", Color::LightCyan, " pane  ")] + task_hints(task) + seq![
            hint("Enter", Color::LightCyan, " attach  "),
            hint("q", Color::LightCyan, " back"),
        ]
    }
}

fn preview_hint_table(editing: bool, task: Option<&Task>) -> (hints: Vec<Hint>)
    ensures
        hints_view(hints@) == preview_hints(
            editing,
            match task {
                Some(t) => Some(*t),
                None => None,
            },
        ),
{
    if editing {
        let hints = hints_of(&[("Esc", Color::LightGreen, " save & exit editing")]);
        assert(hints_view(hints@) =~= preview_hints(true, None));
        return hints;
    }
    let mut hints = hints_of(&[("Tab", Color::LightCyan, " pane  ")]);
    push_task_hints(&mut hints, task);
    push_hints(
        &mut hints,
        &[("Enter", Color::LightCyan, " attach  "), ("q", Color::LightCyan, " back")],
    );
    proof {
        let t = match task {
            Some(t) => Some(*t),
            None => None,
        };
        assert(hints_view(hints@) =~= preview_hints(false, t));
    }
    hints
}

/// The hints on a step of the wizard for a new task.
pub open spec fn wizard_hints(wizard: Option<NewTaskWizard>) -> Seq<HintView> {
    match wizard {
        Some(w) => match w.step {
            WizardStep::SelectBranch => seq![
                hint("Tab", Color::LightCyan, " mode  "),
                hint("j/k", Color::LightCyan, " nav  "),
                hint("Enter", Color::LightGreen, " next  "),
                hint("Esc", Color::LightRed, " back"),
            ],
            WizardStep::EnterDescription => seq![
                hint("Ctrl+S", Color::LightGreen, " create  "),
                hint("Esc", Color::LightRed, " back"),
            ],
        },
        None => seq![],
    }
}

fn wizard_hint_table(wizard: &Option<NewTaskWizard>) -> (hints: Vec<Hint>)
    ensures
        hints_view(hints@) == wizard_hints(*wizard),
{
    let hints = match wizard {
        Some(w) => match w.step {
            WizardStep::SelectBranch => hints_of(
                &[
                    ("Tab", Color::LightCyan, " mode  "),
                    ("j/k", Color::LightCyan, " nav  "),
                    ("Enter", Color::LightGreen, " next  "),
                    ("Esc", Color::LightRed, " back"),
                ],
            ),
            WizardStep::EnterDescription => hints_of(
                &[("Ctrl+S", Color::LightGreen, " create  "), ("Esc", Color::LightRed, " back")],
            ),
        },
        None => no_hints(),
    };
    assert(hints_view(hints@) =~= wizard_hints(*wizard));
    hints
}

/// The hints on the notes.
pub open spec fn notes_hints(in_editor: bool) -> Seq<HintView> {
    if in_editor {
        seq![
            hint("Tab", Color::LightCyan, " explorer  "),
            hint("Ctrl+s", Color::LightGreen, " save  "),
            hint("q", Color::LightCyan, " back"),
        ]
    } else {
        seq![
            hint("j/k", Color::LightCyan, " nav  "),
            hint("J/K", Color::LightCyan, " reorder  "),
            hint("l", Color::LightGreen, " open  "),
            hint("h", Color::LightCyan, " back  "),
            hint("a", Color::LightGreen, " new  "),
            hint("A", Color::LightGreen, " dir  "),
            hint("d", Color::LightRed, " del  "),
            hint("x", Color::LightYellow, " cut  "),
            hint("p", Color::LightGreen, " paste  "),
            hint("r", Color::LightYellow, " rename  "),
            hint("Tab", Color::LightCyan, " editor  "),
            hint("q", Color::LightCyan, " back"),
        ]
    }
}

fn notes_hint_table(in_editor: bool) -> (hints: Vec<Hint>)
    ensures
        hints_view(hints@) == notes_hints(in_editor),
{
    let hints = if in_editor {
        hints_of(
            &[
                ("Tab", Color::LightCyan, " explorer  "),
                ("Ctrl+s", Color::LightGreen, " save  "),
                ("q", Color::LightCyan, " back"),
            ],
        )
    } else {
        hints_of(
            &[
                ("j/k", Color::LightCyan, " nav  "),
                ("J/K", Color::LightCyan, " reorder  "),
                ("l", Color::LightGreen, " open  "),
                ("h", Color::LightCyan, " back  "),
                ("a", Color::LightGreen, " new  "),
                ("A", Color::LightGreen, " dir  "),
                ("d", Color::LightRed, " del  "),
                ("x", Color::LightYellow, " cut  "),
                ("p", Color::LightGreen, " paste  "),
                ("r", Color::LightYellow, " rename  "),
                ("Tab", Color::LightCyan, " editor  "),
                ("q", Color::LightCyan, " back"),
            ],
        )
    };
    assert(hints_view(hints@) =~= notes_hints(in_editor));
    hints
}

/// The hints on the settings; the last two of them can be edited.
pub open spec fn settings_hints(editing: bool, selected: usize) -> Seq<HintView> {
    if editing {
        seq![
            hint("Enter", Color::LightCyan, " save  "),
            hint("Esc", Color::LightCyan, " cancel"),
        ]
    } else {
        seq![
            hint("h/l", Color::LightCyan, " adjust  "),
            hint("j/k", Color::LightCyan, " nav  "),
        ] + (if selected >= 2 {
            seq![hint("Enter", Color::LightCyan, " edit  ")]
        } else {
            seq![]
        }) + seq![hint("q", Color::LightCyan, " back")]
    }
}

fn settings_hint_table(editing: bool, selected: usize) -> (hints: Vec<Hint>)
    ensures
        hints_view(hints@) == settings_hints(editing, selected),
{
    if editing {
        let hints = hints_of(
            &[("Enter", Color::LightCyan, " save  "), ("Esc", Color::LightCyan, " cancel")],
        );
        assert(hints_view(hints@) =~= settings_hints(true, selected));
        return hints;
    }
    let mut hints = hints_of(
        &[("h/l", Color::LightCyan, " adjust  "), ("j/k", Color::LightCyan, " nav  ")],
    );
    if selected >= 2 {
        push_hints(&mut hints, &[("Enter", Color::LightCyan, " edit  ")]);
    }
    push_hints(&mut hints, &[("q", Color::LightCyan, " back")]);
    assert(hints_view(hints@) =~= settings_hints(false, selected));
    hints
}

impl Archive {
    /// The task that is selected among those found.
    pub open spec fn task(self) -> Option<Task> {
        let found = self.filtered();
        if self.selected < found.len() && 0 <= found[self.selected as int] < self.tasks@.len() {
            Some(self.tasks@[found[self.selected as int]].0)
        } else {
            None
        }
    }

    /// The selected task was saved from being purged.
    pub open spec fn task_saved(self) -> bool {
        self.task() matches Some(t) && t.meta.saved
    }

    /// The task that is selected among those found.
    pub fn found_task(&self) -> (task: Option<&Task>)
        ensures
            match task {
                Some(t) => self.task() == Some(*t),
                None => self.task() is None,
            },
    {
        let found = self.archive_filtered_indices();
        if self.selected < found.len() {
            let i = found[self.selected];
            if i < self.tasks.len() {
                return Some(&self.tasks[i].0);
            }
        }
        None
    }

    /// The hints on the archive.
    pub open spec fn hints(self) -> Seq<HintView> {
        if self.preview is Some {
            seq![hint("j/k", Color::LightCyan, " scroll  ")] + (match self.kind {
                ArchiveKind::Tasks => seq![
                    hint(
                        "s",
                        Color::LightGreen,
                        if self.task_saved() {
                            " unsave  "
                        } else {
                            " save  "
                        },
                    ),
                    hint("n", Color::LightCyan, " new-from  "),
                ],
                ArchiveKind::Agents => seq![hint("n", Color::LightCyan, " restore  ")],
            }) + seq![
                hint("d", Color::LightRed, " delete  "),
                hint("Esc", Color::LightCyan, " close"),
            ]
        } else {
            seq![
                hint("\u{2191}\u{2193}", Color::LightCyan, " navigate  "),
                hint("Enter", Color::LightGreen, " preview  "),
                hint("Esc", Color::LightCyan, " back"),
            ]
        }
    }

    fn hint_table(&self) -> (hints: Vec<Hint>)
        ensures
            hints_view(hints@) == self.hints(),
    {
        if self.preview.is_none() {
            let hints = hints_of(
                &[
                    ("\u{2191}\u{2193}", Color::LightCyan, " navigate  "),
                    ("Enter", Color::LightGreen, " preview  "),
                    ("Esc", Color::LightCyan, " back"),
                ],
            );
            assert(hints_view(hints@) =~= self.hints());
            return hints;
        }
        let mut hints = hints_of(&[("j/k", Color::LightCyan, " scroll  ")]);
        match self.kind {
            ArchiveKind::Tasks => {
                let saved = match self.found_task() {
                    Some(task) => task.meta.saved,
                    None => false,
                };
                let label = if saved {
                    " unsave  "
                } else {
                    " save  "
                };
                push_hints(
                    &mut hints,
                    &[("s", Color::LightGreen, label), ("n", Color::LightCyan, " new-from  ")],
                );
            },
            ArchiveKind::Agents => {
                push_hints(&mut hints, &[("n", Color::LightCyan, " restore  ")]);
            },
        }
        push_hints(
            &mut hints,
            &[("d", Color::LightRed, " delete  "), ("Esc", Color::LightCyan, " close")],
        );
        assert(hints_view(hints@) =~= self.hints());
        hints
    }
}

/// The hints on views in which they never change.
pub open spec fn fixed_hints(view: View) -> Seq<HintView> {
    match view {
        View::DeleteConfirm => seq![
            hint("Enter", Color::LightGreen, " archive  "),
            hint("Esc/q", Color::LightRed, " cancel"),
        ],
        View::SessionPicker => seq![
            hint("j/k", Color::LightCyan, " nav  "),
            hint("Enter", Color::LightGreen, " select  "),
            hint("Esc", Color::LightRed, " cancel"),
        ],
        View::DirectoryPicker => seq![
            hint("j/k", Color::LightCyan, " nav  "),
            hint("l/Enter", Color::LightGreen, " open  "),
            hint("h", Color::LightGreen, " up  "),
            hint("s", Color::LightGreen, " select  "),
            hint("Esc", Color::LightRed, " cancel"),
        ],
        View::Notifications => seq![
            hint("j/k", Color::LightCyan, " nav  "),
            hint("d", Color::LightRed, " done  "),
            hint("o", Color::LightGreen, " open  "),
            hint("q", Color::LightCyan, " back"),
        ],
        View::ShowPrs => seq![
            hint("j/k", Color::LightCyan, " nav  "),
            hint("o", Color::LightGreen, " open  "),
            hint("r", Color::LightYellow, " refresh  "),
            hint("q", Color::LightCyan, " back"),
        ],
        View::ProjectWizard => seq![
            hint("Tab", Color::LightCyan, " switch field  "),
            hint("Ctrl+S", Color::LightGreen, " create  "),
            hint("Esc", Color::LightCyan, " cancel"),
        ],
        View::ProjectPicker => seq![
            hint("j/k", Color::LightCyan, " nav  "),
            hint("Enter", Color::LightGreen, " select  "),
            hint("Esc", Color::LightCyan, " cancel"),
        ],
        View::ProjectDeleteConfirm => seq![
            hint("Enter", Color::LightRed, " confirm  "),
            hint("Esc", Color::LightCyan, " cancel"),
        ],
        View::AgentWizard => seq![
            hint("Tab", Color::LightCyan, " next  "),
            hint("Ctrl+S", Color::LightGreen, " create  "),
            hint("Esc", Color::LightCyan, " cancel"),
        ],
        _ => seq![],
    }
}

fn fixed_hint_table(view: View) -> (hints: Vec<Hint>)
    ensures
        hints_view(hints@) == fixed_hints(view),
{
    let hints = match view {
        View::DeleteConfirm => hints_of(
            &[("Enter", Color::LightGreen, " archive  "), ("Esc/q", Color::LightRed, " cancel")],
        ),
        View::SessionPicker => hints_of(
            &[
                ("j/k", Color::LightCyan, " nav  "),
                ("Enter", Color::LightGreen, " select  "),
                ("Esc", Color::LightRed, " cancel"),
            ],
        ),
        View::DirectoryPicker => hints_of(
            &[
                ("j/k", Color::LightCyan, " nav  "),
                ("l/Enter", Color::LightGreen, " open  "),
                ("h", Color::LightGreen, " up  "),
                ("s", Color::LightGreen, " select  "),
                ("Esc", Color::LightRed, " cancel"),
            ],
        ),
        View::Notifications => hints_of(
            &[
                ("j/k", Color::LightCyan, " nav  "),
                ("d", Color::LightRed, " done  "),
                ("o", Color::LightGreen, " open  "),
                ("q", Color::LightCyan, " back"),
            ],
        ),
        View::ShowPrs => hints_of(
            &[
                ("j/k", Color::LightCyan, " nav  "),
                ("o", Color::LightGreen, " open  "),
                ("r", Color::LightYellow, " refresh  "),
                ("q", Color::LightCyan, " back"),
            ],
        ),
        View::ProjectWizard => hints_of(
            &[
                ("Tab", Color::LightCyan, " switch field  "),
                ("Ctrl+S", Color::LightGreen, " create  "),
                ("Esc", Color::LightCyan, " cancel"),
            ],
        ),
        View::ProjectPicker => hints_of(
            &[
                ("j/k", Color::LightCyan, " nav  "),
                ("Enter", Color::LightGreen, " select  "),
                ("Esc", Color::LightCyan, " cancel"),
            ],
        ),
        View::ProjectDeleteConfirm => hints_of(
            &[("Enter", Color::LightRed, " confirm  "), ("Esc", Color::LightCyan, " cancel")],
        ),
        View::AgentWizard => hints_of(
            &[
                ("Tab", Color::LightCyan, " next  "),
                ("Ctrl+S", Color::LightGreen, " create  "),
                ("Esc", Color::LightCyan, " cancel"),
            ],
        ),
        _ => no_hints(),
    };
    assert(hints_view(hints@) =~= fixed_hints(view));
    hints
}

/// The colour of the dot that shows how the bot fares; none where there is no
/// bot.
pub open spec fn health_color(health: TelegramHealth) -> Option<Color> {
    match health {
        TelegramHealth::Disabled => None,
        TelegramHealth::Healthy => Some(Color::LightGreen),
        TelegramHealth::Stale => Some(Color::LightYellow),
        TelegramHealth::Dead | TelegramHealth::NeverPolled => Some(Color::LightRed),
    }
}

/// Status-bar Telegram health indicator: `tg ●` coloured by how the bot fares.
/// It is empty when the bot is not configured.
pub fn telegram_health_spans(health: TelegramHealth) -> (spans: Vec<Span>)
    ensures
        spans_view(spans@) == match health_color(health) {
            Some(color) => seq![
                ("tg "@, colored(Color::DarkGray)),
                ("\u{25CF}"@, colored(color)),
            ],
            None => seq![],
        },
{
    let mut spans = no_spans();
    let color = match health {
        TelegramHealth::Disabled => {
            return spans;
        },
        TelegramHealth::Healthy => Color::LightGreen,
        TelegramHealth::Stale => Color::LightYellow,
        TelegramHealth::Dead | TelegramHealth::NeverPolled => Color::LightRed,
    };
    push_span(&mut spans, "tg ", colored(Color::DarkGray));
    push_span(&mut spans, "\u{25CF}", colored(color));
    spans
}

impl App {
    /// The hints on the view that is shown.
    pub open spec fn hints(self) -> Seq<HintView> {
        match self.view {
            View::ProjectList => list_hints(self.list, self.notifs.inbox_label()),
            View::TaskList => self.detail.hints(),
            View::Preview => preview_hints(self.preview.notes_editing, self.detail.task()),
            View::NewTaskWizard => wizard_hints(self.wizard),
            View::Notes => notes_hints(self.notes_view matches Some(n) && n.focus is Editor),
            View::Settings => settings_hints(self.settings.editing, self.settings.selected),
            View::Archive => self.archive.hints(),
            view => fixed_hints(view),
        }
    }

    fn hint_table(&self) -> (hints: Vec<Hint>)
        ensures
            hints_view(hints@) == self.hints(),
    {
        match self.view {
            View::ProjectList => list_hint_table(&self.list, self.notifs.label()),
            View::TaskList => self.detail.hint_table(),
            View::Preview => preview_hint_table(
                self.preview.notes_editing,
                self.detail.selected_task(),
            ),
            View::NewTaskWizard => wizard_hint_table(&self.wizard),
            View::Notes => {
                let in_editor = match &self.notes_view {
                    Some(n) => matches!(n.focus, NotesFocus::Editor),
                    None => false,
                };
                notes_hint_table(in_editor)
            },
            View::Settings => settings_hint_table(self.settings.editing, self.settings.selected),
            View::Archive => self.archive.hint_table(),
            view => fixed_hint_table(view),
        }
    }

    /// The warning of inboxes that messages cannot be delivered to.
    pub open spec fn stall_banner(self) -> Seq<(Seq<char>, Style)> {
        let n = self.inbox.stalled().len();
        if n > 0 {
            seq![("⚠ "@ + decimal(n) + " stalled inbox(es)  "@, colored(Color::LightRed))]
        } else {
            seq![]
        }
    }

    /// The last message, behind a bar.
    pub open spec fn message_spans(self) -> Seq<(Seq<char>, Style)> {
        match self.status_message {
            Some(message) => seq![
                (" │ "@, colored(Color::DarkGray)),
                (message.0@, colored(Color::LightYellow)),
            ],
            None => seq![],
        }
    }

    /// How the bot fares, behind a bar, in the two main views.
    pub open spec fn health_spans(self, health: TelegramHealth) -> Seq<(Seq<char>, Style)> {
        match health_color(health) {
            Some(color) if self.view is ProjectList || self.view is TaskList => seq![
                (" │ "@, colored(Color::DarkGray)),
                ("tg "@, colored(Color::DarkGray)),
                ("\u{25CF}"@, colored(color)),
            ],
            _ => seq![],
        }
    }

    /// The text of the status bar.
    pub fn status_bar(&self, health: TelegramHealth) -> (line: Line)
        ensures
            line@ == self.stall_banner() + hint_line(self.hints()) + self.message_spans()
                + self.health_spans(health),
    {
        let mut spans = no_spans();
        let stalled = self.inbox.stalled_targets();
        if stalled.len() > 0 {
            let mut banner = "⚠ ".to_owned();
            banner.append(number(stalled.len() as u64).as_str());
            banner.append(" stalled inbox(es)  ");
            push_owned(&mut spans, banner, colored(Color::LightRed));
        }
        assert(spans_view(spans@) =~= self.stall_banner());
        push_hint_line(&mut spans, self.hint_table());
        let ghost so_far = spans_view(spans@);
        if let Some(message) = &self.status_message {
            push_span(&mut spans, " │ ", colored(Color::DarkGray));
            push_span(&mut spans, message.0.as_str(), colored(Color::LightYellow));
        }
        assert(spans_view(spans@) =~= so_far + self.message_spans());
        let ghost so_far = spans_view(spans@);
        match self.view {
            View::ProjectList | View::TaskList => {
                let tg = telegram_health_spans(health);
                assert(tg@.len() == spans_view(tg@).len());
                if tg.len() > 0 {
                    push_span(&mut spans, " │ ", colored(Color::DarkGray));
                    let ghost bar = (" │ "@, colored(Color::DarkGray));
                    assert(spans_view(spans@) == so_far.push(bar));
                    assert(health_color(health) is Some);
                    assert(self.health_spans(health) =~= seq![bar] + spans_view(tg@));
                    append_spans(&mut spans, tg);
                } else {
                    assert(health_color(health) is None);
                }
            },
            _ => {},
        }
        assert(spans_view(spans@) =~= so_far + self.health_spans(health));
        Line { spans }
    }
}

/// One more notification counts among the unread ones exactly if it is unread,
/// and the count stands in the label of the inbox where there is any.
pub proof fn unread_notifications_are_counted(
    before: Notifications,
    after: Notifications,
    n: GithubNotification,
)
    requires
        after.list@ == before.list@.push(n),
    ensures
        n.unread ==> after.unread() == before.unread() + 1,
        !n.unread ==> after.unread() == before.unread(),
        after.unread() > 0 ==> crate::text::has_text(after.inbox_label(), decimal(after.unread())),
        after.unread() == 0 && after.first_poll_done ==> after.inbox_label() == " inbox  "@,
        after.unread() == 0 && !after.first_poll_done ==> after.inbox_label() == " inbox(...)  "@,
{
    reveal(Seq::filter);
    assert(after.list@.drop_last() =~= before.list@);
    if after.unread() > 0 {
        crate::text::middle_stands(" inbox("@, decimal(after.unread()), ")  "@);
    }
}

/// The status bar tells how many inboxes are stalled, if any is, shows the last
/// message, and in the two main views how the bot fares.
pub proof fn the_status_bar_tells_what_matters(app: App, health: TelegramHealth)
    ensures
        app.inbox.stalled().len() == 0 ==> app.stall_banner().len() == 0,
        app.inbox.stalled().len() > 0 ==> app.stall_banner().len() == 1 && crate::text::has_text(
            app.stall_banner()[0].0,
            decimal(app.inbox.stalled().len()),
        ) && app.stall_banner()[0].1.fg == Some(Color::LightRed),
        app.status_message is None ==> app.message_spans().len() == 0,
        app.status_message matches Some(message) ==> app.message_spans().last().0 == message.0@,
        app.view is ProjectList || app.view is TaskList ==> ({
            &&& health is Disabled ==> app.health_spans(health).len() == 0
            &&& health is Healthy ==> app.health_spans(health).last().1.fg == Some(
                Color::LightGreen,
            )
            &&& health is Stale ==> app.health_spans(health).last().1.fg == Some(Color::LightYellow)
            &&& health is Dead || health is NeverPolled ==> app.health_spans(health).last().1.fg
                == Some(Color::LightRed)
        }),
        !(app.view is ProjectList || app.view is TaskList) ==> app.health_spans(health).len() == 0,
{
    if app.inbox.stalled().len() > 0 {
        crate::text::middle_stands(
            "⚠ "@,
            decimal(app.inbox.stalled().len()),
            " stalled inbox(es)  "@,
        );
    }
}

/// The hints on a task offer its pull request exactly where it has one; those on
/// the page offer the manager and a respawn exactly where a project is open.
pub proof fn hints_are_on_what_is_selected(page: ProjectDetail, task: Task)
    ensures
        task.meta.linked_pr is Some ==> task_hints(Some(task)).len() == 2,
        task.meta.linked_pr is None ==> task_hints(Some(task)).len() == 1,
        task_hints(None).len() == 0,
        page.spec_selected_task() matches Some(i) ==> page.task() == Some(page.tasks@[i]),
        page.spec_selected_task() is None ==> page.task() is None,
        page.current_project is None ==> !page.shows_project(),
        page.current_project matches Some(p) ==> (page.shows_project() <==> p@
            != "(unassigned)"@),
        page.spec_selected_agent() is None ==> page.focus() is Tasks,
{
}

/// The key to hold a project says what it would do to the selected one, and so
/// does the key to save an archived task.
pub proof fn hints_say_what_a_key_would_do(list: ProjectList, inbox: Seq<char>, archive: Archive)
    requires
        list.selected_project_index < list.projects@.len(),
    ensures
        list.projects@[list.selected_project_index as int].meta.held ==> list_hints(
            list,
            inbox,
        ).contains(hint("h", Color::LightYellow, " unhold  ")),
        !list.projects@[list.selected_project_index as int].meta.held ==> list_hints(
            list,
            inbox,
        ).contains(hint("h", Color::LightYellow, " hold  ")),
        list_hints(list, inbox).contains(hint("d", Color::LightRed, " delete  ")),
        archive.preview is Some && archive.kind is Tasks && archive.task_saved()
            ==> archive.hints().contains(hint("s", Color::LightGreen, " unsave  ")),
        archive.preview is Some && archive.kind is Tasks && !archive.task_saved()
            ==> archive.hints().contains(hint("s", Color::LightGreen, " save  ")),
        archive.preview is Some && archive.kind is Agents ==> archive.hints().contains(
            hint("n", Color::LightCyan, " restore  "),
        ),
{
    let hints = list_hints(list, inbox);
    assert(hints[4] == hint("d", Color::LightRed, " delete  "));
    assert(hints[5] == hint(
        "h",
        Color::LightYellow,
        if list.projects@[list.selected_project_index as int].meta.held {
            " unhold  "
        } else {
            " hold  "
        },
    ));
    if archive.preview is Some {
        let shown = archive.hints();
        if archive.kind is Tasks {
            assert(shown[1] == hint(
                "s",
                Color::LightGreen,
                if archive.task_saved() {
                    " unsave  "
                } else {
                    " save  "
                },
            ));
        } else {
            assert(shown[1] == hint("n", Color::LightCyan, " restore  "));
        }
    }
}

} // verus!
