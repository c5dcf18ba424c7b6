//! The dialogs for projects: creating one, and choosing one.

use crate::keys::{KeyCode, KeyPress};
use crate::select::{next_round, previous_round, wrap_next, wrap_previous};
use crate::task_wizard::{copied_from, edited, some_view};
use crate::text::{join_with, trim, trimmed};
use crate::textarea::{area_state, fresh_state, type_into, Key};
use crate::vim::{fresh_vim, Vim, VimMode, VimTextArea};
use crate::wizard::{line_text, plain_editor, trimmed_line, ProjectPicker, ProjectWizard};
use vstd::prelude::*;

verus! {

/// What a key does in the dialog for a new project.
pub enum ProjectOutcome<T> {
    Nothing,
    Cancel,
    /// Text that was yanked.
    Copied(T),
}

impl ProjectWizard {
    /// Nothing is entered yet.
    pub open spec fn is_blank(self) -> bool {
        &&& area_state(self.name_editor) == fresh_state(Seq::empty())
        &&& self.description_editor.area() == fresh_state(Seq::empty())
        &&& self.description_editor.vim == fresh_vim(VimMode::Insert, false)
        &&& !self.description_focus
        &&& self.error_message is None
    }

    /// The dialog with nothing entered yet.
    pub fn start() -> (wizard: ProjectWizard)
        ensures
            wizard.wf(),
            wizard.is_blank(),
    {
        let mut description_editor = VimTextArea::new();
        description_editor.set_insert_mode();
        ProjectWizard {
            name_editor: plain_editor(),
            description_editor,
            description_focus: false,
            error_message: None,
        }
    }

    /// The name that was entered.
    pub open spec fn name(self) -> Seq<char> {
        trimmed(line_text(self.name_editor))
    }

    /// The description that was entered.
    pub open spec fn description(self) -> Seq<char> {
        trimmed(join_with(self.description_editor.area().lines, '\n'))
    }

    /// The name and the description of the project to be created, or an error
    /// where there is no name.
    pub fn submit(&mut self) -> (request: Option<(String, String)>)
        requires
            old(self).wf(),
        ensures
            final(self).wf(),
            if old(self).name().len() == 0 {
                &&& request is None
                &&& *final(self) == (ProjectWizard {
                    error_message: final(self).error_message,
                    ..*old(self)
                })
                &&& some_view(final(self).error_message) == Some("Project name is required"@)
            } else {
                &&& *final(self) == *old(self)
                &&& request matches Some(r) && r.0@ == old(self).name() && r.1@ == old(
                    self
                ).description()
            },
    {
        let name = trimmed_line(&self.name_editor);
        let description = trim(self.description_editor.lines_joined().as_str());
        if name.as_str().is_empty() {
            self.error_message = Some("Project name is required".to_owned());
            return None;
        }
        Some((name, description))
    }

    /// With the description in focus, which starts in insert mode.
    pub open spec fn describing(self) -> ProjectWizard {
        ProjectWizard {
            description_focus: true,
            description_editor: VimTextArea {
                vim: Vim { mode: VimMode::Insert, ..self.description_editor.vim },
                ..self.description_editor
            },
            ..self
        }
    }

    fn describe(&mut self)
        requires
            old(self).wf(),
        ensures
            final(self).wf(),
            *final(self) == old(self).describing(),
    {
        self.description_focus = true;
        self.description_editor.set_insert_mode();
    }

    /// The dialog after a key; every key takes an error away.
    pub open spec fn after_key(
        self,
        key: KeyPress,
        clipboard: Option<Seq<char>>,
        after: ProjectWizard,
    ) -> bool {
        let cleared = ProjectWizard { error_message: None, ..self };
        if key.code is Tab || key.code is BackTab {
            after == if self.description_focus {
                ProjectWizard { description_focus: false, ..cleared }
            } else {
                cleared.describing()
            }
        } else if self.description_focus {
            &&& after == (ProjectWizard {
                description_editor: after.description_editor,
                description_focus: !(key.input().key is Esc && !(
                self.description_editor.vim.mode is Insert)),
                ..cleared
            })
            &&& edited(self.description_editor, key, clipboard, after.description_editor)
        } else if key.code is Esc {
            after == cleared
        } else if key.code is Enter {
            after == cleared.describing()
        } else {
            &&& after == (ProjectWizard { name_editor: after.name_editor, ..cleared })
            &&& area_state(self.name_editor).typed(key.input(), area_state(after.name_editor))
        }
    }

    /// What a key asks for.
    pub open spec fn outcome(
        self,
        key: KeyPress,
        clipboard: Option<Seq<char>>,
        after: ProjectWizard,
    ) -> ProjectOutcome<Seq<char>> {
        if key.code is Tab || key.code is BackTab {
            ProjectOutcome::Nothing
        } else if self.description_focus {
            match copied_from(self.description_editor, key, clipboard, after.description_editor) {
                Some(text) => ProjectOutcome::Copied(text),
                None => ProjectOutcome::Nothing,
            }
        } else if key.code is Esc {
            ProjectOutcome::Cancel
        } else {
            ProjectOutcome::Nothing
        }
    }

    /// A key in the dialog.
    pub fn handle_key(&mut self, key: KeyPress, clipboard: Option<String>) -> (outcome:
        ProjectOutcome<String>)
        requires
            old(self).wf(),
        ensures
            final(self).wf(),
            old(self).after_key(key, some_view(clipboard), *final(self)),
            old(self).outcome(key, some_view(clipboard), *final(self)) == match outcome {
                ProjectOutcome::Nothing => ProjectOutcome::<Seq<char>>::Nothing,
                ProjectOutcome::Cancel => ProjectOutcome::Cancel,
                ProjectOutcome::Copied(text) => ProjectOutcome::Copied(text@),
            },
    {
        self.error_message = None;
        if matches!(key.code, KeyCode::Tab | KeyCode::BackTab) {
            if self.description_focus {
                self.description_focus = false;
            } else {
                self.describe();
            }
            return ProjectOutcome::Nothing;
        }
        if self.description_focus {
            let input = key.input();
            let was_insert = self.description_editor.mode() == VimMode::Insert;
            let copied = self.description_editor.input_with_clipboard(input, clipboard);
            let is_normal_now = self.description_editor.mode() == VimMode::Normal;
            if input.key == Key::Esc && !was_insert && is_normal_now {
                self.description_focus = false;
            }
            return match copied {
                Some(text) => ProjectOutcome::Copied(text),
                None => ProjectOutcome::Nothing,
            };
        }
        match key.code {
            KeyCode::Esc => {
                return ProjectOutcome::Cancel;
            },
            KeyCode::Enter => self.describe(),
            _ => type_into(&mut self.name_editor, key.input()),
        }
        ProjectOutcome::Nothing
    }
}

/// What a key does in the choice of a project.
pub enum PickOutcome<T> {
    Nothing,
    Cancel,
    Pick(T),
    /// The choice is closed without a pick: there was nothing to pick.
    Empty,
}

impl ProjectPicker {
    /// Which project is selected after a key.
    pub open spec fn selection_after(self, key: KeyPress) -> int {
        let total = self.projects@.len() as int;
        match key.code {
            KeyCode::Char('j') => next_round(self.selected as int, total),
            KeyCode::Char('k') => previous_round(self.selected as int, total),
            _ => self.selected as int,
        }
    }

    pub open spec fn outcome(self, key: KeyPress) -> PickOutcome<Seq<char>> {
        match key.code {
            KeyCode::Esc | KeyCode::Char('q') => PickOutcome::Cancel,
            KeyCode::Enter => if self.selected < self.projects@.len() {
                PickOutcome::Pick(self.projects@[self.selected as int]@)
            } else {
                PickOutcome::Empty
            },
            _ => PickOutcome::Nothing,
        }
    }

    /// A key in the choice of a project.
    pub fn handle_key(&mut self, key: KeyPress) -> (outcome: PickOutcome<String>)
        requires
            old(self).wf(),
        ensures
            final(self).wf(),
            *final(self) == (ProjectPicker {
                selected: old(self).selection_after(key) as usize,
                ..*old(self)
            }),
            old(self).outcome(key) == match outcome {
                PickOutcome::Nothing => PickOutcome::<Seq<char>>::Nothing,
                PickOutcome::Cancel => PickOutcome::Cancel,
                PickOutcome::Pick(name) => PickOutcome::Pick(name@),
                PickOutcome::Empty => PickOutcome::Empty,
            },
    {
        proof {
            if self.projects@.len() > 0 {
                crate::select::round_and_back(self.selected as int, self.projects@.len() as int);
            }
        }
        match key.code {
            KeyCode::Esc | KeyCode::Char('q') => PickOutcome::Cancel,
            KeyCode::Char('j') => {
                self.selected = wrap_next(self.selected, self.projects.len());
                PickOutcome::Nothing
            },
            KeyCode::Char('k') => {
                self.selected = wrap_previous(self.selected, self.projects.len());
                PickOutcome::Nothing
            },
            KeyCode::Enter => {
                if self.selected < self.projects.len() {
                    PickOutcome::Pick(self.projects[self.selected].clone())
                } else {
                    PickOutcome::Empty
                }
            },
            _ => PickOutcome::Nothing,
        }
    }
}

/// Tab changes between the name and the description, enter goes from the name to
/// it, and escape in normal mode back. What is typed goes into the field that has
/// the focus, and the other one stays.
pub proof fn fields_take_what_is_typed(
    before: ProjectWizard,
    key: KeyPress,
    clipboard: Option<Seq<char>>,
    after: ProjectWizard,
)
    requires
        !key.released,
        before.after_key(key, clipboard, after),
    ensures
        ({
            let tab = key.code is Tab || key.code is BackTab;
            &&& tab ==> after.description_focus != before.description_focus
            &&& !tab && !before.description_focus && key.code is Enter ==> after.description_focus
                && after.description_editor.vim.mode is Insert
            &&& !tab && before.description_focus && key.code is Esc
                && before.description_editor.vim.mode is Normal ==> !after.description_focus
            &&& !tab && before.description_focus && key.code is Char ==> after.description_focus
                && after.name_editor == before.name_editor
            &&& !tab && !before.description_focus && key.code is Char ==> !after.description_focus
                && after.description_editor == before.description_editor && area_state(
                before.name_editor,
            ).typed(key.input(), area_state(after.name_editor))
            &&& after.error_message is None
        }),
{
}

/// A new dialog has nothing entered: its name is empty, so that nothing can be
/// created yet, and the name is what is typed into.
pub proof fn a_new_dialog_is_empty(wizard: ProjectWizard)
    requires
        wizard.is_blank(),
    ensures
        crate::textarea::area_lines(wizard.name_editor).len() <= 1,
        crate::wizard::line_text(wizard.name_editor).len() == 0,
        !wizard.description_focus,
        wizard.error_message is None,
        wizard.description_editor.vim.mode is Insert,
        !wizard.description_editor.vim.read_only,
{
    let lines = crate::textarea::area_lines(wizard.name_editor);
    crate::wizard::one_line_is_its_text(Seq::empty(), Seq::empty());
    if lines.len() == 1 {
        assert(lines =~= seq![Seq::<char>::empty()]);
    } else {
        assert(lines =~= Seq::empty());
    }
}

} // verus!
