//! Choosing one of a task's tmux sessions.

use crate::keys::{KeyCode, KeyPress};
use crate::select::{next_round, previous_round, wrap_next, wrap_previous};
use crate::wizard::in_list;
use vstd::prelude::*;

verus! {

pub struct SessionPicker {
    /// The repo name and the tmux session of each choice.
    pub sessions: Vec<(String, String)>,
    pub selected: usize,
}

/// What a key does in the session picker.
pub enum SessionOutcome<T> {
    Nothing,
    Quit,
    Close,
    Attach(T),
}

impl SessionPicker {
    pub open spec fn wf(self) -> bool {
        in_list(self.selected as int, self.sessions@.len() as int)
    }

    /// What a key leads to.
    pub open spec fn outcome(self, key: KeyPress) -> SessionOutcome<Seq<char>> {
        if key.is_ctrl('c') {
            SessionOutcome::Quit
        } else {
            match key.code {
                KeyCode::Esc | KeyCode::Char('q') => SessionOutcome::Close,
                KeyCode::Enter => if self.selected < self.sessions@.len() {
                    SessionOutcome::Attach(self.sessions@[self.selected as int].1@)
                } else {
                    SessionOutcome::Nothing
                },
                _ => SessionOutcome::Nothing,
            }
        }
    }

    /// Which session is selected after a key.
    pub open spec fn selection_after(self, key: KeyPress) -> int {
        let total = self.sessions@.len() as int;
        if key.is_ctrl('c') {
            self.selected as int
        } else {
            match key.code {
                KeyCode::Char('j') | KeyCode::Down => next_round(self.selected as int, total),
                KeyCode::Char('k') | KeyCode::Up => previous_round(self.selected as int, total),
                _ => self.selected as int,
            }
        }
    }

    pub fn handle_key(&mut self, key: KeyPress) -> (outcome: SessionOutcome<String>)
        requires
            old(self).wf(),
        ensures
            final(self).wf(),
            *final(self) == (SessionPicker {
                selected: old(self).selection_after(key) as usize,
                ..*old(self)
            }),
            old(self).outcome(key) == match outcome {
                SessionOutcome::Nothing => SessionOutcome::<Seq<char>>::Nothing,
                SessionOutcome::Quit => SessionOutcome::Quit,
                SessionOutcome::Close => SessionOutcome::Close,
                SessionOutcome::Attach(name) => SessionOutcome::Attach(name@),
            },
    {
        if key.is_ctrl('c') {
            return SessionOutcome::Quit;
        }
        match key.code {
            KeyCode::Esc | KeyCode::Char('q') => SessionOutcome::Close,
            KeyCode::Char('j') | KeyCode::Down => {
                proof {
                    if self.sessions@.len() > 0 {
                        crate::select::round_and_back(
                            self.selected as int,
                            self.sessions@.len() as int,
                        );
                    }
                }
                self.selected = wrap_next(self.selected, self.sessions.len());
                SessionOutcome::Nothing
            },
            KeyCode::Char('k') | KeyCode::Up => {
                self.selected = wrap_previous(self.selected, self.sessions.len());
                SessionOutcome::Nothing
            },
            KeyCode::Enter => {
                if self.selected < self.sessions.len() {
                    SessionOutcome::Attach(self.sessions[self.selected].1.clone())
                } else {
                    SessionOutcome::Nothing
                }
            },
            _ => SessionOutcome::Nothing,
        }
    }
}

/// Enter attaches to the session of the selected choice, and the keys for up and
/// down go through the choices, round the ends.
pub proof fn the_selected_session_is_attached_to(picker: SessionPicker, key: KeyPress)
    requires
        picker.selected < picker.sessions.len(),
        !key.ctrl,
    ensures
        ({
            let i = picker.selected as int;
            let n = picker.sessions@.len();
            let down = key.code is Down || key.code == KeyCode::Char('j');
            let up = key.code is Up || key.code == KeyCode::Char('k');
            &&& key.code is Enter ==> picker.outcome(key) == SessionOutcome::Attach(
                picker.sessions@[i].1@,
            )
            &&& key.code is Esc || key.code == KeyCode::Char('q') ==> picker.outcome(key) is Close
            &&& up || down ==> picker.outcome(key) is Nothing
            &&& down && i + 1 < n ==> picker.selection_after(key) == i + 1
            &&& down && i + 1 == n ==> picker.selection_after(key) == 0
            &&& up && i > 0 ==> picker.selection_after(key) == i - 1
            &&& up && i == 0 ==> picker.selection_after(key) == n - 1
        }),
{
    crate::select::steps_go_to_the_neighbour(picker.selected as int, picker.sessions.len() as int);
}

} // verus!
