//! Respawning the chief of staff and the managers of projects.

use crate::keys::{KeyCode, KeyPress};
use crate::screen::View;
use crate::task_wizard::some_view;
use crate::text::{chars_of, concat, decimal, has_prefix, is_at, number, slice_of};
use vstd::prelude::*;
use vstd::view::View as _;

verus! {

pub struct Respawn {
    pub in_progress: Option<String>,
    pub confirm_target: Option<String>,
    pub confirm_index: usize,
    pub confirm_is_chief_of_staff: bool,
    pub confirm_return_view: View,
}

/// What a key does in the confirmation.
pub enum RespawnOutcome<T> {
    Nothing,
    /// Leave the confirmation.
    Close,
    /// Respawn the chief of staff, and leave.
    ChiefOfStaff,
    /// Respawn the chief of staff and all managers, and leave.
    Everyone,
    /// Respawn the manager of a project, and leave.
    Manager(T),
}

impl Respawn {
    /// One of the two choices is selected.
    pub open spec fn wf(self) -> bool {
        self.confirm_index < 2
    }

    /// What a key asks for.
    pub open spec fn outcome(self, key: KeyPress) -> RespawnOutcome<Seq<char>> {
        match key.code {
            KeyCode::Enter => if self.confirm_is_chief_of_staff {
                if self.confirm_index == 0 {
                    RespawnOutcome::ChiefOfStaff
                } else {
                    RespawnOutcome::Everyone
                }
            } else {
                match self.confirm_target {
                    Some(target) if self.confirm_index == 0 => RespawnOutcome::Manager(target@),
                    _ => RespawnOutcome::Close,
                }
            },
            KeyCode::Esc | KeyCode::Char('q') => RespawnOutcome::Close,
            _ => RespawnOutcome::Nothing,
        }
    }

    /// Who is being respawned after a key.
    pub open spec fn progress_after(self, key: KeyPress) -> Option<Seq<char>> {
        match self.outcome(key) {
            RespawnOutcome::ChiefOfStaff => Some("chief-of-staff"@),
            RespawnOutcome::Everyone => Some("cos+pms"@),
            RespawnOutcome::Manager(target) => Some(target),
            _ => some_view(self.in_progress),
        }
    }

    /// The confirmation after a key.
    pub open spec fn after_key(self, key: KeyPress, after: Respawn) -> bool {
        &&& some_view(after.in_progress) == self.progress_after(key)
        &&& after == (Respawn {
            in_progress: after.in_progress,
            confirm_index: match key.code {
                KeyCode::Char('j') | KeyCode::Down | KeyCode::Char('k') | KeyCode::Up => {
                    (1 - self.confirm_index) as usize
                },
                _ => self.confirm_index,
            },
            confirm_target: if self.outcome(key) is Nothing {
                self.confirm_target
            } else {
                None
            },
            ..self
        })
    }

    pub fn handle_key(&mut self, key: KeyPress) -> (outcome: RespawnOutcome<String>)
        requires
            old(self).wf(),
        ensures
            final(self).wf(),
            old(self).after_key(key, *final(self)),
            old(self).outcome(key) == match outcome {
                RespawnOutcome::Nothing => RespawnOutcome::<Seq<char>>::Nothing,
                RespawnOutcome::Close => RespawnOutcome::Close,
                RespawnOutcome::ChiefOfStaff => RespawnOutcome::ChiefOfStaff,
                RespawnOutcome::Everyone => RespawnOutcome::Everyone,
                RespawnOutcome::Manager(target) => RespawnOutcome::Manager(target@),
            },
    {
        match key.code {
            KeyCode::Char('j') | KeyCode::Down => {
                self.confirm_index = (self.confirm_index + 1) % 2;
                RespawnOutcome::Nothing
            },
            KeyCode::Char('k') | KeyCode::Up => {
                self.confirm_index = if self.confirm_index == 0 {
                    1
                } else {
                    0
                };
                RespawnOutcome::Nothing
            },
            KeyCode::Enter => {
                let target = self.confirm_target.take();
                if self.confirm_is_chief_of_staff {
                    if self.confirm_index == 0 {
                        self.in_progress = Some("chief-of-staff".to_owned());
                        RespawnOutcome::ChiefOfStaff
                    } else {
                        self.in_progress = Some("cos+pms".to_owned());
                        RespawnOutcome::Everyone
                    }
                } else {
                    match target {
                        Some(name) => if self.confirm_index == 0 {
                            self.in_progress = Some(name.clone());
                            RespawnOutcome::Manager(name)
                        } else {
                            RespawnOutcome::Close
                        },
                        None => RespawnOutcome::Close,
                    }
                }
            },
            KeyCode::Esc | KeyCode::Char('q') => {
                self.confirm_target = None;
                RespawnOutcome::Close
            },
            _ => RespawnOutcome::Nothing,
        }
    }

    /// Asks for a confirmation.
    pub fn confirm(&mut self, target: String, chief_of_staff: bool, return_view: View)
        ensures
            final(self).wf(),
            *final(self) == (Respawn {
                confirm_target: Some(target),
                confirm_index: 0,
                confirm_is_chief_of_staff: chief_of_staff,
                confirm_return_view: return_view,
                ..*old(self)
            }),
    {
        self.confirm_target = Some(target);
        self.confirm_index = 0;
        self.confirm_is_chief_of_staff = chief_of_staff;
        self.confirm_return_view = return_view;
    }

    /// What is said once a respawn is over.
    pub open spec fn result_message(self, result: Result<Seq<char>, Seq<char>>) -> Seq<char> {
        match result {
            Ok(message) => if has_prefix(message, "cos+pms:"@) {
                "respawned chief-of-staff + "@ + message.skip("cos+pms:"@.len() as int) + " pms"@
            } else {
                "respawned "@ + match self.in_progress {
                    Some(target) => target@,
                    None => Seq::empty(),
                }
            },
            Err(e) => "respawn failed: "@ + e,
        }
    }

    /// A respawn is over: nobody is being respawned, and the message to show
    /// comes back.
    pub fn apply_respawn_results(&mut self, result: Result<String, String>) -> (message: String)
        ensures
            *final(self) == (Respawn { in_progress: None, ..*old(self) }),
            message@ == old(self).result_message(
                match result {
                    Ok(m) => Ok(m@),
                    Err(e) => Err(e@),
                },
            ),
    {
        let target = match self.in_progress.take() {
            Some(target) => target,
            None => String::new(),
        };
        match result {
            Ok(message) => {
                let chars = chars_of(message.as_str());
                let prefix = chars_of("cos+pms:");
                if is_at(chars.as_slice(), prefix.as_slice(), 0) {
                    let count = slice_of(chars.as_slice(), prefix.len(), chars.len());
                    assert(count@ == message@.skip(prefix@.len() as int));
                    let mut text = concat("respawned chief-of-staff + ", count.as_str());
                    text.append(" pms");
                    text
                } else {
                    concat("respawned ", target.as_str())
                }
            },
            Err(e) => concat("respawn failed: ", e.as_str()),
        }
    }
}

/// A name and what went wrong with it.
pub open spec fn failure_text(name: Seq<char>, error: Seq<char>) -> Seq<char> {
    name + ": "@ + error
}

/// The failures among the managers, separated by commas.
pub open spec fn failures_text(results: Seq<(String, Result<(), String>)>) -> Option<Seq<char>>
    decreases results.len(),
{
    if results.len() == 0 {
        None
    } else {
        let before = failures_text(results.drop_last());
        match results.last().1 {
            Ok(_) => before,
            Err(e) => {
                let text = failure_text(results.last().0@, e@);
                match before {
                    Some(list) => Some(list + ", "@ + text),
                    None => Some(text),
                }
            },
        }
    }
}

/// How respawning everyone ended: the managers come only if the chief of staff
/// was respawned, and all failures are named.
pub fn respawn_everyone_result(
    chief: Result<(), String>,
    managers: Vec<(String, Result<(), String>)>,
) -> (result: Result<String, String>)
    ensures
        match chief {
            Err(e) => result matches Err(text) && text@ == "chief-of-staff respawn failed: "@ + e@,
            Ok(_) => match failures_text(managers@) {
                Some(list) => result matches Err(text) && text@ == "some respawns failed: "@ + list,
                None => result matches Ok(text) && text@ == "cos+pms:"@ + decimal(
                    managers@.len(),
                ),
            },
        },
{
    if let Err(e) = chief {
        return Err(concat("chief-of-staff respawn failed: ", e.as_str()));
    }
    let mut failures: Option<String> = None;
    let mut i: usize = 0;
    while i < managers.len()
        invariant
            i <= managers.len(),
            some_view(failures) == failures_text(managers@.take(i as int)),
        decreases managers.len() - i,
    {
        assert(managers@.take(i + 1).drop_last() == managers@.take(i as int));
        if let Err(e) = &managers[i].1 {
            let mut text = match failures {
                Some(list) => concat(list.as_str(), ", "),
                None => String::new(),
            };
            let ghost before = text@;
            let mut failure = concat(managers[i].0.as_str(), ": ");
            failure.append(e.as_str());
            text.append(failure.as_str());
            assert(text@ == before + failure@);
            assert(Seq::<char>::empty() + failure@ == failure@);
            failures = Some(text);
        }
        i += 1;
    }
    assert(managers@.take(i as int) == managers@);
    match failures {
        Some(list) => Err(concat("some respawns failed: ", list.as_str())),
        None => Ok(concat("cos+pms:", number(managers.len() as u64).as_str())),
    }
}

/// What the end of a respawn of everyone says names how many managers there were.
pub proof fn everyone_is_counted(respawn: Respawn, n: nat)
    ensures
        respawn.result_message(Ok("cos+pms:"@ + decimal(n))) == "respawned chief-of-staff + "@
            + decimal(n) + " pms"@,
{
    let message = "cos+pms:"@ + decimal(n);
    let prefix = "cos+pms:"@;
    assert(message.subrange(0, prefix.len() as int) == prefix);
    assert(message.skip(prefix.len() as int) == decimal(n));
}

/// The confirmation of a respawn does what the selected choice says: for the
/// chief of staff, it alone or with all managers; for a manager, it or nothing.
/// The keys for up and down change the choice, and escape gives it up.
pub proof fn the_selected_respawn_is_made(before: Respawn, key: KeyPress, after: Respawn)
    requires
        before.wf(),
        before.after_key(key, after),
    ensures
        ({
            let chief = before.confirm_is_chief_of_staff;
            let first = before.confirm_index == 0;
            let enter = key.code is Enter;
            let moves = key.code is Up || key.code is Down || key.code == KeyCode::Char('j')
                || key.code == KeyCode::Char('k');
            &&& enter && chief && first ==> before.outcome(key) is ChiefOfStaff && (
            after.in_progress matches Some(who) && who@ == "chief-of-staff"@)
            &&& enter && chief && !first ==> before.outcome(key) is Everyone && after.in_progress
                is Some
            &&& enter && !chief && first ==> (before.confirm_target matches Some(target) ==> (
            before.outcome(key) == RespawnOutcome::Manager(target@) && (
            after.in_progress matches Some(who) && who@ == target@)))
            &&& enter && !chief && !first ==> before.outcome(key) is Close
            &&& moves ==> after.confirm_index == 1 - before.confirm_index && before.outcome(key)
                is Nothing
            &&& key.code is Esc || key.code == KeyCode::Char('q') ==> before.outcome(key) is Close
                && some_view(after.in_progress) == some_view(before.in_progress)
        }),
{
}

/// What is said when a respawn is over names who was respawned, or what went
/// wrong.
pub proof fn the_end_of_a_respawn_is_told(respawn: Respawn, target: String, error: Seq<char>)
    requires
        respawn.in_progress == Some(target),
    ensures
        crate::text::has_text(respawn.result_message(Ok("pm"@)), target@),
        crate::text::has_text(respawn.result_message(Err(error)), error),
        has_prefix(respawn.result_message(Ok("pm"@)), "respawned "@),
        has_prefix(respawn.result_message(Err(error)), "respawn failed: "@),
{
    reveal_strlit("pm");
    reveal_strlit("cos+pms:");
    assert(!has_prefix("pm"@, "cos+pms:"@));
    crate::text::ends_are_recognised("respawned "@, target@);
    crate::text::ends_are_recognised("respawn failed: "@, error);
}

} // verus!
