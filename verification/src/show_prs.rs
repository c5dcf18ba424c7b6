//! The issues and pull requests of the user.

use crate::app_time::{elapsed, time_since, GITHUB_INTERVAL};
use crate::keys::{KeyCode, KeyPress};
use crate::model::{GithubItem, ShowPrsData};
use crate::select::{
    clamp, clamped, next_within, previous_within, step_next, step_previous,
};
use vstd::prelude::*;

verus! {

pub struct ShowPrs {
    pub data: ShowPrsData,
    pub selected: usize,
    pub first_poll_done: bool,
    pub poll_active: bool,
    pub last_poll: i64,
}

/// What a key does in the view.
pub enum PrsOutcome<T> {
    Nothing,
    Quit,
    Close,
    Open(T),
    Poll,
}

impl ShowPrs {
    /// All the items in the order of the view: issues, own pull requests, and
    /// requested reviews.
    pub open spec fn items(self) -> Seq<GithubItem> {
        self.data.issues@ + self.data.my_prs@ + self.data.review_requests@
    }

    /// There are no more items than can be counted.
    pub open spec fn wf(self) -> bool {
        self.items().len() <= usize::MAX
    }

    pub fn show_prs_total_items(&self) -> (n: usize)
        requires
            self.wf(),
        ensures
            n == self.items().len(),
    {
        self.data.issues.len() + self.data.my_prs.len() + self.data.review_requests.len()
    }

    pub fn show_prs_selected_item(&self) -> (item: Option<&GithubItem>)
        requires
            self.wf(),
        ensures
            match item {
                Some(i) => self.selected < self.items().len() && *i
                    == self.items()[self.selected as int],
                None => self.selected >= self.items().len(),
            },
    {
        let idx = self.selected;
        let issues_len = self.data.issues.len();
        let my_prs_len = self.data.my_prs.len();
        if idx < issues_len {
            Some(&self.data.issues[idx])
        } else if idx - issues_len < my_prs_len {
            Some(&self.data.my_prs[idx - issues_len])
        } else {
            let at: usize = idx - issues_len - my_prs_len;
            if at < self.data.review_requests.len() {
                Some(&self.data.review_requests[at])
            } else {
                None
            }
        }
    }

    pub open spec fn outcome(self, key: KeyPress) -> PrsOutcome<Seq<char>> {
        if key.is_ctrl('c') {
            PrsOutcome::Quit
        } else {
            match key.code {
                KeyCode::Esc | KeyCode::Char('q') => PrsOutcome::Close,
                KeyCode::Char('o') | KeyCode::Enter => if self.selected < self.items().len() {
                    PrsOutcome::Open(self.items()[self.selected as int].url@)
                } else {
                    PrsOutcome::Nothing
                },
                KeyCode::Char('r') => PrsOutcome::Poll,
                _ => PrsOutcome::Nothing,
            }
        }
    }

    /// The state after a key. Asking for a poll starts one even if another is
    /// under way.
    pub open spec fn after_key(self, key: KeyPress, now: i64) -> ShowPrs {
        if key.is_ctrl('c') {
            self
        } else {
            match key.code {
                KeyCode::Char('j') | KeyCode::Down => ShowPrs {
                    selected: next_within(
                        self.selected as int,
                        self.items().len() as int,
                    ) as usize,
                    ..self
                },
                KeyCode::Char('k') | KeyCode::Up => ShowPrs {
                    selected: previous_within(self.selected as int) as usize,
                    ..self
                },
                KeyCode::Char('r') => ShowPrs { poll_active: true, last_poll: now, ..self },
                _ => self,
            }
        }
    }

    pub fn handle_key(&mut self, key: KeyPress, now: i64) -> (outcome: PrsOutcome<String>)
        requires
            old(self).wf(),
        ensures
            *final(self) == old(self).after_key(key, now),
            final(self).wf(),
            old(self).outcome(key) == match outcome {
                PrsOutcome::Nothing => PrsOutcome::<Seq<char>>::Nothing,
                PrsOutcome::Quit => PrsOutcome::Quit,
                PrsOutcome::Close => PrsOutcome::Close,
                PrsOutcome::Open(url) => PrsOutcome::Open(url@),
                PrsOutcome::Poll => PrsOutcome::Poll,
            },
    {
        if key.is_ctrl('c') {
            return PrsOutcome::Quit;
        }
        match key.code {
            KeyCode::Esc | KeyCode::Char('q') => PrsOutcome::Close,
            KeyCode::Char('j') | KeyCode::Down => {
                self.selected = step_next(self.selected, self.show_prs_total_items());
                PrsOutcome::Nothing
            },
            KeyCode::Char('k') | KeyCode::Up => {
                self.selected = step_previous(self.selected);
                PrsOutcome::Nothing
            },
            KeyCode::Char('o') | KeyCode::Enter => match self.show_prs_selected_item() {
                Some(item) => PrsOutcome::Open(item.url.clone()),
                None => PrsOutcome::Nothing,
            },
            KeyCode::Char('r') => {
                self.poll_active = false;
                self.start_show_prs_poll();
                self.last_poll = now;
                PrsOutcome::Poll
            },
            _ => PrsOutcome::Nothing,
        }
    }

    /// Starts a poll unless one is under way, and says whether it did.
    pub fn start_show_prs_poll(&mut self) -> (started: bool)
        ensures
            started == !old(self).poll_active,
            *final(self) == (ShowPrs { poll_active: true, ..*old(self) }),
    {
        if self.poll_active {
            return false;
        }
        self.poll_active = true;
        true
    }

    /// A poll is due.
    pub open spec fn poll_due(self, now: i64) -> bool {
        elapsed(self.last_poll, now) >= GITHUB_INTERVAL
    }

    /// The state after the clock was looked at: a poll that is due counts as
    /// made, also where the one before is still under way.
    pub open spec fn ticked(self, now: i64) -> ShowPrs {
        if self.poll_due(now) {
            ShowPrs { poll_active: true, last_poll: now, ..self }
        } else {
            self
        }
    }

    /// Looks at the clock, and says whether to start a poll: where one is due
    /// and none is under way.
    pub fn tick(&mut self, now: i64) -> (due: bool)
        ensures
            due == (old(self).poll_due(now) && !old(self).poll_active),
            *final(self) == old(self).ticked(now),
    {
        if time_since(self.last_poll, now) < GITHUB_INTERVAL {
            return false;
        }
        self.last_poll = now;
        self.start_show_prs_poll()
    }

    /// Takes over what a poll fetched; the selection stays inside.
    pub fn apply_show_prs_results(&mut self, fetched: ShowPrsData)
        requires
            fetched.issues@.len() + fetched.my_prs@.len() + fetched.review_requests@.len()
                <= usize::MAX,
        ensures
            final(self).wf(),
            *final(self) == (ShowPrs {
                data: fetched,
                poll_active: false,
                first_poll_done: true,
                selected: clamped(
                    old(self).selected as int,
                    final(self).items().len() as int,
                ) as usize,
                ..*old(self)
            }),
    {
        self.poll_active = false;
        self.first_poll_done = true;
        self.data = fetched;
        self.selected = clamp(self.selected, self.show_prs_total_items());
    }
}

/// Enter and `o` open the page of the selected item, which stand in one list:
/// first the issues, then the own pull requests, then the requested ones.
pub proof fn the_selected_item_is_opened(prs: ShowPrs, key: KeyPress, now: i64)
    requires
        prs.wf(),
        !key.ctrl,
        prs.selected < prs.data.issues@.len() + prs.data.my_prs@.len()
            + prs.data.review_requests@.len(),
    ensures
        ({
            let i = prs.selected as int;
            let issues = prs.data.issues@;
            let own = prs.data.my_prs@;
            let asked = prs.data.review_requests@;
            let n = issues.len() + own.len() + asked.len();
            let opens = key.code is Enter || key.code == KeyCode::Char('o');
            &&& opens && i < issues.len() ==> prs.outcome(key) == PrsOutcome::Open(issues[i].url@)
            &&& opens && issues.len() <= i < issues.len() + own.len() ==> prs.outcome(key)
                == PrsOutcome::Open(own[i - issues.len()].url@)
            &&& opens && issues.len() + own.len() <= i ==> prs.outcome(key) == PrsOutcome::Open(
                asked[i - issues.len() - own.len()].url@,
            )
            &&& (key.code is Down || key.code == KeyCode::Char('j')) ==> prs.after_key(
                key,
                now,
            ).selected == if i + 1 < n {
                i + 1
            } else {
                i
            }
            &&& (key.code is Up || key.code == KeyCode::Char('k')) ==> prs.after_key(
                key,
                now,
            ).selected == if i > 0 {
                i - 1
            } else {
                0
            }
            &&& key.code == KeyCode::Char('r') ==> prs.outcome(key) is Poll && prs.after_key(
                key,
                now,
            ).poll_active && prs.after_key(key, now).last_poll == now
            &&& key.code is Esc || key.code == KeyCode::Char('q') ==> prs.outcome(key) is Close
        }),
        prs.after_key(key, now).data == prs.data,
{
}

/// The items are fetched once a minute.
pub proof fn items_are_fetched_once_a_minute(prs: ShowPrs, now: i64)
    requires
        now >= prs.last_poll,
    ensures
        prs.poll_due(now) <==> now - prs.last_poll >= 60_000_000_000,
        prs.poll_due(now) ==> prs.ticked(now).last_poll == now && prs.ticked(now).poll_active,
        !prs.poll_due(now) ==> prs.ticked(now) == prs,
{
}

} // verus!
