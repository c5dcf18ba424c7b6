//! GitHub notifications: the list, and those that were dismissed.

use crate::app_time::{elapsed, time_since, GITHUB_INTERVAL};
use crate::keys::{KeyCode, KeyPress};
use crate::model::GithubNotification;
use crate::order::{comes_before, text_before};
use crate::select::{
    clamp, clamped, next_within, previous_within, step_next, step_previous,
};
use crate::table::{contains_string, has_string, insert_string, lookup, lookup_push, Table};
use crate::text::same_text;
use vstd::prelude::*;

verus! {

/// A notification that was dismissed: the activity it had then, and the time
/// of the dismissal in seconds since the epoch.
pub struct DismissedEntry {
    pub updated_at: String,
    pub dismissed_at: i64,
}

pub struct Notifications {
    pub list: Vec<GithubNotification>,
    pub selected: usize,
    pub last_poll: i64,
    pub poll_active: bool,
    pub first_poll_done: bool,
    /// Thread IDs dismissed by the user, persisted across restarts.
    pub dismissed: Table<DismissedEntry>,
}

/// What a key does in the list of notifications.
pub enum NotifOutcome<T> {
    Nothing,
    Quit,
    Close,
    Dismissed(T),
    Opened { url: T, thread_id: T, mark_read: bool },
}

/// What is left to do after a poll.
pub struct NotifCleanup {
    /// Threads to dismiss on the server.
    pub dismiss: Vec<String>,
    /// The dismissed notifications changed and are to be saved.
    pub save: bool,
}

/// Failures of workflows are dismissed without being shown.
pub open spec fn is_ci(n: GithubNotification) -> bool {
    n.reason@ == "ci_activity"@
}

/// The activity of the last workflow notification of a thread.
pub open spec fn ci_activity_of(list: Seq<GithubNotification>, id: Seq<char>) -> Option<Seq<char>>
    decreases list.len(),
{
    if list.len() == 0 {
        None
    } else if is_ci(list.last()) && list.last().id@ == id {
        Some(list.last().updated_at@)
    } else {
        ci_activity_of(list.drop_last(), id)
    }
}

/// A dismissal with its text as a sequence of characters.
pub open spec fn entry_view(entry: Option<DismissedEntry>) -> Option<(Seq<char>, i64)> {
    match entry {
        Some(e) => Some((e.updated_at@, e.dismissed_at)),
        None => None,
    }
}

/// The dismissal of a thread once the workflow notifications were dismissed.
pub open spec fn after_ci(
    before: Option<(Seq<char>, i64)>,
    list: Seq<GithubNotification>,
    id: Seq<char>,
    now: i64,
) -> Option<(Seq<char>, i64)> {
    match ci_activity_of(list, id) {
        Some(updated_at) => Some((updated_at, now)),
        None => before,
    }
}

/// A dismissal is older than it is kept for.
pub open spec fn is_expired(entry: (Seq<char>, i64), now: i64, retention: i64) -> bool {
    now - entry.1 > retention
}

pub open spec fn after_pruning(
    before: Option<(Seq<char>, i64)>,
    now: i64,
    retention: i64,
) -> Option<(Seq<char>, i64)> {
    match before {
        Some(e) => if is_expired(e, now, retention) {
            None
        } else {
            Some(e)
        },
        None => None,
    }
}

/// Some notification of the thread is unread and newer than its dismissal.
pub open spec fn has_news(
    list: Seq<GithubNotification>,
    id: Seq<char>,
    entry: Option<(Seq<char>, i64)>,
) -> bool {
    entry matches Some(e) && exists|i: int|
        0 <= i < list.len() && (#[trigger] list[i]).id@ == id && list[i].unread && text_before(
            e.0,
            list[i].updated_at@,
        )
}

/// The dismissal of a thread after a poll: workflow notifications are dismissed,
/// old dismissals are forgotten, and new activity takes a dismissal back.
pub open spec fn dismissal_after_poll(
    before: Option<(Seq<char>, i64)>,
    list: Seq<GithubNotification>,
    id: Seq<char>,
    now: i64,
    retention: i64,
) -> Option<(Seq<char>, i64)> {
    let kept = after_pruning(after_ci(before, list, id, now), now, retention);
    if has_news(list, id, kept) {
        None
    } else {
        kept
    }
}

/// The thread ids of the workflow notifications, in order.
pub open spec fn ci_threads(list: Seq<GithubNotification>) -> Seq<Seq<char>>
    decreases list.len(),
{
    if list.len() == 0 {
        Seq::empty()
    } else if is_ci(list.last()) {
        ci_threads(list.drop_last()).push(list.last().id@)
    } else {
        ci_threads(list.drop_last())
    }
}

/// The notifications whose thread is not dismissed.
pub open spec fn not_dismissed(dismissed: Table<DismissedEntry>) -> spec_fn(
    GithubNotification,
) -> bool {
    |n: GithubNotification| dismissed.at(n.id@) is None
}

impl Notifications {
    pub open spec fn dismissal(self, id: Seq<char>) -> Option<(Seq<char>, i64)> {
        entry_view(self.dismissed.at(id))
    }

    pub open spec fn outcome(self, key: KeyPress) -> NotifOutcome<Seq<char>> {
        if key.is_ctrl('c') {
            NotifOutcome::Quit
        } else {
            match key.code {
                KeyCode::Esc | KeyCode::Char('q') => NotifOutcome::Close,
                KeyCode::Char('d') => if self.selected < self.list@.len() {
                    NotifOutcome::Dismissed(self.list@[self.selected as int].id@)
                } else {
                    NotifOutcome::Nothing
                },
                KeyCode::Char('o') | KeyCode::Enter => if self.selected < self.list@.len() {
                    let n = self.list@[self.selected as int];
                    NotifOutcome::Opened {
                        url: n.browser_url@,
                        thread_id: n.id@,
                        mark_read: n.unread,
                    }
                } else {
                    NotifOutcome::Nothing
                },
                _ => NotifOutcome::Nothing,
            }
        }
    }

    /// The list after a key: a dismissed notification is gone and remembered,
    /// an opened one is read.
    pub open spec fn after_key(self, key: KeyPress, now: i64, after: Notifications) -> bool {
        let total = self.list@.len() as int;
        let i = self.selected as int;
        match self.outcome(key) {
            NotifOutcome::Dismissed(id) => {
                &&& after.list@ == self.list@.remove(i)
                &&& after.selected == clamped(i, total - 1)
                &&& forall|other: Seq<char>| #[trigger]
                    after.dismissal(other) == if other == id {
                        Some((self.list@[i].updated_at@, now))
                    } else {
                        self.dismissal(other)
                    }
                &&& after == (Notifications {
                    list: after.list,
                    selected: after.selected,
                    dismissed: after.dismissed,
                    ..self
                })
            },
            NotifOutcome::Opened { url, thread_id, mark_read } => {
                &&& after.list@ == self.list@.update(
                    i,
                    GithubNotification { unread: false, ..self.list@[i] },
                )
                &&& after == (Notifications { list: after.list, ..self })
            },
            _ => after == (Notifications {
                selected: if key.is_ctrl('c') {
                    self.selected
                } else {
                    match key.code {
                        KeyCode::Char('j') | KeyCode::Down => next_within(i, total) as usize,
                        KeyCode::Char('k') | KeyCode::Up => previous_within(i) as usize,
                        _ => self.selected,
                    }
                },
                ..self
            }),
        }
    }

    pub fn handle_key(&mut self, key: KeyPress, now: i64) -> (outcome: NotifOutcome<String>)
        ensures
            old(self).after_key(key, now, *final(self)),
            old(self).outcome(key) == match outcome {
                NotifOutcome::Nothing => NotifOutcome::<Seq<char>>::Nothing,
                NotifOutcome::Quit => NotifOutcome::Quit,
                NotifOutcome::Close => NotifOutcome::Close,
                NotifOutcome::Dismissed(id) => NotifOutcome::Dismissed(id@),
                NotifOutcome::Opened { url, thread_id, mark_read } => NotifOutcome::Opened {
                    url: url@,
                    thread_id: thread_id@,
                    mark_read,
                },
            },
    {
        if key.is_ctrl('c') {
            return NotifOutcome::Quit;
        }
        match key.code {
            KeyCode::Esc | KeyCode::Char('q') => NotifOutcome::Close,
            KeyCode::Char('j') | KeyCode::Down => {
                self.selected = step_next(self.selected, self.list.len());
                NotifOutcome::Nothing
            },
            KeyCode::Char('k') | KeyCode::Up => {
                self.selected = step_previous(self.selected);
                NotifOutcome::Nothing
            },
            KeyCode::Char('d') => {
                if self.selected < self.list.len() {
                    let ghost before = *self;
                    let gone = self.list.remove(self.selected);
                    let thread_id = gone.id.clone();
                    self.dismissed.insert(
                        gone.id,
                        DismissedEntry { updated_at: gone.updated_at, dismissed_at: now },
                    );
                    self.selected = clamp(self.selected, self.list.len());
                    assert forall|other: Seq<char>| #[trigger]
                        self.dismissal(other) == if other == thread_id@ {
                            Some((before.list@[before.selected as int].updated_at@, now))
                        } else {
                            before.dismissal(other)
                        } by {
                        assert(self.dismissed.at(other) == self.dismissed.at(other));
                    }
                    NotifOutcome::Dismissed(thread_id)
                } else {
                    NotifOutcome::Nothing
                }
            },
            KeyCode::Char('o') | KeyCode::Enter => {
                if self.selected < self.list.len() {
                    let url = self.list[self.selected].browser_url.clone();
                    let thread_id = self.list[self.selected].id.clone();
                    let mark_read = self.list[self.selected].unread;
                    self.list[self.selected].unread = false;
                    NotifOutcome::Opened { url, thread_id, mark_read }
                } else {
                    NotifOutcome::Nothing
                }
            },
            _ => NotifOutcome::Nothing,
        }
    }
}

/// Whether a notification is that of a workflow.
fn is_ci_activity(n: &GithubNotification) -> (yes: bool)
    ensures
        yes == is_ci(*n),
{
    same_text(n.reason.as_str(), "ci_activity")
}

/// Dismisses the workflow notifications, and says of which threads.
fn dismiss_ci(dismissed: &mut Table<DismissedEntry>, list: &Vec<GithubNotification>, now: i64) -> (
    threads: Vec<String>)
    ensures
        crate::text::texts(threads@) == ci_threads(list@),
        forall|id: Seq<char>| #[trigger]
            entry_view(final(dismissed).at(id)) == after_ci(
                entry_view(old(dismissed).at(id)),
                list@,
                id,
                now,
            ),
{
    let mut threads: Vec<String> = Vec::new();
    let mut i: usize = 0;
    let ghost start = *dismissed;
    assert(crate::text::texts(threads@) == ci_threads(list@.take(0)));
    while i < list.len()
        invariant
            i <= list.len(),
            crate::text::texts(threads@) == ci_threads(list@.take(i as int)),
            forall|id: Seq<char>| #[trigger]
                entry_view(dismissed.at(id)) == after_ci(
                    entry_view(start.at(id)),
                    list@.take(i as int),
                    id,
                    now,
                ),
        decreases list.len() - i,
    {
        let ghost before = *dismissed;
        let ghost held = crate::text::texts(threads@);
        let ghost more = list@.take(i + 1);
        assert(more.drop_last() == list@.take(i as int));
        let n = &list[i];
        if is_ci_activity(n) {
            dismissed.insert(
                n.id.clone(),
                DismissedEntry { updated_at: n.updated_at.clone(), dismissed_at: now },
            );
            threads.push(n.id.clone());
            assert(crate::text::texts(threads@) == held.push(n.id@));
        }
        assert forall|id: Seq<char>| #[trigger]
            entry_view(dismissed.at(id)) == after_ci(
                entry_view(start.at(id)),
                more,
                id,
                now,
            ) by {
            assert(entry_view(before.at(id)) == after_ci(
                entry_view(start.at(id)),
                list@.take(i as int),
                id,
                now,
            ));
            assert(dismissed.at(id) == dismissed.at(id));
        }
        i += 1;
    }
    assert(list@.take(i as int) == list@);
    threads
}

/// Forgets the dismissals that are too old, and says whether there were any.
pub fn prune(dismissed: Table<DismissedEntry>, now: i64, retention: i64) -> (pruned: (
    Table<DismissedEntry>,
    bool,
))
    ensures
        forall|id: Seq<char>| #[trigger]
            entry_view(pruned.0.at(id)) == after_pruning(
                entry_view(dismissed.at(id)),
                now,
                retention,
            ),
        pruned.1 == exists|id: Seq<char>| (#[trigger] dismissed.at(id)) matches Some(e)
            && is_expired((e.updated_at@, e.dismissed_at), now, retention),
{
    let ghost all = dismissed.entries@;
    let ghost source = dismissed;
    let mut kept: Table<DismissedEntry> = Table::new();
    let mut gone: Vec<String> = Vec::new();
    for entry in it: dismissed.entries
        invariant
            it.seq() == all,
            forall|id: Seq<char>| #[trigger]
                kept.at(id) == match lookup(all.take(it.index() as int), id) {
                    Some(e) => if is_expired((e.updated_at@, e.dismissed_at), now, retention) {
                        None
                    } else {
                        Some(e)
                    },
                    None => None,
                },
            forall|id: Seq<char>| #[trigger]
                has_string(gone@, id) == (lookup(all.take(it.index() as int), id) matches Some(e)
                    && is_expired((e.updated_at@, e.dismissed_at), now, retention)),
    {
        let ghost here = all.take(it.index() as int);
        let ghost e = entry;
        let ghost was_kept = kept;
        let ghost was_gone = gone@;
        assert(all.take(it.index() + 1) == here.push(e));
        let old: bool = now as i128 - entry.1.dismissed_at as i128 > retention as i128;
        if !kept.contains_key(entry.0.as_str()) && !contains_string(&gone, entry.0.as_str()) {
            if old {
                insert_string(&mut gone, entry.0);
            } else {
                kept.insert(entry.0, entry.1);
            }
        }
        assert forall|id: Seq<char>| #[trigger]
            kept.at(id) == match lookup(here.push(e), id) {
                Some(x) => if is_expired((x.updated_at@, x.dismissed_at), now, retention) {
                    None
                } else {
                    Some(x)
                },
                None => None,
            } by {
            lookup_push(here, e, id);
            assert(was_kept.at(id) == was_kept.at(id));
            assert(was_kept.at(e.0@) == was_kept.at(e.0@));
            assert(has_string(was_gone, e.0@) == has_string(was_gone, e.0@));
        }
        assert forall|id: Seq<char>| #[trigger]
            has_string(gone@, id) == (lookup(here.push(e), id) matches Some(x) && is_expired(
                (x.updated_at@, x.dismissed_at),
                now,
                retention,
            )) by {
            lookup_push(here, e, id);
            assert(was_kept.at(e.0@) == was_kept.at(e.0@));
            assert(has_string(was_gone, id) == has_string(was_gone, id));
            assert(has_string(was_gone, e.0@) == has_string(was_gone, e.0@));
        }
    }
    assert(all.take(all.len() as int) == all);
    let any = gone.len() > 0;
    proof {
        if any {
            let id = gone@[0]@;
            assert(has_string(gone@, id));
            assert(source.at(id) is Some);
        }
        if exists|id: Seq<char>| (#[trigger] source.at(id)) matches Some(e) && is_expired(
            (e.updated_at@, e.dismissed_at),
            now,
            retention,
        ) {
            let id = choose|id: Seq<char>| (#[trigger] source.at(id)) matches Some(e)
                && is_expired((e.updated_at@, e.dismissed_at), now, retention);
            assert(has_string(gone@, id));
        }
    }
    (kept, any)
}

/// The threads whose dismissal new activity takes back.
fn find_news(dismissed: &Table<DismissedEntry>, list: &Vec<GithubNotification>) -> (threads: Vec<
    String,
>)
    ensures
        forall|id: Seq<char>| #[trigger]
            has_string(threads@, id) == has_news(list@, id, entry_view(dismissed.at(id))),
{
    let mut threads: Vec<String> = Vec::new();
    let mut i: usize = 0;
    while i < list.len()
        invariant
            i <= list.len(),
            forall|id: Seq<char>| #[trigger]
                has_string(threads@, id) == has_news(
                    list@.take(i as int),
                    id,
                    entry_view(dismissed.at(id)),
                ),
        decreases list.len() - i,
    {
        let ghost before = threads@;
        let ghost here = list@.take(i as int);
        let ghost more = list@.take(i + 1);
        let n = &list[i];
        let news = match dismissed.get(n.id.as_str()) {
            Some(entry) => n.unread && comes_before(
                entry.updated_at.as_str(),
                n.updated_at.as_str(),
            ),
            None => false,
        };
        if news {
            insert_string(&mut threads, n.id.clone());
        }
        assert forall|id: Seq<char>| #[trigger]
            has_string(threads@, id) == has_news(more, id, entry_view(dismissed.at(id))) by {
            assert(has_string(before, id) == has_news(here, id, entry_view(dismissed.at(id))));
            if has_news(here, id, entry_view(dismissed.at(id))) {
                let e = entry_view(dismissed.at(id))->0;
                let k = choose|k: int|
                    0 <= k < here.len() && (#[trigger] here[k]).id@ == id && here[k].unread
                        && text_before(e.0, here[k].updated_at@);
                assert(more[k] == here[k]);
            }
            if news && id == n.id@ {
                assert(more[i as int] == *n);
            }
            if has_news(more, id, entry_view(dismissed.at(id))) {
                let e = entry_view(dismissed.at(id))->0;
                let k = choose|k: int|
                    0 <= k < more.len() && (#[trigger] more[k]).id@ == id && more[k].unread
                        && text_before(e.0, more[k].updated_at@);
                if k < i {
                    assert(here[k] == more[k]);
                }
            }
        }
        i += 1;
    }
    assert(list@.take(i as int) == list@);
    threads
}

/// Takes keys out of a table.
fn remove_all(dismissed: &mut Table<DismissedEntry>, threads: &Vec<String>)
    ensures
        forall|id: Seq<char>| #[trigger]
            final(dismissed).at(id) == if has_string(threads@, id) {
                None
            } else {
                old(dismissed).at(id)
            },
{
    let ghost start = *dismissed;
    let mut i: usize = 0;
    while i < threads.len()
        invariant
            i <= threads.len(),
            forall|id: Seq<char>| #[trigger]
                dismissed.at(id) == if has_string(threads@.take(i as int), id) {
                    None
                } else {
                    start.at(id)
                },
        decreases threads.len() - i,
    {
        let ghost before = *dismissed;
        let ghost here = threads@.take(i as int);
        let ghost more = threads@.take(i + 1);
        dismissed.remove(threads[i].as_str());
        assert forall|id: Seq<char>| #[trigger]
            dismissed.at(id) == if has_string(more, id) {
                None
            } else {
                start.at(id)
            } by {
            assert(before.at(id) == before.at(id));
            if has_string(here, id) {
                let k = choose|k: int| 0 <= k < here.len() && #[trigger] here[k]@ == id;
                assert(more[k]@ == id);
            }
            if id == threads@[i as int]@ {
                assert(more[i as int]@ == id);
            }
            if has_string(more, id) {
                let k = choose|k: int| 0 <= k < more.len() && #[trigger] more[k]@ == id;
                if k < i {
                    assert(here[k]@ == id);
                }
            }
        }
        i += 1;
    }
    assert(threads@.take(i as int) == threads@);
}

impl Notifications {
    /// Starts a poll unless one is under way, and says whether it did.
    pub fn start_gh_notif_poll(&mut self) -> (started: bool)
        ensures
            started == !old(self).poll_active,
            *final(self) == (Notifications { poll_active: true, ..*old(self) }),
    {
        if self.poll_active {
            return false;
        }
        self.poll_active = true;
        true
    }

    /// A poll is due.
    pub open spec fn poll_due(self, now: i64) -> bool {
        elapsed(self.last_poll, now) >= GITHUB_INTERVAL
    }

    /// The state after the clock was looked at: a poll that is due counts as
    /// made, also where the one before is still under way.
    pub open spec fn ticked(self, now: i64) -> Notifications {
        if self.poll_due(now) {
            Notifications { poll_active: true, last_poll: now, ..self }
        } else {
            self
        }
    }

    /// Looks at the clock, and says whether to start a poll: where one is due
    /// and none is under way.
    pub fn tick(&mut self, now: i64) -> (due: bool)
        ensures
            due == (old(self).poll_due(now) && !old(self).poll_active),
            *final(self) == old(self).ticked(now),
    {
        if time_since(self.last_poll, now) < GITHUB_INTERVAL {
            return false;
        }
        self.last_poll = now;
        self.start_gh_notif_poll()
    }

    /// The state after a poll.
    pub open spec fn after_poll(
        self,
        fetched: Seq<GithubNotification>,
        now: i64,
        retention: i64,
        after: Notifications,
    ) -> bool {
        &&& !after.poll_active
        &&& after.first_poll_done
        &&& after.last_poll == self.last_poll
        &&& forall|id: Seq<char>| #[trigger]
            after.dismissal(id) == dismissal_after_poll(
                self.dismissal(id),
                fetched,
                id,
                now,
                retention,
            )
        &&& after.list@ == fetched.filter(not_dismissed(after.dismissed))
        &&& after.selected == clamped(self.selected as int, after.list@.len() as int)
    }

    /// Takes over what a poll fetched.
    pub fn apply_gh_notif_results(
        &mut self,
        fetched: Vec<GithubNotification>,
        now: i64,
        retention: i64,
    ) -> (cleanup: NotifCleanup)
        ensures
            old(self).after_poll(fetched@, now, retention, *final(self)),
            crate::text::texts(cleanup.dismiss@) == ci_threads(fetched@),
            cleanup.save <==> (ci_threads(fetched@).len() > 0 || exists|id: Seq<char>|
                after_ci(old(self).dismissal(id), fetched@, id, now) != entry_view(
                    #[trigger] final(self).dismissed.at(id),
                )),
    {
        let ghost before = *self;
        self.poll_active = false;
        self.first_poll_done = true;
        let dismiss = dismiss_ci(&mut self.dismissed, &fetched, now);
        let ghost with_ci = self.dismissed;
        let mut dismissed: Table<DismissedEntry> = Table::new();
        std::mem::swap(&mut dismissed, &mut self.dismissed);
        let (kept, pruned) = prune(dismissed, now, retention);
        let ghost fresh = kept;
        self.dismissed = kept;
        let news = find_news(&self.dismissed, &fetched);
        remove_all(&mut self.dismissed, &news);
        assert forall|id: Seq<char>| #[trigger]
            self.dismissal(id) == dismissal_after_poll(
                before.dismissal(id),
                fetched@,
                id,
                now,
                retention,
            ) by {
            assert(entry_view(with_ci.at(id)) == after_ci(
                entry_view(before.dismissed.at(id)),
                fetched@,
                id,
                now,
            ));
            assert(entry_view(fresh.at(id)) == after_pruning(
                entry_view(with_ci.at(id)),
                now,
                retention,
            ));
            assert(has_string(news@, id) == has_news(fetched@, id, entry_view(fresh.at(id))));
            assert(self.dismissed.at(id) == self.dismissed.at(id));
        }
        let save = dismiss.len() > 0 || pruned || news.len() > 0;
        proof {
            if pruned {
                let id = choose|id: Seq<char>| (#[trigger] with_ci.at(id)) matches Some(e)
                    && is_expired((e.updated_at@, e.dismissed_at), now, retention);
                assert(entry_view(with_ci.at(id)) == after_ci(
                    entry_view(before.dismissed.at(id)),
                    fetched@,
                    id,
                    now,
                ));
                assert(after_ci(before.dismissal(id), fetched@, id, now) != self.dismissal(id));
            }
            if news.len() > 0 {
                let id = news@[0]@;
                assert(has_string(news@, id));
                assert(has_news(fetched@, id, entry_view(fresh.at(id))));
                assert(entry_view(with_ci.at(id)) == after_ci(
                    entry_view(before.dismissed.at(id)),
                    fetched@,
                    id,
                    now,
                ));
                assert(entry_view(fresh.at(id)) == after_pruning(
                    entry_view(with_ci.at(id)),
                    now,
                    retention,
                ));
                assert(after_ci(before.dismissal(id), fetched@, id, now) != self.dismissal(id));
            }
            if exists|id: Seq<char>|
                after_ci(before.dismissal(id), fetched@, id, now) != entry_view(
                    #[trigger] self.dismissed.at(id),
                ) {
                let id = choose|id: Seq<char>|
                    after_ci(before.dismissal(id), fetched@, id, now) != entry_view(
                        #[trigger] self.dismissed.at(id),
                    );
                assert(self.dismissal(id) == self.dismissal(id));
                assert(entry_view(with_ci.at(id)) == after_ci(
                    entry_view(before.dismissed.at(id)),
                    fetched@,
                    id,
                    now,
                ));
                assert(entry_view(fresh.at(id)) == after_pruning(
                    entry_view(with_ci.at(id)),
                    now,
                    retention,
                ));
                if entry_view(fresh.at(id)) == entry_view(with_ci.at(id)) {
                    assert(has_news(fetched@, id, entry_view(fresh.at(id))));
                    assert(has_string(news@, id));
                }
            }
        }
        self.list = self.keep_shown(fetched);
        self.selected = clamp(self.selected, self.list.len());
        NotifCleanup { dismiss, save }
    }

    fn keep_shown(&self, fetched: Vec<GithubNotification>) -> (kept: Vec<GithubNotification>)
        ensures
            kept@ == fetched@.filter(not_dismissed(self.dismissed)),
    {
        let ghost all = fetched@;
        let ghost wanted = not_dismissed(self.dismissed);
        let mut kept: Vec<GithubNotification> = Vec::new();
        for n in it: fetched
            invariant
                it.seq() == all,
                wanted == not_dismissed(self.dismissed),
                kept@ == all.take(it.index() as int).filter(wanted),
        {
            proof {
                let here = all.take(it.index() as int);
                assert(all.take(it.index() + 1) == here.push(n));
                here.lemma_filter_push(n, wanted);
            }
            if !self.dismissed.contains_key(n.id.as_str()) {
                kept.push(n);
            }
        }
        assert(all.take(all.len() as int) == all);
        kept
    }
}

/// A dismissed thread stays hidden by a poll for as long as its dismissal is
/// kept and it has no new activity.
pub proof fn dismissed_threads_stay_hidden(
    before: Notifications,
    fetched: Seq<GithubNotification>,
    now: i64,
    retention: i64,
    after: Notifications,
    n: GithubNotification,
)
    requires
        before.after_poll(fetched, now, retention, after),
        before.dismissal(n.id@) is Some,
        !is_ci(n),
        ci_activity_of(fetched, n.id@) is None,
        !is_expired(before.dismissal(n.id@)->0, now, retention),
        !has_news(fetched, n.id@, before.dismissal(n.id@)),
    ensures
        !after.list@.contains(n),
        after.dismissal(n.id@) == before.dismissal(n.id@),
{
    assert(after.dismissal(n.id@) == dismissal_after_poll(
        before.dismissal(n.id@),
        fetched,
        n.id@,
        now,
        retention,
    ));
    if after.list@.contains(n) {
        let i = choose|i: int| 0 <= i < after.list@.len() && after.list@[i] == n;
        fetched.lemma_filter_pred(not_dismissed(after.dismissed), i);
    }
}

/// A workflow notification that is the newest of its thread is never shown.
pub proof fn workflow_notifications_are_hidden(
    before: Notifications,
    fetched: Seq<GithubNotification>,
    now: i64,
    retention: i64,
    after: Notifications,
    n: GithubNotification,
)
    requires
        before.after_poll(fetched, now, retention, after),
        retention >= 0,
        ci_activity_of(fetched, n.id@) is Some,
        forall|i: int|
            0 <= i < fetched.len() && (#[trigger] fetched[i]).id@ == n.id@ ==> !text_before(
                ci_activity_of(fetched, n.id@)->0,
                fetched[i].updated_at@,
            ),
    ensures
        !after.list@.contains(n),
{
    assert(after.dismissal(n.id@) == dismissal_after_poll(
        before.dismissal(n.id@),
        fetched,
        n.id@,
        now,
        retention,
    ));
    if after.list@.contains(n) {
        let i = choose|i: int| 0 <= i < after.list@.len() && after.list@[i] == n;
        fetched.lemma_filter_pred(not_dismissed(after.dismissed), i);
    }
}

/// A notification dismissed by a key is neither in the list at its place nor
/// comes back with the next poll, unless its thread has new activity.
pub proof fn dismissing_holds_until_news(
    before: Notifications,
    key: KeyPress,
    now: i64,
    between: Notifications,
    fetched: Seq<GithubNotification>,
    later: i64,
    retention: i64,
    after: Notifications,
    n: GithubNotification,
)
    requires
        before.after_key(key, now, between),
        before.outcome(key) is Dismissed,
        before.list@[before.selected as int].id@ == n.id@,
        between.after_poll(fetched, later, retention, after),
        later - now <= retention,
        ci_activity_of(fetched, n.id@) is None,
        !is_ci(n),
        forall|i: int|
            0 <= i < fetched.len() && (#[trigger] fetched[i]).id@ == n.id@ ==> !text_before(
                before.list@[before.selected as int].updated_at@,
                fetched[i].updated_at@,
            ),
    ensures
        !after.list@.contains(n),
{
    assert(between.dismissal(n.id@) == Some(
        (before.list@[before.selected as int].updated_at@, now),
    ));
    dismissed_threads_stay_hidden(between, fetched, later, retention, after, n);
}

/// A notification that was fetched is shown if its thread was not dismissed, and
/// nothing is shown that was not fetched.
pub proof fn fetched_notifications_are_shown(
    before: Notifications,
    fetched: Seq<GithubNotification>,
    now: i64,
    retention: i64,
    after: Notifications,
    n: GithubNotification,
)
    requires
        before.after_poll(fetched, now, retention, after),
    ensures
        after.list@.contains(n) ==> fetched.contains(n),
        fetched.contains(n) && before.dismissal(n.id@) is None && (forall|i: int|
            0 <= i < fetched.len() && (#[trigger] fetched[i]).id@ == n.id@ ==> fetched[i].reason@
                != "ci_activity"@) ==> after.list@.contains(n),
{
    crate::order::kept_elements(fetched, not_dismissed(after.dismissed), n);
    assert(after.dismissal(n.id@) == dismissal_after_poll(
        before.dismissal(n.id@),
        fetched,
        n.id@,
        now,
        retention,
    ));
    if forall|i: int|
        0 <= i < fetched.len() && (#[trigger] fetched[i]).id@ == n.id@ ==> fetched[i].reason@
            != "ci_activity"@ {
        no_workflow(fetched, n.id@);
    }
}

proof fn no_workflow(list: Seq<GithubNotification>, id: Seq<char>)
    requires
        forall|i: int|
            0 <= i < list.len() && (#[trigger] list[i]).id@ == id ==> list[i].reason@
                != "ci_activity"@,
    ensures
        ci_activity_of(list, id) is None,
    decreases list.len(),
{
    if list.len() > 0 {
        assert(list[list.len() - 1] == list.last());
        let rest = list.drop_last();
        assert forall|i: int| 0 <= i < rest.len() && (#[trigger] rest[i]).id@ == id implies rest[
            i].reason@ != "ci_activity"@ by {
            assert(rest[i] == list[i]);
        }
        no_workflow(rest, id);
    }
}

/// A dismissed thread is shown again once it has an unread notification that is
/// newer than what was dismissed, or once its dismissal is older than it is kept.
pub proof fn news_and_time_take_a_dismissal_back(
    before: Notifications,
    fetched: Seq<GithubNotification>,
    now: i64,
    retention: i64,
    after: Notifications,
    i: int,
    at: Seq<char>,
    when: i64,
)
    requires
        before.after_poll(fetched, now, retention, after),
        0 <= i < fetched.len(),
        before.dismissal(fetched[i].id@) == Some((at, when)),
        forall|k: int|
            0 <= k < fetched.len() && (#[trigger] fetched[k]).id@ == fetched[i].id@
                ==> fetched[k].reason@ != "ci_activity"@,
    ensures
        fetched[i].unread && text_before(at, fetched[i].updated_at@) ==> after.list@.contains(
            fetched[i],
        ),
        now - when > retention ==> after.list@.contains(fetched[i]),
        now - when <= retention && (forall|k: int|
            0 <= k < fetched.len() && (#[trigger] fetched[k]).id@ == fetched[i].id@
                ==> !fetched[k].unread || !text_before(at, fetched[k].updated_at@))
            ==> !after.list@.contains(fetched[i]),
{
    let n = fetched[i];
    crate::order::kept_elements(fetched, not_dismissed(after.dismissed), n);
    no_workflow(fetched, n.id@);
    assert(after.dismissal(n.id@) == dismissal_after_poll(
        before.dismissal(n.id@),
        fetched,
        n.id@,
        now,
        retention,
    ));
    assert(fetched.contains(n));
}

/// The threads to dismiss on the server are exactly those of the workflow
/// notifications.
pub proof fn workflow_threads_are_dismissed(list: Seq<GithubNotification>, id: Seq<char>)
    ensures
        ci_threads(list).contains(id) <==> exists|i: int|
            0 <= i < list.len() && (#[trigger] list[i]).id@ == id && list[i].reason@
                == "ci_activity"@,
    decreases list.len(),
{
    if list.len() > 0 {
        let rest = list.drop_last();
        let before = ci_threads(rest);
        let after = ci_threads(list);
        let last = list.last();
        workflow_threads_are_dismissed(rest, id);
        assert(list[list.len() - 1] == last);
        if before.contains(id) {
            let k = choose|k: int| 0 <= k < before.len() && before[k] == id;
            assert(after[k] == id);
        }
        if is_ci(last) {
            assert(after[after.len() - 1] == last.id@);
            if after.contains(id) && id != last.id@ {
                let k = choose|k: int| 0 <= k < after.len() && after[k] == id;
                assert(before[k] == id);
            }
        }
        if exists|i: int|
            0 <= i < rest.len() && (#[trigger] rest[i]).id@ == id && rest[i].reason@
                == "ci_activity"@ {
            let i = choose|i: int|
                0 <= i < rest.len() && (#[trigger] rest[i]).id@ == id && rest[i].reason@
                    == "ci_activity"@;
            assert(list[i] == rest[i]);
        }
        if exists|i: int|
            0 <= i < list.len() && (#[trigger] list[i]).id@ == id && list[i].reason@
                == "ci_activity"@ {
            let i = choose|i: int|
                0 <= i < list.len() && (#[trigger] list[i]).id@ == id && list[i].reason@
                    == "ci_activity"@;
            if i < rest.len() {
                assert(rest[i] == list[i]);
            }
        }
    }
}

/// The keys of the notifications are about the selected one: `o` and enter open
/// its page and mark it as read, `d` takes it off the list and remembers what was
/// dismissed. `j` and `k` go through the list and stop at its ends.
pub proof fn notification_keys_are_about_the_selected_one(
    before: Notifications,
    key: KeyPress,
    now: i64,
    after: Notifications,
)
    requires
        before.selected < before.list.len(),
        !key.ctrl,
        before.after_key(key, now, after),
    ensures
        ({
            let i = before.selected as int;
            let n = before.list@[i];
            let opens = key.code == KeyCode::Char('o') || key.code is Enter;
            let dismisses = key.code == KeyCode::Char('d');
            &&& opens ==> before.outcome(key) == (NotifOutcome::Opened {
                url: n.browser_url@,
                thread_id: n.id@,
                mark_read: n.unread,
            }) && !after.list@[i].unread && after.list@.len() == before.list@.len()
                && after.list@[i].id == n.id
            &&& dismisses ==> before.outcome(key) == NotifOutcome::Dismissed(n.id@) && after.list@
                == before.list@.remove(i) && after.dismissal(n.id@) == Some((n.updated_at@, now))
            &&& !opens && !dismisses ==> after.list == before.list
            &&& key.code == KeyCode::Char('j') && i + 1 < before.list@.len() ==> after.selected == i
                + 1
            &&& key.code == KeyCode::Char('j') && i + 1 == before.list@.len() ==> after.selected
                == i
            &&& key.code == KeyCode::Char('k') && i > 0 ==> after.selected == i - 1
            &&& key.code == KeyCode::Char('k') && i == 0 ==> after.selected == 0
            &&& key.code is Esc || key.code == KeyCode::Char('q') ==> before.outcome(key) is Close
        }),
{
}

/// Dismissing and opening change no other dismissal.
pub proof fn other_dismissals_stay(
    before: Notifications,
    key: KeyPress,
    now: i64,
    after: Notifications,
    id: Seq<char>,
)
    requires
        before.after_key(key, now, after),
        before.outcome(key) != NotifOutcome::Dismissed(id),
    ensures
        after.dismissal(id) == before.dismissal(id),
{
}

/// GitHub is asked once a minute, by one poll at a time.
pub proof fn notifications_are_polled_once_a_minute(notifs: Notifications, now: i64)
    requires
        now >= notifs.last_poll,
        notifs.poll_due(now),
    ensures
        now - notifs.last_poll >= 60_000_000_000,
        notifs.ticked(now).last_poll == now,
        notifs.ticked(now).poll_active,
        forall|later: i64|
            now <= later < now + 60_000_000_000 ==> !#[trigger] notifs.ticked(now).poll_due(later),
{
}

/// A poll that has ended leaves the time of the last one as it was, lets the next
/// one start and keeps the selection within what is shown.
pub proof fn an_ended_poll_lets_the_next_one_start(
    before: Notifications,
    fetched: Seq<GithubNotification>,
    now: i64,
    retention: i64,
    after: Notifications,
)
    requires
        before.after_poll(fetched, now, retention, after),
    ensures
        !after.poll_active && after.first_poll_done,
        after.last_poll == before.last_poll,
        after.list@.len() > 0 ==> after.selected < after.list@.len(),
        before.selected < after.list@.len() ==> after.selected == before.selected,
        after.list@.len() == 0 ==> after.selected == before.selected,
{
}

} // verus!
