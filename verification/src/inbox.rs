//! Delivery of inbox messages into tmux windows, target by target.

use crate::app_time::{elapsed, time_since, INBOX_INTERVAL};
use crate::table::{contains_string, has_string, insert_string, Table};
use crate::text::{
    concat, contains_text, decimal, decimals_differ, has_text, middle_stands, number, texts,
};
use vstd::prelude::*;

verus! {

/// How many consecutive "skipped" poll cycles (readiness gate refused to
/// deliver while the inbox still had undelivered messages) qualifies a target
/// as "stalled" and surfaces a UI indicator.
pub const STALL_THRESHOLD: u32 = 5;

/// How often the delivery of a message is tried.
pub const MAX_RETRIES: usize = 3;

/// How long a target has to be ready before anything is delivered to it, in
/// nanoseconds.
pub const COLD_START: u64 = 3_000_000_000;

/// How long to wait before another try, in milliseconds.
pub const RETRY_DELAY: u64 = 500;

/// How long to wait for a window to show what was sent, in milliseconds.
pub const SETTLE_DELAY: u64 = 200;

pub struct InboxMessage {
    pub from: String,
    pub message: String,
    pub seq: u64,
}

/// What a message shows in a window, by which it is recognised there.
pub open spec fn snippet_of(m: InboxMessage) -> Seq<char> {
    "[msg:"@ + m.from@ + ":"@ + decimal(m.seq as nat) + "]"@
}

/// What a message shows in a window, by which it is recognised there.
pub fn snippet(m: &InboxMessage) -> (s: String)
    ensures
        s@ == snippet_of(*m),
{
    let mut s = concat("[msg:", m.from.as_str());
    s.append(":");
    s.append(number(m.seq).as_str());
    s.append("]");
    s
}

/// Where the delivery to a target stands. The numbers are a message and an
/// attempt.
#[derive(Debug, Clone, Copy, PartialEq, Eq, Structural)]
pub enum PollStep {
    Read,
    Ready,
    Visible,
    DeferFirst,
    RescueLook,
    RescueEnter,
    RescueSettle,
    RescueVerify,
    RescueMark,
    Defer(usize),
    Look(usize, usize),
    Enter(usize, usize),
    Inject(usize, usize),
    Settle(usize, usize),
    Verify(usize, usize),
    Pause(usize, usize),
    Mark(usize),
    Done,
}

/// What the delivery asks of the world next.
#[derive(Debug, Clone, Copy, PartialEq, Eq, Structural)]
pub enum PollAction {
    ReadUndelivered,
    CheckReady,
    CheckVisible,
    /// Find out whether a message is to wait because its window is looked at.
    AskDefer(usize),
    CapturePane,
    SendEnter,
    InjectMessage(usize),
    /// Milliseconds.
    Sleep(u64),
    MarkDelivered(usize),
    Finish,
}

/// Whether the program that takes messages runs in a window.
#[derive(Debug, Clone, Copy, PartialEq, Eq, Structural)]
pub enum Readiness {
    Ready,
    NotReady,
    Unknown,
}

/// What the world answers.
pub enum PollEvent {
    Messages(Result<Vec<InboxMessage>, String>),
    Readiness(Readiness),
    Visibility(Option<bool>),
    Defer(bool),
    /// What a window shows, if it could be read.
    Pane(Option<String>),
    /// Whether sending worked.
    Sent(bool),
    Slept,
    /// What went wrong with marking a message as delivered, if anything.
    Marked(Option<String>),
}

/// The action that a step waits for.
#[verifier::allow_in_spec]
pub fn action_of(step: PollStep) -> PollAction
    returns
        (match step {
            PollStep::Read => PollAction::ReadUndelivered,
            PollStep::Ready => PollAction::CheckReady,
            PollStep::Visible => PollAction::CheckVisible,
            PollStep::DeferFirst => PollAction::AskDefer(0),
            PollStep::RescueLook | PollStep::RescueVerify => PollAction::CapturePane,
            PollStep::RescueEnter => PollAction::SendEnter,
            PollStep::RescueSettle => PollAction::Sleep(SETTLE_DELAY),
            PollStep::RescueMark => PollAction::MarkDelivered(0),
            PollStep::Defer(i) => PollAction::AskDefer(i),
            PollStep::Look(_, _) | PollStep::Verify(_, _) => PollAction::CapturePane,
            PollStep::Enter(_, _) => PollAction::SendEnter,
            PollStep::Inject(i, _) => PollAction::InjectMessage(i),
            PollStep::Settle(_, _) => PollAction::Sleep(SETTLE_DELAY),
            PollStep::Pause(_, _) => PollAction::Sleep(RETRY_DELAY),
            PollStep::Mark(i) => PollAction::MarkDelivered(i),
            PollStep::Done => PollAction::Finish,
        }),
{
    match step {
        PollStep::Read => PollAction::ReadUndelivered,
        PollStep::Ready => PollAction::CheckReady,
        PollStep::Visible => PollAction::CheckVisible,
        PollStep::DeferFirst => PollAction::AskDefer(0),
        PollStep::RescueLook | PollStep::RescueVerify => PollAction::CapturePane,
        PollStep::RescueEnter => PollAction::SendEnter,
        PollStep::RescueSettle => PollAction::Sleep(SETTLE_DELAY),
        PollStep::RescueMark => PollAction::MarkDelivered(0),
        PollStep::Defer(i) => PollAction::AskDefer(i),
        PollStep::Look(_, _) | PollStep::Verify(_, _) => PollAction::CapturePane,
        PollStep::Enter(_, _) => PollAction::SendEnter,
        PollStep::Inject(i, _) => PollAction::InjectMessage(i),
        PollStep::Settle(_, _) => PollAction::Sleep(SETTLE_DELAY),
        PollStep::Pause(_, _) => PollAction::Sleep(RETRY_DELAY),
        PollStep::Mark(i) => PollAction::MarkDelivered(i),
        PollStep::Done => PollAction::Finish,
    }
}

/// What is known of readiness over several polls.
pub struct Readings {
    /// Poll cycles in a row in which a target with messages was not ready.
    pub stuck_skip_counts: Table<u32>,
    /// Since when each target is ready.
    pub first_ready_at: Table<i64>,
}

/// The delivery to one target.
pub struct TargetPoll {
    pub target: String,
    pub messages: Vec<InboxMessage>,
    pub step: PollStep,
    pub delivered: usize,
    pub errors: Vec<String>,
}

/// Whether a window shows a message.
pub open spec fn pane_shows(pane: Option<String>, m: InboxMessage) -> bool {
    pane matches Some(text) && has_text(text@, snippet_of(m))
}

fn shows(pane: &Option<String>, m: &InboxMessage) -> (yes: bool)
    ensures
        yes == pane_shows(*pane, *m),
{
    match pane {
        Some(text) => contains_text(text.as_str(), snippet(m).as_str()),
        None => false,
    }
}

impl TargetPoll {
    pub fn new(target: String) -> (poll: TargetPoll)
        ensures
            poll.target == target,
            poll.messages@.len() == 0,
            poll.step is Read,
            poll.delivered == 0,
            poll.errors@.len() == 0,
            poll.wf(),
    {
        TargetPoll {
            target,
            messages: Vec::new(),
            step: PollStep::Read,
            delivered: 0,
            errors: Vec::new(),
        }
    }

    /// The message that a step is about is there, the attempt is one of those
    /// allowed, and no more messages were delivered than came before it.
    pub open spec fn wf(self) -> bool {
        let n = self.messages@.len();
        match self.step {
            PollStep::Read => self.delivered == 0,
            PollStep::Ready | PollStep::Visible | PollStep::DeferFirst | PollStep::RescueLook
            | PollStep::RescueEnter | PollStep::RescueSettle | PollStep::RescueVerify
            | PollStep::RescueMark => n > 0 && self.delivered == 0,
            PollStep::Defer(i) | PollStep::Mark(i) => i < n && self.delivered <= i,
            PollStep::Look(i, a) | PollStep::Enter(i, a) | PollStep::Inject(i, a)
            | PollStep::Settle(i, a) | PollStep::Verify(i, a) | PollStep::Pause(i, a) => {
                i < n && a < MAX_RETRIES && self.delivered <= i
            },
            PollStep::Done => self.delivered <= n,
        }
    }

    /// The step after reading the messages.
    pub open spec fn step_after_read(messages: Result<Vec<InboxMessage>, String>) -> PollStep {
        match messages {
            Ok(list) => if list@.len() > 0 {
                PollStep::Ready
            } else {
                PollStep::Done
            },
            Err(_) => PollStep::Done,
        }
    }

    /// Since when the target is ready, if it is ready now.
    pub open spec fn ready_since(self, readings: Readings, now: i64) -> i64 {
        match readings.first_ready_at.at(self.target@) {
            Some(at) => at,
            None => now,
        }
    }

    /// The target was ready long enough.
    pub open spec fn is_warm(self, readings: Readings, now: i64) -> bool {
        elapsed(self.ready_since(readings, now), now) >= COLD_START
    }

    /// The step that follows a message: the next one, if there is one.
    pub open spec fn step_after_message(self, i: usize) -> PollStep {
        if i + 1 < self.messages@.len() {
            PollStep::Defer((i + 1) as usize)
        } else {
            PollStep::Done
        }
    }

    /// The step after an event. An event that the step does not wait for
    /// changes nothing.
    pub open spec fn step_after(self, event: PollEvent, readings: Readings, now: i64) -> PollStep {
        match (self.step, event) {
            (PollStep::Read, PollEvent::Messages(messages)) => TargetPoll::step_after_read(messages),
            (PollStep::Ready, PollEvent::Readiness(r)) => if r is Ready && self.is_warm(
                readings,
                now,
            ) {
                PollStep::Visible
            } else {
                PollStep::Done
            },
            (PollStep::Visible, PollEvent::Visibility(_)) => PollStep::DeferFirst,
            (PollStep::DeferFirst, PollEvent::Defer(wait)) => if wait {
                PollStep::Done
            } else {
                PollStep::RescueLook
            },
            (PollStep::RescueLook, PollEvent::Pane(pane)) => if pane_shows(
                pane,
                self.messages@[0],
            ) {
                PollStep::RescueEnter
            } else {
                PollStep::Defer(0)
            },
            (PollStep::RescueEnter, PollEvent::Sent(_)) => PollStep::RescueSettle,
            (PollStep::RescueSettle, PollEvent::Slept) => PollStep::RescueVerify,
            (PollStep::RescueVerify, PollEvent::Pane(pane)) => if pane_shows(
                pane,
                self.messages@[0],
            ) {
                PollStep::RescueMark
            } else {
                PollStep::Done
            },
            (PollStep::RescueMark, PollEvent::Marked(_)) => PollStep::Done,
            (PollStep::Defer(i), PollEvent::Defer(wait)) => if wait {
                PollStep::Done
            } else {
                PollStep::Look(i, 0)
            },
            (PollStep::Look(i, a), PollEvent::Pane(pane)) => if pane_shows(
                pane,
                self.messages@[i as int],
            ) {
                PollStep::Enter(i, a)
            } else {
                PollStep::Inject(i, a)
            },
            (PollStep::Enter(i, a), PollEvent::Sent(ok)) => if ok {
                PollStep::Settle(i, a)
            } else {
                PollStep::Pause(i, a)
            },
            (PollStep::Inject(i, a), PollEvent::Sent(ok)) => if ok {
                PollStep::Settle(i, a)
            } else {
                PollStep::Pause(i, a)
            },
            (PollStep::Settle(i, a), PollEvent::Slept) => PollStep::Verify(i, a),
            (PollStep::Verify(i, a), PollEvent::Pane(pane)) => if pane_shows(
                pane,
                self.messages@[i as int],
            ) {
                PollStep::Mark(i)
            } else {
                PollStep::Pause(i, a)
            },
            (PollStep::Pause(i, a), PollEvent::Slept) => if a + 1 < MAX_RETRIES {
                PollStep::Look(i, (a + 1) as usize)
            } else {
                PollStep::Done
            },
            (PollStep::Mark(i), PollEvent::Marked(_)) => self.step_after_message(i),
            _ => self.step,
        }
    }

    /// How many messages are delivered after an event: one more for each that
    /// was marked.
    pub open spec fn delivered_after(self, event: PollEvent) -> int {
        match (self.step, event) {
            (PollStep::RescueMark, PollEvent::Marked(None)) => self.delivered + 1,
            (PollStep::Mark(_), PollEvent::Marked(None)) => self.delivered + 1,
            _ => self.delivered as int,
        }
    }

    /// What is reported of an event, if anything went wrong.
    pub open spec fn error_after(self, event: PollEvent) -> Option<Seq<char>> {
        match (self.step, event) {
            (PollStep::Read, PollEvent::Messages(Err(e))) => Some("read error: "@ + e@),
            (PollStep::RescueMark, PollEvent::Marked(Some(e))) => Some(
                "mark_delivered error: "@ + e@,
            ),
            (PollStep::Mark(_), PollEvent::Marked(Some(e))) => Some(
                "mark_delivered error: "@ + e@,
            ),
            (PollStep::Pause(i, a), PollEvent::Slept) => if a + 1 < MAX_RETRIES {
                None
            } else {
                Some(
                    "delivery failed after "@ + decimal(MAX_RETRIES as nat) + " attempts for seq "@
                        + decimal(self.messages@[i as int].seq as nat),
                )
            },
            _ => None,
        }
    }

    /// How many poll cycles in a row the target was not ready for, after an event.
    pub open spec fn skips_after(self, event: PollEvent, readings: Readings, now: i64) -> Option<u32> {
        let before = readings.stuck_skip_counts.at(self.target@);
        match (self.step, event) {
            (PollStep::Read, PollEvent::Messages(Ok(list))) => if list@.len() == 0 {
                None
            } else {
                before
            },
            (PollStep::Ready, PollEvent::Readiness(r)) => match r {
                Readiness::NotReady => Some(
                    match before {
                        Some(n) => if n < u32::MAX {
                            (n + 1) as u32
                        } else {
                            n
                        },
                        None => 1,
                    },
                ),
                Readiness::Ready => if self.is_warm(readings, now) {
                    None
                } else {
                    before
                },
                Readiness::Unknown => before,
            },
            (PollStep::RescueVerify, PollEvent::Pane(pane)) => if pane_shows(
                pane,
                self.messages@[0],
            ) {
                before
            } else {
                None
            },
            (PollStep::RescueMark, PollEvent::Marked(_)) => None,
            _ => before,
        }
    }

    /// Since when the target counts as ready, after an event.
    pub open spec fn ready_after(self, event: PollEvent, readings: Readings, now: i64) -> Option<i64> {
        let before = readings.first_ready_at.at(self.target@);
        match (self.step, event) {
            (PollStep::Ready, PollEvent::Readiness(r)) => match r {
                Readiness::NotReady => None,
                Readiness::Ready => Some(self.ready_since(readings, now)),
                Readiness::Unknown => before,
            },
            _ => before,
        }
    }

    /// The delivery after an event.
    pub open spec fn after(self, event: PollEvent, readings: Readings, now: i64, next: TargetPoll) -> bool {
        &&& next.target == self.target
        &&& next.step == self.step_after(event, readings, now)
        &&& next.delivered == self.delivered_after(event)
        &&& next.messages == match (self.step, event) {
            (PollStep::Read, PollEvent::Messages(Ok(list))) => list,
            _ => self.messages,
        }
        &&& texts(next.errors@) == match self.error_after(event) {
            Some(e) => texts(self.errors@).push(e),
            None => texts(self.errors@),
        }
    }

    /// The readings after an event: those of this target change, no others.
    pub open spec fn readings_after(
        self,
        event: PollEvent,
        readings: Readings,
        now: i64,
        next: Readings,
    ) -> bool {
        &&& forall|t: Seq<char>| #[trigger]
            next.stuck_skip_counts.at(t) == if t == self.target@ {
                self.skips_after(event, readings, now)
            } else {
                readings.stuck_skip_counts.at(t)
            }
        &&& forall|t: Seq<char>| #[trigger]
            next.first_ready_at.at(t) == if t == self.target@ {
                self.ready_after(event, readings, now)
            } else {
                readings.first_ready_at.at(t)
            }
    }

    fn report(&mut self, error: String)
        ensures
            *final(self) == (TargetPoll { errors: final(self).errors, ..*old(self) }),
            texts(final(self).errors@) == texts(old(self).errors@).push(error@),
    {
        self.errors.push(error);
        assert(texts(self.errors@) == texts(old(self).errors@).push(error@));
    }

    /// A message was marked as delivered, or not.
    fn count_marked(&mut self, error: Option<String>)
        requires
            old(self).delivered < usize::MAX,
        ensures
            *final(self) == (TargetPoll {
                errors: final(self).errors,
                delivered: if error is None {
                    (old(self).delivered + 1) as usize
                } else {
                    old(self).delivered
                },
                ..*old(self)
            }),
            texts(final(self).errors@) == match error {
                Some(e) => texts(old(self).errors@).push("mark_delivered error: "@ + e@),
                None => texts(old(self).errors@),
            },
    {
        match error {
            Some(e) => self.report(concat("mark_delivered error: ", e.as_str())),
            None => {
                self.delivered += 1;
            },
        }
    }

    /// It was found out whether the target is ready: not being ready counts,
    /// and starts the wait for a warm start anew.
    fn note_readiness(&mut self, r: Readiness, readings: &mut Readings, now: i64)
        requires
            old(self).step is Ready,
        ensures
            *final(self) == (TargetPoll {
                step: if r is Ready && old(self).is_warm(*old(readings), now) {
                    PollStep::Visible
                } else {
                    PollStep::Done
                },
                ..*old(self)
            }),
            old(self).readings_after(
                PollEvent::Readiness(r),
                *old(readings),
                now,
                *final(readings),
            ),
    {
        match r {
            Readiness::NotReady => {
                readings.first_ready_at.remove(self.target.as_str());
                let skips: u32 = match readings.stuck_skip_counts.get(self.target.as_str()) {
                    Some(n) => if *n < u32::MAX {
                        *n + 1
                    } else {
                        *n
                    },
                    None => 1,
                };
                readings.stuck_skip_counts.insert(self.target.clone(), skips);
                self.step = PollStep::Done;
            },
            Readiness::Unknown => {
                self.step = PollStep::Done;
            },
            Readiness::Ready => {
                let since: i64 = match readings.first_ready_at.get(self.target.as_str()) {
                    Some(at) => *at,
                    None => now,
                };
                readings.first_ready_at.insert(self.target.clone(), since);
                if time_since(since, now) < COLD_START {
                    self.step = PollStep::Done;
                } else {
                    readings.stuck_skip_counts.remove(self.target.as_str());
                    self.step = PollStep::Visible;
                }
            },
        }
    }

    /// What the messages that were read lead to.
    fn take_messages(
        &mut self,
        messages: Result<Vec<InboxMessage>, String>,
        readings: &mut Readings,
        now: i64,
    )
        requires
            old(self).step is Read,
        ensures
            old(self).after(
                PollEvent::Messages(messages),
                *old(readings),
                now,
                *final(self),
            ),
            old(self).readings_after(
                PollEvent::Messages(messages),
                *old(readings),
                now,
                *final(readings),
            ),
    {
        match messages {
            Ok(list) => {
                if list.len() == 0 {
                    readings.stuck_skip_counts.remove(self.target.as_str());
                    self.step = PollStep::Done;
                } else {
                    self.step = PollStep::Ready;
                }
                self.messages = list;
            },
            Err(e) => {
                self.report(concat("read error: ", e.as_str()));
                self.step = PollStep::Done;
            },
        }
    }

    /// A pause is over: another attempt, or the end after the last one.
    fn retry(&mut self, i: usize, a: usize)
        requires
            old(self).step == PollStep::Pause(i, a),
            old(self).wf(),
        ensures
            final(self).target == old(self).target,
            final(self).messages == old(self).messages,
            final(self).delivered == old(self).delivered,
            final(self).step == if a + 1 < MAX_RETRIES {
                PollStep::Look(i, (a + 1) as usize)
            } else {
                PollStep::Done
            },
            texts(final(self).errors@) == match old(self).error_after(PollEvent::Slept) {
                Some(e) => texts(old(self).errors@).push(e),
                None => texts(old(self).errors@),
            },
    {
        if a + 1 < MAX_RETRIES {
            self.step = PollStep::Look(i, a + 1);
        } else {
            let mut error = concat("delivery failed after ", number(MAX_RETRIES as u64).as_str());
            error.append(" attempts for seq ");
            error.append(number(self.messages[i].seq).as_str());
            self.report(error);
            self.step = PollStep::Done;
        }
    }

    /// Takes an event over, and says what to do next.
    pub fn handle(&mut self, event: PollEvent, readings: &mut Readings, now: i64) -> (action:
        PollAction)
        requires
            old(self).wf(),
        ensures
            final(self).wf(),
            old(self).after(event, *old(readings), now, *final(self)),
            old(self).readings_after(event, *old(readings), now, *final(readings)),
            action == action_of(final(self).step),
    {
        match (self.step, event) {
            (PollStep::Read, PollEvent::Messages(messages)) => {
                self.take_messages(messages, readings, now);
            },
            (PollStep::Ready, PollEvent::Readiness(r)) => {
                self.note_readiness(r, readings, now);
            },
            (PollStep::Visible, PollEvent::Visibility(_)) => {
                self.step = PollStep::DeferFirst;
            },
            (PollStep::DeferFirst, PollEvent::Defer(wait)) => {
                self.step = if wait {
                    PollStep::Done
                } else {
                    PollStep::RescueLook
                };
            },
            (PollStep::RescueLook, PollEvent::Pane(pane)) => {
                self.step = if shows(&pane, &self.messages[0]) {
                    PollStep::RescueEnter
                } else {
                    PollStep::Defer(0)
                };
            },
            (PollStep::RescueEnter, PollEvent::Sent(_)) => {
                self.step = PollStep::RescueSettle;
            },
            (PollStep::RescueSettle, PollEvent::Slept) => {
                self.step = PollStep::RescueVerify;
            },
            (PollStep::RescueVerify, PollEvent::Pane(pane)) => {
                if shows(&pane, &self.messages[0]) {
                    self.step = PollStep::RescueMark;
                } else {
                    readings.stuck_skip_counts.remove(self.target.as_str());
                    self.step = PollStep::Done;
                }
            },
            (PollStep::RescueMark, PollEvent::Marked(error)) => {
                self.count_marked(error);
                readings.stuck_skip_counts.remove(self.target.as_str());
                self.step = PollStep::Done;
            },
            (PollStep::Defer(i), PollEvent::Defer(wait)) => {
                self.step = if wait {
                    PollStep::Done
                } else {
                    PollStep::Look(i, 0)
                };
            },
            (PollStep::Look(i, a), PollEvent::Pane(pane)) => {
                self.step = if shows(&pane, &self.messages[i]) {
                    PollStep::Enter(i, a)
                } else {
                    PollStep::Inject(i, a)
                };
            },
            (PollStep::Enter(i, a), PollEvent::Sent(ok)) => {
                self.step = if ok {
                    PollStep::Settle(i, a)
                } else {
                    PollStep::Pause(i, a)
                };
            },
            (PollStep::Inject(i, a), PollEvent::Sent(ok)) => {
                self.step = if ok {
                    PollStep::Settle(i, a)
                } else {
                    PollStep::Pause(i, a)
                };
            },
            (PollStep::Settle(i, a), PollEvent::Slept) => {
                self.step = PollStep::Verify(i, a);
            },
            (PollStep::Verify(i, a), PollEvent::Pane(pane)) => {
                self.step = if shows(&pane, &self.messages[i]) {
                    PollStep::Mark(i)
                } else {
                    PollStep::Pause(i, a)
                };
            },
            (PollStep::Pause(i, a), PollEvent::Slept) => {
                self.retry(i, a);
            },
            (PollStep::Mark(i), PollEvent::Marked(error)) => {
                assert(i < self.messages.len());
                self.count_marked(error);
                self.step = if i + 1 < self.messages.len() {
                    PollStep::Defer(i + 1)
                } else {
                    PollStep::Done
                };
            },
            _ => {},
        }
        action_of(self.step)
    }
}

/// What came of the delivery to a target.
pub struct InboxPollResult {
    pub target: String,
    pub delivered: usize,
    pub errors: Vec<String>,
}

/// What came of a poll of all targets.
pub struct InboxPollOutput {
    pub results: Vec<InboxPollResult>,
    pub readings: Readings,
}

/// The polling of inboxes.
pub struct Inbox {
    pub last_poll: i64,
    pub poll_active: bool,
    pub readings: Readings,
    /// Targets that a one-shot "stalled" warning was given for.
    pub stall_warned: Vec<String>,
}

/// A target was not ready for too many cycles in a row.
pub open spec fn is_stalled(counts: Table<u32>, target: Seq<char>) -> bool {
    counts.at(target) matches Some(n) && n >= STALL_THRESHOLD
}

/// The stalled targets among the first entries, each once.
pub open spec fn stalled_names(counts: Table<u32>, n: nat) -> Seq<Seq<char>>
    decreases n,
{
    if n == 0 {
        Seq::empty()
    } else {
        let before = stalled_names(counts, (n - 1) as nat);
        let name = counts.entries@[n - 1].0@;
        if is_stalled(counts, name) && !before.contains(name) {
            before.push(name)
        } else {
            before
        }
    }
}

/// The targets that were not ready for too many cycles in a row.
pub fn stalled_targets_from_counts(counts: &Table<u32>) -> (targets: Vec<String>)
    ensures
        texts(targets@) == stalled_names(*counts, counts.entries@.len()),
        forall|t: Seq<char>| #[trigger] has_string(targets@, t) == is_stalled(*counts, t),
{
    let mut targets: Vec<String> = Vec::new();
    let mut i: usize = 0;
    while i < counts.entries.len()
        invariant
            i <= counts.entries.len(),
            texts(targets@) =~= stalled_names(*counts, i as nat),
            forall|t: Seq<char>| #[trigger]
                has_string(targets@, t) == (is_stalled(*counts, t) && crate::table::has_key(
                    counts.entries@.take(i as int),
                    t,
                )),
        decreases counts.entries.len() - i,
    {
        let ghost before = targets@;
        let ghost here = counts.entries@.take(i as int);
        let ghost more = counts.entries@.take(i + 1);
        let key = counts.entries[i].0.clone();
        let stalled = match counts.get(key.as_str()) {
            Some(n) => *n >= STALL_THRESHOLD,
            None => false,
        };
        if stalled {
            insert_string(&mut targets, key.clone());
        }
        proof {
            let names = texts(before);
            if has_string(before, key@) {
                let k = choose|k: int| 0 <= k < before.len() && #[trigger] before[k]@ == key@;
                assert(names[k] == key@);
            }
            if names.contains(key@) {
                let k = choose|k: int| 0 <= k < names.len() && #[trigger] names[k] == key@;
                assert(before[k]@ == key@);
            }
        }
        assert forall|t: Seq<char>| #[trigger]
            has_string(targets@, t) == (is_stalled(*counts, t) && crate::table::has_key(
                more,
                t,
            )) by {
            assert(has_string(before, t) == (is_stalled(*counts, t) && crate::table::has_key(
                here,
                t,
            )));
            if crate::table::has_key(here, t) {
                let k = choose|k: int| 0 <= k < here.len() && #[trigger] here[k].0@ == t;
                assert(more[k].0@ == t);
            }
            if t == key@ {
                assert(more[i as int].0@ == t);
            }
            if crate::table::has_key(more, t) {
                let k = choose|k: int| 0 <= k < more.len() && #[trigger] more[k].0@ == t;
                if k < i {
                    assert(here[k].0@ == t);
                }
            }
        }
        i += 1;
    }
    proof {
        assert(counts.entries@.take(i as int) == counts.entries@);
        assert forall|t: Seq<char>| #[trigger]
            has_string(targets@, t) == is_stalled(*counts, t) by {
            crate::table::lookup_has_key(counts.entries@, t);
        }
    }
    targets
}

/// Something was delivered to the target.
pub open spec fn was_served(results: Seq<InboxPollResult>, target: Seq<char>) -> bool {
    exists|i: int|
        0 <= i < results.len() && (#[trigger] results[i]).target@ == target && results[i].delivered
            > 0
}

impl Inbox {
    /// A poll is due.
    pub open spec fn poll_due(self, now: i64) -> bool {
        elapsed(self.last_poll, now) >= INBOX_INTERVAL
    }

    /// The state after the clock was looked at: a poll that is due counts as
    /// made, also where the one before is still under way.
    pub open spec fn ticked(self, now: i64) -> Inbox {
        if self.poll_due(now) {
            Inbox { last_poll: now, ..self }
        } else {
            self
        }
    }

    /// Looks at the clock, and says whether to start a poll: where one is due
    /// and none is under way.
    pub fn tick(&mut self, now: i64) -> (due: bool)
        ensures
            due == (old(self).poll_due(now) && !old(self).poll_active),
            *final(self) == old(self).ticked(now),
    {
        if time_since(self.last_poll, now) < INBOX_INTERVAL {
            return false;
        }
        self.last_poll = now;
        !self.poll_active
    }

    /// Starts a poll unless one is under way or there is nothing to poll, and
    /// says whether it did.
    pub fn start_inbox_poll(&mut self, targets: usize) -> (started: bool)
        ensures
            started == (!old(self).poll_active && targets > 0),
            *final(self) == (Inbox {
                poll_active: old(self).poll_active || targets > 0,
                ..*old(self)
            }),
    {
        if self.poll_active || targets == 0 {
            return false;
        }
        self.poll_active = true;
        true
    }

    /// The stalled targets.
    pub open spec fn stalled(self) -> Seq<Seq<char>> {
        let counts = self.readings.stuck_skip_counts;
        stalled_names(counts, counts.entries@.len())
    }

    /// Targets whose consecutive-skip count has reached `STALL_THRESHOLD`.
    pub fn stalled_targets(&self) -> (targets: Vec<String>)
        ensures
            texts(targets@) == self.stalled(),
            forall|t: Seq<char>| #[trigger]
                has_string(targets@, t) == is_stalled(self.readings.stuck_skip_counts, t),
    {
        stalled_targets_from_counts(&self.readings.stuck_skip_counts)
    }

    /// The inboxes after a poll: exactly the stalled targets were warned of,
    /// and a target that something was delivered to starts to count anew.
    pub open spec fn after_poll(self, output: InboxPollOutput, after: Inbox) -> bool {
        &&& !after.poll_active
        &&& after.last_poll == self.last_poll
        &&& after.readings.first_ready_at == output.readings.first_ready_at
        &&& forall|t: Seq<char>| #[trigger]
            has_string(after.stall_warned@, t) == is_stalled(output.readings.stuck_skip_counts, t)
        &&& forall|t: Seq<char>| #[trigger]
            after.readings.stuck_skip_counts.at(t) == if was_served(output.results@, t) {
                None
            } else {
                output.readings.stuck_skip_counts.at(t)
            }
    }

    /// A target is warned of: it is stalled, and was not warned of before.
    pub open spec fn warns_of(self, output: InboxPollOutput, target: Seq<char>) -> bool {
        is_stalled(output.readings.stuck_skip_counts, target) && !has_string(
            self.stall_warned@,
            target,
        )
    }

    /// Takes over what came of a poll. The targets to warn of come back: those
    /// that are stalled and were not before.
    pub fn apply_inbox_poll_results(&mut self, output: InboxPollOutput) -> (warn: Vec<String>)
        ensures
            old(self).after_poll(output, *final(self)),
            forall|t: Seq<char>| #[trigger]
                has_string(warn@, t) == old(self).warns_of(output, t),
            texts(warn@).no_duplicates(),
    {
        self.poll_active = false;
        self.readings = output.readings;
        let stalled = stalled_targets_from_counts(&self.readings.stuck_skip_counts);
        let warn = new_strings(&stalled, &self.stall_warned);
        self.stall_warned = stalled;
        forget_served(&mut self.readings.stuck_skip_counts, &output.results);
        warn
    }
}

/// The strings that are not among the known ones.
fn new_strings(items: &Vec<String>, known: &Vec<String>) -> (fresh: Vec<String>)
    ensures
        forall|s: Seq<char>| #[trigger]
            has_string(fresh@, s) == (has_string(items@, s) && !has_string(known@, s)),
        texts(fresh@).no_duplicates(),
{
    let mut fresh: Vec<String> = Vec::new();
    let mut i: usize = 0;
    while i < items.len()
        invariant
            i <= items.len(),
            forall|s: Seq<char>| #[trigger]
                has_string(fresh@, s) == (has_string(items@.take(i as int), s) && !has_string(
                    known@,
                    s,
                )),
            texts(fresh@).no_duplicates(),
        decreases items.len() - i,
    {
        let ghost before = fresh@;
        let ghost here = items@.take(i as int);
        let ghost more = items@.take(i + 1);
        let is_known = contains_string(known, items[i].as_str());
        if !is_known {
            let added = insert_string(&mut fresh, items[i].clone());
            if added {
                assert(texts(fresh@) =~= texts(before).push(items@[i as int]@));
                assert forall|k: int, l: int| 0 <= k < l < fresh@.len() implies texts(
                    fresh@,
                )[k] != texts(fresh@)[l] by {
                    assert(texts(fresh@)[k] == before[k]@);
                }
            }
        }
        assert forall|s: Seq<char>| #[trigger]
            has_string(fresh@, s) == (has_string(more, s) && !has_string(known@, s)) by {
            assert(has_string(before, s) == (has_string(here, s) && !has_string(known@, s)));
            if has_string(here, s) {
                let k = choose|k: int| 0 <= k < here.len() && #[trigger] here[k]@ == s;
                assert(more[k]@ == s);
            }
            if s == items@[i as int]@ {
                assert(more[i as int]@ == s);
            }
            if has_string(more, s) {
                let k = choose|k: int| 0 <= k < more.len() && #[trigger] more[k]@ == s;
                if k < i {
                    assert(here[k]@ == s);
                }
            }
        }
        i += 1;
    }
    assert(items@.take(i as int) == items@);
    fresh
}

/// Targets that something was delivered to start to count anew.
fn forget_served(counts: &mut Table<u32>, results: &Vec<InboxPollResult>)
    ensures
        forall|t: Seq<char>| #[trigger]
            final(counts).at(t) == if was_served(results@, t) {
                None
            } else {
                old(counts).at(t)
            },
{
    let ghost start = *counts;
    let mut i: usize = 0;
    while i < results.len()
        invariant
            i <= results.len(),
            forall|t: Seq<char>| #[trigger]
                counts.at(t) == if was_served(results@.take(i as int), t) {
                    None
                } else {
                    start.at(t)
                },
        decreases results.len() - i,
    {
        let ghost before = *counts;
        let ghost here = results@.take(i as int);
        let ghost more = results@.take(i + 1);
        if results[i].delivered > 0 {
            counts.remove(results[i].target.as_str());
        }
        assert forall|t: Seq<char>| #[trigger]
            counts.at(t) == if was_served(more, t) {
                None
            } else {
                start.at(t)
            } by {
            assert(before.at(t) == before.at(t));
            if was_served(here, t) {
                let k = choose|k: int|
                    0 <= k < here.len() && (#[trigger] here[k]).target@ == t && here[k].delivered
                        > 0;
                assert(more[k] == here[k]);
            }
            if results@[i as int].target@ == t && results@[i as int].delivered > 0 {
                assert(more[i as int] == results@[i as int]);
            }
            if was_served(more, t) {
                let k = choose|k: int|
                    0 <= k < more.len() && (#[trigger] more[k]).target@ == t && more[k].delivered
                        > 0;
                if k < i {
                    assert(here[k] == more[k]);
                }
            }
        }
        i += 1;
    }
    assert(results@.take(i as int) == results@);
}

/// A stalled target is warned of once: the next poll warns of a target if and
/// only if it is stalled then and was not at the poll before, so not again as long
/// as it stays stalled, and again once it recovered. What happens between the
/// polls does not matter where it leaves alone who was warned of.
pub proof fn stalls_are_warned_of_once(
    before: Inbox,
    first: InboxPollOutput,
    between: Inbox,
    again: Inbox,
    second: InboxPollOutput,
    target: Seq<char>,
)
    requires
        before.after_poll(first, between),
        again.stall_warned == between.stall_warned,
    ensures
        again.warns_of(second, target) <==> is_stalled(second.readings.stuck_skip_counts, target)
            && !is_stalled(first.readings.stuck_skip_counts, target),
        is_stalled(first.readings.stuck_skip_counts, target) ==> !again.warns_of(second, target),
{
}

/// A message counts as delivered only after its window was seen to show it:
/// marking is asked for only once a look at the window found it there.
pub proof fn only_seen_messages_are_marked(
    poll: TargetPoll,
    event: PollEvent,
    readings: Readings,
    now: i64,
    next: TargetPoll,
    i: usize,
)
    requires
        poll.after(event, readings, now, next),
        action_of(next.step) == PollAction::MarkDelivered(i),
        action_of(poll.step) != PollAction::MarkDelivered(i),
    ensures
        event matches PollEvent::Pane(pane) && pane_shows(pane, poll.messages@[i as int]),
        next.messages == poll.messages,
{
}

/// Every message is tried at most a fixed number of times: a step is never
/// about a later attempt than allowed, and a new attempt has the next number.
pub proof fn attempts_are_bounded(
    poll: TargetPoll,
    event: PollEvent,
    readings: Readings,
    now: i64,
    next: TargetPoll,
)
    requires
        poll.wf(),
        poll.after(event, readings, now, next),
    ensures
        next.step matches PollStep::Look(i, a) ==> a < MAX_RETRIES && (poll.step == next.step
            || poll.step == PollStep::Defer(i) && a == 0 || (a > 0 && poll.step
            == PollStep::Pause(i, (a - 1) as usize))),
{
}

/// No event delivers more than one message, and the count never goes down.
pub proof fn deliveries_are_counted_once(
    poll: TargetPoll,
    event: PollEvent,
    readings: Readings,
    now: i64,
    next: TargetPoll,
)
    requires
        poll.after(event, readings, now, next),
    ensures
        poll.delivered <= next.delivered <= poll.delivered + 1,
        next.delivered == poll.delivered + 1 ==> event == PollEvent::Marked(None),
{
}

/// A target that was not ready is not sent anything before it was ready for
/// the whole of the cold-start time.
pub proof fn cold_targets_are_left_alone(
    poll: TargetPoll,
    event: PollEvent,
    readings: Readings,
    now: i64,
    next: TargetPoll,
)
    requires
        poll.step is Ready,
        poll.after(event, readings, now, next),
        !(next.step is Ready),
        !(next.step is Done),
    ensures
        readings.first_ready_at.at(poll.target@) matches Some(at) && elapsed(at, now)
            >= COLD_START,
{
}

/// A whole poll of a target that has messages and is found not ready.
pub open spec fn poll_skips(
    target: Seq<char>,
    before: Readings,
    messages: Vec<InboxMessage>,
    fresh: TargetPoll,
    read: TargetPoll,
    between: Readings,
    done: TargetPoll,
    after: Readings,
    now: i64,
) -> bool {
    &&& fresh.target@ == target
    &&& fresh.step is Read
    &&& messages@.len() > 0
    &&& fresh.after(PollEvent::Messages(Ok(messages)), before, now, read)
    &&& fresh.readings_after(PollEvent::Messages(Ok(messages)), before, now, between)
    &&& read.after(PollEvent::Readiness(Readiness::NotReady), between, now, done)
    &&& read.readings_after(PollEvent::Readiness(Readiness::NotReady), between, now, after)
}

/// A poll that finds a target with messages not ready counts one more skipped
/// poll for it, delivers nothing, and ends. It counts for no other target, and
/// the wait for a warm start begins anew.
pub proof fn a_skipped_poll_counts_one_more(
    target: Seq<char>,
    before: Readings,
    messages: Vec<InboxMessage>,
    fresh: TargetPoll,
    read: TargetPoll,
    between: Readings,
    done: TargetPoll,
    after: Readings,
    now: i64,
    other: Seq<char>,
)
    requires
        poll_skips(target, before, messages, fresh, read, between, done, after, now),
    ensures
        action_of(read.step) is CheckReady,
        action_of(done.step) is Finish,
        done.delivered == fresh.delivered,
        before.stuck_skip_counts.at(target) is None ==> after.stuck_skip_counts.at(target) == Some(
            1u32,
        ),
        before.stuck_skip_counts.at(target) matches Some(n) ==> n < u32::MAX
            ==> after.stuck_skip_counts.at(target) == Some((n + 1) as u32),
        after.first_ready_at.at(target) is None,
        other != target ==> after.stuck_skip_counts.at(other) == before.stuck_skip_counts.at(other)
            && after.first_ready_at.at(other) == before.first_ready_at.at(other),
{
}

/// A poll of a target that has messages was skipped, with what was known of
/// readiness before and after it.
pub open spec fn is_skipped(target: Seq<char>, before: Readings, after: Readings) -> bool {
    exists|
        messages: Vec<InboxMessage>,
        fresh: TargetPoll,
        read: TargetPoll,
        between: Readings,
        done: TargetPoll,
        now: i64,
    | #[trigger]
        poll_skips(target, before, messages, fresh, read, between, done, after, now)
}

/// A target whose polls are all skipped is stalled from the fifth skipped poll
/// on, and not before.
pub proof fn five_skipped_polls_stall(target: Seq<char>, readings: Seq<Readings>, k: int)
    requires
        readings.len() > 0,
        readings[0].stuck_skip_counts.at(target) is None,
        0 <= k < readings.len(),
        readings.len() <= u32::MAX,
        forall|i: int|
            #![trigger readings[i]]
            0 <= i < readings.len() - 1 ==> is_skipped(target, readings[i], readings[i + 1]),
    ensures
        k > 0 ==> readings[k].stuck_skip_counts.at(target) == Some(k as u32),
        is_stalled(readings[k].stuck_skip_counts, target) <==> k >= 5,
    decreases k,
{
    if k > 0 {
        five_skipped_polls_stall(target, readings, k - 1);
        let last = readings[k - 1];
        assert(is_skipped(target, last, readings[k - 1 + 1]));
        let (messages, fresh, read, between, done, now) = choose|
            messages: Vec<InboxMessage>,
            fresh: TargetPoll,
            read: TargetPoll,
            between: Readings,
            done: TargetPoll,
            now: i64,
        | #[trigger]
            poll_skips(target, last, messages, fresh, read, between, done, readings[k], now);
        a_skipped_poll_counts_one_more(
            target,
            last,
            messages,
            fresh,
            read,
            between,
            done,
            readings[k],
            now,
            target,
        );
    }
}

/// A target is among the stalled ones exactly if its count is five or more, and
/// each is named once.
pub proof fn stalled_targets_have_five_skips(counts: Table<u32>, target: Seq<char>, n: nat)
    requires
        n <= counts.entries@.len(),
    ensures
        stalled_names(counts, n).no_duplicates(),
        stalled_names(counts, n).contains(target) <==> (counts.at(target) matches Some(skips)
            && skips >= 5 && crate::table::has_key(counts.entries@.take(n as int), target)),
    decreases n,
{
    let all = counts.entries@;
    if n > 0 {
        let m = (n - 1) as nat;
        let name = all[n - 1].0@;
        stalled_targets_have_five_skips(counts, target, m);
        stalled_targets_have_five_skips(counts, name, m);
        let before = stalled_names(counts, m);
        let after = stalled_names(counts, n);
        let here = all.take(m as int);
        let more = all.take(n as int);
        assert(more[n - 1].0@ == name);
        if crate::table::has_key(here, target) {
            let k = choose|k: int| 0 <= k < here.len() && #[trigger] here[k].0@ == target;
            assert(more[k].0@ == target);
        }
        if crate::table::has_key(more, target) && target != name {
            let k = choose|k: int| 0 <= k < more.len() && #[trigger] more[k].0@ == target;
            assert(here[k].0@ == target);
        }
        if before.contains(target) {
            let k = choose|k: int| 0 <= k < before.len() && before[k] == target;
            assert(after[k] == target);
        }
        if after.len() > before.len() {
            assert(after[after.len() - 1] == name);
            if after.contains(target) && target != name {
                let k = choose|k: int| 0 <= k < after.len() && after[k] == target;
                assert(before[k] == target);
            }
        }
    }
}

/// An inbox that is empty ends the poll and the count; a failure to read it ends
/// the poll, is reported, and leaves the count.
pub proof fn nothing_is_sent_from_an_empty_inbox(
    poll: TargetPoll,
    messages: Result<Vec<InboxMessage>, String>,
    readings: Readings,
    now: i64,
    next: TargetPoll,
    after: Readings,
)
    requires
        poll.step is Read,
        messages matches Ok(list) ==> list@.len() == 0,
        poll.after(PollEvent::Messages(messages), readings, now, next),
        poll.readings_after(PollEvent::Messages(messages), readings, now, after),
    ensures
        action_of(next.step) is Finish,
        next.delivered == poll.delivered,
        messages is Ok ==> after.stuck_skip_counts.at(poll.target@) is None && texts(next.errors@)
            == texts(poll.errors@),
        messages matches Err(e) ==> after.stuck_skip_counts.at(poll.target@)
            == readings.stuck_skip_counts.at(poll.target@) && texts(next.errors@).len() == texts(
            poll.errors@,
        ).len() + 1 && texts(next.errors@).last() == "read error: "@ + e@,
{
}

/// A target that is ready is waited for: the first time it is found ready is
/// remembered until it is not, and it is only then gone on when that was three
/// seconds ago or more. Only then are its skipped polls forgotten.
pub proof fn ready_targets_are_warmed_up(
    poll: TargetPoll,
    readings: Readings,
    now: i64,
    next: TargetPoll,
    after: Readings,
)
    requires
        poll.step is Ready,
        poll.after(PollEvent::Readiness(Readiness::Ready), readings, now, next),
        poll.readings_after(PollEvent::Readiness(Readiness::Ready), readings, now, after),
    ensures
        readings.first_ready_at.at(poll.target@) is None ==> after.first_ready_at.at(poll.target@)
            == Some(now),
        readings.first_ready_at.at(poll.target@) is Some ==> after.first_ready_at.at(poll.target@)
            == readings.first_ready_at.at(poll.target@),
        action_of(next.step) is CheckVisible || action_of(next.step) is Finish,
        action_of(next.step) is CheckVisible <==> (readings.first_ready_at.at(poll.target@) matches
            Some(at) && now - at >= 3_000_000_000),
        action_of(next.step) is CheckVisible ==> after.stuck_skip_counts.at(poll.target@) is None,
        action_of(next.step) is Finish ==> after.stuck_skip_counts.at(poll.target@)
            == readings.stuck_skip_counts.at(poll.target@),
{
}

/// Where readiness cannot be told, the poll ends and nothing is remembered.
pub proof fn unknown_readiness_changes_nothing(
    poll: TargetPoll,
    readings: Readings,
    now: i64,
    next: TargetPoll,
    after: Readings,
    target: Seq<char>,
)
    requires
        poll.step is Ready,
        poll.after(PollEvent::Readiness(Readiness::Unknown), readings, now, next),
        poll.readings_after(PollEvent::Readiness(Readiness::Unknown), readings, now, after),
    ensures
        action_of(next.step) is Finish,
        after.stuck_skip_counts.at(target) == readings.stuck_skip_counts.at(target),
        after.first_ready_at.at(target) == readings.first_ready_at.at(target),
{
}

/// A run of a poll: an event at each moment, with the actions asked for before.
pub open spec fn poll_runs(
    polls: Seq<TargetPoll>,
    events: Seq<PollEvent>,
    readings: Readings,
    now: i64,
) -> bool {
    &&& polls.len() == events.len() + 1
    &&& forall|i: int|
        #![trigger events[i]]
        0 <= i < events.len() ==> polls[i].after(events[i], readings, now, polls[i + 1])
}

/// A message that its window does not show yet is sent, given time, looked for
/// and marked as delivered; the next message follows it, or the end.
pub proof fn a_message_is_sent_and_marked(
    polls: Seq<TargetPoll>,
    readings: Readings,
    now: i64,
    i: usize,
    before: Option<String>,
    seen: Option<String>,
)
    requires
        polls.len() == 7,
        polls[0].wf(),
        polls[0].step == PollStep::Defer(i),
        !pane_shows(before, polls[0].messages@[i as int]),
        pane_shows(seen, polls[0].messages@[i as int]),
        poll_runs(
            polls,
            seq![
                PollEvent::Defer(false),
                PollEvent::Pane(before),
                PollEvent::Sent(true),
                PollEvent::Slept,
                PollEvent::Pane(seen),
                PollEvent::Marked(None),
            ],
            readings,
            now,
        ),
    ensures
        action_of(polls[0].step) == PollAction::AskDefer(i),
        action_of(polls[1].step) is CapturePane,
        action_of(polls[2].step) == PollAction::InjectMessage(i),
        action_of(polls[3].step) == PollAction::Sleep(200),
        action_of(polls[4].step) is CapturePane,
        action_of(polls[5].step) == PollAction::MarkDelivered(i),
        action_of(polls[6].step) == if i + 1 < polls[0].messages@.len() {
            PollAction::AskDefer((i + 1) as usize)
        } else {
            PollAction::Finish
        },
        polls[6].delivered == polls[0].delivered + 1,
        texts(polls[6].errors@) == texts(polls[0].errors@),
        polls[6].messages == polls[0].messages,
{
    let events = seq![
        PollEvent::Defer(false),
        PollEvent::Pane(before),
        PollEvent::Sent(true),
        PollEvent::Slept,
        PollEvent::Pane(seen),
        PollEvent::Marked(None),
    ];
    assert(events[0] == PollEvent::Defer(false));
    assert(events[1] == PollEvent::Pane(before));
    assert(events[2] == PollEvent::Sent(true));
    assert(events[3] == PollEvent::Slept);
    assert(events[4] == PollEvent::Pane(seen));
    assert(events[5] == PollEvent::Marked(None));
}

/// A message is sent only if a look at the window just did not find it there; if
/// it is there, only enter is sent. So no message is sent that is shown already.
pub proof fn shown_messages_are_not_sent_again(
    poll: TargetPoll,
    event: PollEvent,
    readings: Readings,
    now: i64,
    next: TargetPoll,
    i: usize,
)
    requires
        poll.after(event, readings, now, next),
        action_of(poll.step) is CapturePane,
        event is Pane,
    ensures
        action_of(next.step) == PollAction::InjectMessage(i) ==> !pane_shows(
            event->Pane_0,
            poll.messages@[i as int],
        ),
        action_of(next.step) is SendEnter ==> exists|k: int|
            pane_shows(event->Pane_0, #[trigger] poll.messages@[k]),
        poll.step == PollStep::Look(i, 0) && pane_shows(event->Pane_0, poll.messages@[i as int])
            ==> action_of(next.step) is SendEnter,
        poll.step is RescueLook && pane_shows(event->Pane_0, poll.messages@[0]) ==> action_of(
            next.step,
        ) is SendEnter,
        poll.step is RescueLook && !pane_shows(event->Pane_0, poll.messages@[0]) ==> action_of(
            next.step,
        ) == PollAction::AskDefer(0),
{
    if action_of(next.step) is SendEnter {
        match poll.step {
            PollStep::RescueLook => {
                assert(pane_shows(event->Pane_0, poll.messages@[0]));
            },
            PollStep::Look(k, a) => {
                assert(pane_shows(event->Pane_0, poll.messages@[k as int]));
            },
            _ => {},
        }
    }
}

/// A message that does not arrive is tried three times, with a pause after each
/// try, and then reported by its number; the messages behind it wait.
pub proof fn a_lost_message_is_reported_after_three_tries(
    poll: TargetPoll,
    readings: Readings,
    now: i64,
    next: TargetPoll,
    i: usize,
    a: usize,
)
    requires
        poll.wf(),
        poll.step == PollStep::Pause(i, a),
        poll.after(PollEvent::Slept, readings, now, next),
    ensures
        a <= 2,
        action_of(poll.step) == PollAction::Sleep(500),
        a < 2 ==> next.step == PollStep::Look(i, (a + 1) as usize) && texts(next.errors@) == texts(
            poll.errors@,
        ),
        a == 2 ==> action_of(next.step) is Finish && texts(next.errors@).len() == texts(
            poll.errors@,
        ).len() + 1 && has_text(
            texts(next.errors@).last(),
            decimal(poll.messages@[i as int].seq as nat),
        ),
        next.delivered == poll.delivered,
{
    if a == 2 {
        let error = texts(next.errors@).last();
        let seq = decimal(poll.messages@[i as int].seq as nat);
        let start = "delivery failed after "@ + decimal(MAX_RETRIES as nat)
            + " attempts for seq "@;
        middle_stands(start, seq, Seq::empty());
        assert(error =~= start + seq + Seq::<char>::empty());
    }
}

/// What was sent but does not arrive, or could not be sent, is paused for and
/// tried again, and not marked as delivered.
pub proof fn failures_are_tried_again(
    poll: TargetPoll,
    event: PollEvent,
    readings: Readings,
    now: i64,
    next: TargetPoll,
    i: usize,
    a: usize,
)
    requires
        poll.after(event, readings, now, next),
        event == PollEvent::Sent(false) && (poll.step == PollStep::Enter(i, a) || poll.step
            == PollStep::Inject(i, a)) || (event matches PollEvent::Pane(pane) && poll.step
            == PollStep::Verify(i, a) && !pane_shows(pane, poll.messages@[i as int])),
    ensures
        next.step == PollStep::Pause(i, a),
        next.delivered == poll.delivered,
{
}

/// A message that is to wait ends the poll: nothing is sent to a window that is
/// looked at, and the order of messages is kept.
pub proof fn deferred_messages_wait(
    poll: TargetPoll,
    readings: Readings,
    now: i64,
    next: TargetPoll,
)
    requires
        action_of(poll.step) is AskDefer,
        poll.after(PollEvent::Defer(true), readings, now, next),
    ensures
        action_of(next.step) is Finish,
        next.delivered == poll.delivered,
{
}

/// A message is recognised in a window by its sender and its number: what two
/// messages of one sender show differs if their numbers do.
pub proof fn messages_are_told_apart(a: InboxMessage, b: InboxMessage)
    requires
        a.from@ == b.from@,
        snippet_of(a) == snippet_of(b),
    ensures
        a.seq == b.seq,
{
    let start = "[msg:"@ + a.from@ + ":"@;
    let x = decimal(a.seq as nat);
    let y = decimal(b.seq as nat);
    assert(snippet_of(a) =~= start + x + "]"@);
    assert(snippet_of(b) =~= start + y + "]"@);
    assert(x.len() == y.len());
    middle_stands(start, x, "]"@);
    middle_stands(start, y, "]"@);
    decimals_differ(a.seq as nat, b.seq as nat);
}

/// What a message shows names its sender and its number.
pub proof fn messages_show_sender_and_number(m: InboxMessage)
    ensures
        has_text(snippet_of(m), m.from@),
        has_text(snippet_of(m), decimal(m.seq as nat)),
        has_text(snippet_of(m), "[msg:"@),
{
    let tag = "[msg:"@;
    let n = decimal(m.seq as nat);
    middle_stands(Seq::empty(), tag, m.from@ + ":"@ + n + "]"@);
    assert(snippet_of(m) =~= Seq::<char>::empty() + tag + (m.from@ + ":"@ + n + "]"@));
    middle_stands(tag, m.from@, ":"@ + n + "]"@);
    assert(snippet_of(m) =~= tag + m.from@ + (":"@ + n + "]"@));
    middle_stands(tag + m.from@ + ":"@, n, "]"@);
}

/// What something was delivered to counts as served, so its skipped polls are
/// forgotten; what nothing was delivered to keeps its count.
pub proof fn served_targets_count_anew(
    before: Inbox,
    output: InboxPollOutput,
    after: Inbox,
    i: int,
    target: Seq<char>,
)
    requires
        before.after_poll(output, after),
        0 <= i < output.results@.len(),
    ensures
        output.results@[i].delivered > 0 ==> after.readings.stuck_skip_counts.at(
            output.results@[i].target@,
        ) is None,
        (forall|k: int|
            0 <= k < output.results@.len() && (#[trigger] output.results@[k]).target@ == target
                ==> output.results@[k].delivered == 0) ==> after.readings.stuck_skip_counts.at(
            target,
        ) == output.readings.stuck_skip_counts.at(target),
        !after.poll_active,
{
    let r = output.results@[i];
    if r.delivered > 0 {
        assert(was_served(output.results@, r.target@));
    }
}

/// Inboxes are polled every two seconds, one poll at a time.
pub proof fn polls_are_two_seconds_apart(inbox: Inbox, now: i64)
    requires
        now >= inbox.last_poll,
        inbox.poll_due(now),
    ensures
        now - inbox.last_poll >= 2_000_000_000,
        inbox.ticked(now).last_poll == now,
        forall|later: i64|
            now <= later < now + 2_000_000_000 ==> !#[trigger] inbox.ticked(now).poll_due(later),
{
}

} // verus!
