use agman_tui::inbox::{
    action_of, snippet, stalled_targets_from_counts, Inbox, InboxMessage, InboxPollOutput,
    InboxPollResult, PollAction, PollEvent, PollStep, Readiness, Readings, TargetPoll,
    MAX_RETRIES, STALL_THRESHOLD,
};
use agman_tui::respawn::respawn_everyone_result;
use agman_tui::table::Table;
use agman_tui::telegram::Telegram;

const SECOND: i64 = 1_000_000_000;

fn message(seq: u64) -> InboxMessage {
    InboxMessage {
        from: "alice".to_string(),
        message: "hello".to_string(),
        seq,
    }
}

fn readings() -> Readings {
    Readings {
        stuck_skip_counts: Table::new(),
        first_ready_at: Table::new(),
    }
}

/// A poll that has come to the first message of a target that is warm.
fn warm_poll(messages: Vec<InboxMessage>, readings: &mut Readings) -> TargetPoll {
    readings.first_ready_at.insert("bob".to_string(), 0);
    let mut poll = TargetPoll::new("bob".to_string());
    let now = 10 * SECOND;
    assert_eq!(action_of(poll.step), PollAction::ReadUndelivered);
    let action = poll.handle(PollEvent::Messages(Ok(messages)), readings, now);
    assert_eq!(action, PollAction::CheckReady);
    let action = poll.handle(PollEvent::Readiness(Readiness::Ready), readings, now);
    assert_eq!(action, PollAction::CheckVisible);
    let action = poll.handle(PollEvent::Visibility(Some(false)), readings, now);
    assert_eq!(action, PollAction::AskDefer(0));
    poll
}

#[test]
fn messages_are_delivered_one_by_one() {
    let mut readings = readings();
    let mut poll = warm_poll(vec![message(1), message(2)], &mut readings);
    let now = 10 * SECOND;
    assert_eq!(snippet(&message(1)), "[msg:alice:1]");
    let mut step = |poll: &mut TargetPoll, event| poll.handle(event, &mut readings, now);
    assert_eq!(step(&mut poll, PollEvent::Defer(false)), PollAction::CapturePane);
    assert_eq!(step(&mut poll, PollEvent::Pane(Some("$".to_string()))), PollAction::AskDefer(0));
    assert_eq!(step(&mut poll, PollEvent::Defer(false)), PollAction::CapturePane);
    assert_eq!(
        step(&mut poll, PollEvent::Pane(Some("$".to_string()))),
        PollAction::InjectMessage(0)
    );
    assert_eq!(step(&mut poll, PollEvent::Sent(true)), PollAction::Sleep(200));
    assert_eq!(step(&mut poll, PollEvent::Slept), PollAction::CapturePane);
    assert_eq!(
        step(&mut poll, PollEvent::Pane(Some("> [msg:alice:1] hello".to_string()))),
        PollAction::MarkDelivered(0)
    );
    assert_eq!(step(&mut poll, PollEvent::Marked(None)), PollAction::AskDefer(1));
    assert_eq!(poll.delivered, 1);
    assert_eq!(step(&mut poll, PollEvent::Defer(true)), PollAction::Finish);
    assert_eq!(poll.step, PollStep::Done);
}

#[test]
fn unseen_messages_are_tried_again_and_given_up() {
    let mut readings = readings();
    let mut poll = warm_poll(vec![message(1)], &mut readings);
    let now = 10 * SECOND;
    poll.handle(PollEvent::Defer(false), &mut readings, now);
    poll.handle(PollEvent::Pane(None), &mut readings, now);
    poll.handle(PollEvent::Defer(false), &mut readings, now);
    for attempt in 0..MAX_RETRIES {
        assert_eq!(poll.step, PollStep::Look(0, attempt));
        poll.handle(PollEvent::Pane(None), &mut readings, now);
        let action = poll.handle(PollEvent::Sent(false), &mut readings, now);
        assert_eq!(action, PollAction::Sleep(500));
        poll.handle(PollEvent::Slept, &mut readings, now);
    }
    assert_eq!(poll.step, PollStep::Done);
    assert_eq!(poll.delivered, 0);
    assert!(!poll.errors.is_empty());
}

#[test]
fn a_message_left_in_the_window_is_sent_off() {
    let mut readings = readings();
    let mut poll = warm_poll(vec![message(7)], &mut readings);
    let now = 10 * SECOND;
    poll.handle(PollEvent::Defer(false), &mut readings, now);
    let shown = Some("[msg:alice:7] hello".to_string());
    assert_eq!(
        poll.handle(PollEvent::Pane(shown.clone()), &mut readings, now),
        PollAction::SendEnter
    );
    assert_eq!(
        poll.handle(PollEvent::Sent(true), &mut readings, now),
        PollAction::Sleep(200)
    );
    poll.handle(PollEvent::Slept, &mut readings, now);
    assert_eq!(
        poll.handle(PollEvent::Pane(shown), &mut readings, now),
        PollAction::MarkDelivered(0)
    );
    poll.handle(PollEvent::Marked(None), &mut readings, now);
    assert_eq!(poll.delivered, 1);
    assert_eq!(poll.step, PollStep::Done);
}

#[test]
fn cold_targets_wait() {
    let mut readings = readings();
    let mut poll = TargetPoll::new("bob".to_string());
    poll.handle(PollEvent::Messages(Ok(vec![message(1)])), &mut readings, 0);
    poll.handle(PollEvent::Readiness(Readiness::Ready), &mut readings, 0);
    assert_eq!(poll.step, PollStep::Done);
    assert_eq!(readings.first_ready_at.get("bob"), Some(&0));
    let mut poll = TargetPoll::new("bob".to_string());
    poll.handle(PollEvent::Messages(Ok(vec![message(1)])), &mut readings, 0);
    poll.handle(PollEvent::Readiness(Readiness::Ready), &mut readings, 3 * SECOND - 1);
    assert_eq!(poll.step, PollStep::Done);
    let mut poll = TargetPoll::new("bob".to_string());
    poll.handle(PollEvent::Messages(Ok(vec![message(1)])), &mut readings, 0);
    poll.handle(PollEvent::Readiness(Readiness::Ready), &mut readings, 3 * SECOND);
    assert_eq!(poll.step, PollStep::Visible);
    let mut poll = TargetPoll::new("bob".to_string());
    poll.handle(PollEvent::Messages(Ok(vec![message(1)])), &mut readings, 0);
    poll.handle(PollEvent::Readiness(Readiness::NotReady), &mut readings, 9 * SECOND);
    assert_eq!(poll.step, PollStep::Done);
    assert_eq!(readings.first_ready_at.get("bob"), None);
    assert_eq!(readings.stuck_skip_counts.get("bob"), Some(&1));
}

#[test]
fn failed_reads_are_reported() {
    let mut readings = readings();
    let mut poll = TargetPoll::new("bob".to_string());
    let action = poll.handle(PollEvent::Messages(Err("no file".to_string())), &mut readings, 0);
    assert_eq!(action, PollAction::Finish);
    assert_eq!(poll.errors.len(), 1);
    assert!(poll.errors[0].contains("no file"));
}

#[test]
fn stalls_are_warned_of_until_they_end() {
    let mut inbox = Inbox {
        last_poll: 0,
        poll_active: false,
        readings: readings(),
        stall_warned: Vec::new(),
    };
    assert!(inbox.tick(2 * SECOND));
    assert!(!inbox.tick(3 * SECOND));
    assert!(inbox.start_inbox_poll(1));
    assert!(!inbox.start_inbox_poll(1));
    let stalled = |n: u32| {
        let mut readings = readings();
        readings.stuck_skip_counts.insert("bob".to_string(), n);
        InboxPollOutput {
            results: Vec::new(),
            readings,
        }
    };
    assert!(inbox.apply_inbox_poll_results(stalled(STALL_THRESHOLD - 1)).is_empty());
    assert!(!inbox.poll_active);
    let warned = inbox.apply_inbox_poll_results(stalled(STALL_THRESHOLD));
    assert_eq!(warned, vec!["bob".to_string()]);
    assert!(inbox.apply_inbox_poll_results(stalled(STALL_THRESHOLD + 1)).is_empty());
    assert_eq!(inbox.stalled_targets(), vec!["bob".to_string()]);
    assert!(inbox.apply_inbox_poll_results(stalled(0)).is_empty());
    assert_eq!(
        inbox.apply_inbox_poll_results(stalled(STALL_THRESHOLD)),
        vec!["bob".to_string()]
    );

    let mut served = stalled(STALL_THRESHOLD);
    served.results.push(InboxPollResult {
        target: "bob".to_string(),
        delivered: 1,
        errors: Vec::new(),
    });
    inbox.apply_inbox_poll_results(served);
    assert!(inbox.stalled_targets().is_empty());
    assert!(stalled_targets_from_counts(&Table::new()).is_empty());
}

#[test]
fn the_bot_is_respawned_with_pauses() {
    let mut telegram = Telegram {
        running: true,
        last_watchdog: 0,
        last_respawn_at: None,
    };
    assert!(!telegram.tick(4 * SECOND));
    assert!(telegram.tick(5 * SECOND));
    assert!(!telegram.check_telegram_watchdog(0, 1_000, 5 * SECOND));
    assert!(!telegram.check_telegram_watchdog(940, 1_000, 5 * SECOND));
    assert!(telegram.check_telegram_watchdog(939, 1_000, 5 * SECOND));
    assert!(!telegram.check_telegram_watchdog(939, 1_080, 94 * SECOND));
    assert!(telegram.check_telegram_watchdog(939, 1_080, 95 * SECOND));
    telegram.running = false;
    assert!(!telegram.check_telegram_watchdog(1, 1_000, 500 * SECOND));
    assert!(Telegram::wants_bot(&Some("t".to_string()), &Some("c".to_string())));
    assert!(!Telegram::wants_bot(&Some("t".to_string()), &None));
}

#[test]
fn everyone_is_counted_in_a_respawn() {
    let result = respawn_everyone_result(
        Ok(()),
        vec![("a".to_string(), Ok(())), ("b".to_string(), Ok(()))],
    );
    assert_eq!(result, Ok("cos+pms:2".to_string()));
    let failed = respawn_everyone_result(
        Ok(()),
        vec![("a".to_string(), Err("down".to_string()))],
    );
    assert!(failed.is_err());
}
