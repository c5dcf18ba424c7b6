//! The watchdog of the Telegram bot.

use crate::app_time::{elapsed, time_since};
use vstd::prelude::*;

verus! {

/// How often the main loop checks the bot heartbeat, in nanoseconds.
pub const TELEGRAM_WATCHDOG_INTERVAL: u64 = 5_000_000_000;

/// Heartbeat age past which the bot thread is considered stalled and gets
/// respawned. The bot writes its heartbeat once per poll cycle (about a
/// second), so this is that many missed cycles.
pub const TELEGRAM_STALL_THRESHOLD_SECS: u64 = 60;

/// Cooldown after a respawn before another can fire, in nanoseconds. Gives the
/// new thread time to warm up and write its first heartbeat.
pub const TELEGRAM_RESPAWN_COOLDOWN: u64 = 90_000_000_000;

pub struct Telegram {
    pub running: bool,
    pub last_watchdog: i64,
    pub last_respawn_at: Option<i64>,
}

impl Telegram {
    /// A respawn happened too short a time ago for another.
    pub open spec fn cooling_down(self, now: i64) -> bool {
        self.last_respawn_at matches Some(at) && elapsed(at, now) < TELEGRAM_RESPAWN_COOLDOWN
    }

    /// The bot has run, and its last heartbeat is too old.
    pub open spec fn stalled(self, last_beat: u64, now_epoch: u64) -> bool {
        last_beat != 0 && now_epoch - last_beat > TELEGRAM_STALL_THRESHOLD_SECS
    }

    /// What a check leads to: the state after it, and whether to respawn.
    pub open spec fn after_check(
        self,
        last_beat: u64,
        now_epoch: u64,
        now: i64,
        after: Telegram,
        respawn: bool,
    ) -> bool {
        &&& respawn == (self.running && !self.cooling_down(now) && self.stalled(
            last_beat,
            now_epoch,
        ))
        &&& after == (Telegram {
            last_respawn_at: if respawn {
                Some(now)
            } else {
                self.last_respawn_at
            },
            ..self
        })
    }

    /// Checks the heartbeat, in seconds since the epoch, and says whether the
    /// bot is to be respawned.
    pub fn check_telegram_watchdog(&mut self, last_beat: u64, now_epoch: u64, now: i64) -> (respawn:
        bool)
        ensures
            old(self).after_check(last_beat, now_epoch, now, *final(self), respawn),
    {
        if !self.running {
            return false;
        }
        if let Some(at) = self.last_respawn_at {
            if time_since(at, now) < TELEGRAM_RESPAWN_COOLDOWN {
                return false;
            }
        }
        if last_beat == 0 {
            return false;
        }
        if now_epoch.saturating_sub(last_beat) <= TELEGRAM_STALL_THRESHOLD_SECS {
            return false;
        }
        self.last_respawn_at = Some(now);
        true
    }

    /// A check is due.
    pub open spec fn check_due(self, now: i64) -> bool {
        elapsed(self.last_watchdog, now) >= TELEGRAM_WATCHDOG_INTERVAL
    }

    /// The state after the clock was looked at.
    pub open spec fn ticked(self, now: i64) -> Telegram {
        if self.check_due(now) {
            Telegram { last_watchdog: now, ..self }
        } else {
            self
        }
    }

    /// Looks at the clock, and says whether a check is due.
    pub fn tick(&mut self, now: i64) -> (due: bool)
        ensures
            due == old(self).check_due(now),
            *final(self) == old(self).ticked(now),
    {
        let due = time_since(self.last_watchdog, now) >= TELEGRAM_WATCHDOG_INTERVAL;
        if due {
            self.last_watchdog = now;
        }
        due
    }

    /// Whether the bot is to be started: only with a token and a chat.
    pub fn wants_bot(token: &Option<String>, chat_id: &Option<String>) -> (yes: bool)
        ensures
            yes == (token is Some && chat_id is Some),
    {
        token.is_some() && chat_id.is_some()
    }
}

/// Two respawns in a row are never closer together than the cooldown.
pub proof fn respawns_are_spaced(
    start: Telegram,
    between: Telegram,
    end: Telegram,
    beats: (u64, u64),
    epochs: (u64, u64),
    first: i64,
    second: i64,
)
    requires
        start.after_check(beats.0, epochs.0, first, between, true),
        between.after_check(beats.1, epochs.1, second, end, true),
        first <= second,
    ensures
        second - first >= TELEGRAM_RESPAWN_COOLDOWN,
{
}

/// The bot is respawned exactly if it is running, was heard of before, was not
/// heard of for more than a minute, and was not respawned in the last minute and
/// a half.
pub proof fn stalled_bots_are_respawned(
    before: Telegram,
    last_beat: u64,
    now_epoch: u64,
    now: i64,
    after: Telegram,
    respawn: bool,
)
    requires
        before.after_check(last_beat, now_epoch, now, after, respawn),
        before.last_respawn_at matches Some(at) ==> at <= now,
    ensures
        respawn <==> before.running && last_beat > 0 && now_epoch - last_beat > 60 && (
        before.last_respawn_at matches Some(at) ==> now - at >= 90_000_000_000),
        respawn ==> after.last_respawn_at == Some(now),
        !respawn ==> after == before,
        after.running == before.running,
{
}

/// The heartbeat is checked every five seconds.
pub proof fn heartbeats_are_checked_every_five_seconds(bot: Telegram, now: i64)
    requires
        now >= bot.last_watchdog,
    ensures
        bot.check_due(now) <==> now - bot.last_watchdog >= 5_000_000_000,
        bot.check_due(now) ==> bot.ticked(now).last_watchdog == now,
        !bot.check_due(now) ==> bot.ticked(now) == bot,
{
}

} // verus!
