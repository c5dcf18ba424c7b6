//! The corner of a frame: unread messages and the time.

use crate::notifs::Notifications;
use crate::style::{colored, no_spans, push_owned, push_span, spans_view, Color, Line, Span, Style};
use crate::text::{concat, decimal, has_text, middle_stands, number};
use vstd::prelude::*;
use vstd::view::View as _;

verus! {

/// What is known of unread messages in Keybase.
#[derive(Clone, Copy)]
pub struct Keybase {
    pub available: bool,
    pub first_poll_done: bool,
    pub dm_unread_count: usize,
    pub channel_unread_count: usize,
}

/// A badge, which stands out.
#[verifier::allow_in_spec]
pub fn badge(color: Color) -> Style
    returns
        colored(Color::Black).bg(color).bold(),
{
    colored(Color::Black).bg(color).bold()
}

/// A badge with a number.
pub open spec fn count_badge(label: Seq<char>, n: nat, color: Color) -> Seq<(Seq<char>, Style)> {
    seq![(label + decimal(n) + " "@, badge(color))]
}

fn push_count_badge(spans: &mut Vec<Span>, label: &str, n: usize, color: Color)
    ensures
        spans_view(final(spans)@) == spans_view(old(spans)@) + count_badge(
            label@,
            n as nat,
            color,
        ),
{
    let ghost before = spans_view(spans@);
    let mut text = concat(label, number(n as u64).as_str());
    text.append(" ");
    push_owned(spans, text, badge(color));
    assert(spans_view(spans@) =~= before + count_badge(label@, n as nat, color));
}

impl Notifications {
    /// How many notifications are unread, where any are.
    pub open spec fn badge(self) -> Seq<(Seq<char>, Style)> {
        if !self.first_poll_done {
            seq![(" GITHUB ... "@, colored(Color::DarkGray))]
        } else if self.unread() > 0 {
            count_badge(" GITHUB "@, self.unread(), Color::Rgb(255, 180, 40))
        } else {
            seq![]
        }
    }
}

impl Keybase {
    /// How much is unread, where anything is: messages to the user before those
    /// in channels.
    pub open spec fn badge(self) -> Seq<(Seq<char>, Style)> {
        if !self.first_poll_done && self.available {
            seq![(" KEYBASE ... "@, colored(Color::DarkGray))]
        } else if self.dm_unread_count > 0 {
            count_badge(
                " KEYBASE DM "@,
                self.dm_unread_count as nat,
                Color::Rgb(255, 140, 40),
            )
        } else if self.channel_unread_count > 0 {
            count_badge(
                " KEYBASE "@,
                self.channel_unread_count as nat,
                Color::Rgb(0, 180, 216),
            )
        } else {
            seq![]
        }
    }
}

/// The corner of a frame, with the time of day in hours and minutes.
pub fn clock_title(notifs: &Notifications, keybase: Keybase, time: &str) -> (line: Line)
    ensures
        line@ == notifs.badge() + keybase.badge() + seq![
            (" "@ + time@ + " "@, colored(Color::DarkGray)),
        ],
{
    let mut spans = no_spans();
    let unread = notifs.unread_count();
    if !notifs.first_poll_done {
        push_span(&mut spans, " GITHUB ... ", colored(Color::DarkGray));
    } else if unread > 0 {
        push_count_badge(&mut spans, " GITHUB ", unread, Color::Rgb(255, 180, 40));
    }
    assert(spans_view(spans@) =~= notifs.badge());
    if !keybase.first_poll_done && keybase.available {
        push_span(&mut spans, " KEYBASE ... ", colored(Color::DarkGray));
    } else if keybase.dm_unread_count > 0 {
        push_count_badge(
            &mut spans,
            " KEYBASE DM ",
            keybase.dm_unread_count,
            Color::Rgb(255, 140, 40),
        );
    } else if keybase.channel_unread_count > 0 {
        push_count_badge(
            &mut spans,
            " KEYBASE ",
            keybase.channel_unread_count,
            Color::Rgb(0, 180, 216),
        );
    }
    assert(spans_view(spans@) =~= notifs.badge() + keybase.badge());
    let mut text = concat(" ", time);
    text.append(" ");
    push_owned(&mut spans, text, colored(Color::DarkGray));
    assert(spans_view(spans@) =~= notifs.badge() + keybase.badge() + seq![
        (" "@ + time@ + " "@, colored(Color::DarkGray)),
    ]);
    Line { spans }
}

/// A badge shows how much is unread: messages to the user go before those in
/// channels, and where nothing is unread there is no badge once both were asked.
pub proof fn badges_show_what_is_unread(keybase: Keybase, notifs: Notifications)
    ensures
        keybase.first_poll_done && keybase.dm_unread_count > 0 ==> keybase.badge().len() == 1
            && has_text(keybase.badge()[0].0, decimal(keybase.dm_unread_count as nat)),
        keybase.first_poll_done && keybase.dm_unread_count == 0 && keybase.channel_unread_count > 0
            ==> keybase.badge().len() == 1 && has_text(
            keybase.badge()[0].0,
            decimal(keybase.channel_unread_count as nat),
        ),
        keybase.first_poll_done && keybase.dm_unread_count == 0 && keybase.channel_unread_count == 0
            ==> keybase.badge().len() == 0,
        keybase.available && !keybase.first_poll_done ==> keybase.badge()[0].0 == " KEYBASE ... "@,
        notifs.first_poll_done && notifs.unread() > 0 ==> notifs.badge().len() == 1 && has_text(
            notifs.badge()[0].0,
            decimal(notifs.unread()),
        ),
        notifs.first_poll_done && notifs.unread() == 0 ==> notifs.badge().len() == 0,
{
    middle_stands(" KEYBASE DM "@, decimal(keybase.dm_unread_count as nat), " "@);
    middle_stands(" KEYBASE "@, decimal(keybase.channel_unread_count as nat), " "@);
    middle_stands(" GITHUB "@, decimal(notifs.unread()), " "@);
}

} // verus!
