//! How notifications, issues and pull requests are drawn.

use crate::cells::{byte_len, len_in_bytes};
use crate::model::{GithubItem, GithubNotification};
use crate::notifs::Notifications;
use crate::show_prs::ShowPrs;
use crate::style::{
    colored, items_view, lines_view, no_items, no_lines, no_spans, one_line, plain, push_item,
    push_line, push_one_line, push_owned, push_span, spans_view, Color, Item, ItemView, Line,
};
use crate::tasks_pane::pane_row_style;
use crate::text::{
    concat, decimal, has_text, middle_stands, number, repeat_char, repeated, same_text,
};
use crate::times::{described, relative_time, rfc3339};
use vstd::prelude::*;

verus! {

/// Why there is a notification, in words; a reason that is not known is given
/// as it is.
pub open spec fn reason_words(reason: Seq<char>) -> Seq<char> {
    if reason == "assign"@ {
        "Assigned"@
    } else if reason == "author"@ {
        "You authored"@
    } else if reason == "comment"@ {
        "Comment"@
    } else if reason == "ci_activity"@ {
        "CI"@
    } else if reason == "invitation"@ {
        "Invitation"@
    } else if reason == "manual"@ {
        "Manual"@
    } else if reason == "mention"@ {
        "Mentioned"@
    } else if reason == "review_requested"@ {
        "Review requested"@
    } else if reason == "security_alert"@ {
        "Security alert"@
    } else if reason == "state_change"@ {
        "State changed"@
    } else if reason == "subscribed"@ {
        "Subscribed"@
    } else if reason == "team_mention"@ {
        "Team mention"@
    } else {
        reason
    }
}

/// Why there is a notification, in words.
pub fn humanize_reason(reason: &str) -> (words: &str)
    ensures
        words@ == reason_words(reason@),
{
    if same_text(reason, "assign") {
        "Assigned"
    } else if same_text(reason, "author") {
        "You authored"
    } else if same_text(reason, "comment") {
        "Comment"
    } else if same_text(reason, "ci_activity") {
        "CI"
    } else if same_text(reason, "invitation") {
        "Invitation"
    } else if same_text(reason, "manual") {
        "Manual"
    } else if same_text(reason, "mention") {
        "Mentioned"
    } else if same_text(reason, "review_requested") {
        "Review requested"
    } else if same_text(reason, "security_alert") {
        "Security alert"
    } else if same_text(reason, "state_change") {
        "State changed"
    } else if same_text(reason, "subscribed") {
        "Subscribed"
    } else if same_text(reason, "team_mention") {
        "Team mention"
    } else {
        reason
    }
}

/// What a notification is about, in short.
pub open spec fn subject_word(subject_type: Seq<char>) -> Seq<char> {
    if subject_type == "PullRequest"@ {
        "PR"@
    } else if subject_type == "Issue"@ {
        "Issue"@
    } else if subject_type == "Release"@ {
        "Release"@
    } else if subject_type == "Discussion"@ {
        "Disc"@
    } else if subject_type == "Commit"@ {
        "Commit"@
    } else {
        subject_type
    }
}

/// What a notification is about, in short.
pub fn short_subject_type(subject_type: &str) -> (word: &str)
    ensures
        word@ == subject_word(subject_type@),
{
    if same_text(subject_type, "PullRequest") {
        "PR"
    } else if same_text(subject_type, "Issue") {
        "Issue"
    } else if same_text(subject_type, "Release") {
        "Release"
    } else if same_text(subject_type, "Discussion") {
        "Disc"
    } else if same_text(subject_type, "Commit") {
        "Commit"
    } else {
        subject_type
    }
}

/// When something was updated, behind a dot, where that is known.
pub open spec fn updated_part(updated_at: Seq<char>, now: i64) -> Seq<char> {
    let text = described(rfc3339(updated_at), now);
    if text.len() > 0 {
        " · "@ + text
    } else {
        Seq::empty()
    }
}

fn push_updated_part(text: &mut String, updated_at: &str, now: i64)
    ensures
        final(text)@ == old(text)@ + updated_part(updated_at@, now),
{
    let time = relative_time(updated_at, now);
    if !time.as_str().is_empty() {
        text.append(" · ");
        text.append(time.as_str());
        assert(text@ =~= old(text)@ + updated_part(updated_at@, now));
    } else {
        assert(text@ =~= old(text)@ + updated_part(updated_at@, now));
    }
}

/// The line below the title of a notification.
pub open spec fn notif_meta(n: GithubNotification, now: i64) -> Seq<char> {
    "   "@ + n.repo_full_name@ + " · "@ + subject_word(n.subject_type@) + " · "@ + reason_words(
        n.reason@,
    ) + updated_part(n.updated_at@, now)
}

/// The entry of a notification; unread ones stand out.
pub open spec fn notif_row(n: GithubNotification, selected: bool, now: i64) -> ItemView {
    let title = if n.unread {
        seq![
            (" ● "@, colored(Color::LightCyan)),
            (n.title@, colored(Color::White).bold()),
        ]
    } else {
        seq![("   "@, plain()), (n.title@, colored(Color::DarkGray))]
    };
    let color = if n.unread {
        Color::Rgb(100, 100, 120)
    } else {
        Color::DarkGray
    };
    ItemView {
        lines: seq![title, seq![(notif_meta(n, now), colored(color))], seq![]],
        style: pane_row_style(selected),
    }
}

/// Three lines, of which the last is empty.
fn two_lines(title: Vec<crate::style::Span>, meta: String, color: Color) -> (lines: Vec<Line>)
    ensures
        lines_view(lines@) == seq![spans_view(title@), seq![(meta@, colored(color))], seq![]],
{
    let mut spans = no_spans();
    push_owned(&mut spans, meta, colored(color));
    let mut lines = no_lines();
    push_line(&mut lines, title);
    push_line(&mut lines, spans);
    push_line(&mut lines, no_spans());
    lines
}

fn push_notif_row(items: &mut Vec<Item>, n: &GithubNotification, selected: bool, now: i64)
    ensures
        items_view(final(items)@) == items_view(old(items)@).push(notif_row(*n, selected, now)),
{
    let mut title = no_spans();
    if n.unread {
        push_span(&mut title, " ● ", colored(Color::LightCyan));
        push_span(&mut title, n.title.as_str(), colored(Color::White).bold());
    } else {
        push_span(&mut title, "   ", plain());
        push_span(&mut title, n.title.as_str(), colored(Color::DarkGray));
    }
    let mut meta = concat("   ", n.repo_full_name.as_str());
    meta.append(" · ");
    meta.append(short_subject_type(n.subject_type.as_str()));
    meta.append(" · ");
    meta.append(humanize_reason(n.reason.as_str()));
    push_updated_part(&mut meta, n.updated_at.as_str(), now);
    assert(meta@ =~= notif_meta(*n, now));
    assert(spans_view(title@) =~= notif_row(*n, selected, now).lines[0]);
    let color = if n.unread {
        Color::Rgb(100, 100, 120)
    } else {
        Color::DarkGray
    };
    push_item(items, two_lines(title, meta, color), pane_row_style(selected));
}

/// A list as it is drawn, with what is said where it is empty.
pub struct ListPane {
    pub title: String,
    pub empty: Option<String>,
    pub items: Vec<Item>,
}

impl Notifications {
    /// The entries of the notifications.
    pub open spec fn rows(self, now: i64) -> Seq<ItemView> {
        Seq::new(
            self.list@.len(),
            |i: int| notif_row(self.list@[i], i == self.selected, now),
        )
    }

    /// The notifications as they are drawn.
    pub fn pane(&self, now: i64) -> (pane: ListPane)
        ensures
            pane.title@ == " Notifications ("@ + decimal(self.list@.len()) + ") "@,
            items_view(pane.items@) == self.rows(now),
            match pane.empty {
                Some(message) => self.list@.len() == 0 && message@ == if self.first_poll_done {
                    "No notifications"@
                } else {
                    "Fetching notifications..."@
                },
                None => self.list@.len() > 0,
            },
    {
        let mut title = concat(" Notifications (", number(self.list.len() as u64).as_str());
        title.append(") ");
        let mut items = no_items();
        let mut i: usize = 0;
        assert(items_view(items@) =~= self.rows(now).take(0));
        while i < self.list.len()
            invariant
                i <= self.list.len(),
                items_view(items@) == self.rows(now).take(i as int),
            decreases self.list.len() - i,
        {
            push_notif_row(&mut items, &self.list[i], i == self.selected, now);
            assert(items_view(items@) =~= self.rows(now).take(i + 1));
            i += 1;
        }
        assert(self.rows(now).take(i as int) =~= self.rows(now));
        let empty = if self.list.len() > 0 {
            None
        } else if self.first_poll_done {
            Some("No notifications".to_owned())
        } else {
            Some("Fetching notifications...".to_owned())
        };
        ListPane { title, empty, items }
    }
}

/// The entry of an issue or a pull request.
pub open spec fn github_row(item: GithubItem, now: i64) -> ItemView {
    let title = seq![
        ("  #"@ + decimal(item.number as nat), colored(Color::DarkGray)),
        ("  "@ + item.title@, colored(Color::White)),
    ] + (if item.is_draft {
        seq![(" [draft]"@, colored(Color::Rgb(100, 100, 120)))]
    } else {
        seq![]
    });
    let meta = "   "@ + item.repo_full_name@ + " · "@ + item.author@ + updated_part(
        item.updated_at@,
        now,
    );
    ItemView {
        lines: seq![title, seq![(meta, colored(Color::Rgb(100, 100, 120)))], seq![]],
        style: plain(),
    }
}

fn push_github_row(items: &mut Vec<Item>, item: &GithubItem, now: i64)
    ensures
        items_view(final(items)@) == items_view(old(items)@).push(github_row(*item, now)),
{
    let mut title = no_spans();
    push_owned(
        &mut title,
        concat("  #", number(item.number).as_str()),
        colored(Color::DarkGray),
    );
    push_owned(&mut title, concat("  ", item.title.as_str()), colored(Color::White));
    if item.is_draft {
        push_span(&mut title, " [draft]", colored(Color::Rgb(100, 100, 120)));
    }
    assert(spans_view(title@) =~= github_row(*item, now).lines[0]);
    let mut meta = concat("   ", item.repo_full_name.as_str());
    meta.append(" · ");
    meta.append(item.author.as_str());
    push_updated_part(&mut meta, item.updated_at.as_str(), now);
    push_item(items, two_lines(title, meta, Color::Rgb(100, 100, 120)), plain());
}

/// The header of a section, with a rule up to the end of the frame.
pub open spec fn section_header(name: Seq<char>, color: Color, n: nat, width: u16) -> ItemView {
    let text = "── "@ + name + " ("@ + decimal(n) + ") "@;
    let left = width - byte_len(text) - 2;
    one_line(
        seq![
            (text, colored(color)),
            (
                repeated(
                    '─',
                    if left > 0 {
                        left as nat
                    } else {
                        0
                    },
                ),
                colored(Color::Rgb(60, 60, 60)),
            ),
        ],
        plain(),
    )
}

/// A section: its header, and its entries.
pub open spec fn section(
    name: Seq<char>,
    color: Color,
    items: Seq<GithubItem>,
    width: u16,
    now: i64,
) -> Seq<ItemView> {
    seq![section_header(name, color, items.len(), width)] + Seq::new(
        items.len(),
        |i: int| github_row(items[i], now),
    )
}

fn push_section(
    rows: &mut Vec<Item>,
    name: &str,
    color: Color,
    items: &Vec<GithubItem>,
    width: u16,
    now: i64,
)
    ensures
        items_view(final(rows)@) == items_view(old(rows)@) + section(
            name@,
            color,
            items@,
            width,
            now,
        ),
{
    let ghost before = items_view(rows@);
    let ghost all = section(name@, color, items@, width, now);
    let mut text = concat("── ", name);
    text.append(" (");
    text.append(number(items.len() as u64).as_str());
    text.append(") ");
    let len = len_in_bytes(text.as_str());
    let left = if width as usize > len && width as usize - len > 2 {
        width as usize - len - 2
    } else {
        0
    };
    let mut spans = no_spans();
    push_owned(&mut spans, text, colored(color));
    push_owned(&mut spans, repeat_char('─', left), colored(Color::Rgb(60, 60, 60)));
    assert(spans_view(spans@) =~= section_header(name@, color, items@.len(), width).lines[0]);
    push_one_line(rows, spans, plain());
    assert(items_view(rows@) =~= before + all.take(1));
    let mut i: usize = 0;
    while i < items.len()
        invariant
            i <= items.len(),
            all == section(name@, color, items@, width, now),
            items_view(rows@) == before + all.take(i + 1),
        decreases items.len() - i,
    {
        push_github_row(rows, &items[i], now);
        assert(items_view(rows@) =~= before + all.take(i + 2));
        i += 1;
    }
    assert(all.take(i + 1) =~= all);
}

impl ShowPrs {
    /// The entries of all sections.
    pub open spec fn rows(self, width: u16, now: i64) -> Seq<ItemView> {
        section("My Issues"@, Color::LightYellow, self.data.issues@, width, now) + section(
            "My PRs"@,
            Color::LightGreen,
            self.data.my_prs@,
            width,
            now,
        ) + section(
            "Review Requests"@,
            Color::LightCyan,
            self.data.review_requests@,
            width,
            now,
        )
    }

    /// The place of the selected item among the entries, of which the headers
    /// of sections cannot be selected.
    pub open spec fn highlighted_row(self) -> Option<int> {
        let issues = self.data.issues@.len();
        let my_prs = self.data.my_prs@.len();
        if self.selected < issues {
            Some(self.selected + 1)
        } else if self.selected < issues + my_prs {
            Some(self.selected + 2)
        } else if self.selected < self.items().len() {
            Some(self.selected + 3)
        } else {
            None
        }
    }

    /// The issues and pull requests as they are drawn in a given width.
    pub fn pane(&self, width: u16, now: i64) -> (pane: ListPane)
        requires
            self.wf(),
        ensures
            pane.title@ == " Issues & PRs ("@ + decimal(self.items().len()) + ") "@,
            items_view(pane.items@) == if self.items().len() == 0 {
                Seq::empty()
            } else {
                self.rows(width, now)
            },
            match pane.empty {
                Some(message) => self.items().len() == 0 && message@ == if self.first_poll_done {
                    "No items"@
                } else {
                    "Fetching..."@
                },
                None => self.items().len() > 0,
            },
    {
        let total = self.show_prs_total_items();
        let mut title = concat(" Issues & PRs (", number(total as u64).as_str());
        title.append(") ");
        let mut items = no_items();
        if total == 0 {
            let message = if self.first_poll_done {
                "No items"
            } else {
                "Fetching..."
            };
            return ListPane { title, empty: Some(message.to_owned()), items };
        }
        push_section(
            &mut items,
            "My Issues",
            Color::LightYellow,
            &self.data.issues,
            width,
            now,
        );
        push_section(&mut items, "My PRs", Color::LightGreen, &self.data.my_prs, width, now);
        push_section(
            &mut items,
            "Review Requests",
            Color::LightCyan,
            &self.data.review_requests,
            width,
            now,
        );
        assert(items_view(items@) =~= self.rows(width, now));
        ListPane { title, empty: None, items }
    }

    /// The place of the selected item among the entries.
    pub fn highlighted_entry(&self) -> (at: Option<usize>)
        requires
            self.wf(),
            self.items().len() <= usize::MAX - 3,
        ensures
            match at {
                Some(i) => self.highlighted_row() == Some(i as int),
                None => self.highlighted_row() is None,
            },
    {
        let total = self.show_prs_total_items();
        let issues = self.data.issues.len();
        if self.selected >= total {
            None
        } else if self.selected < issues {
            Some(self.selected + 1)
        } else if self.selected - issues < self.data.my_prs.len() {
            Some(self.selected + 2)
        } else {
            Some(self.selected + 3)
        }
    }
}

/// What is highlighted is the item that is selected.
pub proof fn the_selected_item_is_highlighted(prs: ShowPrs, width: u16, now: i64)
    requires
        prs.selected < prs.items().len(),
    ensures
        ({
            let at = prs.highlighted_row();
            &&& at is Some
            &&& 0 <= at->0 < prs.rows(width, now).len()
            &&& prs.rows(width, now)[at->0] == github_row(
                prs.items()[prs.selected as int],
                now,
            )
        }),
{
}

/// The row of a notification is the one at its place: it tells the title and the
/// repository, has a dot before the title exactly while it is unread, and stands
/// out exactly if it is the selected one.
pub proof fn notification_rows_tell_of_theirs(notifs: Notifications, i: int, now: i64)
    requires
        0 <= i < notifs.list@.len(),
    ensures
        ({
            let n = notifs.list@[i];
            let row = notifs.rows(now)[i];
            &&& row.lines.len() == 3
            &&& row.lines[0].last().0 == n.title@
            &&& n.unread ==> row.lines[0][0].0 == " ● "@ && row.lines[0].last().1.bold
            &&& !n.unread ==> row.lines[0][0].0 == "   "@ && !row.lines[0].last().1.bold
            &&& has_text(row.lines[1][0].0, n.repo_full_name@)
            &&& (row.style.bg is Some) == (i == notifs.selected)
        }),
        notifs.rows(now).len() == notifs.list@.len(),
{
    let n = notifs.list@[i];
    let rest = " · "@ + subject_word(n.subject_type@) + " · "@ + reason_words(n.reason@)
        + updated_part(n.updated_at@, now);
    middle_stands("   "@, n.repo_full_name@, rest);
    assert(notif_meta(n, now) =~= "   "@ + n.repo_full_name@ + rest);
}

/// A header holds the name and the number that it is made of.
proof fn headers_hold_their_parts(
    a: Seq<char>,
    name: Seq<char>,
    b: Seq<char>,
    n: Seq<char>,
    c: Seq<char>,
)
    ensures
        has_text(a + name + b + n + c, name),
        has_text(a + name + b + n + c, n),
{
    let whole = a + name + b + n + c;
    let rest = b + n + c;
    let head = a + name + b;
    assert(whole =~= a + name + rest);
    assert(has_text(whole, name)) by {
        middle_stands(a, name, rest);
    }
    assert(has_text(whole, n)) by {
        middle_stands(head, n, c);
    }
}

/// A line below a title holds the two texts it is made of, with what parts them.
proof fn metas_hold_their_parts(
    a: Seq<char>,
    repo: Seq<char>,
    b: Seq<char>,
    author: Seq<char>,
    c: Seq<char>,
)
    ensures
        has_text(a + repo + b + author + c, repo + b + author),
{
    let whole = a + repo + b + author + c;
    let parts = repo + b + author;
    assert(whole =~= a + parts + c);
    middle_stands(a, parts, c);
}

/// The header of a section stands before its items, and tells its name and how
/// many there are.
pub proof fn sections_tell_how_many_they_hold(
    name: Seq<char>,
    color: Color,
    items: Seq<GithubItem>,
    width: u16,
    now: i64,
)
    ensures
        section(name, color, items, width, now).len() == items.len() + 1,
        has_text(section(name, color, items, width, now)[0].lines[0][0].0, name),
        has_text(section(name, color, items, width, now)[0].lines[0][0].0, decimal(items.len())),
{
    headers_hold_their_parts("── "@, name, " ("@, decimal(items.len()), ") "@);
    assert(section(name, color, items, width, now)[0] == section_header(
        name,
        color,
        items.len(),
        width,
    ));
}

/// Each item of a section has a row of its own, in order, which tells number,
/// title, repository and author, and whether it is a draft.
pub proof fn sections_tell_their_items(
    name: Seq<char>,
    color: Color,
    items: Seq<GithubItem>,
    width: u16,
    now: i64,
    i: int,
)
    requires
        0 <= i < items.len(),
    ensures
        ({
            let row = section(name, color, items, width, now)[i + 1];
            &&& row.lines[0][0].0 == "  #"@ + decimal(items[i].number as nat)
            &&& row.lines[0][1].0 == "  "@ + items[i].title@
            &&& row.lines[0].len() == if items[i].is_draft {
                3int
            } else {
                2
            }
            &&& has_text(row.lines[1][0].0, items[i].repo_full_name@ + " · "@ + items[i].author@)
        }),
{
    let row = section(name, color, items, width, now)[i + 1];
    assert(row == github_row(items[i], now));
    metas_hold_their_parts(
        "   "@,
        items[i].repo_full_name@,
        " · "@,
        items[i].author@,
        updated_part(items[i].updated_at@, now),
    );
}

/// The row that stands out is that of the selected item, which the headers of
/// the sections before it push down.
pub proof fn the_selected_item_stands_out(prs: ShowPrs, width: u16, now: i64)
    ensures
        prs.selected < prs.items().len() ==> prs.highlighted_row() is Some,
        prs.highlighted_row() matches Some(at) ==> 0 <= at < prs.rows(width, now).len()
            && prs.rows(width, now)[at] == github_row(prs.items()[prs.selected as int], now),
{
    let a = section("My Issues"@, Color::LightYellow, prs.data.issues@, width, now);
    let b = section("My PRs"@, Color::LightGreen, prs.data.my_prs@, width, now);
    let c = section("Review Requests"@, Color::LightCyan, prs.data.review_requests@, width, now);
    assert(a.len() == prs.data.issues@.len() + 1);
    assert(b.len() == prs.data.my_prs@.len() + 1);
    assert(c.len() == prs.data.review_requests@.len() + 1);
    assert(prs.rows(width, now) == a + b + c);
}

} // verus!
