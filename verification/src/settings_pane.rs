//! How the settings are drawn.

use crate::cells::{byte_len, left_aligned, len_in_bytes, pad_right};
use crate::settings::Settings;
use crate::style::{
    colored, items_view, no_items, no_spans, one_line, plain, push_one_line, push_owned, push_span,
    spans_view, Color, Item, ItemView,
};
use crate::tasks_pane::pane_row_style;
use crate::text::{
    concat, decimal, ends_are_recognised, has_text, middle_stands, number, repeat_char, repeated,
};
use crate::wizard::{joined_line, line_text};
use vstd::prelude::*;
use vstd::utf8::{decode_utf8, encode_utf8, encode_utf8_decode_utf8, is_char_boundary};

verus! {

/// The end of a text, from a byte on.
pub open spec fn byte_suffix(s: Seq<char>, from: int) -> Seq<char> {
    decode_utf8(encode_utf8(s).subrange(from, encode_utf8(s).len() as int))
}

/// A secret, of which only the last four bytes are shown.
pub open spec fn masked(token: Seq<char>) -> Seq<char> {
    if token.len() == 0 {
        "(not set)"@
    } else if byte_len(token) <= 4 {
        token
    } else {
        repeated('•', (byte_len(token) - 4) as nat) + byte_suffix(token, byte_len(token) - 4)
    }
}

/// The last four bytes of a text start with a character.
pub open spec fn can_mask(token: Seq<char>) -> bool {
    byte_len(token) <= 4 || is_char_boundary(encode_utf8(token), byte_len(token) - 4)
}

/// Whether a secret can be masked without splitting a character.
pub fn is_maskable(token: &str) -> (can: bool)
    ensures
        can == can_mask(token@),
{
    let n = len_in_bytes(token);
    n <= 4 || token.is_char_boundary(n - 4)
}

/// Masks all but the last four bytes of a secret.
pub fn mask(token: &str) -> (text: String)
    requires
        can_mask(token@),
    ensures
        text@ == masked(token@),
{
    if token.is_empty() {
        return "(not set)".to_owned();
    }
    let n = len_in_bytes(token);
    if n <= 4 {
        return token.to_owned();
    }
    let (hidden, shown) = token.split_at(n - 4);
    proof {
        encode_utf8_decode_utf8(shown@);
    }
    let mut text = repeat_char('•', n - 4);
    text.append(shown);
    text
}

/// All but four bytes of a masked secret are dots.
pub proof fn masking_hides_the_start(token: Seq<char>)
    requires
        byte_len(token) > 4,
        can_mask(token),
    ensures
        masked(token).take(byte_len(token) - 4) == repeated('•', (byte_len(token) - 4) as nat),
        byte_len(masked(token).skip(byte_len(token) - 4)) == 4,
{
    let n = byte_len(token);
    assert(token.len() > 0);
    vstd::utf8::encode_utf8_valid_utf8(token);
    vstd::utf8::valid_utf8_split(encode_utf8(token), n - 4);
    let end = encode_utf8(token).subrange(n - 4, n as int);
    vstd::utf8::decode_utf8_encode_utf8(end);
    assert(masked(token).take(n - 4) =~= repeated('•', (n - 4) as nat));
    assert(masked(token).skip(n - 4) =~= byte_suffix(token, n - 4));
}

/// The chat that is set.
pub open spec fn chat_text(chat: Seq<char>) -> Seq<char> {
    if chat.len() == 0 {
        "(not set)"@
    } else {
        chat
    }
}

/// A row that can be edited; while it is edited, an editor stands behind its
/// name.
pub open spec fn edited_row(label: Seq<char>, text: Seq<char>, editing: bool, selected: bool) -> ItemView {
    one_line(
        if editing {
            seq![(label, colored(Color::White)), (""@, plain())]
        } else {
            seq![
                (label + text, colored(Color::White)),
                ("    (Enter to edit)"@, colored(Color::DarkGray)),
            ]
        },
        pane_row_style(selected),
    )
}

fn push_edited_row(items: &mut Vec<Item>, label: &str, text: &str, editing: bool, selected: bool)
    ensures
        items_view(final(items)@) == items_view(old(items)@).push(
            edited_row(label@, text@, editing, selected),
        ),
{
    let mut spans = no_spans();
    if editing {
        push_span(&mut spans, label, colored(Color::White));
        push_span(&mut spans, "", plain());
    } else {
        push_owned(&mut spans, concat(label, text), colored(Color::White));
        push_span(&mut spans, "    (Enter to edit)", colored(Color::DarkGray));
    }
    assert(spans_view(spans@) =~= edited_row(label@, text@, editing, selected).lines[0]);
    push_one_line(items, spans, pane_row_style(selected));
}

impl Settings {
    /// The rows of the settings.
    pub open spec fn rows(self, harness: Seq<char>) -> Seq<ItemView> {
        seq![
            one_line(
                seq![
                    (
                        "  Archive retention   \u{25C0}  "@ + decimal(
                            self.archive_retention_days as nat,
                        ) + " days \u{25B6}"@,
                        colored(Color::White),
                    ),
                    ("    (h/l to adjust, 7\u{2013}365 days)"@, colored(Color::DarkGray)),
                ],
                pane_row_style(self.selected == 0),
            ),
            one_line(
                seq![
                    (
                        "  Harness             \u{25C0}  "@ + left_aligned(harness, 6)
                            + " \u{25B6}"@,
                        colored(Color::White),
                    ),
                    (
                        "    (h/l to switch \u{2014} applies to newly-spawned agents only)"@,
                        colored(Color::DarkGray),
                    ),
                ],
                pane_row_style(self.selected == 1),
            ),
            edited_row(
                "  Telegram bot token  "@,
                masked(line_text(self.token_editor)),
                self.editing && self.selected == 2,
                self.selected == 2,
            ),
            edited_row(
                "  Telegram chat ID    "@,
                chat_text(line_text(self.chat_id_editor)),
                self.editing && self.selected == 3,
                self.selected == 3,
            ),
        ]
    }

    /// Whether the token can be shown without splitting a character.
    pub fn token_is_maskable(&self) -> (can: bool)
        ensures
            can == can_mask(line_text(self.token_editor)),
    {
        is_maskable(joined_line(&self.token_editor).as_str())
    }

    /// The rows of the settings as they are drawn.
    pub fn items(&self, harness: &str) -> (items: Vec<Item>)
        requires
            can_mask(line_text(self.token_editor)),
        ensures
            items_view(items@) == self.rows(harness@),
    {
        let mut items = no_items();
        let mut retention = concat(
            "  Archive retention   \u{25C0}  ",
            number(self.archive_retention_days).as_str(),
        );
        retention.append(" days \u{25B6}");
        let mut spans = no_spans();
        push_owned(&mut spans, retention, colored(Color::White));
        push_span(
            &mut spans,
            "    (h/l to adjust, 7\u{2013}365 days)",
            colored(Color::DarkGray),
        );
        assert(spans_view(spans@) =~= self.rows(harness@)[0].lines[0]);
        push_one_line(&mut items, spans, pane_row_style(self.selected == 0));
        let mut name = concat(
            "  Harness             \u{25C0}  ",
            pad_right(harness, 6).as_str(),
        );
        name.append(" \u{25B6}");
        let mut spans = no_spans();
        push_owned(&mut spans, name, colored(Color::White));
        push_span(
            &mut spans,
            "    (h/l to switch \u{2014} applies to newly-spawned agents only)",
            colored(Color::DarkGray),
        );
        assert(spans_view(spans@) =~= self.rows(harness@)[1].lines[0]);
        push_one_line(&mut items, spans, pane_row_style(self.selected == 1));
        let token = mask(joined_line(&self.token_editor).as_str());
        push_edited_row(
            &mut items,
            "  Telegram bot token  ",
            token.as_str(),
            self.editing && self.selected == 2,
            self.selected == 2,
        );
        let chat = joined_line(&self.chat_id_editor);
        let chat = if chat.as_str().is_empty() {
            "(not set)".to_owned()
        } else {
            chat
        };
        push_edited_row(
            &mut items,
            "  Telegram chat ID    ",
            chat.as_str(),
            self.editing && self.selected == 3,
            self.selected == 3,
        );
        assert(items_view(items@) =~= self.rows(harness@));
        items
    }

    /// The row in which a text is being edited.
    pub fn edited(&self) -> (row: Option<u16>)
        ensures
            row == if self.editing && self.selected == 2 {
                Some(2u16)
            } else if self.editing && self.selected == 3 {
                Some(3u16)
            } else {
                None
            },
    {
        if self.editing && self.selected == 2 {
            Some(2)
        } else if self.editing && self.selected == 3 {
            Some(3)
        } else {
            None
        }
    }
}

/// A secret of more than four bytes is shown with a dot for every byte but the
/// last four; of the rest nothing shows.
pub proof fn secrets_are_masked(token: Seq<char>)
    requires
        byte_len(token) > 4,
    ensures
        forall|k: int| 0 <= k < byte_len(token) - 4 ==> #[trigger] masked(token)[k] == '•',
        masked(token).subrange(byte_len(token) - 4, masked(token).len() as int) == byte_suffix(
            token,
            byte_len(token) - 4,
        ),
{
    let dots = repeated('•', (byte_len(token) - 4) as nat);
    assert(token.len() > 0) by {
        if token.len() == 0 {
            assert(encode_utf8(token) =~= Seq::empty());
        }
    }
    assert(masked(token).subrange(byte_len(token) - 4, masked(token).len() as int)
        =~= byte_suffix(token, byte_len(token) - 4));
}

/// The settings have four rows, of which exactly the selected one stands out;
/// the first tells for how many days what is archived is kept, the second which
/// harness is in use, the last the chat.
pub proof fn settings_rows_tell_what_is_set(settings: Settings, harness: Seq<char>, i: int)
    requires
        0 <= i < 4,
    ensures
        settings.rows(harness).len() == 4,
        (settings.rows(harness)[i].style.bg is Some) == (i == settings.selected),
        has_text(
            settings.rows(harness)[0].lines[0][0].0,
            decimal(settings.archive_retention_days as nat),
        ),
        has_text(settings.rows(harness)[1].lines[0][0].0, left_aligned(harness, 6)),
        !settings.editing ==> settings.rows(harness)[2].lines[0][0].0 == "  Telegram bot token  "@
            + masked(line_text(settings.token_editor)),
        !settings.editing && line_text(settings.chat_id_editor).len() > 0 ==> has_text(
            settings.rows(harness)[3].lines[0][0].0,
            line_text(settings.chat_id_editor),
        ),
{
    middle_stands(
        "  Archive retention   \u{25C0}  "@,
        decimal(settings.archive_retention_days as nat),
        " days \u{25B6}"@,
    );
    middle_stands("  Harness             \u{25C0}  "@, left_aligned(harness, 6), " \u{25B6}"@);
    ends_are_recognised("  Telegram chat ID    "@, line_text(settings.chat_id_editor));
}

} // verus!
