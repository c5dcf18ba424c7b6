//! The settings view.

use crate::detail::euclid_mod;
use crate::keys::{KeyCode, KeyPress};
use crate::model::HarnessKind;
use crate::text::texts;
use crate::textarea::{
    area_state, fresh_state, lines_of, move_area_cursor, new_area, plain_cursor_line, type_into,
    AreaState, CursorMove, TextArea,
};
use crate::wizard::{joined_line, line_text};
use vstd::prelude::*;
use vstd::utf8::encode_utf8;

verus! {

/// The rows of the view.
pub const RETENTION_ROW: usize = 0;

pub const HARNESS_ROW: usize = 1;

pub const TOKEN_ROW: usize = 2;

pub const CHAT_ID_ROW: usize = 3;

/// The steps in days by which the time that archives are kept is changed.
pub const RETENTION_STEP: u64 = 7;

/// The shortest time in days that archives can be set to be kept.
pub const RETENTION_MIN: u64 = 7;

/// The longest time in days that archives can be set to be kept.
pub const RETENTION_MAX: u64 = 365;

/// A time made a step shorter, but not shorter than the shortest.
pub open spec fn shorter(days: u64) -> int {
    if days - RETENTION_STEP >= RETENTION_MIN {
        days - RETENTION_STEP
    } else {
        RETENTION_MIN as int
    }
}

/// A time made a step longer, but not longer than the longest.
pub open spec fn longer(days: u64) -> int {
    if days + RETENTION_STEP <= RETENTION_MAX {
        days + RETENTION_STEP
    } else {
        RETENTION_MAX as int
    }
}

impl HarnessKind {
    /// The place among the harnesses.
    #[verifier::allow_in_spec]
    pub fn place(self) -> i32
        returns
            (match self {
                HarnessKind::Claude => 0i32,
                HarnessKind::Codex => 1,
                HarnessKind::Goose => 2,
                HarnessKind::Pi => 3,
            }),
    {
        match self {
            HarnessKind::Claude => 0,
            HarnessKind::Codex => 1,
            HarnessKind::Goose => 2,
            HarnessKind::Pi => 3,
        }
    }

    /// The harness at a place, from which on they start anew.
    pub open spec fn at(place: int) -> HarnessKind {
        let place = place % 4;
        if place == 0 {
            HarnessKind::Claude
        } else if place == 1 {
            HarnessKind::Codex
        } else if place == 2 {
            HarnessKind::Goose
        } else {
            HarnessKind::Pi
        }
    }

    /// The harness some steps on, or back where `delta` is negative.
    pub open spec fn cycled(self, delta: int) -> HarnessKind {
        HarnessKind::at(self.place() + delta)
    }

    /// The harness some steps on, or back where `delta` is negative.
    pub fn cycle(self, delta: i32) -> (kind: HarnessKind)
        requires
            self.place() + delta <= i32::MAX,
        ensures
            kind == self.cycled(delta as int),
    {
        match euclid_mod((self.place() + delta) as i128, 4) {
            0 => HarnessKind::Claude,
            1 => HarnessKind::Codex,
            2 => HarnessKind::Goose,
            _ => HarnessKind::Pi,
        }
    }

    /// Whether testers on this harness can drive a browser.
    #[verifier::allow_in_spec]
    pub fn supports_browser(self) -> bool
        returns
            !(self is Goose || self is Pi),
    {
        !matches!(self, HarnessKind::Goose | HarnessKind::Pi)
    }
}

/// Going through the harnesses some steps and then some more is going through
/// them all those steps; going back as many steps leads back, every step changes
/// the harness, and every harness is reached by steps forward.
pub proof fn harnesses_go_round(kind: HarnessKind, first: int, second: int, other: HarnessKind)
    ensures
        kind.cycled(first).cycled(second) == kind.cycled(first + second),
        kind.cycled(first).cycled(-first) == kind,
        kind.cycled(first) == kind <==> first % 4 == 0,
        kind.cycled(other.place() - kind.place() + 4) == other,
        kind.cycled(1).cycled(1).cycled(1).cycled(1) == kind,
{
}

pub struct Settings {
    pub selected: usize,
    pub editing: bool,
    pub archive_retention_days: u64,
    pub token_editor: TextArea<'static>,
    pub chat_id_editor: TextArea<'static>,
}

/// What a key does in the settings.
pub enum SettingsOutcome<T> {
    Nothing,
    Quit,
    Close,
    SaveTelegram { token: Option<T>, chat_id: Option<T> },
    ReloadTelegram,
    SaveRetention(u64),
    CycleHarness(i32),
}

/// A text, or nothing for an empty one.
pub open spec fn unless_empty(text: Seq<char>) -> Option<Seq<char>> {
    if text.len() == 0 {
        None
    } else {
        Some(text)
    }
}

fn none_if_empty(text: String) -> (some: Option<String>)
    ensures
        unless_empty(text@) == match some {
            Some(t) => Some(t@),
            None => None,
        },
{
    if text.as_str().is_empty() {
        None
    } else {
        Some(text)
    }
}

/// The cursor goes where an edit of a one-line text starts: as far to the
/// right as the first line has bytes, which is past its end.
pub open spec fn at_line_end(area: AreaState) -> AreaState {
    area.moved(CursorMove::Jump(0, (encode_utf8(area.lines[0]).len() as usize % 65536) as u16))
}

fn move_to_line_end(area: &mut TextArea<'static>)
    requires
        area_state(*old(area)).wf(),
    ensures
        area_state(*final(area)) == at_line_end(area_state(*old(area))),
        area_state(*final(area)).wf(),
{
    let line_len: usize = {
        let lines = lines_of(&*area);
        assert(texts(lines@)[0] == lines@[0]@);
        lines[0].as_str().len()
    };
    move_area_cursor(area, CursorMove::Jump(0, (line_len % 65536) as u16));
}

impl Settings {
    pub open spec fn wf(self) -> bool {
        area_state(self.token_editor).wf() && area_state(self.chat_id_editor).wf()
    }

    pub open spec fn outcome(self, key: KeyPress) -> SettingsOutcome<Seq<char>> {
        if self.editing {
            match key.code {
                KeyCode::Enter => SettingsOutcome::SaveTelegram {
                    token: unless_empty(line_text(self.token_editor)),
                    chat_id: unless_empty(line_text(self.chat_id_editor)),
                },
                KeyCode::Esc => SettingsOutcome::ReloadTelegram,
                _ => SettingsOutcome::Nothing,
            }
        } else if key.is_ctrl('c') {
            SettingsOutcome::Quit
        } else {
            match key.code {
                KeyCode::Esc | KeyCode::Char('q') => SettingsOutcome::Close,
                KeyCode::Char('h') | KeyCode::Left => if self.selected == RETENTION_ROW
                    && self.archive_retention_days > RETENTION_MIN {
                    SettingsOutcome::SaveRetention(shorter(self.archive_retention_days) as u64)
                } else if self.selected == HARNESS_ROW {
                    SettingsOutcome::CycleHarness(-1i32)
                } else {
                    SettingsOutcome::Nothing
                },
                KeyCode::Char('l') | KeyCode::Right => if self.selected == RETENTION_ROW
                    && self.archive_retention_days < RETENTION_MAX {
                    SettingsOutcome::SaveRetention(longer(self.archive_retention_days) as u64)
                } else if self.selected == HARNESS_ROW {
                    SettingsOutcome::CycleHarness(1)
                } else {
                    SettingsOutcome::Nothing
                },
                _ => SettingsOutcome::Nothing,
            }
        }
    }

    /// The state after a key, but for the two editors.
    pub open spec fn rest_after(self, key: KeyPress, after: Settings) -> bool {
        &&& after.selected == if self.editing || key.is_ctrl('c') {
            self.selected as int
        } else {
            match key.code {
                KeyCode::Char('j') | KeyCode::Down => if self.selected < CHAT_ID_ROW {
                    self.selected + 1
                } else {
                    self.selected as int
                },
                KeyCode::Char('k') | KeyCode::Up => if self.selected > 0 {
                    self.selected - 1
                } else {
                    self.selected as int
                },
                _ => self.selected as int,
            }
        }
        &&& after.editing == if self.editing {
            !(key.code is Enter || key.code is Esc)
        } else {
            self.starts_editing(key)
        }
        &&& after.archive_retention_days == match self.outcome(key) {
            SettingsOutcome::SaveRetention(days) => days,
            _ => self.archive_retention_days,
        }
    }

    /// A key that starts to edit the selected text.
    pub open spec fn starts_editing(self, key: KeyPress) -> bool {
        !self.editing && key.code is Enter && (self.selected == TOKEN_ROW || self.selected
            == CHAT_ID_ROW)
    }

    /// A key that is typed into the editor of a row.
    pub open spec fn types_into(self, key: KeyPress, row: usize) -> bool {
        self.editing && !(key.code is Enter) && !(key.code is Esc) && self.selected == row
    }

    /// The editor of a row after a key.
    pub open spec fn editor_after(
        self,
        key: KeyPress,
        row: usize,
        before: AreaState,
        after: AreaState,
    ) -> bool {
        if self.types_into(key, row) {
            before.typed(key.input(), after)
        } else if self.starts_editing(key) && self.selected == row {
            after == at_line_end(before)
        } else {
            after == before
        }
    }

    pub fn handle_key(&mut self, key: KeyPress) -> (outcome: SettingsOutcome<String>)
        requires
            old(self).wf(),
        ensures
            final(self).wf(),
            old(self).rest_after(key, *final(self)),
            old(self).editor_after(
                key,
                TOKEN_ROW,
                area_state(old(self).token_editor),
                area_state(final(self).token_editor),
            ),
            old(self).editor_after(
                key,
                CHAT_ID_ROW,
                area_state(old(self).chat_id_editor),
                area_state(final(self).chat_id_editor),
            ),
            old(self).outcome(key) == match outcome {
                SettingsOutcome::Nothing => SettingsOutcome::<Seq<char>>::Nothing,
                SettingsOutcome::Quit => SettingsOutcome::Quit,
                SettingsOutcome::Close => SettingsOutcome::Close,
                SettingsOutcome::SaveTelegram { token, chat_id } => SettingsOutcome::SaveTelegram {
                    token: match token {
                        Some(t) => Some(t@),
                        None => None,
                    },
                    chat_id: match chat_id {
                        Some(t) => Some(t@),
                        None => None,
                    },
                },
                SettingsOutcome::ReloadTelegram => SettingsOutcome::ReloadTelegram,
                SettingsOutcome::SaveRetention(days) => SettingsOutcome::SaveRetention(days),
                SettingsOutcome::CycleHarness(delta) => SettingsOutcome::CycleHarness(delta),
            },
    {
        if self.editing {
            return self.handle_editing_key(key);
        }
        if key.is_ctrl('c') {
            return SettingsOutcome::Quit;
        }
        match key.code {
            KeyCode::Esc | KeyCode::Char('q') => SettingsOutcome::Close,
            KeyCode::Char('j') | KeyCode::Down => {
                if self.selected < CHAT_ID_ROW {
                    self.selected += 1;
                }
                SettingsOutcome::Nothing
            },
            KeyCode::Char('k') | KeyCode::Up => {
                if self.selected > 0 {
                    self.selected -= 1;
                }
                SettingsOutcome::Nothing
            },
            KeyCode::Enter => {
                if self.selected == TOKEN_ROW {
                    self.editing = true;
                    move_to_line_end(&mut self.token_editor);
                } else if self.selected == CHAT_ID_ROW {
                    self.editing = true;
                    move_to_line_end(&mut self.chat_id_editor);
                }
                SettingsOutcome::Nothing
            },
            KeyCode::Char('h') | KeyCode::Left => {
                if self.selected == RETENTION_ROW && self.archive_retention_days > RETENTION_MIN {
                    if self.archive_retention_days - RETENTION_MIN >= RETENTION_STEP {
                        self.archive_retention_days -= RETENTION_STEP;
                    } else {
                        self.archive_retention_days = RETENTION_MIN;
                    }
                    SettingsOutcome::SaveRetention(self.archive_retention_days)
                } else if self.selected == HARNESS_ROW {
                    SettingsOutcome::CycleHarness(-1)
                } else {
                    SettingsOutcome::Nothing
                }
            },
            KeyCode::Char('l') | KeyCode::Right => {
                if self.selected == RETENTION_ROW && self.archive_retention_days < RETENTION_MAX {
                    if RETENTION_MAX - self.archive_retention_days >= RETENTION_STEP {
                        self.archive_retention_days += RETENTION_STEP;
                    } else {
                        self.archive_retention_days = RETENTION_MAX;
                    }
                    SettingsOutcome::SaveRetention(self.archive_retention_days)
                } else if self.selected == HARNESS_ROW {
                    SettingsOutcome::CycleHarness(1)
                } else {
                    SettingsOutcome::Nothing
                }
            },
            _ => SettingsOutcome::Nothing,
        }
    }

    /// A key while one of the texts is edited.
    fn handle_editing_key(&mut self, key: KeyPress) -> (outcome: SettingsOutcome<String>)
        requires
            old(self).wf(),
            old(self).editing,
        ensures
            final(self).wf(),
            final(self).selected == old(self).selected,
            final(self).editing == !(key.code is Enter || key.code is Esc),
            final(self).archive_retention_days == old(self).archive_retention_days,
            old(self).editor_after(
                key,
                TOKEN_ROW,
                area_state(old(self).token_editor),
                area_state(final(self).token_editor),
            ),
            old(self).editor_after(
                key,
                CHAT_ID_ROW,
                area_state(old(self).chat_id_editor),
                area_state(final(self).chat_id_editor),
            ),
            match outcome {
                SettingsOutcome::SaveTelegram { token, chat_id } => {
                    &&& key.code is Enter
                    &&& unless_empty(line_text(old(self).token_editor)) == match token {
                        Some(t) => Some(t@),
                        None => None,
                    }
                    &&& unless_empty(line_text(old(self).chat_id_editor)) == match chat_id {
                        Some(t) => Some(t@),
                        None => None,
                    }
                },
                SettingsOutcome::ReloadTelegram => key.code is Esc,
                SettingsOutcome::Nothing => !(key.code is Enter || key.code is Esc),
                _ => false,
            },
    {
        match key.code {
            KeyCode::Enter => {
                let token = none_if_empty(joined_line(&self.token_editor));
                let chat_id = none_if_empty(joined_line(&self.chat_id_editor));
                self.editing = false;
                SettingsOutcome::SaveTelegram { token, chat_id }
            },
            KeyCode::Esc => {
                self.editing = false;
                SettingsOutcome::ReloadTelegram
            },
            _ => {
                if self.selected == TOKEN_ROW {
                    type_into(&mut self.token_editor, key.input());
                } else if self.selected == CHAT_ID_ROW {
                    type_into(&mut self.chat_id_editor, key.input());
                }
                SettingsOutcome::Nothing
            },
        }
    }

    /// Shows the saved values again, none of which holds a line break.
    pub fn show_telegram(&mut self, token: Option<String>, chat_id: Option<String>)
        requires
            token matches Some(t) ==> !t@.contains('\n'),
            chat_id matches Some(t) ==> !t@.contains('\n'),
        ensures
            final(self).wf(),
            final(self).selected == old(self).selected,
            final(self).editing == old(self).editing,
            final(self).archive_retention_days == old(self).archive_retention_days,
            area_state(final(self).token_editor) == one_line_state(token),
            area_state(final(self).chat_id_editor) == one_line_state(chat_id),
    {
        self.token_editor = one_line_editor(token);
        self.chat_id_editor = one_line_editor(chat_id);
    }
}

/// The state of an editor that holds a text, or an empty one.
pub open spec fn one_line_state(text: Option<String>) -> AreaState {
    fresh_state(
        seq![
            match text {
                Some(t) => t@,
                None => Seq::empty(),
            },
        ],
    )
}

/// An editor that holds a text, or an empty one.
pub fn one_line_editor(text: Option<String>) -> (area: TextArea<'static>)
    requires
        text matches Some(t) ==> !t@.contains('\n'),
    ensures
        area_state(area) == one_line_state(text),
        area_state(area).wf(),
{
    let line = match text {
        Some(t) => t,
        None => String::new(),
    };
    let mut lines: Vec<String> = Vec::new();
    lines.push(line);
    assert(texts(lines@) == seq![line@]);
    let mut area = new_area(lines);
    plain_cursor_line(&mut area);
    area
}

/// No key takes the time that archives are kept out of its bounds, and what is
/// saved is what is shown.
pub proof fn retention_stays_in_bounds(settings: Settings, key: KeyPress, after: Settings)
    requires
        RETENTION_MIN <= settings.archive_retention_days <= RETENTION_MAX,
        settings.rest_after(key, after),
    ensures
        RETENTION_MIN <= after.archive_retention_days <= RETENTION_MAX,
        after.archive_retention_days != settings.archive_retention_days <==> settings.outcome(
            key,
        ) is SaveRetention,
        settings.outcome(key) matches SettingsOutcome::SaveRetention(days) ==> days
            == after.archive_retention_days,
{
}

/// The rows of the settings are gone through by the keys for up and down, which
/// stop at the ends. The keys for left and right change the time that archives
/// are kept by a week and the harness by one, on their rows.
pub proof fn settings_are_changed_on_their_rows(
    before: Settings,
    key: KeyPress,
    after: Settings,
)
    requires
        !before.editing,
        !key.ctrl,
        before.selected <= 3,
        before.rest_after(key, after),
    ensures
        ({
            let row = before.selected;
            let left = key.code is Left || key.code == KeyCode::Char('h');
            let right = key.code is Right || key.code == KeyCode::Char('l');
            let days = before.archive_retention_days;
            &&& (key.code is Down || key.code == KeyCode::Char('j')) ==> after.selected == if row
                < 3 {
                row + 1
            } else {
                3
            }
            &&& (key.code is Up || key.code == KeyCode::Char('k')) ==> after.selected == if row
                > 0 {
                row - 1
            } else {
                0
            }
            &&& row == 0 && left && days >= 14 ==> after.archive_retention_days == days - 7
            &&& row == 0 && left && 7 <= days < 14 ==> after.archive_retention_days == 7
            &&& row == 0 && right && days <= 358 ==> after.archive_retention_days == days + 7
            &&& row == 0 && right && 358 < days <= 365 ==> after.archive_retention_days == 365
            &&& row != 0 ==> after.archive_retention_days == days
            &&& row == 1 && left ==> before.outcome(key) == SettingsOutcome::<
                Seq<char>,
            >::CycleHarness(-1i32)
            &&& row == 1 && right ==> before.outcome(key) == SettingsOutcome::<
                Seq<char>,
            >::CycleHarness(1)
            &&& key.code is Enter ==> (after.editing <==> row == 2 || row == 3)
            &&& key.code is Esc || key.code == KeyCode::Char('q') ==> before.outcome(key) is Close
        }),
{
}

/// While a text is edited, enter saves both texts as they stand, escape shows the
/// saved ones again, and every other key is typed into the text of its row alone.
pub proof fn edited_settings_are_saved_by_enter(
    before: Settings,
    key: KeyPress,
    after: Settings,
)
    requires
        before.editing,
        before.selected == 2 || before.selected == 3,
        before.rest_after(key, after),
        before.editor_after(
            key,
            TOKEN_ROW,
            area_state(before.token_editor),
            area_state(after.token_editor),
        ),
        before.editor_after(
            key,
            CHAT_ID_ROW,
            area_state(before.chat_id_editor),
            area_state(after.chat_id_editor),
        ),
    ensures
        ({
            let token = line_text(before.token_editor);
            let chat = line_text(before.chat_id_editor);
            let types = !(key.code is Enter) && !(key.code is Esc);
            &&& key.code is Enter ==> !after.editing && (before.outcome(key) matches
                SettingsOutcome::SaveTelegram { token: t, chat_id: c } && (token.len() > 0 ==> t
                == Some(token)) && (token.len() == 0 ==> t is None) && (chat.len() > 0 ==> c
                == Some(chat)) && (chat.len() == 0 ==> c is None))
            &&& key.code is Esc ==> !after.editing && before.outcome(key) is ReloadTelegram
            &&& types ==> after.editing && before.outcome(key) is Nothing
            &&& types && before.selected == 2 ==> area_state(before.token_editor).typed(
                key.input(),
                area_state(after.token_editor),
            ) && area_state(after.chat_id_editor) == area_state(before.chat_id_editor)
            &&& types && before.selected == 3 ==> area_state(before.chat_id_editor).typed(
                key.input(),
                area_state(after.chat_id_editor),
            ) && area_state(after.token_editor) == area_state(before.token_editor)
            &&& after.archive_retention_days == before.archive_retention_days
            &&& after.selected == before.selected
        }),
{
}

/// Testers can drive a browser on the first two harnesses only, and forward the
/// harnesses go from the first to the last.
pub proof fn harnesses_differ()
    ensures
        HarnessKind::Claude.supports_browser(),
        HarnessKind::Codex.supports_browser(),
        !HarnessKind::Goose.supports_browser(),
        !HarnessKind::Pi.supports_browser(),
        HarnessKind::Claude.cycled(1) is Codex,
        HarnessKind::Codex.cycled(1) is Goose,
        HarnessKind::Goose.cycled(1) is Pi,
        HarnessKind::Pi.cycled(1) is Claude,
{
}

} // verus!
