//! How the notes are drawn.

use crate::model::NoteEntry;
use crate::notes::{NotesFocus, NotesView};
use crate::picker::{below, path_below, paths_equal, same_path, stem, stem_of};
use crate::style::{
    colored, items_view, no_items, no_spans, one_line, plain, push_one_line, push_owned,
    spans_view, Color, Item, ItemView, Style,
};
use crate::tasks_pane::{border_color, pane_row_style};
use crate::text::{
    concat, ends_are_recognised, has_prefix, has_suffix, has_text, middle_stands, texts,
};
use crate::textarea::{area_lines, area_state, lines_of, TextArea};
use crate::vim::VimMode;
use vstd::prelude::*;

verus! {

/// The colour of a mode.
#[verifier::allow_in_spec]
pub fn vim_mode_color(mode: VimMode) -> Color
    returns
        (match mode {
            VimMode::Normal => Color::LightCyan,
            VimMode::Insert => Color::LightGreen,
            VimMode::Visual => Color::LightYellow,
            VimMode::Operator(_) => Color::LightMagenta,
        }),
{
    match mode {
        VimMode::Normal => Color::LightCyan,
        VimMode::Insert => Color::LightGreen,
        VimMode::Visual => Color::LightYellow,
        VimMode::Operator(_) => Color::LightMagenta,
    }
}

/// The line that is entered.
pub open spec fn input_line(area: TextArea<'static>) -> Seq<char> {
    area_lines(area)[0]
}

fn line_of_input(area: &TextArea<'static>) -> (line: String)
    requires
        area_state(*area).wf(),
    ensures
        line@ == input_line(*area),
{
    let lines = lines_of(area);
    assert(texts(lines@)[0] == lines@[0]@);
    lines[0].clone()
}

/// What an entry is listed as.
pub open spec fn entry_text(entry: NoteEntry) -> Seq<char> {
    "  "@ + entry.name@ + (if entry.is_dir {
        "/"@
    } else {
        Seq::empty()
    })
}

fn text_of_entry(entry: &NoteEntry) -> (text: String)
    ensures
        text@ == entry_text(*entry),
{
    let mut text = concat("  ", entry.name.as_str());
    if entry.is_dir {
        text.append("/");
    }
    assert(text@ =~= entry_text(*entry));
    text
}

/// An entry of the explorer.
pub open spec fn listed(text: Seq<char>, style: Style) -> ItemView {
    one_line(seq![(text, plain())], style)
}

fn push_listed(items: &mut Vec<Item>, text: String, style: Style)
    ensures
        items_view(final(items)@) == items_view(old(items)@).push(listed(text@, style)),
{
    let mut spans = no_spans();
    push_owned(&mut spans, text, plain());
    assert(spans_view(spans@) =~= seq![(text@, plain())]);
    push_one_line(items, spans, style);
}

/// The explorer as it is drawn.
pub struct ExplorerPane {
    pub title: String,
    pub border: Color,
    /// What is said in place of entries where there are none.
    pub empty: Option<String>,
    pub items: Vec<Item>,
    /// What stands over the last line: a question or an input.
    pub footer: Option<(String, Style)>,
}

/// The editor of a note as it is drawn.
pub struct EditorPane {
    pub title: String,
    pub border: Color,
    /// The mode of the editor, where a note is open.
    pub mode: Option<String>,
}

impl NotesView {
    /// The title of the explorer: the path below the directory of notes.
    pub open spec fn explorer_title(self) -> Seq<char> {
        if same_path(self.current_dir@, self.root_dir@) {
            " Notes "@
        } else {
            " Notes/"@ + (match path_below(self.current_dir@, self.root_dir@) {
                Some(path) => path,
                None => self.current_dir@,
            }) + " "@
        }
    }

    /// An entry is to be moved elsewhere.
    pub open spec fn is_cut(self, i: int) -> bool {
        self.cut_entry matches Some(cut) && same_path(cut.0@, self.current_dir@) && cut.1@
            == self.entries@[i].file_name@
    }

    /// The style of an entry: directories stand out, and what is to be moved
    /// steps back.
    pub open spec fn entry_style(self, i: int) -> Style {
        let style = pane_row_style(i == self.selected_index);
        if self.is_cut(i) {
            style.fg(Color::DarkGray).italic()
        } else if self.entries@[i].is_dir {
            style.fg(Color::LightCyan)
        } else {
            style.fg(Color::White)
        }
    }

    /// An entry of the explorer. While a question or an input is shown, only
    /// the selection stands out; a new name takes the place of the old one.
    pub open spec fn explorer_entry(self, i: int) -> ItemView {
        let entry = self.entries@[i];
        let selected = i == self.selected_index;
        if self.confirm_delete || self.create_input is Some {
            listed(entry_text(entry), pane_row_style(selected))
        } else if let Some(input) = self.rename_input {
            if selected {
                listed(
                    "  "@ + input_line(input),
                    colored(Color::LightYellow).bg(Color::Rgb(40, 40, 50)),
                )
            } else {
                listed(entry_text(entry), plain())
            }
        } else {
            listed(entry_text(entry), self.entry_style(i))
        }
    }

    /// The entries of the explorer.
    pub open spec fn explorer_entries(self) -> Seq<ItemView> {
        Seq::new(self.entries@.len(), |i: int| self.explorer_entry(i))
    }

    /// What stands over the last line of the explorer.
    pub open spec fn explorer_footer(self) -> Option<(Seq<char>, Style)> {
        if self.confirm_delete {
            let name = if self.selected_index < self.entries@.len() {
                self.entries@[self.selected_index as int].name@
            } else {
                "?"@
            };
            Some(
                (
                    " Delete "@ + name + "? y/n "@,
                    colored(Color::LightRed).bg(Color::Rgb(40, 20, 20)),
                ),
            )
        } else if let Some(input) = self.create_input {
            let label = if input.1 {
                "New dir: "@
            } else {
                "New note: "@
            };
            Some((label + input_line(input.0), colored(Color::LightGreen)))
        } else {
            None
        }
    }

    fn style_of_entry(&self, i: usize) -> (style: Style)
        requires
            i < self.entries@.len(),
        ensures
            style == self.entry_style(i as int),
    {
        let style = pane_row_style(i == self.selected_index);
        let cut = match &self.cut_entry {
            Some((dir, name)) => paths_equal(dir.as_str(), self.current_dir.as_str()) && *name
                == self.entries[i].file_name,
            None => false,
        };
        if cut {
            style.fg(Color::DarkGray).italic()
        } else if self.entries[i].is_dir {
            style.fg(Color::LightCyan)
        } else {
            style.fg(Color::White)
        }
    }

    fn push_explorer_entry(&self, items: &mut Vec<Item>, i: usize)
        requires
            self.wf(),
            i < self.entries@.len(),
        ensures
            items_view(final(items)@) == items_view(old(items)@).push(
                self.explorer_entry(i as int),
            ),
    {
        let entry = &self.entries[i];
        let selected = i == self.selected_index;
        if self.confirm_delete || self.create_input.is_some() {
            push_listed(items, text_of_entry(entry), pane_row_style(selected));
        } else if let Some(input) = &self.rename_input {
            if selected {
                push_listed(
                    items,
                    concat("  ", line_of_input(input).as_str()),
                    colored(Color::LightYellow).bg(Color::Rgb(40, 40, 50)),
                );
            } else {
                push_listed(items, text_of_entry(entry), plain());
            }
        } else {
            push_listed(items, text_of_entry(entry), self.style_of_entry(i));
        }
    }

    fn footer(&self) -> (footer: Option<(String, Style)>)
        requires
            self.wf(),
        ensures
            match footer {
                Some(f) => self.explorer_footer() == Some((f.0@, f.1)),
                None => self.explorer_footer() is None,
            },
    {
        if self.confirm_delete {
            let mut text = " Delete ".to_owned();
            if self.selected_index < self.entries.len() {
                text.append(self.entries[self.selected_index].name.as_str());
            } else {
                text.append("?");
            }
            text.append("? y/n ");
            return Some((text, colored(Color::LightRed).bg(Color::Rgb(40, 20, 20))));
        }
        match &self.create_input {
            Some((input, is_dir)) => {
                let label = if *is_dir {
                    "New dir: "
                } else {
                    "New note: "
                };
                let text = concat(label, line_of_input(input).as_str());
                Some((text, colored(Color::LightGreen)))
            },
            None => None,
        }
    }

    /// The explorer as it is drawn.
    pub fn explorer(&self) -> (pane: ExplorerPane)
        requires
            self.wf(),
        ensures
            pane.title@ == self.explorer_title(),
            pane.border == border_color(self.focus is Explorer),
            items_view(pane.items@) == self.explorer_entries(),
            match pane.footer {
                Some(f) => self.explorer_footer() == Some((f.0@, f.1)),
                None => self.explorer_footer() is None,
            },
            match pane.empty {
                Some(message) => message@ == "  (empty)"@,
                None => true,
            },
            pane.empty is Some <==> self.entries@.len() == 0 && !self.confirm_delete
                && self.create_input is None && self.rename_input is None,
    {
        let title = if paths_equal(self.current_dir.as_str(), self.root_dir.as_str()) {
            " Notes ".to_owned()
        } else {
            let mut title = " Notes/".to_owned();
            match below(self.current_dir.as_str(), self.root_dir.as_str()) {
                Some(path) => title.append(path.as_str()),
                None => title.append(self.current_dir.as_str()),
            }
            title.append(" ");
            title
        };
        let border = border_color(matches!(self.focus, NotesFocus::Explorer));
        let mut items = no_items();
        let mut i: usize = 0;
        assert(items_view(items@) =~= self.explorer_entries().take(0));
        while i < self.entries.len()
            invariant
                i <= self.entries.len(),
                self.wf(),
                items_view(items@) == self.explorer_entries().take(i as int),
            decreases self.entries.len() - i,
        {
            self.push_explorer_entry(&mut items, i);
            assert(items_view(items@) =~= self.explorer_entries().take(i + 1));
            i += 1;
        }
        assert(self.explorer_entries().take(i as int) =~= self.explorer_entries());
        let idle = !self.confirm_delete && self.create_input.is_none()
            && self.rename_input.is_none();
        let empty = if self.entries.len() == 0 && idle {
            Some("  (empty)".to_owned())
        } else {
            None
        };
        ExplorerPane { title, border, empty, items, footer: self.footer() }
    }

    /// The title of the editor: the name of the note, with a mark where it was
    /// changed.
    pub open spec fn editor_title(self) -> Seq<char> {
        match self.open_file {
            Some(path) => " "@ + (match stem(path@) {
                Some(name) => name,
                None => "unknown"@,
            }) + (if self.modified {
                " [+]"@
            } else {
                Seq::empty()
            }) + " "@,
            None => " No file open "@,
        }
    }

    /// The editor as it is drawn.
    pub fn editor_pane(&self) -> (pane: EditorPane)
        ensures
            pane.title@ == self.editor_title(),
            pane.border == if self.focus is Editor {
                vim_mode_color(self.editor.vim.mode)
            } else {
                Color::DarkGray
            },
            match pane.mode {
                Some(mode) => self.open_file is Some && mode@ == " ["@
                    + self.editor.vim.mode.word() + "] "@,
                None => self.open_file is None,
            },
    {
        let mode = self.editor.mode();
        let border = if matches!(self.focus, NotesFocus::Editor) {
            vim_mode_color(mode)
        } else {
            Color::DarkGray
        };
        match &self.open_file {
            Some(path) => {
                let mut title = " ".to_owned();
                match stem_of(path.as_str()) {
                    Some(name) => title.append(name.as_str()),
                    None => title.append("unknown"),
                }
                if self.modified {
                    title.append(" [+]");
                }
                title.append(" ");
                assert(title@ =~= self.editor_title());
                let mut label = concat(" [", mode.indicator());
                label.append("] ");
                EditorPane { title, border, mode: Some(label) }
            },
            None => EditorPane { title: " No file open ".to_owned(), border, mode: None },
        }
    }
}

/// Each entry of the explorer is listed by its name, a directory with a slash at
/// the end; exactly the selected one stands out.
pub proof fn entries_are_listed_by_name(notes: NotesView, i: int)
    requires
        0 <= i < notes.entries@.len(),
    ensures
        notes.explorer_entries().len() == notes.entries@.len(),
        ({
            let row = notes.explorer_entries()[i];
            let entry = notes.entries@[i];
            &&& notes.rename_input is None || i != notes.selected_index ==> row.lines[0][0].0
                == if entry.is_dir {
                "  "@ + entry.name@ + "/"@
            } else {
                "  "@ + entry.name@
            }
            &&& notes.confirm_delete || notes.create_input is Some || notes.rename_input is None
                ==> (row.style.bg is Some) == (i == notes.selected_index)
            &&& !notes.confirm_delete && notes.create_input is None ==> (notes.rename_input matches
                Some(input) ==> i == notes.selected_index ==> row.lines[0][0].0 == "  "@
                + input_line(input))
        }),
{
    let entry = notes.entries@[i];
    assert("  "@ + entry.name@ + Seq::<char>::empty() =~= "  "@ + entry.name@);
}

/// Before an entry is deleted its name is asked about, and what is being created
/// is shown as it is typed.
pub proof fn footers_tell_what_is_asked_for(notes: NotesView)
    ensures
        notes.confirm_delete && notes.selected_index < notes.entries@.len()
            ==> (notes.explorer_footer() matches Some(footer) && has_text(
            footer.0,
            notes.entries@[notes.selected_index as int].name@,
        )),
        !notes.confirm_delete ==> (notes.create_input matches Some(input) ==> (
        notes.explorer_footer() matches Some(footer) && has_suffix(
            footer.0,
            input_line(input.0),
        ) && has_prefix(
            footer.0,
            if input.1 {
                "New dir: "@
            } else {
                "New note: "@
            },
        ))),
        !notes.confirm_delete && notes.create_input is None ==> notes.explorer_footer() is None,
{
    if notes.confirm_delete && notes.selected_index < notes.entries@.len() {
        middle_stands(
            " Delete "@,
            notes.entries@[notes.selected_index as int].name@,
            "? y/n "@,
        );
    }
    if let Some(input) = notes.create_input {
        ends_are_recognised("New dir: "@, input_line(input.0));
        ends_are_recognised("New note: "@, input_line(input.0));
    }
}

/// A title made of a name and a mark holds both.
proof fn titles_hold_their_parts(a: Seq<char>, name: Seq<char>, mark: Seq<char>, b: Seq<char>)
    ensures
        has_text(a + name + mark + b, name),
        has_suffix(a + name + mark + b, mark + b),
{
    let whole = a + name + mark + b;
    let rest = mark + b;
    let head = a + name;
    assert(whole =~= head + rest);
    assert(has_text(whole, name)) by {
        middle_stands(a, name, rest);
    }
    assert(has_suffix(whole, rest)) by {
        ends_are_recognised(head, rest);
    }
}

/// The title of the editor names the note, and has a mark at its end where the
/// note was changed.
pub proof fn titles_tell_of_changes(notes: NotesView)
    ensures
        notes.open_file is Some && notes.modified ==> has_suffix(
            notes.editor_title(),
            " [+]"@ + " "@,
        ),
        notes.open_file matches Some(path) ==> (stem(path@) matches Some(name) ==> has_text(
            notes.editor_title(),
            name,
        )),
{
    if let Some(path) = notes.open_file {
        let name = match stem(path@) {
            Some(name) => name,
            None => "unknown"@,
        };
        if notes.modified {
            titles_hold_their_parts(" "@, name, " [+]"@, " "@);
        } else {
            titles_hold_their_parts(" "@, name, Seq::empty(), " "@);
        }
    }
}

} // verus!
