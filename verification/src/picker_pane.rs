//! How the directory picker is drawn.

use crate::picker::{DirKind, DirPickerOrigin, DirectoryPicker};
use crate::project_pane::row_mark;
use crate::style::{
    colored, items_view, no_items, no_spans, one_line, plain, push_one_line, push_owned,
    push_span, spans_view, Color, Item, ItemView, Line, Style,
};
use crate::text::{
    concat, decimal, ends_are_recognised, has_text, middle_stands, number, repeat_char, repeated,
};
use vstd::prelude::*;

verus! {

/// The style of an entry.
#[verifier::allow_in_spec]
pub fn dir_style(selected: bool) -> Style
    returns
        (if selected {
            colored(Color::LightCyan).bold()
        } else {
            colored(Color::White)
        }),
{
    if selected {
        colored(Color::LightCyan).bold()
    } else {
        colored(Color::White)
    }
}

/// What is said of a kind of directory.
pub open spec fn kind_span(kind: Option<DirKind>) -> (Seq<char>, Style) {
    match kind {
        Some(DirKind::GitRepo) => ("  [git]"@, colored(Color::LightGreen)),
        Some(DirKind::MultiRepoParent) => ("  [multi]"@, colored(Color::LightYellow)),
        _ => (""@, plain()),
    }
}

impl DirectoryPicker {
    /// The header of the favourites.
    pub open spec fn favorites_header(self) -> ItemView {
        one_line(
            seq![
                (
                    "── Favourites ("@ + decimal(self.favorite_repos@.len()) + ") "@,
                    colored(Color::LightYellow).bold(),
                ),
                (repeated('─', 40), colored(Color::Rgb(60, 60, 60))),
            ],
            plain(),
        )
    }

    /// The row of a favourite.
    pub open spec fn favorite_row(self, i: int) -> ItemView {
        let favorite = self.favorite_repos@[i];
        let selected = i == self.selected_index;
        one_line(
            seq![
                (row_mark(selected)@ + favorite.0@ + "  "@, dir_style(selected)),
                ("[git]"@, colored(Color::LightGreen)),
                (
                    "  ("@ + decimal(favorite.1 as nat) + " tasks)"@,
                    colored(Color::DarkGray),
                ),
            ],
            plain(),
        )
    }

    /// The kind of an entry, where it is known.
    pub open spec fn kind(self, i: int) -> Option<DirKind> {
        if i < self.entry_kinds@.len() {
            Some(self.entry_kinds@[i])
        } else {
            None
        }
    }

    /// The row of a directory; entries are counted behind the favourites.
    pub open spec fn dir_row(self, i: int) -> ItemView {
        let selected = self.favorite_repos@.len() + i == self.selected_index;
        let name = (row_mark(selected)@ + self.entries@[i]@ + "/"@, dir_style(selected));
        one_line(
            if self.origin is RepoSelect {
                seq![name, kind_span(self.kind(i))]
            } else {
                seq![name]
            },
            plain(),
        )
    }

    /// The section of favourites, where there are any.
    pub open spec fn favorites_section(self) -> Seq<ItemView> {
        let n = self.favorite_repos@.len();
        if n > 0 {
            seq![self.favorites_header()] + Seq::new(n, |i: int| self.favorite_row(i)) + seq![
                one_line(seq![], plain()),
            ]
        } else {
            seq![]
        }
    }

    /// The rows of the picker.
    pub open spec fn rows(self) -> Seq<ItemView> {
        self.favorites_section() + Seq::new(self.entries@.len(), |i: int| self.dir_row(i))
    }

    fn push_favorites(&self, items: &mut Vec<Item>)
        ensures
            items_view(final(items)@) == items_view(old(items)@) + self.favorites_section(),
    {
        let ghost before = items_view(items@);
        let ghost all = self.favorites_section();
        let n = self.favorites_len();
        if n == 0 {
            assert(items_view(items@) =~= before + all);
            return;
        }
        let mut label = concat("── Favourites (", number(n as u64).as_str());
        label.append(") ");
        let mut spans = no_spans();
        push_owned(&mut spans, label, colored(Color::LightYellow).bold());
        push_owned(&mut spans, repeat_char('─', 40), colored(Color::Rgb(60, 60, 60)));
        assert(spans_view(spans@) =~= self.favorites_header().lines[0]);
        push_one_line(items, spans, plain());
        assert(items_view(items@) =~= before + all.take(1));
        let mut i: usize = 0;
        while i < n
            invariant
                i <= n,
                n == self.favorite_repos@.len(),
                n > 0,
                all == self.favorites_section(),
                items_view(items@) == before + all.take(i + 1),
            decreases n - i,
        {
            let selected = i == self.selected_index;
            let mut name = concat(row_mark(selected), self.favorite_repos[i].0.as_str());
            name.append("  ");
            let mut count = concat("  (", number(self.favorite_repos[i].1).as_str());
            count.append(" tasks)");
            let mut spans = no_spans();
            push_owned(&mut spans, name, dir_style(selected));
            push_span(&mut spans, "[git]", colored(Color::LightGreen));
            push_owned(&mut spans, count, colored(Color::DarkGray));
            assert(spans_view(spans@) =~= self.favorite_row(i as int).lines[0]);
            push_one_line(items, spans, plain());
            assert(items_view(items@) =~= before + all.take(i + 2));
            i += 1;
        }
        push_one_line(items, no_spans(), plain());
        assert(items_view(items@) =~= before + all);
    }

    fn push_dir_row(&self, items: &mut Vec<Item>, i: usize)
        requires
            self.wf(),
            i < self.entries@.len(),
        ensures
            items_view(final(items)@) == items_view(old(items)@).push(self.dir_row(i as int)),
    {
        let selected = self.favorites_len() + i == self.selected_index;
        let mut name = concat(row_mark(selected), self.entries[i].as_str());
        name.append("/");
        let mut spans = no_spans();
        push_owned(&mut spans, name, dir_style(selected));
        if self.is_repo_select_mode() {
            let kind = if i < self.entry_kinds.len() {
                Some(self.entry_kinds[i])
            } else {
                None
            };
            match kind {
                Some(DirKind::GitRepo) => {
                    push_span(&mut spans, "  [git]", colored(Color::LightGreen));
                },
                Some(DirKind::MultiRepoParent) => {
                    push_span(&mut spans, "  [multi]", colored(Color::LightYellow));
                },
                _ => {
                    push_span(&mut spans, "", plain());
                },
            }
        }
        assert(spans_view(spans@) =~= self.dir_row(i as int).lines[0]);
        push_one_line(items, spans, plain());
    }

    /// The rows of the picker as they are drawn.
    pub fn row_items(&self) -> (items: Vec<Item>)
        requires
            self.wf(),
        ensures
            items_view(items@) == self.rows(),
    {
        let mut items = no_items();
        self.push_favorites(&mut items);
        let ghost start = self.favorites_section();
        let ghost all = Seq::new(self.entries@.len(), |i: int| self.dir_row(i));
        let mut i: usize = 0;
        assert(items_view(items@) =~= start + all.take(0));
        while i < self.entries.len()
            invariant
                i <= self.entries.len(),
                self.wf(),
                all == Seq::new(self.entries@.len(), |i: int| self.dir_row(i)),
                items_view(items@) == start + all.take(i as int),
            decreases self.entries.len() - i,
        {
            self.push_dir_row(&mut items, i);
            assert(items_view(items@) =~= start + all.take(i + 1));
            i += 1;
        }
        assert(all.take(i as int) =~= all);
        items
    }

    /// The title of the picker.
    pub fn title(&self) -> (title: &'static str)
        ensures
            title@ == match self.origin {
                DirPickerOrigin::NewTask => " Select Repos Directory "@,
                DirPickerOrigin::RepoSelect => " Select Repository "@,
            },
    {
        match self.origin {
            DirPickerOrigin::NewTask => " Select Repos Directory ",
            DirPickerOrigin::RepoSelect => " Select Repository ",
        }
    }

    /// The line that tells which directory is shown.
    pub fn path_line(&self) -> (line: Line)
        ensures
            line@ == seq![
                ("Path: "@, colored(Color::DarkGray)),
                (self.current_dir@, colored(Color::White).bold()),
            ],
    {
        let mut spans = no_spans();
        push_span(&mut spans, "Path: ", colored(Color::DarkGray));
        push_span(&mut spans, self.current_dir.as_str(), colored(Color::White).bold());
        Line { spans }
    }

    /// What keys do.
    pub fn help(&self) -> (text: &'static str)
        ensures
            text@ == if self.origin is RepoSelect {
                " j/k: navigate  l/Enter: open/select  h: up  s: select  Esc: cancel "@
            } else {
                " j/k: navigate  l/Enter: open  h/Backspace: up  s: select  Esc: cancel "@
            },
    {
        if self.is_repo_select_mode() {
            " j/k: navigate  l/Enter: open/select  h: up  s: select  Esc: cancel "
        } else {
            " j/k: navigate  l/Enter: open  h/Backspace: up  s: select  Esc: cancel "
        }
    }
}

/// The row that stands out is that of the selected entry: favourites come first,
/// below their header, and directories behind them.
pub proof fn the_selected_entry_stands_out(picker: DirectoryPicker, i: int)
    ensures
        0 <= i < picker.favorite_repos@.len() ==> picker.rows()[i + 1] == picker.favorite_row(i)
            && has_text(picker.rows()[i + 1].lines[0][0].0, picker.favorite_repos@[i].0@) && (i
            == picker.selected_index ==> picker.rows()[i + 1].lines[0][0].1.bold) && (i
            != picker.selected_index ==> !picker.rows()[i + 1].lines[0][0].1.bold),
        0 <= i < picker.entries@.len() ==> ({
            let above = if picker.favorite_repos@.len() > 0 {
                picker.favorite_repos@.len() + 2
            } else {
                0
            };
            let row = picker.rows()[above + i];
            &&& row == picker.dir_row(i)
            &&& has_text(row.lines[0][0].0, picker.entries@[i]@ + "/"@)
            &&& row.lines[0][0].1.bold == (picker.favorite_repos@.len() + i
                == picker.selected_index)
        }),
{
    let top = picker.favorites_section();
    if 0 <= i < picker.favorite_repos@.len() {
        assert(picker.rows()[i + 1] == top[i + 1]);
        middle_stands(
            row_mark(i == picker.selected_index)@,
            picker.favorite_repos@[i].0@,
            "  "@,
        );
    }
    if 0 <= i < picker.entries@.len() {
        let mark = row_mark(picker.favorite_repos@.len() + i == picker.selected_index)@;
        ends_are_recognised(mark, picker.entries@[i]@ + "/"@);
        assert(mark + picker.entries@[i]@ + "/"@ =~= mark + (picker.entries@[i]@ + "/"@));
        assert(picker.rows()[top.len() + i] == picker.dir_row(i));
    }
}

/// What kind of directory an entry is shows where a repository is to be chosen.
pub proof fn kinds_of_directories_show(picker: DirectoryPicker, i: int)
    requires
        0 <= i < picker.entries@.len(),
        i < picker.entry_kinds@.len(),
    ensures
        picker.origin is RepoSelect && picker.entry_kinds@[i] is GitRepo
            ==> picker.dir_row(i).lines[0].last().0 == "  [git]"@,
        picker.origin is RepoSelect && picker.entry_kinds@[i] is MultiRepoParent
            ==> picker.dir_row(i).lines[0].last().0 == "  [multi]"@,
        !(picker.origin is RepoSelect) ==> picker.dir_row(i).lines[0].len() == 1,
{
}

} // verus!
