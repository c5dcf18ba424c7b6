//! Choosing a directory: the entries of a directory, and favourite
//! repositories before them.

use crate::order::{name_before, sort_by_name, sorted_by};
use crate::select::{next_round, previous_round, wrap_next, wrap_previous};
use crate::text::{concat, ends_with, has_prefix, has_suffix, starts_with};
use vstd::prelude::*;

verus! {

/// Which wizard requested the directory picker.
#[derive(Debug, Clone, Copy, PartialEq, Eq, Structural)]
pub enum DirPickerOrigin {
    /// Fallback: no repos found, pick a repos_dir.
    NewTask,
    /// Repo selection: browse directories to choose a repo or multi-repo parent.
    RepoSelect,
}

/// What a directory holds.
#[derive(Debug, Clone, Copy, PartialEq, Eq, Structural)]
pub enum DirKind {
    GitRepo,
    MultiRepoParent,
    Plain,
}

/// An entry found in a directory.
pub struct FoundEntry {
    pub name: String,
    pub is_dir: bool,
    pub kind: DirKind,
}

/// A path with a name added to it; an absolute name stands for itself.
pub open spec fn joined_path(dir: Seq<char>, name: Seq<char>) -> Seq<char> {
    if name.len() > 0 && name[0] == '/' {
        name
    } else if dir.len() == 0 || dir.last() == '/' {
        dir + name
    } else {
        dir.push('/') + name
    }
}

/// A path with a name added to it.
pub fn join_path(dir: &str, name: &str) -> (path: String)
    ensures
        path@ == joined_path(dir@, name@),
{
    let name_len = name.unicode_len();
    if name_len > 0 && name.get_char(0) == '/' {
        return name.to_owned();
    }
    let dir_len = dir.unicode_len();
    if dir_len == 0 || dir.get_char(dir_len - 1) == '/' {
        concat(dir, name)
    } else {
        let mut path = dir.to_owned();
        path.push('/');
        path.append(name);
        path
    }
}

/// The path without its last part, if it has one.
pub uninterp spec fn parent_path(path: Seq<char>) -> Option<Seq<char>>;

/// Calls `std::path::Path::parent` on a path that is text. The result is named,
/// and nothing else is claimed of it.
#[verifier::external_body]
pub(crate) fn parent_of(path: &str) -> (parent: Option<String>)
    ensures
        match parent {
            Some(p) => parent_path(path@) == Some(p@),
            None => parent_path(path@) is None,
        },
{
    std::path::Path::new(path).parent().map(|p| p.to_string_lossy().into_owned())
}

/// Whether two paths name the same parts.
pub uninterp spec fn same_path(a: Seq<char>, b: Seq<char>) -> bool;

/// Compares paths that are text with `==` of `std::path::Path`. The result is
/// named, and nothing else is claimed of it.
#[verifier::external_body]
pub(crate) fn paths_equal(a: &str, b: &str) -> (same: bool)
    ensures
        same == same_path(a@, b@),
{
    std::path::Path::new(a) == std::path::Path::new(b)
}

/// The last part of a path, if it names one.
pub uninterp spec fn last_part(path: Seq<char>) -> Option<Seq<char>>;

/// Calls `std::path::Path::file_name` on a path that is text. The result is
/// named, and nothing else is claimed of it.
#[verifier::external_body]
pub(crate) fn file_name_of(path: &str) -> (name: Option<String>)
    ensures
        match name {
            Some(n) => last_part(path@) == Some(n@),
            None => last_part(path@) is None,
        },
{
    std::path::Path::new(path).file_name().map(|n| n.to_string_lossy().into_owned())
}

/// The path from a directory to one below it, if it lies below it.
pub uninterp spec fn path_below(path: Seq<char>, base: Seq<char>) -> Option<Seq<char>>;

/// Calls `std::path::Path::strip_prefix` on paths that are text. The result is
/// named, and nothing else is claimed of it.
#[verifier::external_body]
pub(crate) fn below(path: &str, base: &str) -> (rest: Option<String>)
    ensures
        match rest {
            Some(r) => path_below(path@, base@) == Some(r@),
            None => path_below(path@, base@) is None,
        },
{
    match std::path::Path::new(path).strip_prefix(base) {
        Ok(rest) => Some(rest.to_string_lossy().into_owned()),
        Err(_) => None,
    }
}

/// The last part of a path without its extension, if it names one.
pub uninterp spec fn stem(path: Seq<char>) -> Option<Seq<char>>;

/// Calls `std::path::Path::file_stem` on a path that is text. The result is
/// named, and nothing else is claimed of it.
#[verifier::external_body]
pub(crate) fn stem_of(path: &str) -> (name: Option<String>)
    ensures
        match name {
            Some(n) => stem(path@) == Some(n@),
            None => stem(path@) is None,
        },
{
    std::path::Path::new(path).file_stem().map(|n| n.to_string_lossy().into_owned())
}

/// The entries that are offered: directories that are not hidden, and in the
/// selection of a repository no worktree directories.
pub open spec fn is_offered(repo_select: bool) -> spec_fn(FoundEntry) -> bool {
    |e: FoundEntry|
        e.is_dir && !has_prefix(e.name@, "."@) && (repo_select ==> !has_suffix(e.name@, "-wt"@))
}

pub open spec fn named(e: FoundEntry) -> (String, DirKind) {
    (e.name, e.kind)
}

/// The offered entries by name.
pub open spec fn offered(found: Seq<FoundEntry>, repo_select: bool) -> Seq<(String, DirKind)> {
    let kept = found.filter(is_offered(repo_select));
    sorted_by(Seq::new(kept.len(), |i: int| named(kept[i])), name_before::<DirKind>())
}

/// The favourites and what was found can be counted together.
pub open spec fn fits(favorites: int, found: Option<Vec<FoundEntry>>) -> bool {
    match found {
        Some(list) => favorites + list@.len() <= usize::MAX,
        None => favorites <= usize::MAX,
    }
}

/// There are no more entries offered than found.
proof fn offered_len(found: Seq<FoundEntry>, repo_select: bool)
    ensures
        offered(found, repo_select).len() <= found.len(),
{
    let kept = found.filter(is_offered(repo_select));
    found.lemma_filter_len(is_offered(repo_select));
    crate::order::sorted_by_keeps_elements(
        Seq::new(kept.len(), |i: int| named(kept[i])),
        name_before::<DirKind>(),
    );
}

pub struct DirectoryPicker {
    pub current_dir: String,
    pub entries: Vec<String>,
    /// Classification of each entry (parallel to `entries`). Only populated for `RepoSelect` origin.
    pub entry_kinds: Vec<DirKind>,
    pub selected_index: usize,
    pub origin: DirPickerOrigin,
    /// Favourite repos with task counts. Always shown in repo select modes.
    pub favorite_repos: Vec<(String, u64)>,
    /// The configured repos_dir, used to resolve favourite repo paths.
    pub repos_dir: String,
}

impl DirectoryPicker {
    /// The items can be counted, and one of them is selected where there is one.
    pub open spec fn wf(self) -> bool {
        self.items() <= usize::MAX && self.selected_index < usize::MAX
    }

    /// The picker shows what was found in its directory, with nothing selected yet.
    pub open spec fn shows(self, found: Option<Seq<FoundEntry>>) -> bool {
        let listed = match found {
            Some(f) => offered(f, self.origin is RepoSelect),
            None => Seq::empty(),
        };
        &&& self.selected_index == 0
        &&& self.entries@.len() == listed.len()
        &&& forall|i: int| 0 <= i < listed.len() ==> #[trigger] self.entries@[i] == listed[i].0
        &&& self.entry_kinds@ == if self.origin is RepoSelect {
            Seq::new(listed.len(), |i: int| listed[i].1)
        } else {
            Seq::empty()
        }
    }

    /// What stays the same when the entries are listed anew.
    pub open spec fn same_place(self, other: DirectoryPicker) -> bool {
        &&& self.origin == other.origin
        &&& self.favorite_repos == other.favorite_repos
        &&& self.repos_dir == other.repos_dir
    }

    /// A picker without favourites, on a directory in which `found` was found.
    pub fn new(start_dir: String, origin: DirPickerOrigin, found: Option<Vec<FoundEntry>>) -> (picker:
        Self)
        ensures
            picker.wf(),
            picker.current_dir == start_dir,
            picker.origin == origin,
            picker.favorite_repos@.len() == 0,
            picker.repos_dir@.len() == 0,
            picker.shows(
                match found {
                    Some(f) => Some(f@),
                    None => None,
                },
            ),
    {
        let count: usize = match &found {
            Some(list) => list.len(),
            None => 0,
        };
        assert(count <= usize::MAX && fits(0, found));
        DirectoryPicker::new_with_favorites(start_dir, origin, Vec::new(), String::new(), found)
    }

    /// A picker with favourites: those of the favourite repositories that are
    /// checked out in `repos_dir`.
    pub fn new_with_favorites(
        start_dir: String,
        origin: DirPickerOrigin,
        favorites: Vec<(String, u64, bool)>,
        repos_dir: String,
        found: Option<Vec<FoundEntry>>,
    ) -> (picker: Self)
        requires
            fits(favorites@.len() as int, found),
        ensures
            picker.wf(),
            picker.current_dir == start_dir,
            picker.origin == origin,
            picker.favorite_repos@ == checked_out(favorites@),
            picker.repos_dir == repos_dir,
            picker.shows(
                match found {
                    Some(f) => Some(f@),
                    None => None,
                },
            ),
    {
        proof {
            favorites@.lemma_filter_len(|f: (String, u64, bool)| f.2);
        }
        let mut picker = DirectoryPicker {
            current_dir: start_dir,
            entries: Vec::new(),
            entry_kinds: Vec::new(),
            selected_index: 0,
            origin,
            favorite_repos: keep_checked_out(favorites),
            repos_dir,
        };
        picker.refresh_entries(found);
        picker
    }

    #[verifier::allow_in_spec]
    pub fn is_repo_select_mode(&self) -> bool
        returns
            (self.origin is RepoSelect),
    {
        matches!(self.origin, DirPickerOrigin::RepoSelect)
    }

    /// Lists the entries anew from what was found in the current directory.
    pub fn refresh_entries(&mut self, found: Option<Vec<FoundEntry>>)
        requires
            fits(old(self).favorite_repos@.len() as int, found),
        ensures
            final(self).wf(),
            final(self).same_place(*old(self)),
            final(self).current_dir == old(self).current_dir,
            final(self).shows(
                match found {
                    Some(f) => Some(f@),
                    None => None,
                },
            ),
    {
        self.entries = Vec::new();
        self.entry_kinds = Vec::new();
        self.selected_index = 0;
        let ghost place = self.origin;
        let ghost shown = match found {
            Some(ref f) => offered(f@, place is RepoSelect),
            None => Seq::empty(),
        };
        if let Some(found) = found {
            proof {
                offered_len(found@, place is RepoSelect);
            }
            let repo_select = self.is_repo_select_mode();
            let dirs = sort_by_name(keep_offered(found, repo_select));
            let ghost listed = dirs@;
            for dir in it: dirs
                invariant
                    it.seq() == listed,
                    repo_select == (self.origin is RepoSelect),
                    self.same_place(*old(self)),
                    self.current_dir == old(self).current_dir,
                    self.selected_index == 0,
                    self.entries@ == Seq::new(it.index() as nat, |i: int| listed[i].0),
                    self.entry_kinds@ == if repo_select {
                        Seq::new(it.index() as nat, |i: int| listed[i].1)
                    } else {
                        Seq::empty()
                    },
            {
                if repo_select {
                    self.entry_kinds.push(dir.1);
                }
                self.entries.push(dir.0);
            }
        }
        assert(self.entry_kinds@ == if self.origin is RepoSelect {
            Seq::new(shown.len(), |i: int| shown[i].1)
        } else {
            Seq::empty()
        });
    }

    /// Number of favourite entries visible (always shown when favourites are loaded).
    pub fn favorites_len(&self) -> (n: usize)
        ensures
            n == self.favorite_repos@.len(),
    {
        self.favorite_repos.len()
    }

    pub open spec fn items(self) -> nat {
        self.favorite_repos@.len() + self.entries@.len()
    }

    /// Total number of selectable items (favourites + directory entries).
    pub fn total_items(&self) -> (n: usize)
        requires
            self.items() <= usize::MAX,
        ensures
            n == self.items(),
    {
        self.favorites_len() + self.entries.len()
    }

    /// The entry that is selected, if it is not a favourite.
    pub open spec fn entry(self) -> Option<Seq<char>> {
        let i = self.selected_index - self.favorite_repos@.len();
        if 0 <= i < self.entries@.len() {
            Some(self.entries@[i]@)
        } else {
            None
        }
    }

    /// The directory to go to when the selected entry is entered.
    pub fn entered_dir(&self) -> (dir: Option<String>)
        ensures
            match dir {
                Some(d) => self.entry() is Some && d@ == joined_path(
                    self.current_dir@,
                    self.entry()->0,
                ),
                None => self.entry() is None,
            },
    {
        let fav_len = self.favorites_len();
        if self.selected_index < fav_len {
            return None;
        }
        let entry_idx: usize = self.selected_index - fav_len;
        if entry_idx < self.entries.len() {
            Some(join_path(self.current_dir.as_str(), self.entries[entry_idx].as_str()))
        } else {
            None
        }
    }

    /// The directory to go to when going up.
    pub fn upper_dir(&self) -> (dir: Option<String>)
        ensures
            match dir {
                Some(d) => parent_path(self.current_dir@) == Some(d@),
                None => parent_path(self.current_dir@) is None,
            },
    {
        parent_of(self.current_dir.as_str())
    }

    /// Goes to a directory in which `found` was found.
    pub fn go_to(&mut self, dir: String, found: Option<Vec<FoundEntry>>)
        requires
            fits(old(self).favorite_repos@.len() as int, found),
        ensures
            final(self).wf(),
            final(self).same_place(*old(self)),
            final(self).current_dir == dir,
            final(self).shows(
                match found {
                    Some(f) => Some(f@),
                    None => None,
                },
            ),
    {
        self.current_dir = dir;
        self.refresh_entries(found);
    }

    pub open spec fn spec_entry_kind(self) -> Option<DirKind> {
        let i = self.selected_index - self.favorite_repos@.len();
        if i < 0 {
            Some(DirKind::GitRepo)
        } else if i < self.entry_kinds@.len() {
            Some(self.entry_kinds@[i])
        } else {
            None
        }
    }

    /// Get the kind of the currently selected entry (for RepoSelect mode).
    pub fn selected_entry_kind(&self) -> (kind: Option<DirKind>)
        ensures
            kind == self.spec_entry_kind(),
    {
        let fav_len = self.favorites_len();
        if self.selected_index < fav_len {
            return Some(DirKind::GitRepo);
        }
        let i: usize = self.selected_index - fav_len;
        if i < self.entry_kinds.len() {
            Some(self.entry_kinds[i])
        } else {
            None
        }
    }

    pub open spec fn spec_selected_path(self) -> Option<Seq<char>> {
        if self.selected_index < self.favorite_repos@.len() {
            Some(
                joined_path(
                    self.repos_dir@,
                    self.favorite_repos@[self.selected_index as int].0@,
                ),
            )
        } else {
            match self.entry() {
                Some(name) => Some(joined_path(self.current_dir@, name)),
                None => None,
            }
        }
    }

    /// Get the full path to the currently selected entry.
    pub fn selected_path(&self) -> (path: Option<String>)
        ensures
            match path {
                Some(p) => self.spec_selected_path() == Some(p@),
                None => self.spec_selected_path() is None,
            },
    {
        if self.selected_index < self.favorites_len() {
            return Some(
                join_path(
                    self.repos_dir.as_str(),
                    self.favorite_repos[self.selected_index].0.as_str(),
                ),
            );
        }
        self.entered_dir()
    }

    pub open spec fn spec_selected_name(self) -> Option<Seq<char>> {
        if self.selected_index < self.favorite_repos@.len() {
            Some(self.favorite_repos@[self.selected_index as int].0@)
        } else {
            self.entry()
        }
    }

    /// Get the name of the currently selected entry.
    pub fn selected_name(&self) -> (name: Option<String>)
        ensures
            match name {
                Some(n) => self.spec_selected_name() == Some(n@),
                None => self.spec_selected_name() is None,
            },
    {
        let fav_len = self.favorites_len();
        if self.selected_index < fav_len {
            return Some(self.favorite_repos[self.selected_index].0.clone());
        }
        let entry_idx: usize = self.selected_index - fav_len;
        if entry_idx < self.entries.len() {
            Some(self.entries[entry_idx].clone())
        } else {
            None
        }
    }

    /// Whether the currently selected item is a favourite.
    pub fn is_favorite_selected(&self) -> (yes: bool)
        ensures
            yes == (self.selected_index < self.favorite_repos@.len()),
    {
        self.selected_index < self.favorites_len()
    }

    /// Selects the next item, and after the last one the first.
    pub fn select_next(&mut self)
        requires
            old(self).wf(),
        ensures
            final(self).wf(),
            *final(self) == (DirectoryPicker {
                selected_index: next_round(
                    old(self).selected_index as int,
                    old(self).items() as int,
                ) as usize,
                ..*old(self)
            }),
    {
        let total = self.total_items();
        proof {
            if total > 0 {
                vstd::arithmetic::div_mod::lemma_mod_bound(
                    self.selected_index + 1,
                    total as int,
                );
            }
        }
        self.selected_index = wrap_next(self.selected_index, total);
    }

    /// Selects the previous item, and before the first one the last.
    pub fn select_previous(&mut self)
        requires
            old(self).wf(),
        ensures
            final(self).wf(),
            *final(self) == (DirectoryPicker {
                selected_index: previous_round(
                    old(self).selected_index as int,
                    old(self).items() as int,
                ) as usize,
                ..*old(self)
            }),
    {
        self.selected_index = wrap_previous(self.selected_index, self.total_items());
    }
}

/// The favourites that are checked out, with their counts.
pub open spec fn checked_out(favorites: Seq<(String, u64, bool)>) -> Seq<(String, u64)> {
    let kept = favorites.filter(|f: (String, u64, bool)| f.2);
    Seq::new(kept.len(), |i: int| (kept[i].0, kept[i].1))
}

fn keep_checked_out(favorites: Vec<(String, u64, bool)>) -> (kept: Vec<(String, u64)>)
    ensures
        kept@ == checked_out(favorites@),
{
    let ghost all = favorites@;
    let mut kept: Vec<(String, u64)> = Vec::new();
    for f in it: favorites
        invariant
            it.seq() == all,
            kept@ == checked_out(all.take(it.index() as int)),
    {
        proof {
            let here = all.take(it.index() as int);
            assert(all.take(it.index() + 1) == here.push(f));
            here.lemma_filter_push(f, |f: (String, u64, bool)| f.2);
            if f.2 {
                assert(checked_out(here.push(f)) == checked_out(here).push((f.0, f.1)));
            }
        }
        if f.2 {
            kept.push((f.0, f.1));
        }
    }
    assert(all.take(all.len() as int) == all);
    kept
}

fn keep_offered(found: Vec<FoundEntry>, repo_select: bool) -> (kept: Vec<(String, DirKind)>)
    ensures
        ({
            let offers = found@.filter(is_offered(repo_select));
            kept@ == Seq::new(offers.len(), |i: int| named(offers[i]))
        }),
{
    let ghost all = found@;
    let ghost wanted = is_offered(repo_select);
    let mut kept: Vec<(String, DirKind)> = Vec::new();
    for e in it: found
        invariant
            it.seq() == all,
            wanted == is_offered(repo_select),
            ({
                let offers = all.take(it.index() as int).filter(wanted);
                kept@ == Seq::new(offers.len(), |i: int| named(offers[i]))
            }),
    {
        proof {
            let here = all.take(it.index() as int);
            assert(all.take(it.index() + 1) == here.push(e));
            here.lemma_filter_push(e, wanted);
        }
        let ghost before = kept@;
        if e.is_dir && !starts_with(e.name.as_str(), ".") && !(repo_select && ends_with(
            e.name.as_str(),
            "-wt",
        )) {
            assert(wanted(e));
            kept.push((e.name, e.kind));
            assert(kept@ == before.push(named(e)));
        }
    }
    assert(all.take(all.len() as int) == all);
    kept
}

/// A name is put behind a directory and a slash, of which there is one between
/// them whether or not the directory ends in one.
pub proof fn names_are_put_behind_directories(dir: Seq<char>, name: Seq<char>)
    requires
        dir.len() > 0,
        name.len() > 0,
        name[0] != '/',
    ensures
        dir.last() != '/' ==> joined_path(dir, name) == dir + seq!['/'] + name,
        dir.last() == '/' ==> joined_path(dir, name) == dir + name,
        joined_path(dir, seq!['/'] + name) == seq!['/'] + name,
{
    assert(dir.push('/') + name =~= dir + seq!['/'] + name);
}

/// What the picker offers are exactly the directories that were found whose name
/// does not start with a dot and, where repositories are chosen, does not end in
/// `-wt`, by name.
pub proof fn directories_are_offered(
    picker: DirectoryPicker,
    found: Seq<FoundEntry>,
    name: String,
)
    requires
        picker.shows(Some(found)),
    ensures
        picker.entries@.contains(name) <==> exists|i: int|
            0 <= i < found.len() && (#[trigger] found[i]).name == name && found[i].is_dir
                && !has_prefix(name@, "."@) && !(picker.origin is RepoSelect && has_suffix(
                name@,
                "-wt"@,
            )),
        picker.selected_index == 0,
{
    let select = picker.origin is RepoSelect;
    let keep = is_offered(select);
    let kept = found.filter(keep);
    let pairs = Seq::new(kept.len(), |i: int| named(kept[i]));
    let before = crate::order::name_before::<DirKind>();
    let listed = offered(found, select);
    assert(listed == sorted_by(pairs, before));
    if picker.entries@.contains(name) {
        let k = choose|k: int| 0 <= k < picker.entries@.len() && picker.entries@[k] == name;
        let pair = listed[k];
        assert(picker.entries@[k] == pair.0);
        crate::order::sorted_elements(pairs, before, pair);
        let p = choose|p: int| 0 <= p < pairs.len() && pairs[p] == pair;
        crate::order::kept_elements(found, keep, kept[p]);
        let i = choose|i: int| 0 <= i < found.len() && found[i] == kept[p];
        assert(found[i].name == name);
    }
    if exists|i: int|
        0 <= i < found.len() && (#[trigger] found[i]).name == name && found[i].is_dir
            && !has_prefix(name@, "."@) && !(select && has_suffix(name@, "-wt"@)) {
        let i = choose|i: int|
            0 <= i < found.len() && (#[trigger] found[i]).name == name && found[i].is_dir
                && !has_prefix(name@, "."@) && !(select && has_suffix(name@, "-wt"@));
        crate::order::kept_elements(found, keep, found[i]);
        let k = choose|k: int| 0 <= k < kept.len() && kept[k] == found[i];
        assert(pairs[k] == named(found[i]));
        crate::order::sorted_elements(pairs, before, named(found[i]));
        let l = choose|l: int| 0 <= l < listed.len() && listed[l] == named(found[i]);
        assert(picker.entries@[l] == listed[l].0);
    }
}

/// What is offered is in the order of the names.
pub proof fn offered_directories_are_in_order(
    picker: DirectoryPicker,
    found: Seq<FoundEntry>,
    i: int,
    j: int,
)
    requires
        picker.shows(Some(found)),
        0 <= i < j < picker.entries@.len(),
    ensures
        !crate::order::text_before(picker.entries@[j]@, picker.entries@[i]@),
{
    let select = picker.origin is RepoSelect;
    let kept = found.filter(is_offered(select));
    let pairs = Seq::new(kept.len(), |i: int| named(kept[i]));
    crate::order::sorted_by_keeps_elements(pairs, crate::order::name_before::<DirKind>());
    crate::order::sorted_names_go_up(pairs, i, j);
    let listed = offered(found, select);
    assert(picker.entries@[i] == listed[i].0 && picker.entries@[j] == listed[j].0);
}

/// The favourites come before the entries of the directory. What is selected is
/// taken by its path: a favourite below the directory of repositories, an entry
/// below the one that is shown.
pub proof fn the_selected_item_is_taken(picker: DirectoryPicker, k: int)
    requires
        0 <= k,
    ensures
        picker.selected_index == k && k < picker.favorite_repos@.len()
            ==> picker.spec_selected_path() == Some(
            joined_path(picker.repos_dir@, picker.favorite_repos@[k].0@),
        ) && picker.spec_selected_name() == Some(picker.favorite_repos@[k].0@)
            && picker.spec_entry_kind() == Some(DirKind::GitRepo) && picker.entry() is None,
        picker.selected_index == picker.favorite_repos@.len() + k && k < picker.entries@.len()
            ==> picker.spec_selected_path() == Some(
            joined_path(picker.current_dir@, picker.entries@[k]@),
        ) && picker.spec_selected_name() == Some(picker.entries@[k]@) && picker.entry() == Some(
            picker.entries@[k]@,
        ),
        picker.selected_index == picker.favorite_repos@.len() + k && k
            < picker.entry_kinds@.len() ==> picker.spec_entry_kind() == Some(
            picker.entry_kinds@[k],
        ),
        picker.items() == picker.favorite_repos@.len() + picker.entries@.len(),
{
}

/// A favourite is offered exactly if its repository is checked out.
pub proof fn checked_out_favourites_are_offered(favorites: Seq<(String, u64, bool)>, f: (String, u64))
    ensures
        checked_out(favorites).contains(f) <==> favorites.contains((f.0, f.1, true)),
{
    let keep = |f: (String, u64, bool)| f.2;
    let kept = favorites.filter(keep);
    crate::order::kept_elements(favorites, keep, (f.0, f.1, true));
    if checked_out(favorites).contains(f) {
        let k = choose|k: int|
            0 <= k < checked_out(favorites).len() && checked_out(favorites)[k] == f;
        crate::order::kept_elements(favorites, keep, kept[k]);
        assert(kept[k] == (f.0, f.1, true));
    }
    if kept.contains((f.0, f.1, true)) {
        let k = choose|k: int| 0 <= k < kept.len() && kept[k] == (f.0, f.1, true);
        assert(checked_out(favorites)[k] == f);
    }
}

/// Where a repository is to be chosen, the kind of each entry is the one that its
/// directory was found to be.
pub proof fn entries_have_the_kind_found(
    picker: DirectoryPicker,
    found: Seq<FoundEntry>,
    k: int,
)
    requires
        picker.shows(Some(found)),
        picker.origin is RepoSelect,
        0 <= k < picker.entries@.len(),
    ensures
        picker.entry_kinds@.len() == picker.entries@.len(),
        picker.entry_kinds@[k] == offered(found, true)[k].1,
        picker.entries@[k] == offered(found, true)[k].0,
{
}

/// A name that starts at the root stands for itself, and any other is put behind
/// the directory, which is kept.
pub proof fn absolute_names_stand_for_themselves(dir: Seq<char>, name: Seq<char>)
    ensures
        name.len() > 0 && name[0] == '/' ==> joined_path(dir, name) == name,
        dir.len() > 0 && !(name.len() > 0 && name[0] == '/') ==> has_prefix(
            joined_path(dir, name),
            dir,
        ) && has_suffix(joined_path(dir, name), name),
{
    if dir.len() > 0 && !(name.len() > 0 && name[0] == '/') {
        let path = joined_path(dir, name);
        assert(path.subrange(0, dir.len() as int) =~= dir);
        assert(path.subrange(path.len() - name.len(), path.len() as int) =~= name);
    }
}

} // verus!
