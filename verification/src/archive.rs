//! The archive of a project: its archived tasks and agents, and a search.

use crate::detail::all_up;
use crate::keys::{KeyCode, KeyPress};
use crate::model::{agent_kind_label, AgentRecord, Task};
use crate::select::{clamp, clamped};
use crate::text::{contains_text, has_text, lowercase, split_words, texts, to_lowercase, words};
use crate::textarea::{area_state, fresh_state, type_into, Input, Key, TextArea};
use crate::wizard::{joined_line, line_text, plain_editor};
use vstd::prelude::*;

verus! {

#[derive(Debug, Clone, Copy, PartialEq, Eq, Structural)]
pub enum ArchiveKind {
    Tasks,
    Agents,
}

/// How far the preview scrolls at a time.
pub const HALF_PAGE: u16 = 15;

pub struct Archive {
    pub kind: ArchiveKind,
    pub tasks: Vec<(Task, String)>,
    pub agents: Vec<(AgentRecord, String)>,
    pub search: TextArea<'static>,
    pub selected: usize,
    pub preview: Option<String>,
    pub scroll: u16,
}

/// What a key does in the archive.
pub enum ArchiveOutcome {
    Nothing,
    Quit,
    Close,
    /// Save or no longer save the task at this place.
    ToggleSaved(usize),
    DeleteTask(Task),
    DeleteAgent(AgentRecord),
    /// Start a new task from the task at this place.
    NewTaskFrom(usize),
    /// Bring the agent at this place back.
    Restore(usize),
}

/// A term stands in one of the texts.
pub open spec fn found_in(term: Seq<char>, places: Seq<Seq<char>>) -> bool {
    exists|p: int| 0 <= p < places.len() && has_text(#[trigger] places[p], term)
}

/// Every term stands in one of the texts.
pub open spec fn all_found(terms: Seq<Seq<char>>, places: Seq<Seq<char>>) -> bool {
    forall|t: int| 0 <= t < terms.len() ==> found_in(#[trigger] terms[t], places)
}

/// The texts that an archived task is searched in.
pub open spec fn task_places(entry: (Task, String)) -> Seq<Seq<char>> {
    seq![lowercase(entry.0.id()), lowercase(entry.1@)]
}

/// The texts that an archived agent is searched in.
pub open spec fn agent_places(entry: (AgentRecord, String)) -> Seq<Seq<char>> {
    seq![
        lowercase(entry.0.meta.name@),
        lowercase(entry.0.meta.project@),
        lowercase(entry.0.meta.kind.word()),
        lowercase(entry.1@),
    ]
}

/// Whether every term stands in one of the texts.
fn finds_all(terms: &Vec<String>, places: &Vec<String>) -> (found: bool)
    ensures
        found == all_found(texts(terms@), texts(places@)),
{
    let mut t: usize = 0;
    while t < terms.len()
        invariant
            t <= terms.len(),
            forall|k: int| 0 <= k < t ==> found_in(#[trigger] texts(terms@)[k], texts(places@)),
        decreases terms.len() - t,
    {
        let mut found = false;
        let mut p: usize = 0;
        while p < places.len()
            invariant
                p <= places.len(),
                t < terms.len(),
                found <==> exists|q: int|
                    0 <= q < p && has_text(
                        #[trigger] texts(places@)[q],
                        texts(terms@)[t as int],
                    ),
            decreases places.len() - p,
        {
            let here = contains_text(places[p].as_str(), terms[t].as_str());
            assert(here == has_text(texts(places@)[p as int], texts(terms@)[t as int]));
            found = found || here;
            p += 1;
        }
        if !found {
            assert(!found_in(texts(terms@)[t as int], texts(places@)));
            return false;
        }
        t += 1;
    }
    true
}

/// The places of the flags that are up.
fn places_up(flags: &Vec<bool>) -> (places: Vec<usize>)
    ensures
        places@.len() == all_up(flags@, flags@.len() as int).len(),
        forall|k: int|
            0 <= k < places@.len() ==> (#[trigger] places@[k]) as int == all_up(
                flags@,
                flags@.len() as int,
            )[k],
        forall|k: int| 0 <= k < places@.len() ==> (#[trigger] places@[k]) < flags@.len(),
{
    let mut places: Vec<usize> = Vec::new();
    let mut i: usize = 0;
    while i < flags.len()
        invariant
            i <= flags.len(),
            places@.len() == all_up(flags@, i as int).len(),
            forall|k: int|
                0 <= k < places@.len() ==> (#[trigger] places@[k]) as int == all_up(
                    flags@,
                    i as int,
                )[k],
            forall|k: int| 0 <= k < places@.len() ==> (#[trigger] places@[k]) < i,
        decreases flags.len() - i,
    {
        if flags[i] {
            places.push(i);
        }
        i += 1;
    }
    places
}

impl Archive {
    pub open spec fn wf(self) -> bool {
        area_state(self.search).wf()
    }

    /// The words that are searched for.
    pub open spec fn terms(self) -> Seq<Seq<char>> {
        words(lowercase(line_text(self.search)))
    }

    /// Of each entry, whether it is found.
    pub open spec fn found(self) -> Seq<bool> {
        match self.kind {
            ArchiveKind::Tasks => Seq::new(
                self.tasks@.len(),
                |i: int| all_found(self.terms(), task_places(self.tasks@[i])),
            ),
            ArchiveKind::Agents => Seq::new(
                self.agents@.len(),
                |i: int| all_found(self.terms(), agent_places(self.agents@[i])),
            ),
        }
    }

    /// The places of the entries that are found.
    pub open spec fn filtered(self) -> Seq<int> {
        all_up(self.found(), self.found().len() as int)
    }

    /// Return indices into the active archive list that match the current search query.
    pub fn archive_filtered_indices(&self) -> (indices: Vec<usize>)
        ensures
            indices@.len() == self.filtered().len(),
            forall|k: int|
                0 <= k < indices@.len() ==> (#[trigger] indices@[k]) as int == self.filtered()[k],
            forall|k: int|
                0 <= k < indices@.len() ==> (#[trigger] indices@[k]) < self.found().len(),
    {
        let query = to_lowercase(joined_line(&self.search).as_str());
        let terms = split_words(query.as_str());
        let mut flags: Vec<bool> = Vec::new();
        let mut i: usize = 0;
        match self.kind {
            ArchiveKind::Tasks => {
                while i < self.tasks.len()
                    invariant
                        i <= self.tasks.len(),
                        self.kind is Tasks,
                        texts(terms@) == self.terms(),
                        flags@ == self.found().take(i as int),
                    decreases self.tasks.len() - i,
                {
                    let mut places: Vec<String> = Vec::new();
                    places.push(to_lowercase(self.tasks[i].0.meta.id.as_str()));
                    places.push(to_lowercase(self.tasks[i].1.as_str()));
                    assert(texts(places@) == task_places(self.tasks@[i as int]));
                    flags.push(finds_all(&terms, &places));
                    i += 1;
                }
            },
            ArchiveKind::Agents => {
                while i < self.agents.len()
                    invariant
                        i <= self.agents.len(),
                        self.kind is Agents,
                        texts(terms@) == self.terms(),
                        flags@ == self.found().take(i as int),
                    decreases self.agents.len() - i,
                {
                    let agent = &self.agents[i].0;
                    let mut places: Vec<String> = Vec::new();
                    places.push(to_lowercase(agent.meta.name.as_str()));
                    places.push(to_lowercase(agent.meta.project.as_str()));
                    places.push(to_lowercase(agent_kind_label(agent.meta.kind).as_str()));
                    places.push(to_lowercase(self.agents[i].1.as_str()));
                    assert(texts(places@) == agent_places(self.agents@[i as int]));
                    flags.push(finds_all(&terms, &places));
                    i += 1;
                }
            },
        }
        assert(flags@ == self.found());
        places_up(&flags)
    }

    /// The place of the selected entry.
    pub open spec fn spec_selected(self) -> Option<int> {
        if self.selected < self.filtered().len() {
            Some(self.filtered()[self.selected as int])
        } else {
            None
        }
    }

    /// The place of the selected entry.
    pub fn selected_entry(&self) -> (at: Option<usize>)
        ensures
            match at {
                Some(i) => self.spec_selected() == Some(i as int) && i < self.found().len(),
                None => self.spec_selected() is None,
            },
    {
        let filtered = self.archive_filtered_indices();
        if self.selected < filtered.len() {
            Some(filtered[self.selected])
        } else {
            None
        }
    }

    /// The selected entry is one of the entries.
    pub proof fn selected_in_list(self)
        ensures
            self.spec_selected() matches Some(at) ==> 0 <= at < self.found().len(),
    {
        let flags = self.found();
        crate::detail::all_up_places(flags, flags.len() as int);
        if self.selected < self.filtered().len() {
            let at = self.filtered()[self.selected as int];
            assert(0 <= at < flags.len());
        }
    }

    /// The text of an entry.
    pub open spec fn content(self, at: int) -> Seq<char> {
        match self.kind {
            ArchiveKind::Tasks => self.tasks@[at].1@,
            ArchiveKind::Agents => self.agents@[at].1@,
        }
    }

    /// A key that moves to the next entry of the list.
    pub open spec fn goes_down(key: KeyPress) -> bool {
        key.code is Down || key.is_ctrl('j')
    }

    /// A key that moves to the previous entry of the list.
    pub open spec fn goes_up(key: KeyPress) -> bool {
        key.code is Up || key.is_ctrl('k')
    }

    /// What a key types into the search.
    pub open spec fn typed_key(key: KeyPress) -> Option<Input> {
        match key.code {
            KeyCode::Backspace => Some(
                Input { key: Key::Backspace, ctrl: false, alt: false, shift: false },
            ),
            KeyCode::Char(c) => if key.ctrl && (c == 'j' || c == 'k' || c == 'c') {
                None
            } else {
                Some(Input { key: Key::Char(c), ctrl: false, alt: false, shift: false })
            },
            _ => None,
        }
    }

    /// The list after a key in the search.
    pub open spec fn after_search_key(self, key: KeyPress, after: Archive) -> bool {
        let n = self.filtered().len() as int;
        if Archive::goes_down(key) {
            after == (Archive {
                selected: if n == 0 {
                    self.selected
                } else if self.selected + 1 < n {
                    (self.selected + 1) as usize
                } else {
                    (n - 1) as usize
                },
                ..self
            })
        } else if Archive::goes_up(key) {
            after == (Archive {
                selected: if self.selected > 0 && (key.is_ctrl('k') || n > 0) {
                    (self.selected - 1) as usize
                } else {
                    self.selected
                },
                ..self
            })
        } else if key.code is Enter {
            match self.spec_selected() {
                Some(at) => {
                    &&& after == (Archive { preview: after.preview, scroll: 0, ..self })
                    &&& after.preview matches Some(text) && text@ == self.content(at)
                },
                None => after == self,
            }
        } else {
            match Archive::typed_key(key) {
                Some(input) => {
                    &&& area_state(self.search).typed(input, area_state(after.search))
                    &&& after == (Archive { search: after.search, selected: 0, ..self })
                },
                None => after == self,
            }
        }
    }

    /// A key in the search, other than those that close the view.
    fn handle_search_key(&mut self, key: KeyPress)
        requires
            old(self).wf(),
            !key.is_ctrl('c'),
            !(key.code is Esc),
        ensures
            final(self).wf(),
            old(self).after_search_key(key, *final(self)),
    {
        if matches!(key.code, KeyCode::Down) || key.is_ctrl('j') {
            let n = self.archive_filtered_indices().len();
            if n > 0 {
                self.selected = if self.selected < n - 1 {
                    self.selected + 1
                } else {
                    n - 1
                };
            }
        } else if matches!(key.code, KeyCode::Up) || key.is_ctrl('k') {
            let n = self.archive_filtered_indices().len();
            if self.selected > 0 && (key.is_ctrl('k') || n > 0) {
                self.selected -= 1;
            }
        } else {
            match key.code {
                KeyCode::Enter => {
                    if let Some(at) = self.selected_entry() {
                        let content = match self.kind {
                            ArchiveKind::Tasks => self.tasks[at].1.clone(),
                            ArchiveKind::Agents => self.agents[at].1.clone(),
                        };
                        self.preview = Some(content);
                        self.scroll = 0;
                    }
                },
                KeyCode::Backspace => {
                    type_into(
                        &mut self.search,
                        Input { key: Key::Backspace, ctrl: false, alt: false, shift: false },
                    );
                    self.selected = 0;
                },
                KeyCode::Char(c) => {
                    type_into(
                        &mut self.search,
                        Input { key: Key::Char(c), ctrl: false, alt: false, shift: false },
                    );
                    self.selected = 0;
                },
                _ => {},
            }
        }
    }

    /// How far the preview is scrolled after a key.
    pub open spec fn scroll_after(self, key: KeyPress) -> int {
        match key.code {
            KeyCode::Char('j') => if self.scroll < u16::MAX {
                self.scroll + 1
            } else {
                self.scroll as int
            },
            KeyCode::Char('k') => if self.scroll > 0 {
                self.scroll - 1
            } else {
                0
            },
            KeyCode::Char('g') => 0,
            KeyCode::Char('G') => u16::MAX as int,
            KeyCode::Char('d') => if !key.ctrl {
                self.scroll as int
            } else if self.scroll + HALF_PAGE <= u16::MAX {
                self.scroll + HALF_PAGE
            } else {
                u16::MAX as int
            },
            KeyCode::Char('u') => if !key.ctrl {
                self.scroll as int
            } else if self.scroll >= HALF_PAGE {
                self.scroll - HALF_PAGE
            } else {
                0
            },
            _ => self.scroll as int,
        }
    }

    /// A plain `d` deletes the previewed entry.
    pub open spec fn deletes(key: KeyPress) -> bool {
        key.code == KeyCode::Char('d') && !key.ctrl
    }

    /// The preview after a key: a deleted entry is gone, and the selection
    /// stays in what is found.
    pub open spec fn after_preview_key(self, key: KeyPress, after: Archive) -> bool {
        if key.code is Esc || key.code == KeyCode::Char('q') {
            after == (Archive { preview: None, ..self })
        } else if Archive::deletes(key) {
            &&& after.tasks@ == match self.spec_selected() {
                Some(at) if self.kind is Tasks => self.tasks@.remove(at),
                _ => self.tasks@,
            }
            &&& after.agents@ == match self.spec_selected() {
                Some(at) if self.kind is Agents => self.agents@.remove(at),
                _ => self.agents@,
            }
            &&& after == (Archive {
                tasks: after.tasks,
                agents: after.agents,
                preview: None,
                selected: after.selected,
                ..self
            })
            &&& after.selected == clamped(self.selected as int, after.filtered().len() as int)
        } else {
            after == (Archive { scroll: self.scroll_after(key) as u16, ..self })
        }
    }

    /// What a key in the preview asks for.
    pub open spec fn preview_outcome(self, key: KeyPress, outcome: ArchiveOutcome) -> bool {
        match (key.code, self.spec_selected()) {
            (KeyCode::Char('s'), Some(at)) => if self.kind is Tasks {
                outcome matches ArchiveOutcome::ToggleSaved(i) && i == at
            } else {
                outcome is Nothing
            },
            (KeyCode::Char('d'), Some(at)) => if key.ctrl {
                outcome is Nothing
            } else if self.kind is Tasks {
                outcome matches ArchiveOutcome::DeleteTask(task) && task == self.tasks@[at].0
            } else {
                outcome matches ArchiveOutcome::DeleteAgent(agent) && agent == self.agents@[at].0
            },
            (KeyCode::Char('n'), Some(at)) => if self.kind is Tasks {
                outcome matches ArchiveOutcome::NewTaskFrom(i) && i == at
            } else {
                outcome matches ArchiveOutcome::Restore(i) && i == at
            },
            _ => outcome is Nothing,
        }
    }

    /// Takes the selected entry out.
    fn delete_selected(&mut self) -> (outcome: ArchiveOutcome)
        ensures
            final(self).tasks@ == match old(self).spec_selected() {
                Some(at) if old(self).kind is Tasks => old(self).tasks@.remove(at),
                _ => old(self).tasks@,
            },
            final(self).agents@ == match old(self).spec_selected() {
                Some(at) if old(self).kind is Agents => old(self).agents@.remove(at),
                _ => old(self).agents@,
            },
            *final(self) == (Archive {
                tasks: final(self).tasks,
                agents: final(self).agents,
                ..*old(self)
            }),
            match old(self).spec_selected() {
                Some(at) => if old(self).kind is Tasks {
                    outcome matches ArchiveOutcome::DeleteTask(task) && task
                        == old(self).tasks@[at].0
                } else {
                    outcome matches ArchiveOutcome::DeleteAgent(agent) && agent
                        == old(self).agents@[at].0
                },
                None => outcome is Nothing,
            },
    {
        match self.selected_entry() {
            Some(at) => match self.kind {
                ArchiveKind::Tasks => ArchiveOutcome::DeleteTask(self.tasks.remove(at).0),
                ArchiveKind::Agents => ArchiveOutcome::DeleteAgent(self.agents.remove(at).0),
            },
            None => ArchiveOutcome::Nothing,
        }
    }

    fn handle_archive_preview_event(&mut self, key: KeyPress) -> (outcome: ArchiveOutcome)
        requires
            old(self).wf(),
        ensures
            final(self).wf(),
            old(self).after_preview_key(key, *final(self)),
            old(self).preview_outcome(key, outcome),
    {
        match key.code {
            KeyCode::Esc | KeyCode::Char('q') => {
                self.preview = None;
                ArchiveOutcome::Nothing
            },
            KeyCode::Char('j') => {
                self.scroll = self.scroll.saturating_add(1);
                ArchiveOutcome::Nothing
            },
            KeyCode::Char('k') => {
                self.scroll = self.scroll.saturating_sub(1);
                ArchiveOutcome::Nothing
            },
            KeyCode::Char('g') => {
                self.scroll = 0;
                ArchiveOutcome::Nothing
            },
            KeyCode::Char('G') => {
                self.scroll = u16::MAX;
                ArchiveOutcome::Nothing
            },
            KeyCode::Char('d') => {
                if key.ctrl {
                    self.scroll = self.scroll.saturating_add(HALF_PAGE);
                    ArchiveOutcome::Nothing
                } else {
                    let outcome = self.delete_selected();
                    self.preview = None;
                    let n = self.archive_filtered_indices().len();
                    let ghost held = *self;
                    self.selected = clamp(self.selected, n);
                    assert(self.filtered() == held.filtered());
                    outcome
                }
            },
            KeyCode::Char('u') => {
                if key.ctrl {
                    self.scroll = self.scroll.saturating_sub(HALF_PAGE);
                }
                ArchiveOutcome::Nothing
            },
            KeyCode::Char('s') => match (self.kind, self.selected_entry()) {
                (ArchiveKind::Tasks, Some(at)) => ArchiveOutcome::ToggleSaved(at),
                _ => ArchiveOutcome::Nothing,
            },
            KeyCode::Char('n') => match (self.kind, self.selected_entry()) {
                (ArchiveKind::Tasks, Some(at)) => ArchiveOutcome::NewTaskFrom(at),
                (ArchiveKind::Agents, Some(at)) => ArchiveOutcome::Restore(at),
                _ => ArchiveOutcome::Nothing,
            },
            _ => ArchiveOutcome::Nothing,
        }
    }

    /// The archive after a key.
    pub open spec fn after_key(self, key: KeyPress, after: Archive) -> bool {
        if key.is_ctrl('c') {
            after == self
        } else if self.preview is Some {
            self.after_preview_key(key, after)
        } else if key.code is Esc {
            after == self
        } else {
            self.after_search_key(key, after)
        }
    }

    /// What a key asks for.
    pub open spec fn outcome(self, key: KeyPress, outcome: ArchiveOutcome) -> bool {
        if key.is_ctrl('c') {
            outcome is Quit
        } else if self.preview is Some {
            self.preview_outcome(key, outcome)
        } else if key.code is Esc {
            outcome is Close
        } else {
            outcome is Nothing
        }
    }

    pub fn handle_key(&mut self, key: KeyPress) -> (outcome: ArchiveOutcome)
        requires
            old(self).wf(),
        ensures
            final(self).wf(),
            old(self).after_key(key, *final(self)),
            old(self).outcome(key, outcome),
    {
        if key.is_ctrl('c') {
            return ArchiveOutcome::Quit;
        }
        if self.preview.is_some() {
            return self.handle_archive_preview_event(key);
        }
        if matches!(key.code, KeyCode::Esc) {
            return ArchiveOutcome::Close;
        }
        self.handle_search_key(key);
        ArchiveOutcome::Nothing
    }

    /// Shows the archived tasks or agents that were read.
    pub fn open_archive(
        &mut self,
        kind: ArchiveKind,
        tasks: Vec<(Task, String)>,
        agents: Vec<(AgentRecord, String)>,
    )
        ensures
            final(self).wf(),
            final(self).kind == kind,
            final(self).tasks@ == if kind is Tasks {
                tasks@
            } else {
                Seq::empty()
            },
            final(self).agents@ == if kind is Agents {
                agents@
            } else {
                Seq::empty()
            },
            area_state(final(self).search) == fresh_state(Seq::empty()),
            final(self).selected == 0,
            final(self).preview is None,
            final(self).scroll == 0,
    {
        self.kind = kind;
        match kind {
            ArchiveKind::Tasks => {
                self.tasks = tasks;
                self.agents = Vec::new();
            },
            ArchiveKind::Agents => {
                self.agents = agents;
                self.tasks = Vec::new();
            },
        }
        self.search = plain_editor();
        self.selected = 0;
        self.preview = None;
        self.scroll = 0;
    }
}

/// With nothing searched for, every entry is found.
pub proof fn empty_search_finds_everything(archive: Archive, i: int)
    requires
        archive.terms().len() == 0,
        0 <= i < archive.found().len(),
    ensures
        archive.found()[i],
{
}

/// Searching for more terms finds no more entries.
pub proof fn more_terms_find_less(
    terms: Seq<Seq<char>>,
    more: Seq<Seq<char>>,
    places: Seq<Seq<char>>,
)
    requires
        all_found(terms + more, places),
    ensures
        all_found(terms, places),
        all_found(more, places),
{
    assert forall|t: int| 0 <= t < terms.len() implies found_in(#[trigger] terms[t], places) by {
        assert((terms + more)[t] == terms[t]);
    }
    assert forall|t: int| 0 <= t < more.len() implies found_in(#[trigger] more[t], places) by {
        assert((terms + more)[terms.len() + t] == more[t]);
    }
}

/// An archived task is found exactly if every word that is searched for stands
/// in its name or in its text, whatever the case.
pub proof fn tasks_are_found_by_name_and_text(archive: Archive, i: int)
    requires
        archive.kind is Tasks,
        0 <= i < archive.tasks@.len(),
    ensures
        archive.filtered().contains(i) <==> forall|t: int|
            0 <= t < words(lowercase(line_text(archive.search))).len() ==> has_text(
                lowercase(archive.tasks@[i].0.meta.id@),
                #[trigger] words(lowercase(line_text(archive.search)))[t],
            ) || has_text(
                lowercase(archive.tasks@[i].1@),
                words(lowercase(line_text(archive.search)))[t],
            ),
{
    let terms = words(lowercase(line_text(archive.search)));
    let name = lowercase(archive.tasks@[i].0.meta.id@);
    let text = lowercase(archive.tasks@[i].1@);
    let places = task_places(archive.tasks@[i]);
    places_are_flags(archive, i);
    if archive.found()[i] {
        assert forall|t: int| 0 <= t < terms.len() implies has_text(name, #[trigger] terms[t])
            || has_text(text, terms[t]) by {
            assert(found_in(terms[t], places));
            let p = choose|p: int| 0 <= p < places.len() && has_text(#[trigger] places[p], terms[t]);
        }
    }
    if forall|t: int|
        0 <= t < terms.len() ==> has_text(name, #[trigger] terms[t]) || has_text(text, terms[t]) {
        assert forall|t: int| 0 <= t < terms.len() implies found_in(#[trigger] terms[t], places) by {
            assert(places[0] == name && places[1] == text);
        }
    }
}

/// An archived agent is found exactly if every word that is searched for stands
/// in its name, its project, the word for its kind or its text, whatever the case.
pub proof fn agents_are_found_by_what_they_are(archive: Archive, i: int)
    requires
        archive.kind is Agents,
        0 <= i < archive.agents@.len(),
    ensures
        archive.filtered().contains(i) <==> forall|t: int|
            0 <= t < words(lowercase(line_text(archive.search))).len() ==> ({
                let meta = archive.agents@[i].0.meta;
                let term = #[trigger] words(lowercase(line_text(archive.search)))[t];
                ||| has_text(lowercase(meta.name@), term)
                ||| has_text(lowercase(meta.project@), term)
                ||| has_text(lowercase(meta.kind.word()), term)
                ||| has_text(lowercase(archive.agents@[i].1@), term)
            }),
{
    let terms = words(lowercase(line_text(archive.search)));
    let meta = archive.agents@[i].0.meta;
    let places = agent_places(archive.agents@[i]);
    places_are_flags(archive, i);
    if archive.found()[i] {
        assert forall|t: int| 0 <= t < terms.len() implies ({
            let term = #[trigger] terms[t];
            ||| has_text(lowercase(meta.name@), term)
            ||| has_text(lowercase(meta.project@), term)
            ||| has_text(lowercase(meta.kind.word()), term)
            ||| has_text(lowercase(archive.agents@[i].1@), term)
        }) by {
            assert(found_in(terms[t], places));
            let p = choose|p: int| 0 <= p < places.len() && has_text(#[trigger] places[p], terms[t]);
        }
    } else {
        let t = choose|t: int| 0 <= t < terms.len() && !found_in(#[trigger] terms[t], places);
        assert(!has_text(places[0], terms[t]));
        assert(!has_text(places[1], terms[t]));
        assert(!has_text(places[2], terms[t]));
        assert(!has_text(places[3], terms[t]));
    }
}

proof fn places_are_flags(archive: Archive, i: int)
    requires
        0 <= i < archive.found().len(),
    ensures
        archive.filtered().contains(i) <==> archive.found()[i],
{
    let flags = archive.found();
    crate::detail::all_up_places(flags, flags.len() as int);
    if archive.filtered().contains(i) {
        let k = choose|k: int| 0 <= k < archive.filtered().len() && archive.filtered()[k] == i;
        assert(flags[archive.filtered()[k]]);
    }
}

/// What is found is listed in the order of the archive, each entry once.
pub proof fn what_is_found_keeps_its_order(archive: Archive, a: int, b: int)
    requires
        0 <= a < b < archive.filtered().len(),
    ensures
        0 <= archive.filtered()[a] < archive.filtered()[b],
        archive.kind is Tasks ==> archive.filtered()[b] < archive.tasks@.len(),
        archive.kind is Agents ==> archive.filtered()[b] < archive.agents@.len(),
{
    crate::detail::all_up_places(archive.found(), archive.found().len() as int);
}

/// Enter previews the text of the entry that is selected among those found, from
/// its start.
pub proof fn enter_previews_the_selected_entry(before: Archive, key: KeyPress, after: Archive)
    requires
        before.preview is None,
        key.code is Enter,
        before.selected < before.filtered().len(),
        before.after_key(key, after),
    ensures
        after.preview matches Some(text) && text@ == match before.kind {
            ArchiveKind::Tasks => before.tasks@[before.filtered()[before.selected as int]].1@,
            ArchiveKind::Agents => before.agents@[before.filtered()[before.selected as int]].1@,
        },
        after.scroll == 0,
        after.selected == before.selected,
{
}

/// The keys down and up, and Ctrl-J and Ctrl-K, go to the next and the previous
/// of the entries found and stop at the ends; what is typed starts the search
/// and the selection anew.
pub proof fn searching_selects_among_what_is_found(before: Archive, key: KeyPress, after: Archive)
    requires
        before.preview is None,
        before.selected < before.filtered().len(),
        before.after_key(key, after),
    ensures
        ({
            let n = before.filtered().len();
            let i = before.selected;
            let down = key.code is Down || (key.ctrl && key.code == KeyCode::Char('j'));
            let up = key.code is Up || (key.ctrl && key.code == KeyCode::Char('k'));
            &&& down && i + 1 < n ==> after.selected == i + 1
            &&& down && i + 1 == n ==> after.selected == i
            &&& up && i > 0 ==> after.selected == i - 1
            &&& up && i == 0 ==> after.selected == 0
            &&& (up || down) ==> area_state(after.search) == area_state(before.search)
            &&& (key.code is Backspace || (key.code is Char && !key.ctrl)) ==> after.selected == 0
            &&& key.code is Backspace ==> area_state(before.search).typed(
                Input { key: Key::Backspace, ctrl: false, alt: false, shift: false },
                area_state(after.search),
            )
        }),
        (key.code matches KeyCode::Char(c) ==> !key.ctrl ==> area_state(before.search).typed(
            Input { key: Key::Char(c), ctrl: false, alt: false, shift: false },
            area_state(after.search),
        )),
        after.tasks == before.tasks,
        after.agents == before.agents,
        after.kind == before.kind,
{
    let entries = match before.kind {
        ArchiveKind::Tasks => before.tasks.len(),
        ArchiveKind::Agents => before.agents.len(),
    };
    crate::detail::all_up_places(before.found(), before.found().len() as int);
    assert(before.filtered().len() <= entries);
}

/// In the preview, a plain `d` deletes exactly the entry that is previewed, `n`
/// starts a task from a task or brings an agent back, and `s` saves a task or no
/// longer does. All ask for the entry that is selected among those found.
pub proof fn previews_act_on_the_selected_entry(
    before: Archive,
    key: KeyPress,
    after: Archive,
    outcome: ArchiveOutcome,
)
    requires
        before.preview is Some,
        !key.ctrl,
        before.selected < before.filtered().len(),
        before.after_key(key, after),
        before.outcome(key, outcome),
    ensures
        ({
            let at = before.filtered()[before.selected as int];
            let tasks = before.kind is Tasks;
            &&& key.code == KeyCode::Char('d') && tasks ==> after.tasks@ == before.tasks@.remove(at)
                && after.agents@ == before.agents@ && (outcome matches ArchiveOutcome::DeleteTask(
                task,
            ) && task == before.tasks@[at].0)
            &&& key.code == KeyCode::Char('d') && !tasks ==> after.agents@ == before.agents@.remove(
                at,
            ) && after.tasks@ == before.tasks@ && (outcome matches ArchiveOutcome::DeleteAgent(agent)
                && agent == before.agents@[at].0)
            &&& key.code == KeyCode::Char('d') ==> after.preview is None
            &&& key.code == KeyCode::Char('n') && tasks ==> (
            outcome matches ArchiveOutcome::NewTaskFrom(i) && i == at)
            &&& key.code == KeyCode::Char('n') && !tasks ==> (
            outcome matches ArchiveOutcome::Restore(i) && i == at)
            &&& key.code == KeyCode::Char('s') && tasks ==> (
            outcome matches ArchiveOutcome::ToggleSaved(i) && i == at)
            &&& key.code == KeyCode::Char('s') && !tasks ==> outcome is Nothing
            &&& key.code != KeyCode::Char('d') ==> after.tasks == before.tasks && after.agents
                == before.agents
            &&& key.code is Esc || key.code == KeyCode::Char('q') ==> after.preview is None
                && outcome is Nothing
        }),
{
}

/// In the preview, `j` and `k` scroll a line, Ctrl-D and Ctrl-U fifteen, `g` goes
/// to the start and `G` as far down as can be told.
pub proof fn previews_scroll(before: Archive, key: KeyPress, after: Archive)
    requires
        before.preview is Some,
        before.scroll <= 65_000,
        before.after_key(key, after),
    ensures
        key.code == KeyCode::Char('j') ==> after.scroll == before.scroll + 1,
        key.code == KeyCode::Char('k') && before.scroll > 0 ==> after.scroll == before.scroll - 1,
        key.code == KeyCode::Char('k') && before.scroll == 0 ==> after.scroll == 0,
        key.code == KeyCode::Char('g') ==> after.scroll == 0,
        key.code == KeyCode::Char('G') ==> after.scroll == u16::MAX,
        key.code == KeyCode::Char('d') && key.ctrl ==> after.scroll == before.scroll + 15,
        key.code == KeyCode::Char('u') && key.ctrl && before.scroll >= 15 ==> after.scroll
            == before.scroll - 15,
        key.code == KeyCode::Char('u') && key.ctrl && before.scroll < 15 ==> after.scroll == 0,
        key.ctrl && key.code != KeyCode::Char('c') ==> after.tasks == before.tasks && after.agents
            == before.agents,
{
}

/// Escape leaves the archive from the search, and only the preview from there.
pub proof fn escape_leaves_the_archive(before: Archive, key: KeyPress, outcome: ArchiveOutcome)
    requires
        key.code is Esc,
        before.outcome(key, outcome),
    ensures
        before.preview is None ==> outcome is Close,
        before.preview is Some ==> outcome is Nothing,
{
}

} // verus!
