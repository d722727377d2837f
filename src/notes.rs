use vstd::prelude::*;

use std::time::Instant;

use crate::text::{lower_of, lowercase, matches_folded, title_matches};

verus! {

/// Two clicks on one note at most this many milliseconds apart make a double click.
pub const DOUBLE_CLICK_WINDOW_MS: u64 = 300;

/// The colour label of a note.
#[derive(Debug, Clone, Copy, PartialEq, Eq, Structural)]
pub enum NoteColor {
    Default,
    Cherry,
    Emerald,
    Ocean,
    Amber,
    Violet,
}

impl NoteColor {
    /// The name shown for the colour.
    pub open spec fn label_spec(self) -> Seq<char> {
        match self {
            NoteColor::Default => "Default"@,
            NoteColor::Cherry => "Cherry"@,
            NoteColor::Emerald => "Emerald"@,
            NoteColor::Ocean => "Ocean"@,
            NoteColor::Amber => "Amber"@,
            NoteColor::Violet => "Violet"@,
        }
    }

    pub fn label(self) -> (r: &'static str)
        ensures
            r@ == self.label_spec(),
    {
        match self {
            NoteColor::Default => "Default",
            NoteColor::Cherry => "Cherry",
            NoteColor::Emerald => "Emerald",
            NoteColor::Ocean => "Ocean",
            NoteColor::Amber => "Amber",
            NoteColor::Violet => "Violet",
        }
    }

    /// Every colour, in the order of the palette.
    pub fn all() -> (r: Vec<NoteColor>)
        ensures
            r@ == seq![
                NoteColor::Default,
                NoteColor::Cherry,
                NoteColor::Emerald,
                NoteColor::Ocean,
                NoteColor::Amber,
                NoteColor::Violet,
            ],
    {
        let r = vec![
            NoteColor::Default,
            NoteColor::Cherry,
            NoteColor::Emerald,
            NoteColor::Ocean,
            NoteColor::Amber,
            NoteColor::Violet,
        ];
        assert(r@ =~= seq![
            NoteColor::Default,
            NoteColor::Cherry,
            NoteColor::Emerald,
            NoteColor::Ocean,
            NoteColor::Amber,
            NoteColor::Violet,
        ]);
        r
    }
}

/// A page: a title, a markdown body, tags and a colour label.
#[derive(Debug, Clone)]
pub struct Note {
    pub title: String,
    pub body: String,
    pub tags: Vec<String>,
    pub color: NoteColor,
}

impl Note {
    /// A note with the default colour; it is not stored anywhere yet.
    pub fn new(title: String, body: String, tags: Vec<String>) -> (r: Note)
        ensures
            r.title == title,
            r.body == body,
            r.tags == tags,
            r.color == NoteColor::Default,
    {
        Note { title, body, tags, color: NoteColor::Default }
    }

    pub fn set_color(&mut self, color: NoteColor)
        ensures
            final(self).color == color,
            final(self).title == old(self).title,
            final(self).body == old(self).body,
            final(self).tags == old(self).tags,
    {
        self.color = color;
    }

    /// Whether the title holds `query`, ignoring case; an empty query matches every title.
    pub fn matches(&self, query: &str) -> (r: bool)
        ensures
            r == title_matches(lower_of(query@), lower_of(self.title@)),
    {
        let query = lowercase(query);
        let title = lowercase(self.title.as_str());
        matches_folded(query.as_str(), title.as_str())
    }
}

impl Default for Note {
    fn default() -> (r: Note)
        ensures
            r.title@.len() == 0,
            r.body@.len() == 0,
            r.tags@.len() == 0,
            r.color == NoteColor::Default,
    {
        Note::new(String::new(), String::new(), Vec::new())
    }
}

/// What the notes list asks of its store.
#[derive(Debug, Clone)]
pub enum Message {
    NoteClicked(usize),
    CreateNew,
    LinkClicked,
    ToggleColorMenu(usize),
    ColorPicked { index: usize, color: NoteColor },
    DeleteRequested(usize),
    SearchChanged(String),
    OpenSettings,
    OpenInNewWindow(usize),
}

/// What the store asks of the rest of the application.
#[derive(Debug, Clone, Copy, PartialEq, Eq, Structural)]
pub enum Event {
    Edit(usize),
    Create,
    Delete(usize),
    OpenSettings,
    OpenInNewWindow(usize),
}

/// The ordered notes, with the selection and the list's passing state.
pub struct Notes {
    selected: Option<usize>,
    entries: Vec<Note>,
    search: String,
    color_menu: Option<usize>,
    last_click: Option<(usize, u64)>,
    unsaved: bool,
    /// When the store was made; click times are counted in milliseconds from it.
    started: Instant,
}

/// The abstract state of a store.
pub struct NotesModel {
    pub entries: Seq<Note>,
    pub selected: Option<usize>,
    pub search: Seq<char>,
    pub color_menu: Option<usize>,
    /// The note and the time in milliseconds of the last click that did not end a double click.
    pub last_click: Option<(usize, u64)>,
    /// Whether the entries changed since they were last handed out for saving.
    pub unsaved: bool,
}

impl View for Notes {
    type V = NotesModel;

    closed spec fn view(&self) -> NotesModel {
        NotesModel {
            entries: self.entries@,
            selected: self.selected,
            search: self.search@,
            color_menu: self.color_menu,
            last_click: self.last_click,
            unsaved: self.unsaved,
        }
    }
}

/// The selection, when present, names an entry.
pub open spec fn selection_valid(m: NotesModel) -> bool {
    m.selected matches Some(i) ==> i < m.entries.len()
}

/// `sel` if it names an entry of a collection of `len` entries, else nothing.
pub open spec fn valid_selection(sel: Option<usize>, len: nat) -> Option<usize> {
    match sel {
        Some(i) => if i < len {
            Some(i)
        } else {
            None
        },
        None => None,
    }
}

/// A held index after the entry at `removed` was taken out: cleared if it named
/// that entry, moved down if it named a later one.
pub open spec fn shift_after_remove(slot: Option<usize>, removed: usize) -> Option<usize> {
    match slot {
        Some(s) => if s == removed {
            None
        } else if s > removed {
            Some((s - 1) as usize)
        } else {
            Some(s)
        },
        None => None,
    }
}

/// Whether a click on `index` at `now` ends a double click after `last`.
pub open spec fn is_double_click(last: Option<(usize, u64)>, index: usize, now: u64) -> bool {
    match last {
        Some((prev, at)) => prev == index && (now <= at || now - at <= DOUBLE_CLICK_WINDOW_MS),
        None => false,
    }
}

pub open spec fn select_model(m: NotesModel, sel: Option<usize>) -> NotesModel {
    NotesModel { selected: valid_selection(sel, m.entries.len()), ..m }
}

/// The store after removing the entry at `index`; unchanged if there is none.
pub open spec fn delete_model(m: NotesModel, index: usize) -> NotesModel {
    if index < m.entries.len() {
        NotesModel {
            entries: m.entries.remove(index as int),
            selected: shift_after_remove(m.selected, index),
            color_menu: shift_after_remove(m.color_menu, index),
            unsaved: true,
            ..m
        }
    } else {
        m
    }
}

/// The store after giving the entry at `index` the colour `color`; unchanged if there is none.
pub open spec fn recolor_model(m: NotesModel, index: usize, color: NoteColor) -> NotesModel {
    if index < m.entries.len() {
        NotesModel {
            entries: m.entries.update(
                index as int,
                Note { color, ..m.entries[index as int] },
            ),
            unsaved: true,
            ..m
        }
    } else {
        m
    }
}

/// The note stored by an upsert: the new one, keeping the colour of the one it replaces.
pub open spec fn upsert_model(m: NotesModel, note: Note, editing: Option<usize>) -> NotesModel {
    match editing {
        Some(i) if i < m.entries.len() => NotesModel {
            entries: m.entries.update(i as int, Note { color: m.entries[i as int].color, ..note }),
            unsaved: true,
            ..m
        },
        _ => NotesModel { entries: m.entries.push(note), unsaved: true, ..m },
    }
}

/// The index that an upsert reports.
pub open spec fn upsert_index(m: NotesModel, editing: Option<usize>) -> nat {
    match editing {
        Some(i) if i < m.entries.len() => i as nat,
        _ => m.entries.len(),
    }
}

/// The store and the event after a message at time `now`, in milliseconds.
pub open spec fn step(m: NotesModel, message: Message, now: u64) -> (NotesModel, Option<Event>) {
    match message {
        Message::NoteClicked(index) => {
            let double = is_double_click(m.last_click, index, now);
            let n = NotesModel {
                selected: valid_selection(Some(index), m.entries.len()),
                color_menu: None,
                last_click: if double {
                    None
                } else {
                    Some((index, now))
                },
                ..m
            };
            (n, if double {
                Some(Event::Edit(index))
            } else {
                None
            })
        },
        Message::CreateNew => (
            NotesModel { color_menu: None, last_click: None, ..m },
            Some(Event::Create),
        ),
        Message::LinkClicked => (m, None),
        Message::ToggleColorMenu(index) => (
            NotesModel {
                color_menu: if m.color_menu == Some(index) {
                    None
                } else {
                    Some(index)
                },
                ..m
            },
            None,
        ),
        Message::ColorPicked { index, color } => (
            NotesModel { color_menu: None, ..recolor_model(m, index, color) },
            None,
        ),
        Message::DeleteRequested(index) => if index < m.entries.len() {
            (
                NotesModel { last_click: None, ..delete_model(m, index) },
                Some(Event::Delete(index)),
            )
        } else {
            (m, None)
        },
        Message::SearchChanged(query) => (
            NotesModel { search: query@, color_menu: None, last_click: None, ..m },
            None,
        ),
        Message::OpenSettings => (m, Some(Event::OpenSettings)),
        Message::OpenInNewWindow(index) => (m, Some(Event::OpenInNewWindow(index))),
    }
}

/// The indices, below `n`, of the entries whose title matches `query` (in lower case).
pub open spec fn matching(query: Seq<char>, entries: Seq<Note>, n: int) -> Seq<usize>
    decreases n,
{
    if n <= 0 {
        seq![]
    } else {
        let prev = matching(query, entries, n - 1);
        if title_matches(query, lower_of(entries[n - 1].title@)) {
            prev.push((n - 1) as usize)
        } else {
            prev
        }
    }
}

impl Notes {
    /// An empty store.
    pub fn default_values() -> (r: Notes)
        ensures
            r@.entries.len() == 0,
            r@.selected is None,
            r@.search.len() == 0,
            r@.color_menu is None,
            r@.last_click is None,
            !r@.unsaved,
            selection_valid(r@),
    {
        Notes {
            selected: None,
            entries: Vec::new(),
            search: String::new(),
            color_menu: None,
            last_click: None,
            unsaved: false,
            started: clock_now(),
        }
    }

    /// A store holding what was read from storage, or an empty one when nothing could be read.
    pub fn restore(loaded: Option<Vec<Note>>) -> (r: Notes)
        ensures
            r@.entries == (match loaded {
                Some(v) => v@,
                None => Seq::<Note>::empty(),
            }),
            r@.selected is None,
            r@.search.len() == 0,
            r@.color_menu is None,
            r@.last_click is None,
            !r@.unsaved,
            selection_valid(r@),
    {
        let mut r = Notes::default_values();
        if let Some(v) = loaded {
            r.entries = v;
        }
        proof {
            if loaded is None {
                assert(r@.entries =~= Seq::<Note>::empty());
            }
        }
        r
    }

    /// Sets the selection to `selection` if it names an entry, else clears it.
    pub fn select(&mut self, selection: Option<usize>)
        ensures
            final(self)@ == select_model(old(self)@, selection),
            selection_valid(final(self)@),
    {
        self.selected = match selection {
            Some(i) => if i < self.entries.len() {
                Some(i)
            } else {
                None
            },
            None => None,
        };
    }

    /// Removes the entry at `index` and shifts the held indices; false if there is none.
    pub fn delete(&mut self, index: usize) -> (r: bool)
        requires
            selection_valid(old(self)@),
        ensures
            r == (index < old(self)@.entries.len()),
            final(self)@ == delete_model(old(self)@, index),
            selection_valid(final(self)@),
    {
        if index < self.entries.len() {
            self.entries.remove(index);
            self.selected = shift_index(self.selected, index);
            self.color_menu = shift_index(self.color_menu, index);
            self.unsaved = true;
            true
        } else {
            false
        }
    }

    /// Gives the entry at `index` the colour `color`; nothing happens if there is none.
    pub fn set_color(&mut self, index: usize, color: NoteColor)
        ensures
            final(self)@ == recolor_model(old(self)@, index, color),
    {
        if index < self.entries.len() {
            self.entries[index].set_color(color);
            self.unsaved = true;
        }
    }

    /// Stores `note` in place of the entry at `editing`, keeping that entry's colour,
    /// or at the end when `editing` names no entry; returns where it now stands.
    pub fn upsert(&mut self, note: Note, editing: Option<usize>) -> (r: usize)
        ensures
            final(self)@ == upsert_model(old(self)@, note, editing),
            r == upsert_index(old(self)@, editing),
            r < final(self)@.entries.len(),
            editing is None ==> r + 1 == final(self)@.entries.len() && final(self)@.entries[r as int]
                == note,
            match editing {
                Some(i) => i < old(self)@.entries.len() ==> r == i && final(self)@.entries[r as int]
                    == (Note { color: old(self)@.entries[r as int].color, ..note }),
                None => true,
            },
            selection_valid(old(self)@) ==> selection_valid(final(self)@),
    {
        let mut note = note;
        if let Some(index) = editing {
            if index < self.entries.len() {
                note.color = self.entries[index].color;
                self.entries.set(index, note);
                self.unsaved = true;
                return index;
            }
        }
        let index = self.entries.len();
        self.entries.push(note);
        self.unsaved = true;
        index
    }

    /// Handles a message received at `now`, a time in milliseconds.
    pub fn update_at(&mut self, message: Message, now: u64) -> (r: Option<Event>)
        requires
            selection_valid(old(self)@),
        ensures
            (final(self)@, r) == step(old(self)@, message, now),
            selection_valid(final(self)@),
    {
        match message {
            Message::NoteClicked(index) => {
                let double = match self.last_click {
                    Some((prev, at)) => prev == index && (now <= at || now - at
                        <= DOUBLE_CLICK_WINDOW_MS),
                    None => false,
                };
                self.last_click = Some((index, now));
                self.color_menu = None;
                self.select(Some(index));
                if double {
                    self.last_click = None;
                    Some(Event::Edit(index))
                } else {
                    None
                }
            },
            Message::CreateNew => {
                self.color_menu = None;
                self.last_click = None;
                Some(Event::Create)
            },
            Message::OpenSettings => Some(Event::OpenSettings),
            Message::LinkClicked => None,
            Message::ToggleColorMenu(index) => {
                self.color_menu = if self.color_menu == Some(index) {
                    None
                } else {
                    Some(index)
                };
                None
            },
            Message::ColorPicked { index, color } => {
                self.set_color(index, color);
                self.color_menu = None;
                None
            },
            Message::DeleteRequested(index) => {
                if self.delete(index) {
                    self.last_click = None;
                    Some(Event::Delete(index))
                } else {
                    None
                }
            },
            Message::SearchChanged(query) => {
                self.search = query;
                self.color_menu = None;
                self.last_click = None;
                None
            },
            Message::OpenInNewWindow(index) => Some(Event::OpenInNewWindow(index)),
        }
    }

    /// Handles a message received now, timing clicks on the monotonic clock.
    pub fn update(&mut self, message: Message) -> (r: Option<Event>)
        requires
            selection_valid(old(self)@),
        ensures
            exists|now: u64| (final(self)@, r) == step(old(self)@, message, now),
            selection_valid(final(self)@),
    {
        let now = millis_since(&self.started);
        self.update_at(message, now)
    }

    /// The name of the file the notes are kept in.
    pub fn storage_path() -> (r: &'static str)
        ensures
            r@ == "notes.json"@,
    {
        "notes.json"
    }

    /// The indices of the entries whose title holds `query`, ignoring case;
    /// every index when `query` is empty.
    pub fn matching_indices(&self, query: &str) -> (r: Vec<usize>)
        ensures
            r@ == matching(lower_of(query@), self@.entries, self@.entries.len() as int),
    {
        let q = lowercase(query);
        let mut r: Vec<usize> = Vec::new();
        let mut i: usize = 0;
        while i < self.entries.len()
            invariant
                i <= self.entries@.len(),
                q@ == lower_of(query@),
                r@ == matching(q@, self.entries@, i as int),
            decreases self.entries@.len() - i,
        {
            let title = lowercase(self.entries[i].title.as_str());
            if matches_folded(q.as_str(), title.as_str()) {
                r.push(i);
            }
            i = i + 1;
        }
        r
    }

    /// The indices of the entries that the current search shows.
    pub fn visible(&self) -> (r: Vec<usize>)
        ensures
            r@ == matching(lower_of(self@.search), self@.entries, self@.entries.len() as int),
    {
        self.matching_indices(self.search.as_str())
    }

    /// Reports whether the entries changed since the last call, and forgets it.
    pub fn take_unsaved(&mut self) -> (r: bool)
        ensures
            r == old(self)@.unsaved,
            final(self)@ == (NotesModel { unsaved: false, ..old(self)@ }),
    {
        let r = self.unsaved;
        self.unsaved = false;
        r
    }

    pub fn get(&self, index: usize) -> (r: Option<&Note>)
        ensures
            index < self@.entries.len() ==> r == Some(&self@.entries[index as int]),
            index >= self@.entries.len() ==> r is None,
    {
        if index < self.entries.len() {
            Some(&self.entries[index])
        } else {
            None
        }
    }

    pub fn entries(&self) -> (r: &Vec<Note>)
        ensures
            r@ == self@.entries,
    {
        &self.entries
    }

    pub fn len(&self) -> (r: usize)
        ensures
            r == self@.entries.len(),
    {
        self.entries.len()
    }

    pub fn selected(&self) -> (r: Option<usize>)
        ensures
            r == self@.selected,
    {
        self.selected
    }

    pub fn color_menu(&self) -> (r: Option<usize>)
        ensures
            r == self@.color_menu,
    {
        self.color_menu
    }

    pub fn search(&self) -> (r: &str)
        ensures
            r@ == self@.search,
    {
        self.search.as_str()
    }
}

#[verifier::external_type_specification]
#[verifier::external_body]
pub struct ExInstant(Instant);

/// Relies on `std::time::Instant::now`: a reading of the monotonic clock.
#[verifier::external_body]
fn clock_now() -> (r: Instant) {
    Instant::now()
}

/// Relies on `std::time::Instant::elapsed`: the whole milliseconds since `start` on the
/// monotonic clock. Nothing is promised of the value.
#[verifier::external_body]
fn millis_since(start: &Instant) -> (r: u64) {
    start.elapsed().as_millis() as u64
}

/// A held index after the entry at `removed` was taken out.
fn shift_index(slot: Option<usize>, removed: usize) -> (r: Option<usize>)
    ensures
        r == shift_after_remove(slot, removed),
{
    match slot {
        Some(s) => if s == removed {
            None
        } else if s > removed {
            Some(s - 1)
        } else {
            Some(s)
        },
        None => None,
    }
}

/// The store after removing, in turn, the entries at each of `indices`.
pub open spec fn deletes_model(m: NotesModel, indices: Seq<usize>) -> NotesModel
    decreases indices.len(),
{
    if indices.len() == 0 {
        m
    } else {
        delete_model(deletes_model(m, indices.drop_last()), indices.last())
    }
}

/// The original positions, among `n` entries, of those left after removing in turn
/// the entries at each of `indices`.
pub open spec fn survivors(n: nat, indices: Seq<usize>) -> Seq<int>
    decreases indices.len(),
{
    if indices.len() == 0 {
        Seq::new(n, |i: int| i)
    } else {
        let prev = survivors(n, indices.drop_last());
        if indices.last() < prev.len() {
            prev.remove(indices.last() as int)
        } else {
            prev
        }
    }
}

/// Deleting the last entry and then selecting the index it had leaves nothing
/// selected: the stale index is refused.
pub proof fn select_after_deleting_last(m: NotesModel, index: usize)
    requires
        selection_valid(m),
        index + 1 == m.entries.len(),
    ensures
        select_model(delete_model(m, index), Some(index)).selected is None,
{
}

/// With no click remembered, two clicks on one note at most the double-click window
/// apart ask for exactly one edit, on the second click, and leave no click
/// remembered; a third click right after asks for nothing.
pub proof fn double_click_edits_once(m: NotesModel, index: usize, t1: u64, t2: u64, t3: u64)
    requires
        m.last_click is None,
        t1 <= t2,
        t2 - t1 <= DOUBLE_CLICK_WINDOW_MS,
    ensures
        ({
            let (a, e1) = step(m, Message::NoteClicked(index), t1);
            let (b, e2) = step(a, Message::NoteClicked(index), t2);
            let (c, e3) = step(b, Message::NoteClicked(index), t3);
            &&& e1 is None
            &&& e2 == Some(Event::Edit(index))
            &&& b.last_click is None
            &&& e3 is None
            &&& c.last_click == Some((index, t3))
        }),
{
}

/// After any sequence of deletions, each remaining entry is the original entry it
/// came from, and the selection still names the note it named before, or is cleared
/// if that note was removed; it never names another note.
pub proof fn selection_follows_deletes(m: NotesModel, indices: Seq<usize>)
    requires
        selection_valid(m),
    ensures
        ({
            let r = deletes_model(m, indices);
            let ids = survivors(m.entries.len(), indices);
            &&& ids.len() == r.entries.len()
            &&& forall|a: int, b: int| 0 <= a < b < ids.len() ==> ids[a] < ids[b]
            &&& forall|j: int|
                0 <= j < ids.len() ==> 0 <= #[trigger] ids[j] < m.entries.len() && r.entries[j]
                    == m.entries[ids[j]]
            &&& selection_valid(r)
            &&& m.selected is None ==> r.selected is None
            &&& m.selected matches Some(k) ==> match r.selected {
                Some(j) => j < ids.len() && ids[j as int] == k,
                None => !ids.contains(k as int),
            }
        }),
    decreases indices.len(),
{
    if indices.len() > 0 {
        let prev_indices = indices.drop_last();
        selection_follows_deletes(m, prev_indices);
        let p = deletes_model(m, prev_indices);
        let ids = survivors(m.entries.len(), prev_indices);
        let i = indices.last();
        if i < p.entries.len() {
            let nids = ids.remove(i as int);
            assert forall|a: int, b: int| 0 <= a < b < nids.len() implies nids[a] < nids[b] by {
                if a < i && b >= i {
                    assert(ids[a] < ids[b + 1]);
                } else if a >= i {
                    assert(ids[a + 1] < ids[b + 1]);
                }
            }
            if let Some(k) = m.selected {
                match p.selected {
                    Some(j) => {
                        if j == i {
                            assert forall|t: int| 0 <= t < nids.len() implies nids[t] != k by {
                                if t < i {
                                    assert(ids[t] < ids[j as int]);
                                } else {
                                    assert(ids[j as int] < ids[t + 1]);
                                }
                            }
                        }
                    },
                    None => {
                        assert forall|t: int| 0 <= t < nids.len() implies nids[t] != k by {
                            if t >= i {
                                assert(ids[t + 1] != k);
                            } else {
                                assert(ids[t] != k);
                            }
                        }
                    },
                }
            }
        }
    } else {
        let r = deletes_model(m, indices);
        let ids = survivors(m.entries.len(), indices);
        assert(ids.len() == r.entries.len());
        if let Some(k) = m.selected {
            assert(ids[k as int] == k);
        }
    }
}

} // verus!
