use vstd::prelude::*;

use crate::notes::{delete_model, select_model, selection_valid, Note, NotesModel, Notes};
use crate::text::{
    chars_of, join, join_tags, parse_tags, split_tags, string_of, trim, trim_end_newlines,
    trim_chars, trim_newlines_end, views,
};

verus! {

/// How the editor shows a page.
#[derive(Debug, Clone, Copy, PartialEq, Eq, Structural)]
pub enum ViewMode {
    PreviewOnly,
    Split,
}

/// The page form: the text typed so far and the entry it edits, if any.
#[derive(Debug)]
pub struct Editor {
    title: String,
    tags_input: String,
    body: String,
    editing: Option<usize>,
    mode: ViewMode,
}

/// What the form is told.
#[derive(Debug, Clone)]
pub enum Message {
    TitleChanged(String),
    TagsChanged(String),
    /// The whole body text after an edit.
    BodyEdited(String),
    SavePressed,
    BackPressed,
    PreviewLinkClicked,
    ToggleViewMode,
}

/// What the form asks of the rest of the application.
#[derive(Debug, Clone, PartialEq, Eq)]
pub enum Event {
    Save { title: String, body: String, tags: Vec<String>, editing: Option<usize> },
    Back,
}

/// The abstract state of the form.
pub struct EditorModel {
    pub title: Seq<char>,
    pub tags_input: Seq<char>,
    pub body: Seq<char>,
    pub editing: Option<usize>,
    pub mode: ViewMode,
}

impl View for Editor {
    type V = EditorModel;

    closed spec fn view(&self) -> EditorModel {
        EditorModel {
            title: self.title@,
            tags_input: self.tags_input@,
            body: self.body@,
            editing: self.editing,
            mode: self.mode,
        }
    }
}

/// An empty form for a new page.
pub open spec fn blank() -> EditorModel {
    EditorModel {
        title: seq![],
        tags_input: seq![],
        body: seq![],
        editing: None,
        mode: ViewMode::PreviewOnly,
    }
}

/// Whether a save of the form `m` is refused: both the trimmed title and the body
/// without its final line feeds are empty.
pub open spec fn nothing_to_save(m: EditorModel) -> bool {
    trim(m.title).len() == 0 && trim_end_newlines(m.body).len() == 0
}

/// Whether `e` is the save request that the form `m` makes.
pub open spec fn is_save_of(e: Event, m: EditorModel) -> bool {
    match e {
        Event::Save { title, body, tags, editing } => {
            &&& title@ == trim(m.title)
            &&& body@ == trim_end_newlines(m.body)
            &&& views(tags@) == parse_tags(m.tags_input)
            &&& editing == m.editing
        },
        Event::Back => false,
    }
}

/// The form after an index held elsewhere lost the entry at `removed`.
pub open spec fn after_delete(m: EditorModel, removed: usize) -> EditorModel {
    match m.editing {
        Some(current) => if current == removed {
            blank()
        } else if current > removed {
            EditorModel { editing: Some((current - 1) as usize), ..m }
        } else {
            m
        },
        None => m,
    }
}

impl Default for Editor {
    fn default() -> (r: Editor)
        ensures
            r@ == blank(),
    {
        let r = Editor {
            title: String::new(),
            tags_input: String::new(),
            body: String::new(),
            editing: None,
            mode: ViewMode::PreviewOnly,
        };
        assert(r@.title =~= seq![] && r@.tags_input =~= seq![] && r@.body =~= seq![]);
        r
    }
}

impl Editor {
    pub fn update(&mut self, message: Message) -> (r: Option<Event>)
        ensures
            match message {
                Message::TitleChanged(v) => final(self)@ == (EditorModel { title: v@, ..old(self)@ })
                    && r is None,
                Message::TagsChanged(v) => final(self)@ == (EditorModel {
                    tags_input: v@,
                    ..old(self)@
                }) && r is None,
                Message::BodyEdited(v) => final(self)@ == (EditorModel { body: v@, ..old(self)@ })
                    && r is None,
                Message::SavePressed => {
                    &&& final(self)@ == old(self)@
                    &&& nothing_to_save(old(self)@) ==> r is None
                    &&& !nothing_to_save(old(self)@) ==> (r matches Some(e) && is_save_of(
                        e,
                        old(self)@,
                    ))
                },
                Message::BackPressed => final(self)@ == blank() && r == Some(Event::Back),
                Message::PreviewLinkClicked => final(self)@ == old(self)@ && r is None,
                Message::ToggleViewMode => final(self)@ == (EditorModel {
                    mode: if old(self)@.mode == ViewMode::PreviewOnly {
                        ViewMode::Split
                    } else {
                        ViewMode::PreviewOnly
                    },
                    ..old(self)@
                }) && r is None,
            },
    {
        match message {
            Message::TitleChanged(value) => {
                self.title = value;
                None
            },
            Message::TagsChanged(value) => {
                self.tags_input = value;
                None
            },
            Message::BodyEdited(value) => {
                self.body = value;
                None
            },
            Message::SavePressed => self.save_request(),
            Message::BackPressed => {
                self.load_new();
                Some(Event::Back)
            },
            Message::PreviewLinkClicked => None,
            Message::ToggleViewMode => {
                self.mode = match self.mode {
                    ViewMode::PreviewOnly => ViewMode::Split,
                    ViewMode::Split => ViewMode::PreviewOnly,
                };
                None
            },
        }
    }

    /// The save request for the form as it stands, unless there is nothing to save.
    fn save_request(&self) -> (r: Option<Event>)
        ensures
            nothing_to_save(self@) ==> r is None,
            !nothing_to_save(self@) ==> (r matches Some(e) && is_save_of(e, self@)),
    {
        let title = trim_chars(&chars_of(self.title.as_str()));
        let body = trim_newlines_end(&chars_of(self.body.as_str()));
        if title.len() == 0 && body.len() == 0 {
            return None;
        }
        let title = string_of(&title);
        let body = string_of(&body);
        let tags = split_tags(self.tags_input.as_str());
        Some(Event::Save { title, body, tags, editing: self.editing })
    }

    /// Clears the form for a new page.
    pub fn load_new(&mut self)
        ensures
            final(self)@ == blank(),
    {
        self.editing = None;
        self.title = String::new();
        self.tags_input = String::new();
        self.body = String::new();
        self.mode = ViewMode::PreviewOnly;
        assert(self@.title =~= seq![] && self@.tags_input =~= seq![] && self@.body =~= seq![]);
    }

    /// Fills the form with the entry `note`, which stands at `index`.
    pub fn load_existing(&mut self, index: usize, note: &Note)
        ensures
            final(self)@ == (EditorModel {
                title: note.title@,
                tags_input: join_tags(views(note.tags@)),
                body: note.body@,
                editing: Some(index),
                mode: ViewMode::PreviewOnly,
            }),
    {
        self.editing = Some(index);
        self.title = note.title.clone();
        self.tags_input = join(&note.tags);
        self.body = note.body.clone();
        self.mode = ViewMode::PreviewOnly;
    }

    pub fn editing(&self) -> (r: Option<usize>)
        ensures
            r == self@.editing,
    {
        self.editing
    }

    /// Follows the removal of the entry at `index`: the form is cleared if it edited
    /// that entry, and its index moves down if it edited a later one.
    pub fn adjust_after_delete(&mut self, index: usize)
        ensures
            final(self)@ == after_delete(old(self)@, index),
    {
        if let Some(current) = self.editing {
            if current == index {
                self.load_new();
            } else if current > index {
                self.editing = Some(current - 1);
            }
        }
    }

    pub fn title(&self) -> (r: &str)
        ensures
            r@ == self@.title,
    {
        self.title.as_str()
    }

    pub fn tags_input(&self) -> (r: &str)
        ensures
            r@ == self@.tags_input,
    {
        self.tags_input.as_str()
    }

    pub fn body(&self) -> (r: &str)
        ensures
            r@ == self@.body,
    {
        self.body.as_str()
    }

    pub fn mode(&self) -> (r: ViewMode)
        ensures
            r == self@.mode,
    {
        self.mode
    }
}

/// Carries the removal of the entry at `index` over to the form, then selects the
/// entry that the form still edits, or nothing.
pub fn follow_delete(notes: &mut Notes, editor: &mut Editor, index: usize)
    ensures
        final(editor)@ == after_delete(old(editor)@, index),
        final(notes)@ == select_model(old(notes)@, final(editor)@.editing),
        selection_valid(final(notes)@),
{
    editor.adjust_after_delete(index);
    notes.select(editor.editing());
}

/// When the entry at `index` is removed, the form either stops editing, if it edited
/// that entry, or goes on editing the same note at its new index.
pub proof fn editing_follows_delete(m: NotesModel, e: EditorModel, index: usize)
    requires
        index < m.entries.len(),
        e.editing matches Some(k) && k < m.entries.len(),
    ensures
        ({
            let n = delete_model(m, index);
            let f = after_delete(e, index);
            &&& e.editing == Some(index) ==> f.editing is None
            &&& f.editing matches Some(j) ==> j < n.entries.len() && n.entries[j as int]
                == m.entries[e.editing->0 as int]
        }),
{
}

} // verus!
