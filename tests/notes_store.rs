use faitout::notes::{Event, Message, Note, NoteColor, Notes};

fn note(title: &str) -> Note {
    Note::new(title.to_string(), format!("body of {title}"), vec!["tag".to_string()])
}

fn store_of(titles: &[&str]) -> Notes {
    let mut notes = Notes::default_values();
    for t in titles {
        notes.upsert(note(t), None);
    }
    notes
}

#[test]
fn new_note_has_default_color() {
    let n = Note::new("a".to_string(), "b".to_string(), vec!["x".to_string()]);
    assert_eq!(n.color, NoteColor::Default);
    assert_eq!(n.title, "a");
    assert_eq!(n.body, "b");
    assert_eq!(n.tags, vec!["x".to_string()]);
}

#[test]
fn select_after_deleting_last_index_is_cleared() {
    let mut notes = store_of(&["a", "b", "c"]);
    assert!(notes.delete(2));
    notes.select(Some(2));
    assert_eq!(notes.selected(), None);
}

#[test]
fn select_rejects_out_of_range() {
    let mut notes = store_of(&["a"]);
    notes.select(Some(0));
    assert_eq!(notes.selected(), Some(0));
    notes.select(Some(1));
    assert_eq!(notes.selected(), None);
    notes.select(None);
    assert_eq!(notes.selected(), None);
}

#[test]
fn selection_follows_its_note_across_deletes() {
    let mut notes = store_of(&["a", "b", "c", "d", "e"]);
    notes.select(Some(3));
    assert!(notes.delete(0));
    assert_eq!(notes.selected(), Some(2));
    assert_eq!(notes.get(2).unwrap().title, "d");
    assert!(notes.delete(3));
    assert_eq!(notes.selected(), Some(2));
    assert_eq!(notes.get(2).unwrap().title, "d");
    assert!(notes.delete(1));
    assert_eq!(notes.selected(), Some(1));
    assert_eq!(notes.get(1).unwrap().title, "d");
    assert!(notes.delete(1));
    assert_eq!(notes.selected(), None);
    assert_eq!(notes.len(), 1);
    assert_eq!(notes.get(0).unwrap().title, "b");
}

#[test]
fn delete_out_of_range_is_refused() {
    let mut notes = store_of(&["a", "b"]);
    notes.select(Some(1));
    assert!(!notes.delete(2));
    assert_eq!(notes.len(), 2);
    assert_eq!(notes.selected(), Some(1));
    assert!(notes.take_unsaved());
    assert!(!notes.delete(7));
    assert!(!notes.take_unsaved());
}

#[test]
fn delete_shifts_color_menu() {
    let mut notes = store_of(&["a", "b", "c"]);
    notes.update_at(Message::ToggleColorMenu(2), 0);
    assert_eq!(notes.color_menu(), Some(2));
    assert!(notes.delete(0));
    assert_eq!(notes.color_menu(), Some(1));
    assert!(notes.delete(1));
    assert_eq!(notes.color_menu(), None);
}

#[test]
fn upsert_without_editing_appends() {
    let mut notes = store_of(&["a", "b"]);
    let i = notes.upsert(note("c"), None);
    assert_eq!(i, 2);
    assert_eq!(i, notes.len() - 1);
    assert_eq!(notes.get(2).unwrap().title, "c");
}

#[test]
fn upsert_with_stale_index_appends() {
    let mut notes = store_of(&["a", "b"]);
    let i = notes.upsert(note("c"), Some(9));
    assert_eq!(i, 2);
    assert_eq!(notes.len(), 3);
}

#[test]
fn upsert_in_place_keeps_color() {
    let mut notes = store_of(&["a", "b"]);
    notes.set_color(1, NoteColor::Ocean);
    let replacement = Note::new("B".to_string(), "new body".to_string(), vec!["t1".to_string(), "t2".to_string()]);
    let i = notes.upsert(replacement, Some(1));
    assert_eq!(i, 1);
    assert_eq!(notes.len(), 2);
    let stored = notes.get(1).unwrap();
    assert_eq!(stored.title, "B");
    assert_eq!(stored.body, "new body");
    assert_eq!(stored.tags, vec!["t1".to_string(), "t2".to_string()]);
    assert_eq!(stored.color, NoteColor::Ocean);
}

#[test]
fn color_picked_recolors_and_closes_menu() {
    let mut notes = store_of(&["a", "b"]);
    notes.take_unsaved();
    notes.update_at(Message::ToggleColorMenu(0), 0);
    let r = notes.update_at(Message::ColorPicked { index: 0, color: NoteColor::Cherry }, 0);
    assert_eq!(r, None);
    assert_eq!(notes.get(0).unwrap().color, NoteColor::Cherry);
    assert_eq!(notes.color_menu(), None);
    assert!(notes.take_unsaved());
    notes.update_at(Message::ColorPicked { index: 5, color: NoteColor::Amber }, 0);
    assert!(!notes.take_unsaved());
}

#[test]
fn toggle_color_menu_twice_closes_it() {
    let mut notes = store_of(&["a", "b"]);
    notes.update_at(Message::ToggleColorMenu(1), 0);
    assert_eq!(notes.color_menu(), Some(1));
    notes.update_at(Message::ToggleColorMenu(0), 0);
    assert_eq!(notes.color_menu(), Some(0));
    notes.update_at(Message::ToggleColorMenu(0), 0);
    assert_eq!(notes.color_menu(), None);
}

#[test]
fn two_clicks_within_window_edit_once() {
    let mut notes = store_of(&["a", "b", "c"]);
    assert_eq!(notes.update_at(Message::NoteClicked(2), 1_000), None);
    assert_eq!(notes.update_at(Message::NoteClicked(2), 1_300), Some(Event::Edit(2)));
    assert_eq!(notes.selected(), Some(2));
    // the click memory was reset: a third click starts over
    assert_eq!(notes.update_at(Message::NoteClicked(2), 1_310), None);
}

#[test]
fn three_clicks_spaced_100ms_edit_once() {
    let mut notes = store_of(&["a", "b", "c"]);
    assert_eq!(notes.update_at(Message::NoteClicked(2), 5_000), None);
    assert_eq!(notes.update_at(Message::NoteClicked(2), 5_100), Some(Event::Edit(2)));
    assert_eq!(notes.update_at(Message::NoteClicked(2), 5_200), None);
}

#[test]
fn slow_clicks_are_not_double() {
    let mut notes = store_of(&["a", "b", "c"]);
    assert_eq!(notes.update_at(Message::NoteClicked(1), 0), None);
    assert_eq!(notes.update_at(Message::NoteClicked(1), 301), None);
    assert_eq!(notes.update_at(Message::NoteClicked(0), 400), None);
    assert_eq!(notes.update_at(Message::NoteClicked(1), 450), None);
    assert_eq!(notes.selected(), Some(1));
}

#[test]
fn click_out_of_range_selects_nothing() {
    let mut notes = store_of(&["a"]);
    notes.select(Some(0));
    assert_eq!(notes.update_at(Message::NoteClicked(4), 0), None);
    assert_eq!(notes.selected(), None);
}

#[test]
fn delete_message_reports_and_marks_unsaved() {
    let mut notes = store_of(&["a", "b"]);
    notes.take_unsaved();
    assert_eq!(notes.update_at(Message::DeleteRequested(0), 0), Some(Event::Delete(0)));
    assert!(notes.take_unsaved());
    assert_eq!(notes.update_at(Message::DeleteRequested(3), 0), None);
    assert!(!notes.take_unsaved());
}

#[test]
fn plain_messages_map_to_events() {
    let mut notes = store_of(&["a"]);
    assert_eq!(notes.update(Message::CreateNew), Some(Event::Create));
    assert_eq!(notes.update(Message::OpenSettings), Some(Event::OpenSettings));
    assert_eq!(notes.update(Message::OpenInNewWindow(0)), Some(Event::OpenInNewWindow(0)));
    assert_eq!(notes.update(Message::LinkClicked), None);
}

#[test]
fn search_is_case_insensitive_on_titles() {
    let mut notes = store_of(&["Project Plan", "Grocery List", "Side project"]);
    assert_eq!(notes.update_at(Message::SearchChanged("proj".to_string()), 0), None);
    assert_eq!(notes.search(), "proj");
    assert_eq!(notes.visible(), vec![0, 2]);
    assert_eq!(notes.matching_indices("PROJ"), vec![0, 2]);
    assert_eq!(notes.matching_indices("list"), vec![1]);
    assert_eq!(notes.matching_indices("xyz"), Vec::<usize>::new());
}

#[test]
fn empty_search_shows_everything() {
    let notes = store_of(&["Project Plan", "Grocery List", "Side project"]);
    assert_eq!(notes.visible(), vec![0, 1, 2]);
}

#[test]
fn search_leaves_indices_alone() {
    let mut notes = store_of(&["Project Plan", "Grocery List", "Side project"]);
    notes.update_at(Message::SearchChanged("side".to_string()), 0);
    assert_eq!(notes.visible(), vec![2]);
    assert!(notes.delete(2));
    assert_eq!(notes.len(), 2);
    assert_eq!(notes.get(1).unwrap().title, "Grocery List");
}

#[test]
fn note_matches_lowered_query() {
    let n = note("Weekly REVIEW");
    assert!(n.matches("review"));
    assert!(n.matches(""));
    assert!(n.matches("REVIEW"));
    assert!(!n.matches("weekly plan"));
}

#[test]
fn restore_of_nothing_is_empty() {
    let notes = Notes::restore(None);
    assert_eq!(notes.len(), 0);
    assert_eq!(notes.selected(), None);
    assert_eq!(notes.visible(), Vec::<usize>::new());
}

#[test]
fn restore_round_trip_keeps_entries() {
    let mut notes = store_of(&["a", "b"]);
    notes.set_color(0, NoteColor::Violet);
    let copy = Notes::restore(Some(notes.entries().clone()));
    assert_eq!(copy.len(), 2);
    for i in 0..2 {
        let (x, y) = (notes.get(i).unwrap(), copy.get(i).unwrap());
        assert_eq!(x.title, y.title);
        assert_eq!(x.body, y.body);
        assert_eq!(x.tags, y.tags);
        assert_eq!(x.color, y.color);
    }
}

#[test]
fn color_labels() {
    let labels: Vec<&str> = NoteColor::all().into_iter().map(|c| c.label()).collect();
    assert_eq!(labels, vec!["Default", "Cherry", "Emerald", "Ocean", "Amber", "Violet"]);
}

#[test]
fn notes_file_name() {
    assert_eq!(Notes::storage_path(), "notes.json");
}

#[test]
fn delete_message_moves_color_menu_with_its_note() {
    let mut notes = store_of(&["a", "b", "c"]);
    notes.update_at(Message::ToggleColorMenu(0), 0);
    assert_eq!(notes.update_at(Message::DeleteRequested(2), 0), Some(Event::Delete(2)));
    assert_eq!(notes.color_menu(), Some(0));

    let mut notes = store_of(&["a", "b", "c"]);
    notes.update_at(Message::ToggleColorMenu(2), 0);
    notes.update_at(Message::DeleteRequested(0), 0);
    assert_eq!(notes.color_menu(), Some(1));
    notes.update_at(Message::DeleteRequested(1), 0);
    assert_eq!(notes.color_menu(), None);
}

#[test]
fn upsert_in_place_leaves_other_entries() {
    let mut notes = store_of(&["a", "b", "c"]);
    notes.upsert(note("B"), Some(1));
    assert_eq!(notes.get(0).unwrap().title, "a");
    assert_eq!(notes.get(1).unwrap().title, "B");
    assert_eq!(notes.get(2).unwrap().title, "c");
}
