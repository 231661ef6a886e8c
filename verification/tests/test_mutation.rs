use feed_crafter::common::{
    add_item, build_item, delete_item, edit_item, AppState, FileSystem,
};
use feed_crafter::model::{Channel, Item};
use feed_crafter::mutation::{add, edit, list};
use feed_crafter::storage::{FeedError, Storage};
use std::cell::RefCell;
use std::rc::Rc;

/// Keeps every document written to it, and fails on demand.
#[derive(Clone)]
struct RecordingFs {
    writes: Rc<RefCell<Vec<(String, String)>>>,
    fail_writes: bool,
}

impl RecordingFs {
    fn new() -> Self {
        Self { writes: Rc::new(RefCell::new(Vec::new())), fail_writes: false }
    }

    fn failing() -> Self {
        Self { writes: Rc::new(RefCell::new(Vec::new())), fail_writes: true }
    }

    fn write_count(&self) -> usize {
        self.writes.borrow().len()
    }

    fn last_document(&self) -> String {
        self.writes.borrow().last().unwrap().1.clone()
    }
}

impl FileSystem for RecordingFs {
    fn file_exists(&self, _path: &str) -> bool {
        false
    }

    fn open(&self, _path: &str) -> Result<Vec<u8>, std::io::Error> {
        Err(std::io::Error::new(std::io::ErrorKind::NotFound, "File not found"))
    }

    fn write(&self, path: &str, contents: &str) -> Result<(), std::io::Error> {
        self.writes.borrow_mut().push((path.to_string(), contents.to_string()));
        if self.fail_writes {
            Err(std::io::Error::new(std::io::ErrorKind::PermissionDenied, "read-only"))
        } else {
            Ok(())
        }
    }
}

fn empty_state() -> AppState {
    AppState::new(Channel {
        title: "Feed".to_string(),
        link: "https://example.com".to_string(),
        description: "A feed".to_string(),
        last_build_date: None,
        items: Vec::new(),
    })
}

fn item(id: &str, title: &str) -> Item {
    build_item(
        title.to_string(),
        None,
        None,
        id.to_string(),
        "Tue, 1 Jul 2003 10:52:37 +0200".to_string(),
    )
}

fn titles(items: &[Item]) -> Vec<String> {
    items.iter().map(|i| i.title.clone().unwrap()).collect()
}

#[test]
fn test_add_then_list_is_newest_first() {
    let mut state = empty_state();
    let fs = RecordingFs::new();
    let mut storage = Storage::new(fs.clone());

    add(&mut state, &mut storage, "Hello".to_string(), None, None).unwrap();
    add(
        &mut state,
        &mut storage,
        "World".to_string(),
        Some("desc".to_string()),
        Some("http://x".to_string()),
    )
    .unwrap();

    assert_eq!(titles(&list(&state)), vec!["World".to_string(), "Hello".to_string()]);
    assert_eq!(fs.write_count(), 2);
}

#[test]
fn test_add_returns_the_item_at_the_front() {
    let mut state = empty_state();
    let fs = RecordingFs::new();
    let mut storage = Storage::new(fs.clone());

    let added = add(
        &mut state,
        &mut storage,
        "World".to_string(),
        Some("desc".to_string()),
        Some("http://x".to_string()),
    )
    .unwrap();

    assert_eq!(added.title, Some("World".to_string()));
    assert_eq!(added.description, Some("desc".to_string()));
    assert_eq!(added.link, Some("http://x".to_string()));
    let guid = added.guid.unwrap();
    assert_eq!(guid.value.len(), 36);
    assert!(!guid.permalink);
    assert!(chrono::DateTime::parse_from_rfc2822(&added.pub_date.unwrap()).is_ok());
    assert_eq!(state.channel.items[0].guid.as_ref().unwrap().value, guid.value);
    assert!(state.channel.last_build_date.is_some());
    assert_eq!(fs.write_count(), 1);
    assert!(fs.last_document().contains("<title>World</title>"));
}

#[test]
fn test_add_drops_blank_description_and_link() {
    let mut state = empty_state();
    let fs = RecordingFs::new();
    let mut storage = Storage::new(fs.clone());

    let added =
        add(&mut state, &mut storage, "T".to_string(), Some("  ".to_string()), Some("".to_string()))
            .unwrap();

    assert_eq!(added.description, None);
    assert_eq!(added.link, None);
}

#[test]
fn test_add_refuses_blank_title() {
    let mut state = empty_state();
    let fs = RecordingFs::new();
    let mut storage = Storage::new(fs.clone());
    add_item(&mut state, item("a", "A"), &mut storage).unwrap();
    let stamp = state.channel.last_build_date.clone();

    for title in ["", " ", "\t\n", "\u{3000}\u{a0}"] {
        let r = add(&mut state, &mut storage, title.to_string(), None, None);
        assert!(matches!(r, Err(FeedError::Validation)));
    }

    assert_eq!(titles(&list(&state)), vec!["A".to_string()]);
    assert_eq!(state.channel.last_build_date, stamp);
    assert_eq!(fs.write_count(), 1);
}

#[test]
fn test_edit_refuses_blank_title() {
    let mut state = empty_state();
    let fs = RecordingFs::new();
    let mut storage = Storage::new(fs.clone());
    add_item(&mut state, item("a", "A"), &mut storage).unwrap();

    let r = edit(&mut state, &mut storage, "a", "   ".to_string(), None, None);

    assert!(matches!(r, Err(FeedError::Validation)));
    assert_eq!(titles(&list(&state)), vec!["A".to_string()]);
    assert_eq!(state.channel.items[0].guid.as_ref().unwrap().value, "a");
    assert_eq!(fs.write_count(), 1);
}

#[test]
fn test_add_item_puts_item_at_index_zero() {
    let mut state = empty_state();
    let fs = RecordingFs::new();
    let mut storage = Storage::new(fs.clone());

    add_item(&mut state, item("a", "A"), &mut storage).unwrap();
    add_item(&mut state, item("b", "B"), &mut storage).unwrap();
    add_item(&mut state, item("c", "C"), &mut storage).unwrap();

    assert_eq!(titles(&state.channel.items), vec!["C", "B", "A"]);
    assert_eq!(fs.write_count(), 3);
}

#[test]
fn test_delete_removes_the_item() {
    let mut state = empty_state();
    let fs = RecordingFs::new();
    let mut storage = Storage::new(fs.clone());
    add_item(&mut state, item("a", "A"), &mut storage).unwrap();
    add_item(&mut state, item("b", "B"), &mut storage).unwrap();
    add_item(&mut state, item("c", "C"), &mut storage).unwrap();

    let found = delete_item(&mut state, "b", &mut storage).unwrap();

    let guid = found.unwrap();
    assert_eq!(guid.value, "b");
    assert!(!guid.permalink);
    assert_eq!(titles(&list(&state)), vec!["C", "A"]);
    assert!(list(&state).iter().all(|i| i.guid.as_ref().unwrap().value != "b"));
    assert_eq!(fs.write_count(), 4);
    assert!(!fs.last_document().contains("<title>B</title>"));
}

#[test]
fn test_delete_unknown_id_changes_nothing() {
    let mut state = empty_state();
    let fs = RecordingFs::new();
    let mut storage = Storage::new(fs.clone());
    add_item(&mut state, item("a", "A"), &mut storage).unwrap();
    let stamp = state.channel.last_build_date.clone();

    let found = delete_item(&mut state, "zzz", &mut storage).unwrap();

    assert!(found.is_none());
    assert_eq!(titles(&list(&state)), vec!["A"]);
    assert_eq!(state.channel.last_build_date, stamp);
    assert_eq!(fs.write_count(), 1);
}

#[test]
fn test_delete_removes_every_item_with_the_id() {
    let mut state = empty_state();
    let fs = RecordingFs::new();
    let mut storage = Storage::new(fs.clone());
    add_item(&mut state, item("a", "A1"), &mut storage).unwrap();
    add_item(&mut state, item("b", "B"), &mut storage).unwrap();
    add_item(&mut state, item("a", "A2"), &mut storage).unwrap();

    let found = delete_item(&mut state, "a", &mut storage).unwrap();

    assert_eq!(found.unwrap().value, "a");
    assert_eq!(titles(&list(&state)), vec!["B"]);
}

#[test]
fn test_edit_replaces_in_place() {
    let mut state = empty_state();
    let fs = RecordingFs::new();
    let mut storage = Storage::new(fs.clone());
    add_item(&mut state, item("a", "A"), &mut storage).unwrap();
    add_item(&mut state, item("b", "B"), &mut storage).unwrap();
    add_item(&mut state, item("c", "C"), &mut storage).unwrap();

    let updated = edit(
        &mut state,
        &mut storage,
        "b",
        "B2".to_string(),
        Some("new".to_string()),
        Some(" ".to_string()),
    )
    .unwrap()
    .unwrap();

    assert_eq!(titles(&list(&state)), vec!["C", "B2", "A"]);
    assert_eq!(updated.title, Some("B2".to_string()));
    assert_eq!(updated.description, Some("new".to_string()));
    assert_eq!(updated.link, None);
    let new_id = updated.guid.unwrap().value;
    assert_ne!(new_id, "b");
    assert_eq!(new_id.len(), 36);
    assert_eq!(state.channel.items[1].guid.as_ref().unwrap().value, new_id);
    assert_eq!(state.channel.items[1].pub_date, updated.pub_date);
    assert_ne!(updated.pub_date, Some("Tue, 1 Jul 2003 10:52:37 +0200".to_string()));
    assert_eq!(state.channel.items[0].guid.as_ref().unwrap().value, "c");
    assert_eq!(state.channel.items[2].guid.as_ref().unwrap().value, "a");
    assert_eq!(fs.write_count(), 4);
}

#[test]
fn test_edit_unknown_id_changes_nothing() {
    let mut state = empty_state();
    let fs = RecordingFs::new();
    let mut storage = Storage::new(fs.clone());
    add_item(&mut state, item("a", "A"), &mut storage).unwrap();
    let stamp = state.channel.last_build_date.clone();

    let updated = edit(&mut state, &mut storage, "nope", "X".to_string(), None, None).unwrap();

    assert!(updated.is_none());
    assert_eq!(titles(&list(&state)), vec!["A"]);
    assert_eq!(state.channel.items[0].guid.as_ref().unwrap().value, "a");
    assert_eq!(state.channel.last_build_date, stamp);
    assert_eq!(fs.write_count(), 1);
}

#[test]
fn test_edit_item_mints_one_item_for_each_match() {
    let mut state = empty_state();
    let fs = RecordingFs::new();
    let mut storage = Storage::new(fs.clone());
    add_item(&mut state, item("a", "A1"), &mut storage).unwrap();
    add_item(&mut state, item("a", "A2"), &mut storage).unwrap();

    let last = edit_item(&mut state, "a", "N".to_string(), None, None, &mut storage)
        .unwrap()
        .unwrap();

    assert_eq!(titles(&list(&state)), vec!["N", "N"]);
    let first_id = state.channel.items[0].guid.as_ref().unwrap().value.clone();
    let second_id = state.channel.items[1].guid.as_ref().unwrap().value.clone();
    assert_ne!(first_id, second_id);
    assert_eq!(last.guid.unwrap().value, second_id);
}

#[test]
fn test_failed_write_is_an_io_error_and_the_change_stays() {
    let mut state = empty_state();
    let fs = RecordingFs::failing();
    let mut storage = Storage::new(fs.clone());

    let r = add(&mut state, &mut storage, "Hello".to_string(), None, None);

    assert!(matches!(r, Err(FeedError::Io(_))));
    assert_eq!(titles(&list(&state)), vec!["Hello"]);
    assert_eq!(fs.write_count(), 1);
}

#[test]
fn test_items_without_identifier_match_no_id() {
    let mut state = empty_state();
    let fs = RecordingFs::new();
    let mut storage = Storage::new(fs.clone());
    let bare = Item {
        title: Some("bare".to_string()),
        link: None,
        description: None,
        guid: None,
        pub_date: None,
    };
    add_item(&mut state, bare, &mut storage).unwrap();

    assert!(delete_item(&mut state, "", &mut storage).unwrap().is_none());
    assert_eq!(titles(&list(&state)), vec!["bare"]);
}

#[test]
fn test_edit_item_refuses_blank_title() {
    let mut state = empty_state();
    let fs = RecordingFs::new();
    let mut storage = Storage::new(fs.clone());
    add_item(&mut state, item("a", "A"), &mut storage).unwrap();
    let stamp = state.channel.last_build_date.clone();

    for title in ["", "  ", "\n\t "] {
        let r = edit_item(&mut state, "a", title.to_string(), None, None, &mut storage);
        assert!(matches!(r, Err(FeedError::Validation)));
    }

    assert_eq!(titles(&list(&state)), vec!["A".to_string()]);
    assert_eq!(state.channel.items[0].guid.as_ref().unwrap().value, "a");
    assert_eq!(state.channel.last_build_date, stamp);
    assert_eq!(fs.write_count(), 1);
}

#[test]
fn test_edit_gives_a_new_identifier_and_the_time_of_the_edit() {
    let mut state = empty_state();
    let fs = RecordingFs::new();
    let mut storage = Storage::new(fs.clone());
    add_item(&mut state, item("a", "A"), &mut storage).unwrap();
    add_item(&mut state, item("b", "B"), &mut storage).unwrap();

    let before = chrono::Utc::now().timestamp();
    let updated = edit(&mut state, &mut storage, "a", "A2".to_string(), None, None)
        .unwrap()
        .unwrap();
    let after = chrono::Utc::now().timestamp();

    let new_id = updated.guid.unwrap().value;
    assert_ne!(new_id, "a");
    assert_ne!(new_id, "b");
    assert!(list(&state).iter().all(|i| i.guid.as_ref().unwrap().value != "a"));
    let date = updated.pub_date.unwrap();
    let at = chrono::DateTime::parse_from_rfc2822(&date).unwrap().timestamp();
    assert!(before <= at && at <= after);
    assert_eq!(state.channel.last_build_date, Some(date));
}

#[test]
fn test_add_stamps_item_and_feed_with_one_reading() {
    let mut state = empty_state();
    let fs = RecordingFs::new();
    let mut storage = Storage::new(fs.clone());
    add_item(&mut state, item("a", "A"), &mut storage).unwrap();

    let added = add(&mut state, &mut storage, "B".to_string(), None, None).unwrap();

    let new_id = added.guid.unwrap().value;
    assert_ne!(new_id, "a");
    assert_eq!(new_id.len(), 36);
    assert_eq!(state.channel.last_build_date, added.pub_date);
}

#[test]
fn test_every_change_moves_the_build_date_to_now() {
    let mut state = empty_state();
    state.channel.last_build_date = Some("Tue, 1 Jul 2003 10:52:37 +0200".to_string());
    let fs = RecordingFs::new();
    let mut storage = Storage::new(fs.clone());
    let built_at = |state: &AppState| {
        let stamp = state.channel.last_build_date.clone().unwrap();
        chrono::DateTime::parse_from_rfc2822(&stamp).unwrap().timestamp()
    };

    let start = chrono::Utc::now().timestamp();
    add_item(&mut state, item("a", "A"), &mut storage).unwrap();
    assert!(built_at(&state) >= start);

    state.channel.last_build_date = Some("Tue, 1 Jul 2003 10:52:37 +0200".to_string());
    delete_item(&mut state, "a", &mut storage).unwrap();
    assert!(built_at(&state) >= start);
}
