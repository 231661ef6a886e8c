use feed_crafter::api::{
    api_add_item, api_delete_item, api_edit_item, api_get_items, ApiNewItem,
};
use feed_crafter::common::{add_item, build_item, AppState, FileSystem};
use feed_crafter::model::{Channel, Item};
use feed_crafter::storage::{FeedError, Storage};
use std::cell::RefCell;
use std::rc::Rc;

#[derive(Clone)]
struct RecordingFs {
    writes: Rc<RefCell<Vec<(String, String)>>>,
    fail_writes: bool,
}

impl RecordingFs {
    fn new() -> Self {
        Self { writes: Rc::new(RefCell::new(Vec::new())), fail_writes: false }
    }

    fn write_count(&self) -> usize {
        self.writes.borrow().len()
    }
}

impl FileSystem for RecordingFs {
    fn file_exists(&self, _path: &str) -> bool {
        false
    }

    fn open(&self, _path: &str) -> Result<Vec<u8>, std::io::Error> {
        Err(std::io::Error::new(std::io::ErrorKind::NotFound, "File not found"))
    }

    fn write(&self, path: &str, contents: &str) -> Result<(), std::io::Error> {
        self.writes.borrow_mut().push((path.to_string(), contents.to_string()));
        if self.fail_writes {
            Err(std::io::Error::new(std::io::ErrorKind::Other, "disk full"))
        } else {
            Ok(())
        }
    }
}

fn empty_state() -> AppState {
    AppState::new(Channel {
        title: "Feed".to_string(),
        link: "https://example.com".to_string(),
        description: "A feed".to_string(),
        last_build_date: None,
        items: Vec::new(),
    })
}

fn payload(title: &str, description: Option<&str>, link: Option<&str>) -> ApiNewItem {
    ApiNewItem {
        title: title.to_string(),
        description: description.map(|s| s.to_string()),
        link: link.map(|s| s.to_string()),
    }
}

#[test]
fn test_api_get_items_lists_in_order_with_defaults() {
    let mut state = empty_state();
    state.channel.items = vec![
        build_item(
            "One".to_string(),
            Some("d".to_string()),
            Some("l".to_string()),
            "id-1".to_string(),
            "date".to_string(),
        ),
        Item { title: None, link: None, description: None, guid: None, pub_date: None },
    ];

    let response = api_get_items(&state);

    assert!(response.success);
    assert_eq!(response.message, "Items retrieved successfully");
    let items = response.data.unwrap();
    assert_eq!(items.len(), 2);
    assert_eq!(items[0].id, "id-1");
    assert_eq!(items[0].title, "One");
    assert_eq!(items[0].description, Some("d".to_string()));
    assert_eq!(items[0].link, Some("l".to_string()));
    assert_eq!(items[0].pub_date, Some("date".to_string()));
    assert_eq!(items[1].id, "");
    assert_eq!(items[1].title, "Untitled");
    assert_eq!(items[1].description, None);
    assert_eq!(items[1].link, None);
    assert_eq!(items[1].pub_date, None);
}

#[test]
fn test_api_add_item_answers_with_the_new_item() {
    let mut state = empty_state();
    let fs = RecordingFs::new();
    let mut storage = Storage::new(fs.clone());

    let response =
        api_add_item(&mut state, &mut storage, payload("Hello", Some(" "), Some("http://x")))
            .unwrap();

    assert!(response.success);
    assert_eq!(response.message, "Item added successfully");
    let data = response.data.unwrap();
    assert_eq!(data.title, "Hello");
    assert_eq!(data.description, Some(" ".to_string()));
    assert_eq!(data.link, Some("http://x".to_string()));
    let stored = &state.channel.items[0];
    assert_eq!(data.id, stored.guid.as_ref().unwrap().value);
    assert_eq!(data.pub_date, stored.pub_date);
    assert_eq!(stored.description, None);
    assert_eq!(fs.write_count(), 1);
}

#[test]
fn test_api_add_item_requires_a_title() {
    let mut state = empty_state();
    let fs = RecordingFs::new();
    let mut storage = Storage::new(fs.clone());

    let response = api_add_item(&mut state, &mut storage, payload(" \t", None, None)).unwrap();

    assert!(!response.success);
    assert!(response.data.is_none());
    assert_eq!(response.message, "Title is required");
    assert!(state.channel.items.is_empty());
    assert_eq!(fs.write_count(), 0);
}

#[test]
fn test_api_delete_item_says_whether_it_was_there() {
    let mut state = empty_state();
    let fs = RecordingFs::new();
    let mut storage = Storage::new(fs.clone());
    let item = build_item("A".to_string(), None, None, "a".to_string(), "d".to_string());
    add_item(&mut state, item, &mut storage).unwrap();

    let missing = api_delete_item(&mut state, &mut storage, "b").unwrap();
    assert!(!missing.success);
    assert!(missing.data.is_none());
    assert_eq!(missing.message, "Item not found");
    assert_eq!(state.channel.items.len(), 1);

    let found = api_delete_item(&mut state, &mut storage, "a").unwrap();
    assert!(found.success);
    assert_eq!(found.data, Some(()));
    assert_eq!(found.message, "Item deleted successfully");
    assert!(state.channel.items.is_empty());
    assert_eq!(fs.write_count(), 2);
}

#[test]
fn test_api_edit_item_answers() {
    let mut state = empty_state();
    let fs = RecordingFs::new();
    let mut storage = Storage::new(fs.clone());
    let item = build_item("A".to_string(), None, None, "a".to_string(), "d".to_string());
    add_item(&mut state, item, &mut storage).unwrap();

    let blank = api_edit_item(&mut state, &mut storage, "a", payload("", None, None)).unwrap();
    assert!(!blank.success);
    assert_eq!(blank.message, "Title is required");

    let missing = api_edit_item(&mut state, &mut storage, "b", payload("B", None, None)).unwrap();
    assert!(!missing.success);
    assert!(missing.data.is_none());
    assert_eq!(missing.message, "Item not found");
    assert_eq!(state.channel.items[0].title, Some("A".to_string()));
    assert_eq!(fs.write_count(), 1);

    let updated =
        api_edit_item(&mut state, &mut storage, "a", payload("A2", Some("d2"), Some(""))).unwrap();
    assert!(updated.success);
    assert_eq!(updated.message, "Item updated successfully");
    let data = updated.data.unwrap();
    assert_eq!(data.title, "A2");
    assert_eq!(data.description, Some("d2".to_string()));
    assert_eq!(data.link, Some("".to_string()));
    assert_eq!(data.id, state.channel.items[0].guid.as_ref().unwrap().value);
    assert_ne!(data.id, "a");
    assert_eq!(state.channel.items[0].title, Some("A2".to_string()));
    assert_eq!(state.channel.items[0].link, None);
    assert_eq!(fs.write_count(), 2);
}

#[test]
fn test_api_reports_a_failed_write() {
    let mut state = empty_state();
    let mut fs = RecordingFs::new();
    fs.fail_writes = true;
    let mut storage = Storage::new(fs.clone());

    let r = api_add_item(&mut state, &mut storage, payload("Hello", None, None));

    assert!(matches!(r, Err(FeedError::Io(_))));
}
