//! The HTML interface: what each form does to the feed and where the
//! browser is sent, and the health report.

use vstd::prelude::*;
use vstd::string::StringExecFns;
use crate::common::{delete_item, failure, snapshot, AppState, FileSystem};
use crate::feed::contains_id;
use crate::model::{item_view, text_view, Item, ItemView};
use crate::mutation::edit;
use crate::storage::{FeedError, Storage};
use crate::text::blank;

verus! {

/// The form that adds an item.
#[derive(Debug)]
pub struct NewItemForm {
    pub title: String,
    pub description: Option<String>,
    pub link: Option<String>,
}

/// The form that edits an item.
#[derive(Debug)]
pub struct EditItemForm {
    pub title: String,
    pub description: Option<String>,
    pub link: Option<String>,
}

/// How a form is answered.
#[derive(Clone, Copy, Debug, PartialEq, Eq)]
pub enum WebOutcome {
    /// Back to the list of items.
    Redirect,
    /// The form lacked its title.
    BadRequest,
    /// No item carries the identifier.
    NotFound,
}

/// The first item that carries `id`.
pub open spec fn first_with_id(items: Seq<ItemView>, id: Seq<char>) -> Option<ItemView>
    decreases items.len(),
{
    if items.len() == 0 {
        None
    } else if items.first().has_id(id) {
        Some(items.first())
    } else {
        first_with_id(items.drop_first(), id)
    }
}

/// The item that the edit form is filled from: the first that carries `id`.
pub fn edit_item_form(state: &AppState, id: &str) -> (r: Option<Item>)
    ensures
        item_view(r) == first_with_id(state.channel@.items, id@),
{
    let wanted = id.to_owned();
    let ghost all = state.channel@.items;
    let mut i: usize = 0;
    assert(all.skip(0) =~= all);
    while i < state.channel.items.len()
        invariant
            i <= state.channel.items.len(),
            wanted@ == id@,
            all == state.channel@.items,
            first_with_id(all, id@) == first_with_id(all.skip(i as int), id@),
        decreases state.channel.items.len() - i,
    {
        assert(all.skip(i as int).first() == state.channel.items@[i as int]@);
        assert(all.skip(i as int).drop_first() =~= all.skip(i as int + 1));
        if state.channel.items[i].has_id(&wanted) {
            return Some(state.channel.items[i].clone());
        }
        i += 1;
    }
    None
}

/// Adds the item of the form to the feed. A blank title is a bad request
/// and nothing is touched.
pub fn web_add_item<F: FileSystem>(
    state: &mut AppState,
    storage: &mut Storage<F>,
    form: NewItemForm,
) -> (r: Result<WebOutcome, FeedError>)
    ensures
        blank(form.title@) ==> {
            &&& r == Ok::<WebOutcome, FeedError>(WebOutcome::BadRequest)
            &&& snapshot(*final(state), *final(storage)) == snapshot(*old(state), *old(storage))
        },
        !blank(form.title@) ==> {
            &&& snapshot(*final(state), *final(storage)).new_outcome(
                snapshot(*old(state), *old(storage)),
                form.title@,
                text_view(form.description),
                text_view(form.link),
                failure(r),
            )
            &&& r matches Ok(outcome) ==> outcome == WebOutcome::Redirect
        },
{
    match crate::mutation::add(state, storage, form.title, form.description, form.link) {
        Ok(_) => Ok(WebOutcome::Redirect),
        Err(FeedError::Validation) => Ok(WebOutcome::BadRequest),
        Err(e) => Err(e),
    }
}

/// Deletes the items that carry `id` and sends the browser back to the
/// list, whether or not there was one.
pub fn web_delete_item<F: FileSystem>(
    state: &mut AppState,
    storage: &mut Storage<F>,
    id: &str,
) -> (r: Result<WebOutcome, FeedError>)
    ensures
        snapshot(*final(state), *final(storage)).delete_outcome(
            snapshot(*old(state), *old(storage)),
            id@,
            failure(r),
        ),
        r matches Ok(outcome) ==> outcome == WebOutcome::Redirect,
{
    match delete_item(state, id, storage) {
        Ok(_) => Ok(WebOutcome::Redirect),
        Err(e) => Err(e),
    }
}

/// Replaces the item that carries `id` by the item of the form. A blank
/// title is a bad request and an unknown `id` is not found; nothing is
/// touched in either case.
pub fn web_edit_item<F: FileSystem>(
    state: &mut AppState,
    storage: &mut Storage<F>,
    id: &str,
    form: EditItemForm,
) -> (r: Result<WebOutcome, FeedError>)
    ensures
        blank(form.title@) ==> {
            &&& r == Ok::<WebOutcome, FeedError>(WebOutcome::BadRequest)
            &&& snapshot(*final(state), *final(storage)) == snapshot(*old(state), *old(storage))
        },
        !blank(form.title@) ==> {
            &&& snapshot(*final(state), *final(storage)).edit_outcome(
                snapshot(*old(state), *old(storage)),
                id@,
                form.title@,
                text_view(form.description),
                text_view(form.link),
                failure(r),
            )
            &&& r matches Ok(outcome) ==> outcome == if contains_id(
                old(state).channel@.items,
                id@,
            ) {
                WebOutcome::Redirect
            } else {
                WebOutcome::NotFound
            }
        },
{
    match edit(state, storage, id, form.title, form.description, form.link) {
        Ok(Some(_)) => Ok(WebOutcome::Redirect),
        Ok(None) => Ok(WebOutcome::NotFound),
        Err(FeedError::Validation) => Ok(WebOutcome::BadRequest),
        Err(e) => Err(e),
    }
}

/// What was found of the directory that holds the feed.
#[derive(Debug)]
pub enum DirectoryProbe {
    /// The directory does not exist.
    Missing,
    /// A file could be written in it.
    Writable,
    /// Writing a file in it failed, with this error.
    NotWritable(String),
}

/// The result of one check: "healthy" or "unhealthy", and why.
#[derive(Debug)]
pub struct CheckResult {
    pub status: String,
    pub message: Option<String>,
}

/// What a `CheckResult` is in contracts.
pub struct CheckView {
    pub status: Seq<char>,
    pub message: Option<Seq<char>>,
}

impl View for CheckResult {
    type V = CheckView;

    open spec fn view(&self) -> CheckView {
        CheckView { status: self.status@, message: text_view(self.message) }
    }
}

/// A check under its name.
#[derive(Debug)]
pub struct NamedCheck {
    pub name: String,
    pub result: CheckResult,
}

/// The health report: the overall status, when it was taken, and the checks
/// in the order they were made.
#[derive(Debug)]
pub struct HealthStatus {
    pub status: String,
    pub timestamp: i64,
    pub checks: Vec<NamedCheck>,
}

impl HealthStatus {
    /// Whether the report says that all is well.
    pub open spec fn healthy(&self) -> bool {
        self.status@ == status_word(true)
    }

    /// Tells whether the report says that all is well.
    pub fn is_healthy(&self) -> (r: bool)
        ensures
            r == self.healthy(),
    {
        self.status == status_text(true)
    }
}

/// The status word of a check that passed or failed.
pub open spec fn status_word(healthy: bool) -> Seq<char> {
    if healthy {
        "healthy"@
    } else {
        "unhealthy"@
    }
}

/// The check of the feed file.
pub open spec fn feed_file_check(feed_file_exists: bool) -> CheckView {
    CheckView {
        status: status_word(feed_file_exists),
        message: if feed_file_exists {
            None
        } else {
            Some("feed.xml not found"@)
        },
    }
}

/// The check of the feed directory.
pub open spec fn directory_check(directory: DirectoryProbe) -> CheckView {
    match directory {
        DirectoryProbe::Writable => CheckView { status: status_word(true), message: None },
        DirectoryProbe::NotWritable(error) => CheckView {
            status: status_word(false),
            message: Some("Cannot write to feed directory: "@ + error@),
        },
        DirectoryProbe::Missing => CheckView {
            status: status_word(false),
            message: Some("Feed directory does not exist"@),
        },
    }
}

fn status_text(healthy: bool) -> (r: String)
    ensures
        r@ == status_word(healthy),
{
    if healthy {
        "healthy".to_owned()
    } else {
        "unhealthy".to_owned()
    }
}

/// Puts the health report together from what was found: healthy exactly
/// when the feed file exists and its directory can be written to.
pub fn health_check(
    feed_file_exists: bool,
    directory: DirectoryProbe,
    timestamp: i64,
) -> (r: HealthStatus)
    ensures
        r.healthy() == (feed_file_exists && directory is Writable),
        r.status@ == status_word(feed_file_exists && directory is Writable),
        r.timestamp == timestamp,
        r.checks@.len() == 2,
        r.checks@[0].name@ == "feed_file"@,
        r.checks@[0].result@ == feed_file_check(feed_file_exists),
        r.checks@[1].name@ == "directory_writable"@,
        r.checks@[1].result@ == directory_check(directory),
{
    proof {
        reveal_strlit("healthy");
        reveal_strlit("unhealthy");
        assert(status_word(true).len() == 7 && status_word(false).len() == 9);
    }
    let mut checks: Vec<NamedCheck> = Vec::new();
    let feed_file = CheckResult {
        status: status_text(feed_file_exists),
        message: if feed_file_exists {
            None
        } else {
            Some("feed.xml not found".to_owned())
        },
    };
    checks.push(NamedCheck { name: "feed_file".to_owned(), result: feed_file });
    let writable = match &directory {
        DirectoryProbe::Writable => true,
        _ => false,
    };
    let message = match directory {
        DirectoryProbe::Writable => None,
        DirectoryProbe::NotWritable(error) => Some(
            "Cannot write to feed directory: ".to_owned().concat(error.as_str()),
        ),
        DirectoryProbe::Missing => Some("Feed directory does not exist".to_owned()),
    };
    let directory_writable = CheckResult { status: status_text(writable), message };
    checks.push(NamedCheck { name: "directory_writable".to_owned(), result: directory_writable });
    HealthStatus { status: status_text(feed_file_exists && writable), timestamp, checks }
}

} // verus!
