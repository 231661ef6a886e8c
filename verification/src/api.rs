//! The JSON interface: what each request does to the feed and what it
//! answers.

use vstd::prelude::*;
use crate::common::{delete_item, failure, snapshot, AppState, FileSystem};
use crate::feed::contains_id;
use crate::model::{clone_text, text_view, Item, ItemView};
use crate::mutation::edit;
use crate::storage::{FeedError, Storage};
use crate::text::{blank, is_blank};

verus! {

/// The body of a request that adds or edits an item.
#[derive(Debug)]
pub struct ApiNewItem {
    pub title: String,
    pub description: Option<String>,
    pub link: Option<String>,
}

/// The envelope of every answer.
#[derive(Debug)]
pub struct ApiResponse<T> {
    pub success: bool,
    pub data: Option<T>,
    pub message: String,
}

/// An item as the interface shows it.
#[derive(Debug)]
pub struct ApiItem {
    pub id: String,
    pub title: String,
    pub description: Option<String>,
    pub link: Option<String>,
    pub pub_date: Option<String>,
}

/// What an `ApiItem` is in contracts.
pub struct ApiItemView {
    pub id: Seq<char>,
    pub title: Seq<char>,
    pub description: Option<Seq<char>>,
    pub link: Option<Seq<char>>,
    pub pub_date: Option<Seq<char>>,
}

impl View for ApiItem {
    type V = ApiItemView;

    open spec fn view(&self) -> ApiItemView {
        ApiItemView {
            id: self.id@,
            title: self.title@,
            description: text_view(self.description),
            link: text_view(self.link),
            pub_date: text_view(self.pub_date),
        }
    }
}

/// The identifier an item is shown with: its own, or the empty text.
pub open spec fn shown_id(item: ItemView) -> Seq<char> {
    match item.guid {
        Some(guid) => guid.value,
        None => Seq::empty(),
    }
}

/// An item of the feed as the interface lists it.
pub open spec fn listed(item: ItemView) -> ApiItemView {
    ApiItemView {
        id: shown_id(item),
        title: match item.title {
            Some(title) => title,
            None => "Untitled"@,
        },
        description: item.description,
        link: item.link,
        pub_date: item.pub_date,
    }
}

/// The answer to a request that put `item` in the feed: the item's
/// identifier and date, and the title, description and link as the request
/// gave them.
pub open spec fn answered(item: ItemView, payload: ApiNewItem) -> ApiItemView {
    ApiItemView {
        id: shown_id(item),
        title: payload.title@,
        description: text_view(payload.description),
        link: text_view(payload.link),
        pub_date: item.pub_date,
    }
}

impl<T> ApiResponse<T> {
    /// Whether this is the success answer with this message and some data.
    pub open spec fn succeeded_with(&self, message: Seq<char>) -> bool {
        self.success && self.data is Some && self.message@ == message
    }

    /// Whether this is the failure answer with this message and no data.
    pub open spec fn failed_with(&self, message: Seq<char>) -> bool {
        !self.success && self.data is None && self.message@ == message
    }

    /// The success answer.
    pub fn succeeded(data: T, message: &str) -> (r: Self)
        ensures
            r.succeeded_with(message@),
            r.data == Some(data),
    {
        ApiResponse { success: true, data: Some(data), message: message.to_owned() }
    }

    /// The failure answer.
    pub fn failed(message: &str) -> (r: Self)
        ensures
            r.failed_with(message@),
    {
        ApiResponse { success: false, data: None, message: message.to_owned() }
    }
}

/// Whether a request was answered with the failure that carries `message`.
pub open spec fn refused<T>(r: Result<ApiResponse<T>, FeedError>, message: Seq<char>) -> bool {
    r matches Ok(response) && response.failed_with(message)
}

fn id_to_show(item: &Item) -> (id: String)
    ensures
        id@ == shown_id(item@),
{
    match &item.guid {
        Some(guid) => guid.value.clone(),
        None => String::new(),
    }
}

/// Lists the items of the feed, in order.
pub fn api_get_items(state: &AppState) -> (r: ApiResponse<Vec<ApiItem>>)
    ensures
        r.succeeded_with("Items retrieved successfully"@),
        r.data matches Some(items) && items@.len() == state.channel@.items.len() && forall|i: int|
            0 <= i < items@.len() ==> (#[trigger] items@[i])@ == listed(state.channel@.items[i]),
{
    let mut items: Vec<ApiItem> = Vec::new();
    let mut i: usize = 0;
    while i < state.channel.items.len()
        invariant
            i <= state.channel.items.len(),
            items.len() == i,
            forall|k: int|
                0 <= k < i ==> (#[trigger] items@[k])@ == listed(state.channel.items@[k]@),
        decreases state.channel.items.len() - i,
    {
        let item = &state.channel.items[i];
        let title = match &item.title {
            Some(title) => title.clone(),
            None => "Untitled".to_owned(),
        };
        items.push(
            ApiItem {
                id: id_to_show(item),
                title,
                description: clone_text(&item.description),
                link: clone_text(&item.link),
                pub_date: clone_text(&item.pub_date),
            },
        );
        i += 1;
    }
    ApiResponse::succeeded(items, "Items retrieved successfully")
}

/// Adds an item to the feed. A blank title is answered with a failure and
/// nothing is touched.
pub fn api_add_item<F: FileSystem>(
    state: &mut AppState,
    storage: &mut Storage<F>,
    payload: ApiNewItem,
) -> (r: Result<ApiResponse<ApiItem>, FeedError>)
    ensures
        blank(payload.title@) ==> {
            &&& refused(r, "Title is required"@)
            &&& snapshot(*final(state), *final(storage)) == snapshot(*old(state), *old(storage))
        },
        !blank(payload.title@) ==> {
            &&& snapshot(*final(state), *final(storage)).new_outcome(
                snapshot(*old(state), *old(storage)),
                payload.title@,
                text_view(payload.description),
                text_view(payload.link),
                failure(r),
            )
            &&& r matches Ok(response) ==> response.succeeded_with("Item added successfully"@)
                && response.data->0@ == answered(final(state).channel@.items[0], payload)
        },
{
    if is_blank(payload.title.as_str()) {
        return Ok(ApiResponse::failed("Title is required"));
    }
    let added = crate::mutation::add(
        state,
        storage,
        payload.title.clone(),
        clone_text(&payload.description),
        clone_text(&payload.link),
    );
    match added {
        Ok(item) => {
            let api_item = ApiItem {
                id: id_to_show(&item),
                title: payload.title,
                description: payload.description,
                link: payload.link,
                pub_date: item.pub_date,
            };
            Ok(ApiResponse::succeeded(api_item, "Item added successfully"))
        },
        Err(e) => Err(e),
    }
}

/// Deletes the items that carry `id`, and says whether there was one.
pub fn api_delete_item<F: FileSystem>(
    state: &mut AppState,
    storage: &mut Storage<F>,
    id: &str,
) -> (r: Result<ApiResponse<()>, FeedError>)
    ensures
        snapshot(*final(state), *final(storage)).delete_outcome(
            snapshot(*old(state), *old(storage)),
            id@,
            failure(r),
        ),
        r matches Ok(response) ==> if contains_id(old(state).channel@.items, id@) {
            response.succeeded_with("Item deleted successfully"@)
        } else {
            response.failed_with("Item not found"@)
        },
{
    match delete_item(state, id, storage) {
        Ok(Some(_)) => Ok(ApiResponse::succeeded((), "Item deleted successfully")),
        Ok(None) => Ok(ApiResponse::failed("Item not found")),
        Err(e) => Err(e),
    }
}

/// Replaces the item that carries `id`. A blank title is answered with a
/// failure, as is an unknown `id`, and nothing is touched in either case.
pub fn api_edit_item<F: FileSystem>(
    state: &mut AppState,
    storage: &mut Storage<F>,
    id: &str,
    payload: ApiNewItem,
) -> (r: Result<ApiResponse<ApiItem>, FeedError>)
    ensures
        blank(payload.title@) ==> {
            &&& refused(r, "Title is required"@)
            &&& snapshot(*final(state), *final(storage)) == snapshot(*old(state), *old(storage))
        },
        !blank(payload.title@) ==> {
            &&& snapshot(*final(state), *final(storage)).edit_outcome(
                snapshot(*old(state), *old(storage)),
                id@,
                payload.title@,
                text_view(payload.description),
                text_view(payload.link),
                failure(r),
            )
            &&& r matches Ok(response) ==> match snapshot(
                *final(state),
                *final(storage),
            ).last_replaced(snapshot(*old(state), *old(storage)), id@) {
                Some(item) => response.succeeded_with("Item updated successfully"@)
                    && response.data->0@ == answered(item, payload),
                None => response.failed_with("Item not found"@),
            }
        },
{
    if is_blank(payload.title.as_str()) {
        return Ok(ApiResponse::failed("Title is required"));
    }
    let updated = edit(
        state,
        storage,
        id,
        payload.title.clone(),
        clone_text(&payload.description),
        clone_text(&payload.link),
    );
    match updated {
        Ok(Some(item)) => {
            let api_item = ApiItem {
                id: id_to_show(&item),
                title: payload.title,
                description: payload.description,
                link: payload.link,
                pub_date: item.pub_date,
            };
            Ok(ApiResponse::succeeded(api_item, "Item updated successfully"))
        },
        Ok(None) => Ok(ApiResponse::failed("Item not found")),
        Err(e) => Err(e),
    }
}

} // verus!
