//! The requests that a caller makes of the feed: add, edit and list.

use vstd::prelude::*;
use crate::common::{
    build_item, edit_item, failure, snapshot, write_channel, AppState, FileSystem,
};
use crate::feed::contains_id;
use crate::model::{clone_items, item_view, item_views, text_view, Item};
use crate::storage::{FeedError, Storage};
use crate::text::{is_blank, keep_unless_blank};

verus! {

/// Adds an item minted from the given values at the front of the feed and
/// returns it. A blank title is refused before anything is touched; a blank
/// description or link counts as none. The identifier is one that no item
/// of the feed carries.
pub fn add<F: FileSystem>(
    state: &mut AppState,
    storage: &mut Storage<F>,
    title: String,
    description: Option<String>,
    link: Option<String>,
) -> (r: Result<Item, FeedError>)
    ensures
        snapshot(*final(state), *final(storage)).new_outcome(
            snapshot(*old(state), *old(storage)),
            title@,
            text_view(description),
            text_view(link),
            failure(r),
        ),
        r matches Ok(item) ==> item@ == final(state).channel@.items[0],
{
    if is_blank(title.as_str()) {
        return Err(FeedError::Validation);
    }
    let now = state.clock.read();
    let id = match state.ids.draw_unused(&state.channel.items) {
        Ok(id) => id,
        Err(e) => { return Err(e); },
    };
    let item = build_item(
        title,
        keep_unless_blank(description),
        keep_unless_blank(link),
        id,
        now.rfc2822.clone(),
    );
    let added = item.clone();
    state.channel.add(item, now.rfc2822);
    match write_channel(&state.channel, None, storage) {
        Ok(()) => Ok(added),
        Err(e) => Err(e),
    }
}

/// Replaces the item that carries `id` by one minted from the given values
/// and returns the new item, or nothing where no item carries `id`. A blank
/// title is refused before anything is touched.
pub fn edit<F: FileSystem>(
    state: &mut AppState,
    storage: &mut Storage<F>,
    id: &str,
    title: String,
    description: Option<String>,
    link: Option<String>,
) -> (r: Result<Option<Item>, FeedError>)
    ensures
        snapshot(*final(state), *final(storage)).edit_outcome(
            snapshot(*old(state), *old(storage)),
            id@,
            title@,
            text_view(description),
            text_view(link),
            failure(r),
        ),
        r matches Ok(minted) ==> {
            &&& minted is Some <==> contains_id(old(state).channel@.items, id@)
            &&& item_view(minted) == snapshot(*final(state), *final(storage)).last_replaced(
                snapshot(*old(state), *old(storage)),
                id@,
            )
        },
{
    edit_item(state, id, title, description, link, storage)
}

/// A copy of the items as they stand, in order.
pub fn list(state: &AppState) -> (items: Vec<Item>)
    ensures
        item_views(items@) == state.channel@.items,
{
    clone_items(&state.channel.items)
}

} // verus!
