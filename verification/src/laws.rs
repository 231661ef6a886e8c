//! What holds of the feed's operations, whatever the feed and the request.

use vstd::prelude::*;
use crate::clock::{rfc2822_instant, Instant};
use crate::common::{edited, item_of, Snapshot};
use crate::text::unless_blank;
use crate::feed::{
    contains_id, fresh_at, lacks_id, lemma_retained_len, retained, stale, without_id,
    without_stale,
};
use crate::model::{ChannelView, ItemView};

verus! {

/// Whether no two items carry the same identifier.
pub open spec fn ids_distinct(items: Seq<ItemView>) -> bool {
    forall|i: int, j: int|
        0 <= i < j < items.len() && (#[trigger] items[i]).guid is Some && (
        #[trigger] items[j]).guid is Some ==> items[i].guid->0.value != items[j].guid->0.value
}

/// How many of the items are stale.
pub open spec fn stale_count(items: Seq<ItemView>, max_age_seconds: u64, now: Instant) -> nat
    decreases items.len(),
{
    if items.len() == 0 {
        0
    } else {
        let rest = stale_count(items.drop_last(), max_age_seconds, now);
        if stale(items.last(), max_age_seconds, now) {
            rest + 1
        } else {
            rest
        }
    }
}

/// An added item stands first, and every item that was there follows it in
/// the old order.
pub proof fn law_add_puts_item_first(feed: ChannelView, item: ItemView, stamp: Seq<char>)
    ensures
        feed.added(item, stamp).items.len() == feed.items.len() + 1,
        feed.added(item, stamp).items[0] == item,
        forall|i: int|
            0 <= i < feed.items.len() ==> #[trigger] feed.added(item, stamp).items[i + 1]
                == feed.items[i],
        feed.added(item, stamp).title == feed.title,
        feed.added(item, stamp).link == feed.link,
        feed.added(item, stamp).description == feed.description,
        feed.added(item, stamp).last_build_date == Some(stamp),
{
}

/// Adding an item whose identifier no item carries yet keeps the
/// identifiers distinct.
pub proof fn law_add_keeps_ids_distinct(feed: ChannelView, item: ItemView, stamp: Seq<char>)
    requires
        ids_distinct(feed.items),
        item.guid matches Some(guid) ==> !contains_id(feed.items, guid.value),
    ensures
        ids_distinct(feed.added(item, stamp).items),
{
    let after = feed.added(item, stamp).items;
    assert forall|i: int, j: int|
        0 <= i < j < after.len() && (#[trigger] after[i]).guid is Some && (
        #[trigger] after[j]).guid is Some implies after[i].guid->0.value
        != after[j].guid->0.value by {
        if i == 0 {
            if after[j].guid->0.value == item.guid->0.value {
                assert(feed.items[j - 1].has_id(item.guid->0.value));
            }
        } else {
            assert(after[i] == feed.items[i - 1]);
            assert(after[j] == feed.items[j - 1]);
        }
    }
}

/// What is retained is what was there and is to be kept.
proof fn lemma_retained_holds(
    items: Seq<ItemView>,
    keep: spec_fn(ItemView) -> bool,
    item: ItemView,
)
    ensures
        retained(items, keep).contains(item) <==> items.contains(item) && keep(item),
    decreases items.len(),
{
    if items.len() > 0 {
        let front = items.drop_last();
        let rest = retained(front, keep);
        lemma_retained_holds(front, keep, item);
        if items.contains(item) {
            let i = choose|i: int| 0 <= i < items.len() && items[i] == item;
            if i < front.len() {
                assert(front[i] == item);
            }
        }
        if front.contains(item) {
            let i = choose|i: int| 0 <= i < front.len() && front[i] == item;
            assert(items[i] == item);
        }
        assert(items[items.len() - 1] == items.last());
        if keep(items.last()) {
            let kept = rest.push(items.last());
            assert(kept[rest.len() as int] == items.last());
            if rest.contains(item) {
                let i = choose|i: int| 0 <= i < rest.len() && rest[i] == item;
                assert(kept[i] == item);
            }
            if kept.contains(item) {
                let i = choose|i: int| 0 <= i < kept.len() && kept[i] == item;
                if i < rest.len() {
                    assert(rest[i] == item);
                }
            }
        }
    }
}

/// Retaining some of the items leaves distinct identifiers distinct.
proof fn lemma_retained_keeps_ids_distinct(items: Seq<ItemView>, keep: spec_fn(ItemView) -> bool)
    requires
        ids_distinct(items),
    ensures
        ids_distinct(retained(items, keep)),
    decreases items.len(),
{
    if items.len() > 0 {
        let front = items.drop_last();
        let rest = retained(front, keep);
        assert forall|i: int, j: int|
            0 <= i < j < front.len() && (#[trigger] front[i]).guid is Some && (
            #[trigger] front[j]).guid is Some implies front[i].guid->0.value
            != front[j].guid->0.value by {
            assert(front[i] == items[i] && front[j] == items[j]);
        }
        lemma_retained_keeps_ids_distinct(front, keep);
        if keep(items.last()) {
            let kept = rest.push(items.last());
            assert forall|i: int, j: int|
                0 <= i < j < kept.len() && (#[trigger] kept[i]).guid is Some && (
                #[trigger] kept[j]).guid is Some implies kept[i].guid->0.value
                != kept[j].guid->0.value by {
                if j == rest.len() {
                    lemma_retained_holds(front, keep, rest[i]);
                    assert(rest.contains(rest[i]));
                    let k = choose|k: int| 0 <= k < front.len() && front[k] == rest[i];
                    assert(items[k] == rest[i]);
                    assert(items[items.len() - 1] == kept[j]);
                } else {
                    assert(kept[i] == rest[i] && kept[j] == rest[j]);
                }
            }
        }
    }
}

/// Where nothing is dropped, what is retained is what was there.
proof fn lemma_retained_all(items: Seq<ItemView>, keep: spec_fn(ItemView) -> bool)
    requires
        retained(items, keep).len() == items.len(),
    ensures
        retained(items, keep) == items,
    decreases items.len(),
{
    if items.len() > 0 {
        let front = items.drop_last();
        lemma_retained_len(front, keep);
        lemma_retained_all(front, keep);
        assert(front.push(items.last()) =~= items);
    } else {
        assert(retained(items, keep) =~= items);
    }
}

/// What is left after a delete is what was there and does not carry the
/// identifier.
pub proof fn law_delete_keeps_the_others(items: Seq<ItemView>, id: Seq<char>, item: ItemView)
    ensures
        without_id(items, id).contains(item) <==> items.contains(item) && !item.has_id(id),
{
    lemma_retained_holds(items, lacks_id(id), item);
}

/// After a delete no item carries the identifier, whether or not one did.
pub proof fn law_delete_removes_id(feed: ChannelView, id: Seq<char>, stamp: Seq<char>)
    ensures
        !contains_id(feed.deleted(id, stamp).items, id),
{
    let after = feed.deleted(id, stamp).items;
    if contains_id(after, id) {
        let i = choose|i: int| 0 <= i < after.len() && #[trigger] after[i].has_id(id);
        if contains_id(feed.items, id) {
            law_delete_keeps_the_others(feed.items, id, after[i]);
            assert(after.contains(after[i]));
        }
    }
}

/// A delete of an identifier that no item carries changes nothing.
pub proof fn law_delete_of_unknown_id(feed: ChannelView, id: Seq<char>, stamp: Seq<char>)
    requires
        !contains_id(feed.items, id),
    ensures
        feed.deleted(id, stamp) == feed,
{
}

/// A delete leaves distinct identifiers distinct.
pub proof fn law_delete_keeps_ids_distinct(items: Seq<ItemView>, id: Seq<char>)
    requires
        ids_distinct(items),
    ensures
        ids_distinct(without_id(items, id)),
{
    lemma_retained_keeps_ids_distinct(items, lacks_id(id));
}

/// An edit keeps every item at its place: as many items as before, a newly
/// minted one wherever the identifier was carried, and the old one
/// everywhere else. Each new item holds the values and the date given, and
/// an identifier that no item carried before.
pub proof fn law_edit_is_in_place(
    before: Seq<ItemView>,
    after: Seq<ItemView>,
    id: Seq<char>,
    title: Seq<char>,
    description: Option<Seq<char>>,
    link: Option<Seq<char>>,
    published: Seq<char>,
    drawn_before: Seq<Seq<char>>,
    drawn_after: Seq<Seq<char>>,
)
    requires
        edited(
            before,
            after,
            id,
            title,
            description,
            link,
            published,
            before,
            drawn_before,
            drawn_after,
        ),
    ensures
        after.len() == before.len(),
        forall|i: int|
            0 <= i < before.len() && (#[trigger] before[i]).has_id(id) ==> {
                &&& after[i].title == Some(title)
                &&& after[i].description == description
                &&& after[i].link == link
                &&& after[i].pub_date == Some(published)
                &&& after[i].guid is Some
                &&& !after[i].has_id(id)
                &&& !contains_id(before, after[i].guid->0.value)
            },
        forall|i: int|
            0 <= i < before.len() && !(#[trigger] before[i]).has_id(id) ==> after[i] == before[i],
        !contains_id(after, id),
{
    assert forall|i: int|
        0 <= i < before.len() && (#[trigger] before[i]).has_id(id) implies !after[i].has_id(
        id,
    ) by {
        if after[i].has_id(id) {
            assert(before[i].has_id(after[i].guid->0.value));
        }
    }
    if contains_id(after, id) {
        let i = choose|i: int| 0 <= i < after.len() && #[trigger] after[i].has_id(id);
        assert(before[i].has_id(id) || after[i] == before[i]);
    }
}

/// An edit keeps distinct identifiers distinct.
pub proof fn law_edit_keeps_ids_distinct(
    before: Seq<ItemView>,
    after: Seq<ItemView>,
    id: Seq<char>,
    title: Seq<char>,
    description: Option<Seq<char>>,
    link: Option<Seq<char>>,
    published: Seq<char>,
    drawn_before: Seq<Seq<char>>,
    drawn_after: Seq<Seq<char>>,
)
    requires
        ids_distinct(before),
        edited(
            before,
            after,
            id,
            title,
            description,
            link,
            published,
            before,
            drawn_before,
            drawn_after,
        ),
    ensures
        ids_distinct(after),
{
    assert forall|i: int, j: int|
        0 <= i < j < after.len() && (#[trigger] after[i]).guid is Some && (
        #[trigger] after[j]).guid is Some implies after[i].guid->0.value
        != after[j].guid->0.value by {
        let a = before[i].has_id(id);
        let b = before[j].has_id(id);
        if a && !b {
            if after[i].guid->0.value == after[j].guid->0.value {
                assert(before[j].has_id(after[i].guid->0.value));
            }
        } else if !a && b {
            if after[i].guid->0.value == after[j].guid->0.value {
                assert(before[i].has_id(after[j].guid->0.value));
            }
        }
    }
}

/// Adding a newly minted item keeps distinct identifiers distinct.
pub proof fn law_new_item_keeps_ids_distinct(
    before: Snapshot,
    after: Snapshot,
    title: Seq<char>,
    description: Option<Seq<char>>,
    link: Option<Seq<char>>,
    accepted: bool,
)
    requires
        ids_distinct(before.feed.items),
        after.follows_new(before, title, description, link, accepted),
    ensures
        ids_distinct(after.feed.items),
{
    let published = after.now().rfc2822;
    let item = item_of(
        title,
        unless_blank(description),
        unless_blank(link),
        after.draws.last(),
        published,
    );
    law_add_keeps_ids_distinct(before.feed, item, published);
}

/// A maximum age of zero keeps everything, however old.
pub proof fn law_prune_of_zero(feed: ChannelView, now: Instant, stamp: Seq<char>)
    ensures
        feed.pruned(0, now, stamp) == feed,
{
}

/// An item without a date, or with a date that cannot be read, is never
/// stale.
pub proof fn law_undated_item_is_kept(item: ItemView, max_age_seconds: u64, now: Instant)
    requires
        item.pub_date matches Some(text) ==> rfc2822_instant(text) is None,
    ensures
        !stale(item, max_age_seconds, now),
{
}

/// What is left after a sweep is what was there and is not stale.
pub proof fn law_prune_keeps_the_fresh(
    items: Seq<ItemView>,
    max_age_seconds: u64,
    now: Instant,
    item: ItemView,
)
    ensures
        without_stale(items, max_age_seconds, now).contains(item) <==> items.contains(item)
            && !stale(item, max_age_seconds, now),
{
    lemma_retained_holds(items, fresh_at(max_age_seconds, now), item);
}

/// A sweep leaves distinct identifiers distinct.
pub proof fn law_prune_keeps_ids_distinct(items: Seq<ItemView>, max_age_seconds: u64, now: Instant)
    requires
        ids_distinct(items),
    ensures
        ids_distinct(without_stale(items, max_age_seconds, now)),
{
    lemma_retained_keeps_ids_distinct(items, fresh_at(max_age_seconds, now));
}

/// A sweep drops exactly as many items as are stale.
pub proof fn law_prune_counts_the_stale(items: Seq<ItemView>, max_age_seconds: u64, now: Instant)
    ensures
        without_stale(items, max_age_seconds, now).len() + stale_count(
            items,
            max_age_seconds,
            now,
        ) == items.len(),
    decreases items.len(),
{
    if items.len() > 0 {
        law_prune_counts_the_stale(items.drop_last(), max_age_seconds, now);
    }
}

/// A sweep in which nothing is stale changes nothing; one in which
/// something is leaves the fresh items, rebuilt at the stamp.
pub proof fn law_prune_changes_only_on_removal(
    feed: ChannelView,
    max_age_seconds: u64,
    now: Instant,
    stamp: Seq<char>,
)
    requires
        max_age_seconds > 0,
    ensures
        stale_count(feed.items, max_age_seconds, now) == 0 ==> feed.pruned(
            max_age_seconds,
            now,
            stamp,
        ) == feed,
        stale_count(feed.items, max_age_seconds, now) > 0 ==> feed.pruned(
            max_age_seconds,
            now,
            stamp,
        ) == feed.rebuilt(without_stale(feed.items, max_age_seconds, now), stamp),
        feed.pruned(max_age_seconds, now, stamp).items == without_stale(
            feed.items,
            max_age_seconds,
            now,
        ),
{
    law_prune_counts_the_stale(feed.items, max_age_seconds, now);
    let kept = without_stale(feed.items, max_age_seconds, now);
    if kept.len() == feed.items.len() {
        lemma_retained_all(feed.items, fresh_at(max_age_seconds, now));
    }
}

} // verus!
