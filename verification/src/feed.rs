//! The operations that change a channel's items: insert at the front, delete
//! by identifier, and prune by age.

use vstd::prelude::*;
use crate::clock::{expired, is_expired, parse_rfc2822, rfc2822_instant, Instant};
use crate::model::{guid_view, item_views, Channel, ChannelView, Guid, GuidView, Item, ItemView};

verus! {

/// Whether some item carries the identifier `id`.
pub open spec fn contains_id(items: Seq<ItemView>, id: Seq<char>) -> bool {
    exists|i: int| 0 <= i < items.len() && #[trigger] items[i].has_id(id)
}

/// The items that `keep` holds of, in their order.
pub open spec fn retained(items: Seq<ItemView>, keep: spec_fn(ItemView) -> bool) -> Seq<ItemView>
    decreases items.len(),
{
    if items.len() == 0 {
        Seq::empty()
    } else {
        let rest = retained(items.drop_last(), keep);
        if keep(items.last()) {
            rest.push(items.last())
        } else {
            rest
        }
    }
}

/// Keeping some of the items never lengthens the run.
pub proof fn lemma_retained_len(items: Seq<ItemView>, keep: spec_fn(ItemView) -> bool)
    ensures
        retained(items, keep).len() <= items.len(),
    decreases items.len(),
{
    if items.len() > 0 {
        lemma_retained_len(items.drop_last(), keep);
    }
}

/// What holds of the items that do not carry the identifier `id`.
pub open spec fn lacks_id(id: Seq<char>) -> spec_fn(ItemView) -> bool {
    |item: ItemView| !item.has_id(id)
}

/// The items that do not carry the identifier `id`, in their order.
pub open spec fn without_id(items: Seq<ItemView>, id: Seq<char>) -> Seq<ItemView> {
    retained(items, lacks_id(id))
}

/// The position of the last item that carries `id`.
pub open spec fn last_position(items: Seq<ItemView>, id: Seq<char>) -> Option<int>
    decreases items.len(),
{
    if items.len() == 0 {
        None
    } else if items.last().has_id(id) {
        Some(items.len() - 1)
    } else {
        last_position(items.drop_last(), id)
    }
}

/// A position is found exactly where some item carries the identifier, and
/// the item there carries it.
pub proof fn lemma_last_position(items: Seq<ItemView>, id: Seq<char>)
    ensures
        last_position(items, id) is Some <==> contains_id(items, id),
        last_position(items, id) matches Some(at) ==> 0 <= at < items.len() && items[at].has_id(id),
    decreases items.len(),
{
    if items.len() > 0 {
        let front = items.drop_last();
        lemma_last_position(front, id);
        if items.last().has_id(id) {
            assert(items[items.len() - 1].has_id(id));
        } else if contains_id(front, id) {
            let i = choose|i: int| 0 <= i < front.len() && #[trigger] front[i].has_id(id);
            assert(items[i].has_id(id));
        } else if contains_id(items, id) {
            let i = choose|i: int| 0 <= i < items.len() && #[trigger] items[i].has_id(id);
            assert(front[i].has_id(id));
        }
    }
}

/// The identifier of the last item that carries `id`, as that item holds it.
pub open spec fn last_guid_with_id(items: Seq<ItemView>, id: Seq<char>) -> Option<GuidView> {
    match last_position(items, id) {
        Some(at) => items[at].guid,
        None => None,
    }
}

/// Whether an item is older than `max_age_seconds` at `now`. An item whose
/// date is missing or unreadable is not.
pub open spec fn stale(item: ItemView, max_age_seconds: u64, now: Instant) -> bool {
    item.pub_date matches Some(text) && expired(rfc2822_instant(text), max_age_seconds, now)
}

/// What holds of the items that are not stale.
pub open spec fn fresh_at(max_age_seconds: u64, now: Instant) -> spec_fn(ItemView) -> bool {
    |item: ItemView| !stale(item, max_age_seconds, now)
}

/// The items that are not stale, in their order.
pub open spec fn without_stale(
    items: Seq<ItemView>,
    max_age_seconds: u64,
    now: Instant,
) -> Seq<ItemView> {
    retained(items, fresh_at(max_age_seconds, now))
}

impl ChannelView {
    /// The same channel with other items, built at `stamp`.
    pub open spec fn rebuilt(self, items: Seq<ItemView>, stamp: Seq<char>) -> ChannelView {
        ChannelView {
            title: self.title,
            link: self.link,
            description: self.description,
            last_build_date: Some(stamp),
            items,
        }
    }

    /// The channel after `item` went in at the front.
    pub open spec fn added(self, item: ItemView, stamp: Seq<char>) -> ChannelView {
        self.rebuilt(seq![item] + self.items, stamp)
    }

    /// The channel after the items that carry `id` went out. Where none
    /// does, the channel is as before.
    pub open spec fn deleted(self, id: Seq<char>, stamp: Seq<char>) -> ChannelView {
        if contains_id(self.items, id) {
            self.rebuilt(without_id(self.items, id), stamp)
        } else {
            self
        }
    }

    /// The channel after a sweep at `now` that drops what is older than
    /// `max_age_seconds`; zero keeps everything.
    pub open spec fn pruned(
        self,
        max_age_seconds: u64,
        now: Instant,
        stamp: Seq<char>,
    ) -> ChannelView {
        let kept = without_stale(self.items, max_age_seconds, now);
        if max_age_seconds == 0 || kept.len() == self.items.len() {
            self
        } else {
            self.rebuilt(kept, stamp)
        }
    }
}

/// Tells whether some item carries the identifier `id`.
pub fn carries_id(items: &Vec<Item>, id: &String) -> (r: bool)
    ensures
        r == contains_id(item_views(items@), id@),
{
    let mut i: usize = 0;
    while i < items.len()
        invariant
            i <= items.len(),
            forall|k: int| 0 <= k < i ==> !(#[trigger] item_views(items@)[k]).has_id(id@),
        decreases items.len() - i,
    {
        if items[i].has_id(id) {
            assert(item_views(items@)[i as int].has_id(id@));
            return true;
        }
        i += 1;
    }
    false
}

/// Tells whether an item is older than `max_age_seconds` at `now`.
pub fn is_stale(item: &Item, max_age_seconds: u64, now: &Instant) -> (r: bool)
    ensures
        r == stale(item@, max_age_seconds, *now),
{
    match &item.pub_date {
        Some(text) => is_expired(parse_rfc2822(text.as_str()), max_age_seconds, now),
        None => false,
    }
}

/// Copies the items that are not stale, in their order.
pub fn retain_fresh(items: &Vec<Item>, max_age_seconds: u64, now: &Instant) -> (kept: Vec<Item>)
    ensures
        item_views(kept@) == without_stale(item_views(items@), max_age_seconds, *now),
{
    let mut kept: Vec<Item> = Vec::new();
    let mut i: usize = 0;
    assert(item_views(items@).take(0) =~= Seq::<ItemView>::empty());
    while i < items.len()
        invariant
            i <= items.len(),
            item_views(kept@) == without_stale(
                item_views(items@).take(i as int),
                max_age_seconds,
                *now,
            ),
        decreases items.len() - i,
    {
        let ghost before = item_views(kept@);
        let ghost seen = item_views(items@).take(i as int + 1);
        assert(seen.drop_last() =~= item_views(items@).take(i as int));
        assert(seen.last() == items@[i as int]@);
        if !is_stale(&items[i], max_age_seconds, now) {
            kept.push(items[i].clone());
            assert(item_views(kept@) =~= before.push(items@[i as int]@));
        }
        i += 1;
    }
    assert(item_views(items@).take(i as int) =~= item_views(items@));
    kept
}

impl Channel {
    /// Replaces the items.
    pub fn set_items(&mut self, items: Vec<Item>)
        ensures
            final(self)@ == (ChannelView { items: item_views(items@), ..old(self)@ }),
    {
        self.items = items;
    }

    /// Records `stamp` as the time the channel last changed.
    pub fn set_last_build_date(&mut self, stamp: String)
        ensures
            final(self)@ == (ChannelView { last_build_date: Some(stamp@), ..old(self)@ }),
    {
        self.last_build_date = Some(stamp);
    }

    /// Puts `item` at the front and records `stamp` as the build date.
    pub fn add(&mut self, item: Item, stamp: String)
        ensures
            final(self)@ == old(self)@.added(item@, stamp@),
    {
        self.items.insert(0, item);
        assert(item_views(self.items@) =~= seq![item@] + item_views(old(self).items@));
        self.set_last_build_date(stamp);
    }

    /// Removes every item that carries `id` and returns the identifier of
    /// the last of them. Where there is none, nothing changes; otherwise
    /// `stamp` becomes the build date.
    pub fn delete(&mut self, id: &str, stamp: String) -> (found: Option<Guid>)
        ensures
            final(self)@ == old(self)@.deleted(id@, stamp@),
            guid_view(found) == last_guid_with_id(old(self)@.items, id@),
            found is Some <==> contains_id(old(self)@.items, id@),
    {
        let wanted = id.to_owned();
        let mut kept: Vec<Item> = Vec::new();
        let mut found: Option<Guid> = None;
        let mut i: usize = 0;
        let ghost all = item_views(self.items@);
        assert(all.take(0) =~= Seq::<ItemView>::empty());
        while i < self.items.len()
            invariant
                i <= self.items.len(),
                wanted@ == id@,
                all == item_views(self.items@),
                item_views(kept@) == without_id(all.take(i as int), id@),
                guid_view(found) == last_guid_with_id(all.take(i as int), id@),
            decreases self.items.len() - i,
        {
            let ghost before = item_views(kept@);
            let ghost seen = all.take(i as int + 1);
            assert(seen.drop_last() =~= all.take(i as int));
            assert(seen.last() == self.items@[i as int]@);
            if self.items[i].has_id(&wanted) {
                found = match &self.items[i].guid {
                    Some(g) => Some(g.clone()),
                    None => None,
                };
            } else {
                kept.push(self.items[i].clone());
                proof {
                    assert(item_views(kept@) =~= before.push(self.items@[i as int]@));
                    lemma_last_position(all.take(i as int), id@);
                }
            }
            i += 1;
        }
        proof {
            assert(all.take(i as int) =~= all);
            lemma_last_position(all, id@);
        }
        if found.is_some() {
            self.set_items(kept);
            self.set_last_build_date(stamp);
        }
        found
    }

    /// Drops the items older than `max_age_seconds` at `now` and returns how
    /// many went. With zero, or where nothing is that old, the channel stays
    /// as it is; otherwise `stamp` becomes its build date.
    pub fn prune(&mut self, max_age_seconds: u64, now: &Instant, stamp: String) -> (removed: usize)
        ensures
            final(self)@ == old(self)@.pruned(max_age_seconds, *now, stamp@),
            removed == old(self)@.items.len() - final(self)@.items.len(),
    {
        if max_age_seconds == 0 {
            return 0;
        }
        let kept = retain_fresh(&self.items, max_age_seconds, now);
        proof {
            lemma_retained_len(item_views(self.items@), fresh_at(max_age_seconds, *now));
        }
        let removed = self.items.len() - kept.len();
        if removed > 0 {
            self.set_items(kept);
            self.set_last_build_date(stamp);
        }
        removed
    }
}

} // verus!
