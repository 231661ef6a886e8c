//! The feed document: a channel and its ordered items.

use vstd::prelude::*;

verus! {

/// The identifier of an item as the feed stores it.
#[derive(Debug)]
pub struct Guid {
    pub value: String,
    pub permalink: bool,
}

/// What a `Guid` is in contracts.
pub struct GuidView {
    pub value: Seq<char>,
    pub permalink: bool,
}

impl View for Guid {
    type V = GuidView;

    open spec fn view(&self) -> GuidView {
        GuidView { value: self.value@, permalink: self.permalink }
    }
}

impl Clone for Guid {
    fn clone(&self) -> (r: Self)
        ensures
            r@ == self@,
    {
        Guid { value: self.value.clone(), permalink: self.permalink }
    }
}

/// The view of an optional string.
pub open spec fn text_view(text: Option<String>) -> Option<Seq<char>> {
    match text {
        Some(s) => Some(s@),
        None => None,
    }
}

/// Copies an optional string.
pub fn clone_text(text: &Option<String>) -> (r: Option<String>)
    ensures
        text_view(r) == text_view(*text),
{
    match text {
        Some(s) => Some(s.clone()),
        None => None,
    }
}

/// One entry of the feed.
#[derive(Debug)]
pub struct Item {
    pub title: Option<String>,
    pub link: Option<String>,
    pub description: Option<String>,
    pub guid: Option<Guid>,
    pub pub_date: Option<String>,
}

/// What an `Item` is in contracts.
pub struct ItemView {
    pub title: Option<Seq<char>>,
    pub link: Option<Seq<char>>,
    pub description: Option<Seq<char>>,
    pub guid: Option<GuidView>,
    pub pub_date: Option<Seq<char>>,
}

/// The view of an optional identifier.
pub open spec fn guid_view(guid: Option<Guid>) -> Option<GuidView> {
    match guid {
        Some(g) => Some(g@),
        None => None,
    }
}

/// The view of an optional item.
pub open spec fn item_view(item: Option<Item>) -> Option<ItemView> {
    match item {
        Some(i) => Some(i@),
        None => None,
    }
}

impl View for Item {
    type V = ItemView;

    open spec fn view(&self) -> ItemView {
        ItemView {
            title: text_view(self.title),
            link: text_view(self.link),
            description: text_view(self.description),
            guid: guid_view(self.guid),
            pub_date: text_view(self.pub_date),
        }
    }
}

impl ItemView {
    /// Whether the item carries the identifier `id`.
    pub open spec fn has_id(self, id: Seq<char>) -> bool {
        self.guid matches Some(g) && g.value == id
    }
}

impl Clone for Item {
    fn clone(&self) -> (r: Self)
        ensures
            r@ == self@,
    {
        let guid = match &self.guid {
            Some(g) => Some(g.clone()),
            None => None,
        };
        Item {
            title: clone_text(&self.title),
            link: clone_text(&self.link),
            description: clone_text(&self.description),
            guid,
            pub_date: clone_text(&self.pub_date),
        }
    }
}

impl Item {
    /// Whether this item carries the identifier `id`.
    pub fn has_id(&self, id: &String) -> (r: bool)
        ensures
            r == self@.has_id(id@),
    {
        match &self.guid {
            Some(g) => g.value == *id,
            None => false,
        }
    }
}

/// The views of a run of items, in order.
pub open spec fn item_views(items: Seq<Item>) -> Seq<ItemView> {
    items.map_values(|item: Item| item@)
}

/// The feed: its metadata and its items, newest first.
#[derive(Debug)]
pub struct Channel {
    pub title: String,
    pub link: String,
    pub description: String,
    pub last_build_date: Option<String>,
    pub items: Vec<Item>,
}

/// What a `Channel` is in contracts.
pub struct ChannelView {
    pub title: Seq<char>,
    pub link: Seq<char>,
    pub description: Seq<char>,
    pub last_build_date: Option<Seq<char>>,
    pub items: Seq<ItemView>,
}

impl View for Channel {
    type V = ChannelView;

    open spec fn view(&self) -> ChannelView {
        ChannelView {
            title: self.title@,
            link: self.link@,
            description: self.description@,
            last_build_date: text_view(self.last_build_date),
            items: item_views(self.items@),
        }
    }
}

impl Channel {
    /// The name of the feed.
    pub fn title(&self) -> (r: &str)
        ensures
            r@ == self@.title,
    {
        self.title.as_str()
    }

    /// The address of the site the feed belongs to.
    pub fn link(&self) -> (r: &str)
        ensures
            r@ == self@.link,
    {
        self.link.as_str()
    }

    /// What the feed is about.
    pub fn description(&self) -> (r: &str)
        ensures
            r@ == self@.description,
    {
        self.description.as_str()
    }

    /// When the feed last changed, as an RFC 2822 date and time.
    pub fn last_build_date(&self) -> (r: Option<&str>)
        ensures
            match r {
                Some(stamp) => self@.last_build_date == Some(stamp@),
                None => self@.last_build_date is None,
            },
    {
        match &self.last_build_date {
            Some(stamp) => Some(stamp.as_str()),
            None => None,
        }
    }

    /// The items, newest first.
    pub fn items(&self) -> (r: &Vec<Item>)
        ensures
            item_views(r@) == self@.items,
    {
        &self.items
    }
}

/// Copies a run of items.
pub fn clone_items(items: &Vec<Item>) -> (r: Vec<Item>)
    ensures
        item_views(r@) == item_views(items@),
{
    let mut out: Vec<Item> = Vec::new();
    let mut i: usize = 0;
    while i < items.len()
        invariant
            i <= items.len(),
            out.len() == i,
            forall|k: int| 0 <= k < i ==> out@[k]@ == items@[k]@,
        decreases items.len() - i,
    {
        out.push(items[i].clone());
        i += 1;
    }
    assert(item_views(out@) =~= item_views(items@));
    out
}

impl Clone for Channel {
    fn clone(&self) -> (r: Self)
        ensures
            r@ == self@,
    {
        Channel {
            title: self.title.clone(),
            link: self.link.clone(),
            description: self.description.clone(),
            last_build_date: clone_text(&self.last_build_date),
            items: clone_items(&self.items),
        }
    }
}

} // verus!
