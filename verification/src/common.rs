//! The feed's operations as callers use them: make or load the feed, mint an
//! item, and add, delete, edit and prune under one owner, each change
//! followed by a write of the whole feed.

use vstd::prelude::*;
use crate::clock::{Clock, Instant, Reading, ReadingView};
use crate::feed::{carries_id, contains_id, last_guid_with_id, last_position, lemma_last_position};
use crate::ident::{drew_past_carried, id_shaped, IdSource, DRAW_LIMIT};
use crate::model::{
    clone_text, guid_view, item_view, item_views, text_view, Channel, ChannelView, Guid,
    GuidView, Item, ItemView,
};
use crate::rss_format::{feed_from_xml, to_xml};
use crate::storage::{
    load_outcome, probe_of, read_contents, read_of, save_of, save_outcome, wrote_feed,
    ConfigField, Exchange, FeedError, Storage, FEED_PATH,
};
use crate::text::{blank, is_blank, keep_unless_blank, parse_seconds, seconds_of, unless_blank};

verus! {

/// The files that the feed lives in. Implementations decide what a path
/// means; the library claims nothing of what they answer.
pub trait FileSystem {
    fn file_exists(&self, path: &str) -> bool;

    fn open(&self, path: &str) -> Result<Vec<u8>, std::io::Error>;

    fn write(&self, path: &str, contents: &str) -> Result<(), std::io::Error>;
}

/// What the running service owns: the feed, the clock its changes are timed
/// by, and the source its identifiers are drawn from.
pub struct AppState {
    pub channel: Channel,
    pub clock: Clock,
    pub ids: IdSource,
}

impl AppState {
    /// The state that holds `channel`, with a clock that has not been read
    /// and a source from which nothing has been drawn.
    pub fn new(channel: Channel) -> (state: AppState)
        ensures
            state.channel == channel,
            state.clock.readings() == Seq::<ReadingView>::empty(),
            state.ids.draws() == Seq::<Seq<char>>::empty(),
    {
        AppState { channel, clock: Clock::new(), ids: IdSource::new() }
    }
}

/// Writes the whole channel to `path`, or to the feed's own path. The write
/// is asked of the file system exactly once; the result is its answer.
pub fn write_channel<F: FileSystem>(
    channel: &Channel,
    path: Option<&str>,
    storage: &mut Storage<F>,
) -> (r: Result<(), FeedError>)
    ensures
        final(storage).history() == old(storage).history().push(save_of(channel@, path, r is Ok)),
        r is Err ==> r matches Err(FeedError::Io(_)),
{
    let document = to_xml(channel);
    let file_path = match path {
        Some(p) => p,
        None => FEED_PATH,
    };
    save_outcome(storage.write(file_path, document.as_str()))
}

/// The item that holds exactly these values; its identifier is no permalink.
pub open spec fn item_of(
    title: Seq<char>,
    description: Option<Seq<char>>,
    link: Option<Seq<char>>,
    id: Seq<char>,
    published: Seq<char>,
) -> ItemView {
    ItemView {
        title: Some(title),
        link,
        description,
        guid: Some(GuidView { value: id, permalink: false }),
        pub_date: Some(published),
    }
}

/// Puts an item together from its values, its identifier and its date.
pub fn build_item(
    title: String,
    description: Option<String>,
    link: Option<String>,
    id: String,
    published: String,
) -> (item: Item)
    ensures
        item@ == item_of(title@, text_view(description), text_view(link), id@, published@),
{
    Item {
        title: Some(title),
        link,
        description,
        guid: Some(Guid { value: id, permalink: false }),
        pub_date: Some(published),
    }
}

/// What minting an item on its own comes to. A blank title is refused
/// before anything is drawn or read. Otherwise one identifier is drawn, the
/// clock is read once, and the item holds the given values, that
/// identifier and that reading's text.
pub open spec fn created(
    title: Seq<char>,
    description: Option<Seq<char>>,
    link: Option<Seq<char>>,
    drawn_before: Seq<Seq<char>>,
    drawn_after: Seq<Seq<char>>,
    read_before: Seq<ReadingView>,
    read_after: Seq<ReadingView>,
    r: Result<Item, FeedError>,
) -> bool {
    if blank(title) {
        &&& r matches Err(FeedError::Validation)
        &&& drawn_after == drawn_before
        &&& read_after == read_before
    } else {
        let id = drawn_after.last();
        let now = read_after.last();
        &&& drawn_after == drawn_before.push(id)
        &&& id_shaped(id)
        &&& read_after == read_before.push(now)
        &&& now.well_read()
        &&& r matches Ok(item) && item@ == item_of(title, description, link, id, now.rfc2822)
    }
}

/// Mints an item on its own: the given values, a random identifier, and the
/// current time as its date. A blank title is refused.
pub fn create_item(
    title: String,
    description: Option<String>,
    link: Option<String>,
    ids: &mut IdSource,
    clock: &mut Clock,
) -> (r: Result<Item, FeedError>)
    ensures
        created(
            title@,
            text_view(description),
            text_view(link),
            old(ids).draws(),
            final(ids).draws(),
            old(clock).readings(),
            final(clock).readings(),
            r,
        ),
{
    if is_blank(title.as_str()) {
        return Err(FeedError::Validation);
    }
    let id = ids.draw();
    let now = clock.read();
    Ok(build_item(title, description, link, id, now.rfc2822))
}

/// The settings a new feed is made from. Each is required.
#[derive(Debug)]
pub struct FeedConfig {
    pub title: Option<String>,
    pub link: Option<String>,
    pub description: Option<String>,
}

impl FeedConfig {
    /// The first required setting that is absent, in the order title, link,
    /// description.
    pub open spec fn missing(&self) -> Option<ConfigField> {
        if self.title is None {
            Some(ConfigField::Title)
        } else if self.link is None {
            Some(ConfigField::Link)
        } else if self.description is None {
            Some(ConfigField::Description)
        } else {
            None
        }
    }

    /// The empty channel that these settings describe, built at `stamp`.
    pub open spec fn channel(&self, stamp: Seq<char>) -> ChannelView
        recommends
            self.missing() is None,
    {
        ChannelView {
            title: self.title->0@,
            link: self.link->0@,
            description: self.description->0@,
            last_build_date: Some(stamp),
            items: Seq::empty(),
        }
    }
}

/// Makes a new, empty channel from the settings, with `stamp` as its build
/// date; fails with the first setting that is absent.
pub fn synthesize(config: &FeedConfig, stamp: String) -> (r: Result<Channel, FeedError>)
    ensures
        match config.missing() {
            Some(field) => r == Err::<Channel, FeedError>(FeedError::Config(field)),
            None => r matches Ok(channel) && channel@ == config.channel(stamp@),
        },
{
    let title = match &config.title {
        Some(t) => t.clone(),
        None => { return Err(FeedError::Config(ConfigField::Title)); },
    };
    let link = match &config.link {
        Some(l) => l.clone(),
        None => { return Err(FeedError::Config(ConfigField::Link)); },
    };
    let description = match &config.description {
        Some(d) => d.clone(),
        None => { return Err(FeedError::Config(ConfigField::Description)); },
    };
    let channel = Channel {
        title,
        link,
        description,
        last_build_date: Some(stamp),
        items: Vec::new(),
    };
    assert(channel@.items =~= Seq::<ItemView>::empty());
    Ok(channel)
}


impl FeedConfig {
    /// Tells whether every required setting is there.
    pub fn is_complete(&self) -> (r: bool)
        ensures
            r == (self.missing() is None),
    {
        self.title.is_some() && self.link.is_some() && self.description.is_some()
    }
}

/// What making a new feed comes to. With a setting absent the clock is not
/// read and the error names the first one that is. Otherwise the clock is
/// read once and the channel is the empty one that the settings describe,
/// built at that reading.
pub open spec fn made(
    config: FeedConfig,
    read_before: Seq<ReadingView>,
    read_after: Seq<ReadingView>,
    r: Result<Channel, FeedError>,
) -> bool {
    match config.missing() {
        Some(field) => {
            &&& r == Err::<Channel, FeedError>(FeedError::Config(field))
            &&& read_after == read_before
        },
        None => {
            let now = read_after.last();
            &&& read_after == read_before.push(now)
            &&& now.well_read()
            &&& r matches Ok(channel) && channel@ == config.channel(now.rfc2822)
        },
    }
}

/// Makes a new, empty channel from the settings, built now; fails with the
/// first setting that is absent.
pub fn create_feed(config: &FeedConfig, clock: &mut Clock) -> (r: Result<Channel, FeedError>)
    ensures
        made(*config, old(clock).readings(), final(clock).readings(), r),
{
    if config.is_complete() {
        let now = clock.read();
        synthesize(config, now.rfc2822)
    } else {
        synthesize(config, String::new())
    }
}

/// What starting up comes to, given what the file system answered. Where it
/// has the feed, the feed is read, and the result is what the read amounts
/// to. Where it has not, a feed is made from the settings and written: with
/// a setting absent nothing is written and the error names the first one
/// that is; otherwise the clock is read once and the new feed, built at
/// that reading, comes back unless the write failed.
pub open spec fn initialized(
    config: FeedConfig,
    before: Seq<Exchange>,
    after: Seq<Exchange>,
    read_before: Seq<ReadingView>,
    read_after: Seq<ReadingView>,
    r: Result<Channel, FeedError>,
) -> bool {
    ||| exists|contents: Option<Seq<u8>>|
        {
            &&& after == before.push(probe_of(true)).push(#[trigger] read_of(contents))
            &&& read_after == read_before
            &&& match contents {
                None => r matches Err(FeedError::Io(_)),
                Some(document) => match feed_from_xml(document) {
                    Some(feed) => r matches Ok(channel) && channel@ == feed,
                    None => r matches Err(FeedError::Parse(_)),
                },
            }
        }
    ||| {
        &&& after == before.push(probe_of(false))
        &&& read_after == read_before
        &&& config.missing() matches Some(field)
        &&& r == Err::<Channel, FeedError>(FeedError::Config(field))
    }
    ||| {
        let now = read_after.last();
        &&& config.missing() is None
        &&& read_after == read_before.push(now)
        &&& now.well_read()
        &&& after == before.push(probe_of(false)).push(
            save_of(config.channel(now.rfc2822), None, r is Ok),
        )
        &&& match r {
            Ok(channel) => channel@ == config.channel(now.rfc2822),
            Err(e) => e is Io,
        }
    }
}

/// Loads the feed from its path where the file system has it; otherwise
/// makes a new one from the settings and writes it there.
pub fn initialize_feed<F: FileSystem>(
    storage: &mut Storage<F>,
    config: &FeedConfig,
    clock: &mut Clock,
) -> (r: Result<Channel, FeedError>)
    ensures
        initialized(
            *config,
            old(storage).history(),
            final(storage).history(),
            old(clock).readings(),
            final(clock).readings(),
            r,
        ),
{
    if storage.file_exists(FEED_PATH) {
        let opened = storage.open(FEED_PATH);
        let ghost contents = read_contents(opened);
        let loaded = load_outcome(opened);
        assert(storage.history() == old(storage).history().push(probe_of(true)).push(
            read_of(contents),
        ));
        loaded
    } else {
        match create_feed(config, clock) {
            Ok(channel) => match write_channel(&channel, None, storage) {
                Ok(()) => Ok(channel),
                Err(e) => Err(e),
            },
            Err(e) => Err(e),
        }
    }
}

/// Whether `id` is among the identifiers drawn after `drawn_before`.
pub open spec fn drawn_since(
    drawn_before: Seq<Seq<char>>,
    drawn_after: Seq<Seq<char>>,
    id: Seq<char>,
) -> bool {
    exists|j: int| drawn_before.len() <= j < drawn_after.len() && #[trigger] drawn_after[j] == id
}

/// Whether `fresh` is an item minted from the given values: it holds them,
/// the date `published`, and an identifier drawn after `drawn_before` that
/// none of the items `taken` carries.
pub open spec fn minted_for(
    fresh: ItemView,
    title: Seq<char>,
    description: Option<Seq<char>>,
    link: Option<Seq<char>>,
    published: Seq<char>,
    taken: Seq<ItemView>,
    drawn_before: Seq<Seq<char>>,
    drawn_after: Seq<Seq<char>>,
) -> bool {
    &&& fresh.guid matches Some(guid)
    &&& fresh == item_of(title, description, link, guid.value, published)
    &&& id_shaped(guid.value)
    &&& !contains_id(taken, guid.value)
    &&& drawn_since(drawn_before, drawn_after, guid.value)
}

/// Whether `after` is `before` with every item that carries `id` replaced,
/// in place, by an item minted from the given values, and every other item
/// left as it was.
pub open spec fn edited(
    before: Seq<ItemView>,
    after: Seq<ItemView>,
    id: Seq<char>,
    title: Seq<char>,
    description: Option<Seq<char>>,
    link: Option<Seq<char>>,
    published: Seq<char>,
    taken: Seq<ItemView>,
    drawn_before: Seq<Seq<char>>,
    drawn_after: Seq<Seq<char>>,
) -> bool {
    &&& after.len() == before.len()
    &&& forall|i: int|
        0 <= i < before.len() ==> if (#[trigger] before[i]).has_id(id) {
            minted_for(
                after[i],
                title,
                description,
                link,
                published,
                taken,
                drawn_before,
                drawn_after,
            )
        } else {
            after[i] == before[i]
        }
}

/// The feed together with every exchange with the file system, every
/// reading of the clock and every identifier drawn so far: all that an
/// operation on the feed can change.
pub struct Snapshot {
    pub feed: ChannelView,
    pub exchanges: Seq<Exchange>,
    pub readings: Seq<ReadingView>,
    pub draws: Seq<Seq<char>>,
}

/// What the state and the storage hold.
pub open spec fn snapshot<F: FileSystem>(state: AppState, storage: Storage<F>) -> Snapshot {
    Snapshot {
        feed: state.channel@,
        exchanges: storage.history(),
        readings: state.clock.readings(),
        draws: state.ids.draws(),
    }
}

/// The error that a result holds, if it holds one.
pub open spec fn failure<T>(r: Result<T, FeedError>) -> Option<FeedError> {
    match r {
        Ok(_) => None,
        Err(e) => Some(e),
    }
}

impl Snapshot {
    /// The latest reading of the clock.
    pub open spec fn now(self) -> ReadingView {
        self.readings.last()
    }

    /// Whether the clock was read exactly once since `before`.
    pub open spec fn read_once_since(self, before: Snapshot) -> bool {
        &&& self.readings == before.readings.push(self.now())
        &&& self.now().well_read()
    }

    /// Whether, since `before`, the file system was asked one thing only:
    /// to write this feed out.
    pub open spec fn saved_since(self, before: Snapshot, accepted: bool) -> bool {
        wrote_feed(before.exchanges, self.exchanges, self.feed, accepted)
    }

    /// Whether this is `before` after `item` was put at the front: the
    /// clock was read once, its text is the build date, and the feed was
    /// written out.
    pub open spec fn follows_add(self, before: Snapshot, item: ItemView, accepted: bool) -> bool {
        &&& self.read_once_since(before)
        &&& self.draws == before.draws
        &&& self.feed == before.feed.added(item, self.now().rfc2822)
        &&& self.saved_since(before, accepted)
    }

    /// Whether this is `before` after the search for an unused identifier
    /// was given up: the clock was read once, the last of at least
    /// `DRAW_LIMIT` draws is carried by the feed, and the feed and the
    /// files are as they were.
    pub open spec fn gave_up(self, before: Snapshot) -> bool {
        &&& self.feed == before.feed
        &&& self.exchanges == before.exchanges
        &&& self.read_once_since(before)
        &&& self.draws.len() >= before.draws.len() + DRAW_LIMIT
        &&& self.draws.take(before.draws.len() as int) == before.draws
        &&& contains_id(before.feed.items, self.draws.last())
    }

    /// Whether this is `before` after an item minted from the given values
    /// (a blank description or link counts as none) was put at the front:
    /// the clock was read once, the identifier is the last one drawn and
    /// was carried by no item, the item's date and the build date are the
    /// reading's text, and the feed was written out.
    pub open spec fn follows_new(
        self,
        before: Snapshot,
        title: Seq<char>,
        description: Option<Seq<char>>,
        link: Option<Seq<char>>,
        accepted: bool,
    ) -> bool {
        let id = self.draws.last();
        let published = self.now().rfc2822;
        let item = item_of(title, unless_blank(description), unless_blank(link), id, published);
        &&& self.read_once_since(before)
        &&& drew_past_carried(before.draws, self.draws, before.feed.items)
        &&& id_shaped(id)
        &&& !contains_id(before.feed.items, id)
        &&& self.feed == before.feed.added(item, published)
        &&& self.saved_since(before, accepted)
    }

    /// What a request to add an item comes to. A blank title is refused
    /// and nothing happens. Otherwise the item goes in, unless no unused
    /// identifier was found; a refused write is the only other failure.
    pub open spec fn new_outcome(
        self,
        before: Snapshot,
        title: Seq<char>,
        description: Option<Seq<char>>,
        link: Option<Seq<char>>,
        failure: Option<FeedError>,
    ) -> bool {
        if blank(title) {
            self == before && failure matches Some(FeedError::Validation)
        } else {
            match failure {
                None => self.follows_new(before, title, description, link, true),
                Some(FeedError::Identifier) => self.gave_up(before),
                Some(e) => e is Io && self.follows_new(before, title, description, link, false),
            }
        }
    }

    /// What a request to delete by identifier comes to. Where no item
    /// carries `id`, nothing happens. Where one does, the clock is read
    /// once, every such item goes out, the reading's text is the build
    /// date, and the feed is written out; a refused write is the only
    /// failure.
    pub open spec fn delete_outcome(
        self,
        before: Snapshot,
        id: Seq<char>,
        failure: Option<FeedError>,
    ) -> bool {
        if contains_id(before.feed.items, id) {
            &&& self.read_once_since(before)
            &&& self.draws == before.draws
            &&& self.feed == before.feed.deleted(id, self.now().rfc2822)
            &&& self.saved_since(before, failure is None)
            &&& failure matches Some(e) ==> e is Io
        } else {
            self == before && failure is None
        }
    }

    /// Whether this is `before` after every item that carries `id` was
    /// replaced, in place, by an item minted from the given values (a blank
    /// description or link counts as none): the clock was read once, its
    /// text is the date of each new item and the build date, each new
    /// identifier was drawn since and carried by no item, and the feed was
    /// written out.
    pub open spec fn follows_edit(
        self,
        before: Snapshot,
        id: Seq<char>,
        title: Seq<char>,
        description: Option<Seq<char>>,
        link: Option<Seq<char>>,
        accepted: bool,
    ) -> bool {
        &&& self.read_once_since(before)
        &&& self.draws.take(before.draws.len() as int) == before.draws
        &&& self.feed == before.feed.rebuilt(self.feed.items, self.now().rfc2822)
        &&& edited(
            before.feed.items,
            self.feed.items,
            id,
            title,
            unless_blank(description),
            unless_blank(link),
            self.now().rfc2822,
            before.feed.items,
            before.draws,
            self.draws,
        )
        &&& self.saved_since(before, accepted)
    }

    /// What a request to edit by identifier comes to. A blank title is
    /// refused and nothing happens; nor does anything where no item carries
    /// `id`. Otherwise the items are replaced, unless no unused identifier
    /// was found; a refused write is the only other failure.
    pub open spec fn edit_outcome(
        self,
        before: Snapshot,
        id: Seq<char>,
        title: Seq<char>,
        description: Option<Seq<char>>,
        link: Option<Seq<char>>,
        failure: Option<FeedError>,
    ) -> bool {
        if blank(title) {
            self == before && failure matches Some(FeedError::Validation)
        } else if !contains_id(before.feed.items, id) {
            self == before && failure is None
        } else {
            match failure {
                None => self.follows_edit(before, id, title, description, link, true),
                Some(FeedError::Identifier) => self.gave_up(before),
                Some(e) => e is Io && self.follows_edit(
                    before,
                    id,
                    title,
                    description,
                    link,
                    false,
                ),
            }
        }
    }

    /// Whether this is `before` after a sweep at `now` with the build date
    /// `stamp`: where an item was older than `max_age_seconds`, the feed
    /// was written out; where none was, the files are as they were.
    pub open spec fn follows_sweep(
        self,
        before: Snapshot,
        max_age_seconds: u64,
        now: Instant,
        stamp: Seq<char>,
        accepted: bool,
    ) -> bool {
        &&& self.draws == before.draws
        &&& self.feed == before.feed.pruned(max_age_seconds, now, stamp)
        &&& if self.feed.items.len() == before.feed.items.len() {
            self.exchanges == before.exchanges
        } else {
            self.saved_since(before, accepted)
        }
    }

    /// What a sweep with an optional maximum age comes to. With none, or
    /// with zero, nothing happens and the count is zero. Otherwise the
    /// clock is read once and the feed is swept at that reading; the count
    /// is that of the items that went, and a refused write of the swept
    /// feed is the only failure.
    pub open spec fn sweep_outcome(
        self,
        before: Snapshot,
        max_age_seconds: Option<u64>,
        r: Result<usize, FeedError>,
    ) -> bool {
        &&& match max_age_seconds {
            Some(age) if age > 0 => {
                &&& self.read_once_since(before)
                &&& self.follows_sweep(
                    before,
                    age,
                    self.now().instant,
                    self.now().rfc2822,
                    r is Ok,
                )
            },
            _ => self == before,
        }
        &&& match r {
            Ok(removed) => removed == before.feed.items.len() - self.feed.items.len(),
            Err(e) => e is Io && self.feed.items.len() != before.feed.items.len(),
        }
    }

    /// The item that stands where the last item that carried `id` stood in
    /// `before`.
    pub open spec fn last_replaced(self, before: Snapshot, id: Seq<char>) -> Option<ItemView> {
        match last_position(before.feed.items, id) {
            Some(at) => Some(self.feed.items[at]),
            None => None,
        }
    }
}

/// Puts `item` at the front of the feed, records the current time as the
/// build date, and writes the feed out. The item is in even where the write
/// fails.
pub fn add_item<F: FileSystem>(
    state: &mut AppState,
    item: Item,
    storage: &mut Storage<F>,
) -> (r: Result<(), FeedError>)
    ensures
        snapshot(*final(state), *final(storage)).follows_add(
            snapshot(*old(state), *old(storage)),
            item@,
            r is Ok,
        ),
        r is Err ==> r matches Err(FeedError::Io(_)),
{
    let now = state.clock.read();
    state.channel.add(item, now.rfc2822);
    write_channel(&state.channel, None, storage)
}

/// Removes every item that carries `id` and returns the identifier of the
/// last of them. Where one was found, the current time becomes the build
/// date and the feed is written out; where none was, nothing happens.
pub fn delete_item<F: FileSystem>(
    state: &mut AppState,
    id: &str,
    storage: &mut Storage<F>,
) -> (r: Result<Option<Guid>, FeedError>)
    ensures
        snapshot(*final(state), *final(storage)).delete_outcome(
            snapshot(*old(state), *old(storage)),
            id@,
            failure(r),
        ),
        r matches Ok(found) ==> {
            &&& found is Some <==> contains_id(old(state).channel@.items, id@)
            &&& guid_view(found) == last_guid_with_id(old(state).channel@.items, id@)
        },
{
    let wanted = id.to_owned();
    if !carries_id(&state.channel.items, &wanted) {
        proof {
            lemma_last_position(old(state).channel@.items, id@);
        }
        return Ok(None);
    }
    let now = state.clock.read();
    let found = state.channel.delete(id, now.rfc2822);
    match write_channel(&state.channel, None, storage) {
        Ok(()) => Ok(found),
        Err(e) => Err(e),
    }
}

/// Replaces every item that carries `id`, in place, by an item minted from
/// the given values (a blank description or link counts as none), and
/// returns the last one minted. A blank title is refused. Where an item
/// was found, the current time becomes the date of each new item and the
/// build date, and the feed is written out; where none was, nothing
/// happens.
pub fn edit_item<F: FileSystem>(
    state: &mut AppState,
    id: &str,
    title: String,
    description: Option<String>,
    link: Option<String>,
    storage: &mut Storage<F>,
) -> (r: Result<Option<Item>, FeedError>)
    ensures
        snapshot(*final(state), *final(storage)).edit_outcome(
            snapshot(*old(state), *old(storage)),
            id@,
            title@,
            text_view(description),
            text_view(link),
            failure(r),
        ),
        r matches Ok(minted) ==> {
            &&& minted is Some <==> contains_id(old(state).channel@.items, id@)
            &&& item_view(minted) == snapshot(*final(state), *final(storage)).last_replaced(
                snapshot(*old(state), *old(storage)),
                id@,
            )
        },
{
    if is_blank(title.as_str()) {
        return Err(FeedError::Validation);
    }
    let wanted = id.to_owned();
    if !carries_id(&state.channel.items, &wanted) {
        proof {
            lemma_last_position(old(state).channel@.items, id@);
        }
        return Ok(None);
    }
    let now = state.clock.read();
    let description = keep_unless_blank(description);
    let link = keep_unless_blank(link);
    let mut items: Vec<Item> = Vec::new();
    let mut minted: Option<Item> = None;
    let mut i: usize = 0;
    let ghost before = item_views(state.channel.items@);
    let ghost drawn = state.ids.draws();
    let ghost read = state.clock.readings();
    assert(before.take(0) =~= Seq::<ItemView>::empty());
    assert(drawn.take(drawn.len() as int) =~= drawn);
    while i < state.channel.items.len()
        invariant
            i <= state.channel.items.len(),
            wanted@ == id@,
            !blank(title@),
            contains_id(before, id@),
            state.channel == old(state).channel,
            before == item_views(state.channel.items@),
            state.clock.readings() == read,
            read == old(state).clock.readings().push(now@),
            now@.well_read(),
            drawn == old(state).ids.draws(),
            drawn.len() <= state.ids.draws().len(),
            state.ids.draws().take(drawn.len() as int) == drawn,
            storage.history() == old(storage).history(),
            items.len() == i,
            edited(
                before.take(i as int),
                item_views(items@),
                id@,
                title@,
                text_view(description),
                text_view(link),
                now.rfc2822@,
                before,
                drawn,
                state.ids.draws(),
            ),
            match last_position(before.take(i as int), id@) {
                Some(at) => minted matches Some(item) && 0 <= at < i && item@ == items@[at]@,
                None => minted is None,
            },
        decreases state.channel.items.len() - i,
    {
        let ghost seen = before.take(i as int + 1);
        let ghost drawn_so_far = state.ids.draws();
        let ghost built = item_views(items@);
        assert(seen.drop_last() =~= before.take(i as int));
        assert(seen.last() == state.channel.items@[i as int]@);
        assert(forall|k: int| 0 <= k < i ==> seen[k] == before.take(i as int)[k]);
        if state.channel.items[i].has_id(&wanted) {
            let fresh_id = match state.ids.draw_unused(&state.channel.items) {
                Ok(fresh_id) => fresh_id,
                Err(e) => {
                    proof {
                        assert(state.ids.draws().take(drawn.len() as int) =~= drawn) by {
                            assert(drawn_so_far.take(drawn.len() as int) == drawn);
                            assert(state.ids.draws().take(drawn_so_far.len() as int)
                                == drawn_so_far);
                        }
                    }
                    return Err(e);
                },
            };
            let fresh = build_item(
                title.clone(),
                clone_text(&description),
                clone_text(&link),
                fresh_id,
                now.rfc2822.clone(),
            );
            minted = Some(fresh.clone());
            items.push(fresh);
            proof {
                let after = state.ids.draws();
                assert(after.take(drawn_so_far.len() as int) == drawn_so_far);
                assert(after.take(drawn.len() as int) =~= drawn) by {
                    assert(drawn_so_far.take(drawn.len() as int) == drawn);
                }
                assert forall|k: int|
                    0 <= k < i && (#[trigger] seen[k]).has_id(id@) implies minted_for(
                    item_views(items@)[k],
                    title@,
                    text_view(description),
                    text_view(link),
                    now.rfc2822@,
                    before,
                    drawn,
                    after,
                ) by {
                    assert(before.take(i as int)[k].has_id(id@));
                    assert(item_views(items@)[k] == built[k]);
                    let j = choose|j: int|
                        drawn.len() <= j < drawn_so_far.len() && #[trigger] drawn_so_far[j]
                            == built[k].guid->0.value;
                    assert(after[j] == after.take(drawn_so_far.len() as int)[j]);
                }
                assert(after[after.len() - 1] == after.last());
            }
        } else {
            items.push(state.channel.items[i].clone());
            proof {
                lemma_last_position(before.take(i as int), id@);
            }
        }
        i += 1;
    }
    proof {
        assert(before.take(i as int) =~= before);
        lemma_last_position(before, id@);
    }
    match minted {
        Some(item) => {
            state.channel.set_items(items);
            state.channel.set_last_build_date(now.rfc2822);
            match write_channel(&state.channel, None, storage) {
                Ok(()) => Ok(Some(item)),
                Err(e) => Err(e),
            }
        },
        None => Ok(None),
    }
}

/// Sweeps the feed at the time of `now`: drops the items older than
/// `max_age_seconds` and returns how many went. Zero keeps everything.
/// Where an item went, the feed is rebuilt at `now` and written out; where
/// none did, nothing happens. The clock is not read.
pub fn prune_at<F: FileSystem>(
    state: &mut AppState,
    storage: &mut Storage<F>,
    max_age_seconds: u64,
    now: Reading,
) -> (r: Result<usize, FeedError>)
    ensures
        final(state).clock.readings() == old(state).clock.readings(),
        snapshot(*final(state), *final(storage)).follows_sweep(
            snapshot(*old(state), *old(storage)),
            max_age_seconds,
            now.instant,
            now.rfc2822@,
            r is Ok,
        ),
        match r {
            Ok(removed) => removed == old(state).channel@.items.len()
                - final(state).channel@.items.len(),
            Err(e) => e is Io && final(state).channel@.items.len()
                != old(state).channel@.items.len(),
        },
{
    let removed = state.channel.prune(max_age_seconds, &now.instant, now.rfc2822);
    if removed > 0 {
        match write_channel(&state.channel, None, storage) {
            Ok(()) => Ok(removed),
            Err(e) => Err(e),
        }
    } else {
        Ok(0)
    }
}

/// Sweeps the feed now, by the clock. With no maximum age, or a maximum age
/// of zero, nothing is looked at, changed or written, and the count is
/// zero.
pub fn prune<F: FileSystem>(
    state: &mut AppState,
    storage: &mut Storage<F>,
    max_age_seconds: Option<u64>,
) -> (r: Result<usize, FeedError>)
    ensures
        snapshot(*final(state), *final(storage)).sweep_outcome(
            snapshot(*old(state), *old(storage)),
            max_age_seconds,
            r,
        ),
{
    match max_age_seconds {
        None => Ok(0),
        Some(age) => {
            if age == 0 {
                Ok(0)
            } else {
                let now = state.clock.read();
                prune_at(state, storage, age, now)
            }
        },
    }
}

/// Sweeps the feed now, by the clock, with the maximum age that the setting
/// gives. An absent setting, one that is no number, and zero all keep
/// everything.
pub fn cleanup_old_items<F: FileSystem>(
    state: &mut AppState,
    storage: &mut Storage<F>,
    max_age_setting: Option<&str>,
) -> (r: Result<usize, FeedError>)
    ensures
        snapshot(*final(state), *final(storage)).sweep_outcome(
            snapshot(*old(state), *old(storage)),
            seconds_of(max_age_setting),
            r,
        ),
{
    prune(state, storage, parse_seconds(max_age_setting))
}

} // verus!
