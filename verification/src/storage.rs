//! The storage gateway: the file system through which the feed is read and
//! written, with a record of every exchange with it.

use vstd::prelude::*;
use crate::common::FileSystem;
use crate::model::{Channel, ChannelView};
use crate::rss_format::{feed_from_xml, feed_xml, from_xml};

verus! {

/// `std::io::Error`, a file system's reason for failing. It is carried
/// through unopened.
#[verifier::external_type_specification]
#[verifier::external_body]
pub struct ExIoError(std::io::Error);

/// Where the feed is kept unless a caller says otherwise.
pub const FEED_PATH: &'static str = "./feed/feed.xml";

/// A setting that a new feed cannot do without.
#[derive(Clone, Copy, Debug, PartialEq, Eq)]
pub enum ConfigField {
    Title,
    Link,
    Description,
}

/// Why an operation on the feed failed.
#[derive(Debug)]
pub enum FeedError {
    /// A required field of a request was empty.
    Validation,
    /// A required setting was absent when a new feed had to be made.
    Config(ConfigField),
    /// The stored feed is not a well-formed feed document.
    Parse(rss::Error),
    /// The file system failed.
    Io(std::io::Error),
    /// Every identifier drawn for a new item was carried by the feed
    /// already.
    Identifier,
}

/// One exchange with the file system: what was asked, and what it answered.
pub enum Exchange {
    /// Whether `path` exists.
    Probe { path: Seq<char>, found: bool },
    /// What `path` holds; no contents where the read failed.
    Read { path: Seq<char>, contents: Option<Seq<u8>> },
    /// To replace what `path` holds by `document`.
    Write { path: Seq<char>, document: Seq<char>, accepted: bool },
}

/// A file system together with the record of every exchange with it.
pub struct Storage<F: FileSystem> {
    fs: F,
    history: Ghost<Seq<Exchange>>,
}

impl<F: FileSystem> Storage<F> {
    /// Every exchange with the file system since it was wrapped, oldest
    /// first.
    pub closed spec fn history(&self) -> Seq<Exchange> {
        self.history@
    }

    /// The file system that was wrapped.
    pub closed spec fn wrapped(&self) -> F {
        self.fs
    }

    /// Wraps a file system; nothing has been asked of it yet.
    pub fn new(fs: F) -> (storage: Self)
        ensures
            storage.wrapped() == fs,
            storage.history() == Seq::<Exchange>::empty(),
    {
        Storage { fs, history: Ghost(Seq::empty()) }
    }

    /// Unwraps the file system, ending the record. While it is wrapped the
    /// file system can be reached through this storage only.
    pub fn into_file_system(self) -> (fs: F)
        ensures
            fs == self.wrapped(),
    {
        self.fs
    }

    /// Asks the file system whether `path` exists.
    pub fn file_exists(&mut self, path: &str) -> (found: bool)
        ensures
            final(self).wrapped() == old(self).wrapped(),
            final(self).history() == old(self).history().push(
                Exchange::Probe { path: path@, found },
            ),
    {
        let found = self.fs.file_exists(path);
        self.history = Ghost(self.history@.push(Exchange::Probe { path: path@, found }));
        found
    }

    /// Asks the file system for what `path` holds.
    pub fn open(&mut self, path: &str) -> (opened: Result<Vec<u8>, std::io::Error>)
        ensures
            final(self).wrapped() == old(self).wrapped(),
            final(self).history() == old(self).history().push(
                Exchange::Read { path: path@, contents: read_contents(opened) },
            ),
    {
        let opened = self.fs.open(path);
        self.history = Ghost(
            self.history@.push(Exchange::Read { path: path@, contents: read_contents(opened) }),
        );
        opened
    }

    /// Asks the file system to replace what `path` holds.
    pub fn write(&mut self, path: &str, contents: &str) -> (written: Result<(), std::io::Error>)
        ensures
            final(self).wrapped() == old(self).wrapped(),
            final(self).history() == old(self).history().push(
                Exchange::Write { path: path@, document: contents@, accepted: written is Ok },
            ),
    {
        let written = self.fs.write(path, contents);
        self.history = Ghost(
            self.history@.push(
                Exchange::Write { path: path@, document: contents@, accepted: written is Ok },
            ),
        );
        written
    }
}

/// What a read handed over, if it did.
pub open spec fn read_contents(opened: Result<Vec<u8>, std::io::Error>) -> Option<Seq<u8>> {
    match opened {
        Ok(contents) => Some(contents@),
        Err(_) => None,
    }
}

/// The exchange in which the feed's own path is asked for.
pub open spec fn probe_of(found: bool) -> Exchange {
    Exchange::Probe { path: FEED_PATH@, found }
}

/// The exchange in which the feed's own path is read.
pub open spec fn read_of(contents: Option<Seq<u8>>) -> Exchange {
    Exchange::Read { path: FEED_PATH@, contents }
}

/// The path a save goes to: the one given, or the feed's own.
pub open spec fn target_path(path: Option<&str>) -> Seq<char> {
    match path {
        Some(p) => p@,
        None => FEED_PATH@,
    }
}

/// The exchange in which the whole of `feed` is written to `path`.
pub open spec fn save_of(feed: ChannelView, path: Option<&str>, accepted: bool) -> Exchange {
    Exchange::Write { path: target_path(path), document: feed_xml(feed), accepted }
}

/// Whether exactly one exchange took place between `before` and `after`: the
/// whole of `feed` written to the feed's own path.
pub open spec fn wrote_feed(
    before: Seq<Exchange>,
    after: Seq<Exchange>,
    feed: ChannelView,
    accepted: bool,
) -> bool {
    after == before.push(save_of(feed, None, accepted))
}

/// What a save amounts to, given the file system's answer to the write.
pub fn save_outcome(written: Result<(), std::io::Error>) -> (r: Result<(), FeedError>)
    ensures
        written is Ok ==> r is Ok,
        written matches Err(e) ==> r matches Err(FeedError::Io(f)) && f == e,
{
    match written {
        Ok(()) => Ok(()),
        Err(e) => Err(FeedError::Io(e)),
    }
}

/// What a load amounts to, given the file system's answer to the read: its
/// failure, a rejected document, or the channel the document holds.
pub fn load_outcome(opened: Result<Vec<u8>, std::io::Error>) -> (r: Result<Channel, FeedError>)
    ensures
        opened matches Err(e) ==> r matches Err(FeedError::Io(f)) && f == e,
        opened matches Ok(document) ==> match feed_from_xml(document@) {
            Some(feed) => r matches Ok(channel) && channel@ == feed,
            None => r matches Err(FeedError::Parse(_)),
        },
{
    match opened {
        Ok(document) => match from_xml(document.as_slice()) {
            Ok(channel) => Ok(channel),
            Err(e) => Err(FeedError::Parse(e)),
        },
        Err(e) => Err(FeedError::Io(e)),
    }
}

} // verus!
