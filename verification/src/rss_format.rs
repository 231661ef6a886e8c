//! The stored form of the feed: an RSS 2.0 document, written and read by the
//! `rss` crate.

use vstd::prelude::*;
use crate::model::{Channel, ChannelView, Guid, Item};

verus! {

/// `rss::Error`, the reader's reason for rejecting a document. It is
/// carried through unopened.
#[verifier::external_type_specification]
#[verifier::external_body]
pub struct ExRssError(rss::Error);

/// The document that `rss::Channel`'s `to_string` writes for a channel with
/// this title, link, description, build date and items, and nothing else
/// set.
pub uninterp spec fn feed_xml(feed: ChannelView) -> Seq<char>;

/// The channel that `rss::Channel::read_from` reads from a document, as far
/// as this library keeps it; `None` where the document is rejected.
pub uninterp spec fn feed_from_xml(document: Seq<u8>) -> Option<ChannelView>;

/// Writes a channel out with `rss::Channel`'s `to_string`, after copying it
/// field by field into an `rss::Channel`. The contract only names the
/// result: the same channel always gives the same document.
#[verifier::external_body]
pub(crate) fn to_xml(feed: &Channel) -> (document: String)
    ensures
        document@ == feed_xml(feed@),
{
    let mut channel = rss::Channel::default();
    channel.title = feed.title.clone();
    channel.link = feed.link.clone();
    channel.description = feed.description.clone();
    channel.last_build_date = feed.last_build_date.clone();
    channel.items = feed.items.iter().map(|i| rss::Item {
        title: i.title.clone(),
        link: i.link.clone(),
        description: i.description.clone(),
        guid: i.guid.as_ref().map(|g| rss::Guid { value: g.value.clone(), permalink: g.permalink }),
        pub_date: i.pub_date.clone(),
        ..Default::default()
    }).collect();
    channel.to_string()
}

/// Reads a document with `rss::Channel::read_from` and keeps of the result
/// the title, link, description, build date and, of each item, the title,
/// link, description, identifier and date. Whatever else the document
/// holds (language, categories, enclosures, extensions) is left behind, and
/// so is gone from the file once the feed is written out again. The
/// contract only names the result, and says that an error means the
/// document was rejected.
#[verifier::external_body]
pub(crate) fn from_xml(document: &[u8]) -> (r: Result<Channel, rss::Error>)
    ensures
        r matches Ok(feed) ==> feed_from_xml(document@) == Some(feed@),
        r is Err ==> feed_from_xml(document@) is None,
{
    let c = rss::Channel::read_from(document)?;
    let items = c.items.into_iter().map(|i| Item {
        title: i.title,
        link: i.link,
        description: i.description,
        guid: i.guid.map(|g| Guid { value: g.value, permalink: g.permalink }),
        pub_date: i.pub_date,
    }).collect();
    let (title, link, description) = (c.title, c.link, c.description);
    Ok(Channel { title, link, description, last_build_date: c.last_build_date, items })
}

} // verus!
