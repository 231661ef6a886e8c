//! Identifiers: the source they are drawn from, with the record of what it
//! gave, and the draw of one that the feed does not carry yet.

use vstd::prelude::*;
use crate::feed::{carries_id, contains_id};
use crate::model::{item_views, Item, ItemView};
use crate::storage::FeedError;

verus! {

/// Whether a character is a decimal digit or one of the letters a to f.
pub open spec fn is_lower_hex(c: char) -> bool {
    ||| 0x30 <= c as u32 <= 0x39
    ||| 0x61 <= c as u32 <= 0x66
}

/// Whether a text has the shape of a hyphenated identifier: 36 characters,
/// hyphens at the places 8, 13, 18 and 23, lower-case hexadecimal digits at
/// all the others.
pub open spec fn id_shaped(id: Seq<char>) -> bool {
    &&& id.len() == 36
    &&& forall|i: int|
        0 <= i < 36 ==> if i == 8 || i == 13 || i == 18 || i == 23 {
            #[trigger] id[i] == '-'
        } else {
            is_lower_hex(id[i])
        }
}

/// Makes a random identifier with `uuid::Uuid::new_v4` and writes it out
/// with `to_string`: the hyphenated form in lower case, whatever the
/// identifier.
#[verifier::external_body]
pub(crate) fn fresh_id() -> (id: String)
    ensures
        id_shaped(id@),
{
    uuid::Uuid::new_v4().to_string()
}

/// How many identifiers are drawn at most to find one that the feed does
/// not carry.
pub const DRAW_LIMIT: usize = 8;

/// The source of identifiers, with the record of the draws made from it.
pub struct IdSource {
    draws: Ghost<Seq<Seq<char>>>,
}

/// Whether `after` is `before` with one or more draws behind it, of which
/// all but the last are carried by `items`.
pub open spec fn drew_past_carried(
    before: Seq<Seq<char>>,
    after: Seq<Seq<char>>,
    items: Seq<ItemView>,
) -> bool {
    &&& before.len() < after.len() <= before.len() + DRAW_LIMIT
    &&& after.take(before.len() as int) == before
    &&& forall|i: int|
        before.len() <= i < after.len() - 1 ==> contains_id(items, #[trigger] after[i])
}

impl IdSource {
    /// Every identifier drawn from this source so far, oldest first.
    pub closed spec fn draws(&self) -> Seq<Seq<char>> {
        self.draws@
    }

    /// A source from which nothing has been drawn yet.
    pub fn new() -> (ids: IdSource)
        ensures
            ids.draws() == Seq::<Seq<char>>::empty(),
    {
        IdSource { draws: Ghost(Seq::empty()) }
    }

    /// Draws an identifier and records it.
    pub fn draw(&mut self) -> (id: String)
        ensures
            id_shaped(id@),
            final(self).draws() == old(self).draws().push(id@),
    {
        let id = fresh_id();
        self.draws = Ghost(self.draws@.push(id@));
        id
    }

    /// Draws identifiers until one comes that no item carries, and gives
    /// that one; gives up after `DRAW_LIMIT` draws that were all carried.
    pub fn draw_unused(&mut self, items: &Vec<Item>) -> (r: Result<String, FeedError>)
        ensures
            drew_past_carried(old(self).draws(), final(self).draws(), item_views(items@)),
            match r {
                Ok(id) => {
                    &&& final(self).draws().last() == id@
                    &&& id_shaped(id@)
                    &&& !contains_id(item_views(items@), id@)
                },
                Err(e) => {
                    &&& e is Identifier
                    &&& final(self).draws().len() == old(self).draws().len() + DRAW_LIMIT
                    &&& contains_id(item_views(items@), final(self).draws().last())
                },
            },
    {
        let mut tries: usize = 0;
        while tries < DRAW_LIMIT
            invariant
                tries <= DRAW_LIMIT,
                self.draws().len() == old(self).draws().len() + tries,
                self.draws().take(old(self).draws().len() as int) == old(self).draws(),
                forall|i: int|
                    old(self).draws().len() <= i < self.draws().len() ==> contains_id(
                        item_views(items@),
                        #[trigger] self.draws()[i],
                    ),
            decreases DRAW_LIMIT - tries,
        {
            let ghost seen = self.draws();
            let id = self.draw();
            tries += 1;
            assert(self.draws().take(old(self).draws().len() as int) =~= old(self).draws()) by {
                assert(seen.take(old(self).draws().len() as int) == old(self).draws());
            }
            if !carries_id(items, &id) {
                return Ok(id);
            }
        }
        Err(FeedError::Identifier)
    }
}

} // verus!
