//! Time as the feed needs it: instants to compare, the text form that the
//! feed stores, and the clock with the record of its readings.

use vstd::prelude::*;

verus! {

/// A point in time: whole seconds since the Unix epoch, and the nanoseconds
/// past that second.
#[derive(Clone, Copy, Debug, PartialEq, Eq)]
pub struct Instant {
    pub secs: i64,
    pub nanos: u32,
}

impl Instant {
    /// Whether this instant lies strictly before the cutoff, the point
    /// `max_age_seconds` before `now`.
    pub open spec fn older_than(self, max_age_seconds: u64, now: Instant) -> bool {
        ||| self.secs + max_age_seconds < now.secs
        ||| (self.secs + max_age_seconds == now.secs && self.nanos < now.nanos)
    }

    /// Tells whether this instant lies strictly before the point
    /// `max_age_seconds` before `now`.
    pub fn is_older_than(&self, max_age_seconds: u64, now: &Instant) -> (r: bool)
        ensures
            r == self.older_than(max_age_seconds, *now),
    {
        let aged: i128 = self.secs as i128 + max_age_seconds as i128;
        let limit: i128 = now.secs as i128;
        aged < limit || (aged == limit && self.nanos < now.nanos)
    }
}

/// The clock, read once: the instant, and the same instant as an RFC 2822
/// date and time.
#[derive(Debug)]
pub struct Reading {
    pub instant: Instant,
    pub rfc2822: String,
}

/// The instant that `chrono::DateTime::parse_from_rfc2822` reads from a
/// text, as its `timestamp` and `timestamp_subsec_nanos`; `None` where it
/// rejects the text.
pub uninterp spec fn rfc2822_instant(text: Seq<char>) -> Option<Instant>;

/// What a `Reading` is in contracts.
pub struct ReadingView {
    pub instant: Instant,
    pub rfc2822: Seq<char>,
}

impl View for Reading {
    type V = ReadingView;

    open spec fn view(&self) -> ReadingView {
        ReadingView { instant: self.instant, rfc2822: self.rfc2822@ }
    }
}

impl ReadingView {
    /// What holds of every reading of the clock: the instant is not before
    /// 1970, its nanoseconds stay within the second, and the text reads
    /// back as the same second.
    pub open spec fn well_read(self) -> bool {
        &&& 0 <= self.instant.secs
        &&& self.instant.nanos < 1_000_000_000
        &&& rfc2822_instant(self.rfc2822) == Some(Instant { secs: self.instant.secs, nanos: 0 })
    }
}

/// Reads the system clock through `chrono::Utc::now`, and takes from the
/// value its `timestamp`, its `timestamp_subsec_nanos` and its `to_rfc2822`
/// text. `Utc::now` counts from 1970 and keeps the nanoseconds below a
/// second; `to_rfc2822` writes the second that `parse_from_rfc2822` reads
/// back. Which instant comes back is not claimed.
#[verifier::external_body]
pub(crate) fn read_clock() -> (now: Reading)
    ensures
        now@.well_read(),
{
    let now = chrono::Utc::now();
    Reading {
        instant: Instant { secs: now.timestamp(), nanos: now.timestamp_subsec_nanos() },
        rfc2822: now.to_rfc2822(),
    }
}

/// The clock that the feed's changes are timed by, with the record of the
/// readings taken through it.
pub struct Clock {
    readings: Ghost<Seq<ReadingView>>,
}

impl Clock {
    /// Every reading taken through this clock so far, oldest first.
    pub closed spec fn readings(&self) -> Seq<ReadingView> {
        self.readings@
    }

    /// A clock that has not been read yet.
    pub fn new() -> (clock: Clock)
        ensures
            clock.readings() == Seq::<ReadingView>::empty(),
    {
        Clock { readings: Ghost(Seq::empty()) }
    }

    /// Reads the clock and records the reading.
    pub fn read(&mut self) -> (now: Reading)
        ensures
            now@.well_read(),
            final(self).readings() == old(self).readings().push(now@),
    {
        let now = read_clock();
        self.readings = Ghost(self.readings@.push(now@));
        now
    }
}

/// Parses an RFC 2822 date and time with
/// `chrono::DateTime::parse_from_rfc2822`. The contract only names the
/// result: the same text always gives the same answer.
#[verifier::external_body]
pub(crate) fn parse_rfc2822(text: &str) -> (r: Option<Instant>)
    ensures
        r == rfc2822_instant(text@),
{
    match chrono::DateTime::parse_from_rfc2822(text) {
        Ok(at) => Some(Instant { secs: at.timestamp(), nanos: at.timestamp_subsec_nanos() }),
        Err(_) => None,
    }
}

/// Whether an item published at `published` has outlived `max_age_seconds`
/// at `now`. An item without a readable date never has.
pub open spec fn expired(published: Option<Instant>, max_age_seconds: u64, now: Instant) -> bool {
    published matches Some(at) && at.older_than(max_age_seconds, now)
}

/// Tells whether an item published at `published` has outlived
/// `max_age_seconds` at `now`.
pub fn is_expired(published: Option<Instant>, max_age_seconds: u64, now: &Instant) -> (r: bool)
    ensures
        r == expired(published, max_age_seconds, *now),
{
    match published {
        Some(at) => at.is_older_than(max_age_seconds, now),
        None => false,
    }
}

} // verus!
