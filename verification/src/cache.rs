//! The cache of rendered feeds, one slot for each source, and the steps of a
//! feed request around it.

use crate::error::MyError;
use std::collections::HashMap;
use tokio::time::Instant;
use vstd::prelude::*;
use vstd::std_specs::hash::*;

verus! {

broadcast use group_hash_axioms;

/// `tokio::time::Instant`: a reading of the clock. Nothing is known of what
/// it holds.
#[verifier::external_type_specification]
#[verifier::external_body]
pub struct ExInstant(Instant);

/// `tokio::time::Instant::now`: the clock's reading. It differs from call to
/// call, so nothing is claimed of it.
#[verifier::external_body]
fn now() -> Instant {
    Instant::now()
}

/// `tokio::time::Instant::elapsed`, in nanoseconds: the time that has passed
/// on the clock since `instant`. It differs from call to call, so nothing is
/// claimed of it.
#[verifier::external_body]
fn elapsed_nanos(instant: &Instant) -> u128 {
    instant.elapsed().as_nanos()
}

/// For how many seconds a cached feed is served.
pub const TTL_SECS: u64 = 600;

/// The same time in nanoseconds.
pub const TTL_NANOS: u128 = 600_000_000_000;

/// A feed is fresh while no more than ten minutes have passed since it was
/// rendered.
pub open spec fn fresh(elapsed_nanos: nat) -> bool {
    elapsed_nanos <= TTL_NANOS
}

/// What a cached document gives a request when `elapsed_nanos` have passed
/// since it was rendered: the document while it is fresh, nothing once it is
/// stale.
pub open spec fn reply_from(doc: Seq<char>, elapsed_nanos: nat) -> Option<Seq<char>> {
    if fresh(elapsed_nanos) {
        Some(doc)
    } else {
        None
    }
}

/// The sources, each with a slot of its own in the cache.
#[derive(Clone, Copy, Debug, PartialEq, Eq, Hash, Structural)]
pub enum CacheType {
    Bilibili,
    Ddys,
}

impl CacheType {
    /// The number of the source's slot.
    pub open spec fn slot(self) -> u8 {
        match self {
            CacheType::Bilibili => 0,
            CacheType::Ddys => 1,
        }
    }

    fn slot_number(&self) -> (r: u8)
        ensures
            r == self.slot(),
    {
        match self {
            CacheType::Bilibili => 0,
            CacheType::Ddys => 1,
        }
    }
}

/// What a feed request does next.
#[derive(Debug)]
pub enum Step {
    /// Reply with this document; the upstream is not asked.
    Respond(String),
    /// Fetch from the upstream and render.
    FetchAndRender,
}

/// A rendered feed and the instant at which it was rendered.
pub struct Content {
    rss: String,
    record_instant: Instant,
}

impl View for Content {
    type V = Seq<char>;

    /// The rendered feed.
    closed spec fn view(&self) -> Seq<char> {
        self.rss@
    }
}

impl Content {
    /// The instant at which the feed was rendered.
    pub closed spec fn produced_at(&self) -> Instant {
        self.record_instant
    }

    /// Keeps a feed that was rendered at `at`.
    pub fn at(rss: String, at: Instant) -> (r: Content)
        ensures
            r@ == rss@,
            r.produced_at() == at,
    {
        Content { rss, record_instant: at }
    }

    /// Keeps a feed that was rendered just now: the instant is the clock's
    /// reading at this call.
    pub fn new(rss: String) -> (r: Content)
        ensures
            r@ == rss@,
    {
        Content::at(rss, now())
    }

    /// Whether more than ten minutes have passed since the feed was rendered.
    pub fn expired_after(elapsed_nanos: u128) -> (r: bool)
        ensures
            r == !fresh(elapsed_nanos as nat),
    {
        elapsed_nanos > TTL_NANOS
    }

    /// Content expired after 10 minutes
    pub fn is_expired(&self) -> bool {
        Content::expired_after(elapsed_nanos(&self.record_instant))
    }

    pub fn get_rss(&self) -> (r: String)
        ensures
            r@ == self@,
    {
        self.rss.clone()
    }

    /// What a request does with this entry when `elapsed_nanos` have passed
    /// since it was rendered: it replies with the entry while that is fresh,
    /// and goes to the upstream once it is stale.
    pub fn step_after(&self, elapsed_nanos: u128) -> (r: Step)
        ensures
            match r {
                Step::Respond(doc) => reply_from(self@, elapsed_nanos as nat) == Some(doc@),
                Step::FetchAndRender => reply_from(self@, elapsed_nanos as nat) is None,
            },
    {
        if Content::expired_after(elapsed_nanos) {
            Step::FetchAndRender
        } else {
            Step::Respond(self.get_rss())
        }
    }
}

/// `after` is `before` with the entry of `source` put in or replaced by one
/// that holds `doc`; every other entry is as it was.
pub open spec fn inserted(
    before: Map<CacheType, Content>,
    after: Map<CacheType, Content>,
    source: CacheType,
    doc: Seq<char>,
) -> bool {
    &&& after.dom() == before.dom().insert(source)
    &&& after[source]@ == doc
    &&& forall|other: CacheType|
        other != source && before.contains_key(other) ==> after[other] == before[other]
}

/// The cache: at most one rendered feed for each source.
pub struct RssCache {
    cache: HashMap<u8, Content>,
}

impl View for RssCache {
    type V = Map<CacheType, Content>;

    /// The entry of each source that has one.
    closed spec fn view(&self) -> Map<CacheType, Content> {
        Map::new(
            |t: CacheType| self.cache@.contains_key(t.slot()),
            |t: CacheType| self.cache@[t.slot()],
        )
    }
}

impl RssCache {
    /// The empty cache.
    pub fn new() -> (r: RssCache)
        ensures
            r@ == Map::<CacheType, Content>::empty(),
    {
        let r = RssCache { cache: HashMap::new() };
        assert(r@ =~= Map::<CacheType, Content>::empty());
        r
    }

    /// The entry of a source, if it has one. Whether the entry is still fresh
    /// is not looked at.
    pub fn get(&self, cache_type: &CacheType) -> (r: Option<&Content>)
        ensures
            r == if self@.contains_key(*cache_type) {
                Some(&self@[*cache_type])
            } else {
                None
            },
    {
        let slot: u8 = cache_type.slot_number();
        self.cache.get(&slot)
    }

    /// Puts a feed that was rendered at `at` into the slot of its source, in
    /// place of what was there: the new entry holds this feed and this
    /// instant. The other slots stay as they are.
    pub fn insert_at(&mut self, cache_type: CacheType, rss: String, at: Instant)
        ensures
            inserted(old(self)@, final(self)@, cache_type, rss@),
            final(self)@[cache_type].produced_at() == at,
    {
        let slot: u8 = cache_type.slot_number();
        self.cache.insert(slot, Content::at(rss, at));
        assert(final(self)@.dom() =~= old(self)@.dom().insert(cache_type)) by {
            assert forall|t: CacheType| final(self)@.dom().contains(t) <==> old(self)@.dom().insert(
                cache_type,
            ).contains(t) by {
                if t.slot() == cache_type.slot() {
                    assert(t == cache_type);
                }
            }
        }
    }

    /// Puts a feed that was rendered just now into the slot of its source, in
    /// place of what was there; the entry's instant is the clock's reading at
    /// this call. The other slots stay as they are.
    pub fn insert(&mut self, cache_type: CacheType, rss: String)
        ensures
            inserted(old(self)@, final(self)@, cache_type, rss@),
    {
        self.insert_at(cache_type, rss, now())
    }

    /// The first step of a feed request: reply from the cache where the
    /// source has an entry and the clock says that it is fresh, and go to the
    /// upstream otherwise. A stale entry is never served.
    pub fn cache_check(&self, cache_type: &CacheType) -> (r: Step)
        ensures
            r matches Step::Respond(doc) ==> self@.contains_key(*cache_type) && doc@
                == self@[*cache_type]@,
            !self@.contains_key(*cache_type) ==> r is FetchAndRender,
    {
        match self.get(cache_type) {
            Some(content) => content.step_after(elapsed_nanos(&content.record_instant)),
            None => Step::FetchAndRender,
        }
    }

    /// The last step of a feed request that went to the upstream, for a
    /// rendering that ended at `at`: a feed that was rendered is put into the
    /// cache with that instant and handed on; a failure is handed on and the
    /// cache stays as it was, stale entry or not.
    pub fn store_at(
        &mut self,
        cache_type: CacheType,
        outcome: Result<String, MyError>,
        at: Instant,
    ) -> (r: Result<String, MyError>)
        ensures
            r == outcome,
            outcome is Err ==> *final(self) == *old(self),
            outcome matches Ok(doc) ==> inserted(old(self)@, final(self)@, cache_type, doc@)
                && final(self)@[cache_type].produced_at() == at,
    {
        match outcome {
            Ok(doc) => {
                self.insert_at(cache_type, doc.clone(), at);
                Ok(doc)
            },
            Err(e) => Err(e),
        }
    }

    /// The last step of a feed request that went to the upstream: a feed that
    /// was rendered is put into the cache, with the clock's reading at this
    /// call, and handed on; a failure is handed on and the cache stays as it
    /// was, stale entry or not.
    pub fn store(&mut self, cache_type: CacheType, outcome: Result<String, MyError>) -> (r: Result<
        String,
        MyError,
    >)
        ensures
            r == outcome,
            outcome is Err ==> *final(self) == *old(self),
            outcome matches Ok(doc) ==> inserted(old(self)@, final(self)@, cache_type, doc@),
    {
        match outcome {
            Ok(doc) => self.store_at(cache_type, Ok(doc), now()),
            Err(e) => Err(e),
        }
    }
}

/// An entry that was rendered at `produced_at` is fresh at every reading of
/// the clock from then until ten minutes later, and stale at every reading
/// after that. Both times are nanoseconds on the clock's axis.
pub proof fn fresh_for_ten_minutes(produced_at: nat, read_at: nat)
    requires
        produced_at <= read_at,
    ensures
        read_at <= produced_at + TTL_NANOS ==> fresh((read_at - produced_at) as nat),
        read_at > produced_at + TTL_NANOS ==> !fresh((read_at - produced_at) as nat),
{
}

/// Freshness only ever ends: an entry that is fresh at a reading was fresh at
/// every earlier one, and an entry that is stale stays stale.
pub proof fn freshness_is_monotonic(earlier: nat, later: nat)
    requires
        earlier <= later,
    ensures
        fresh(later) ==> fresh(earlier),
        !fresh(earlier) ==> !fresh(later),
{
}

/// The two ways of writing the time to live agree.
pub proof fn ttl_in_nanos()
    ensures
        TTL_NANOS == TTL_SECS * 1_000_000_000,
{
}

/// Where a run of requests for one source stands: what its slot holds and
/// since when, how often the upstream was asked, and what was replied.
pub struct Run {
    pub slot: Option<(Seq<char>, nat)>,
    pub fetches: nat,
    pub replies: Seq<Seq<char>>,
}

/// The time that has passed at `now` since `at`; none where `at` is later.
pub open spec fn elapsed(at: nat, now: nat) -> nat {
    if now >= at {
        (now - at) as nat
    } else {
        0
    }
}

/// The run of requests for one source that come one after the other at the
/// given readings of the clock, from an empty slot, against an upstream that
/// renders `doc` whenever it is asked. A request is answered from the slot
/// where that gives a reply; otherwise the upstream is asked and what it
/// renders is stored with the request's reading and replied.
pub open spec fn run_of(times: Seq<nat>, doc: Seq<char>) -> Run
    decreases times.len(),
{
    if times.len() == 0 {
        Run { slot: None, fetches: 0, replies: Seq::empty() }
    } else {
        let before = run_of(times.drop_last(), doc);
        let now = times.last();
        match before.slot {
            Some((cached, at)) if reply_from(cached, elapsed(at, now)) is Some => Run {
                slot: before.slot,
                fetches: before.fetches,
                replies: before.replies.push(cached),
            },
            _ => Run {
                slot: Some((doc, now)),
                fetches: before.fetches + 1,
                replies: before.replies.push(doc),
            },
        }
    }
}

/// Requests that come within ten minutes of the first ask the upstream once:
/// the first request does, and every later one is answered with what the
/// first one stored.
pub proof fn one_fetch_within_the_window(times: Seq<nat>, doc: Seq<char>)
    requires
        times.len() >= 1,
        forall|i: int| 0 <= i < times.len() ==> times[0] <= #[trigger] times[i] <= times[0]
            + TTL_NANOS,
    ensures
        run_of(times, doc).fetches == 1,
        run_of(times, doc).slot == Some((doc, times[0])),
        run_of(times, doc).replies.len() == times.len(),
        forall|i: int| 0 <= i < times.len() ==> #[trigger] run_of(times, doc).replies[i] == doc,
    decreases times.len(),
{
    let earlier = times.drop_last();
    if times.len() == 1 {
        assert(earlier.len() == 0);
        assert(run_of(earlier, doc).slot is None);
    } else {
        assert(earlier[0] == times[0]);
        assert forall|i: int| 0 <= i < earlier.len() implies earlier[0] <= #[trigger] earlier[i]
            <= earlier[0] + TTL_NANOS by {
            assert(earlier[i] == times[i]);
        }
        one_fetch_within_the_window(earlier, doc);
        let now = times.last();
        assert(times[times.len() - 1] == now);
        assert(fresh(elapsed(times[0], now)));
    }
}

/// A request that comes more than ten minutes after the feed was stored asks
/// the upstream again.
pub proof fn fetch_again_after_the_window(times: Seq<nat>, doc: Seq<char>, later: nat)
    requires
        times.len() >= 1,
        forall|i: int| 0 <= i < times.len() ==> times[0] <= #[trigger] times[i] <= times[0]
            + TTL_NANOS,
        later > times[0] + TTL_NANOS,
    ensures
        run_of(times.push(later), doc).fetches == 2,
        run_of(times.push(later), doc).slot == Some((doc, later)),
{
    one_fetch_within_the_window(times, doc);
    assert(times.push(later).drop_last() =~= times);
    assert(times.push(later).last() == later);
    assert(!fresh(elapsed(times[0], later)));
}

} // verus!
