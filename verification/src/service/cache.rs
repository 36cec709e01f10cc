//! A cache of daily schedules, keyed by province and date, whose entries
//! stay fresh for a time-to-live.
//!
//! Times are nanoseconds on the cache's own monotonic clock. The operations
//! that take a time as an argument (`*_at`) are exact; the ones without read
//! the clock.

use vstd::prelude::*;
use crate::config::AppConfig;
use crate::date::CalendarDate;
use crate::error::AppError;
use crate::models::price::{DailyPriceSchedule, same_schedule};
use crate::models::region::Region;
use crate::text::same_text;

verus! {

/// `std::time::Instant`, the origin of a cache's clock.
#[verifier::external_type_specification]
#[verifier::external_body]
pub struct ExInstant(std::time::Instant);

/// Calls `std::time::Instant::now`. Nothing is claimed of the instant.
#[verifier::external_body]
fn clock_origin() -> std::time::Instant {
    std::time::Instant::now()
}

/// Calls `std::time::Instant::elapsed` and takes its nanoseconds. Nothing is
/// claimed of the value, which depends on the clock.
#[verifier::external_body]
fn nanos_since(origin: &std::time::Instant) -> u128 {
    origin.elapsed().as_nanos()
}

/// A stored schedule and the time it was stored.
#[derive(Debug)]
pub struct CacheEntry {
    pub schedule: DailyPriceSchedule,
    pub inserted_at: u128,
}

/// The key of a stored schedule: its province and its date.
pub open spec fn key_of(e: CacheEntry) -> (Seq<char>, CalendarDate) {
    (e.schedule.region.province@, e.schedule.date)
}

/// Whether no two entries share a key.
pub open spec fn keys_unique(es: Seq<CacheEntry>) -> bool {
    forall|i: int, j: int|
        0 <= i < es.len() && 0 <= j < es.len() && i != j ==> key_of(#[trigger] es[i]) != key_of(#[trigger] es[j])
}

/// Whether entry `i` has key `k`.
pub open spec fn has_key_at(es: Seq<CacheEntry>, k: (Seq<char>, CalendarDate), i: int) -> bool {
    0 <= i < es.len() && key_of(es[i]) == k
}

/// The entry with key `k`, if any.
pub open spec fn lookup(es: Seq<CacheEntry>, k: (Seq<char>, CalendarDate)) -> Option<CacheEntry> {
    if exists|i: int| has_key_at(es, k, i) {
        Some(es[choose|i: int| has_key_at(es, k, i)])
    } else {
        None
    }
}

/// Whether an entry stored at `inserted` is still fresh at `now`: less time
/// than the time-to-live has passed (none where `now` is earlier).
pub open spec fn is_fresh(inserted: int, now: int, ttl: int) -> bool {
    (if now >= inserted {
        now - inserted
    } else {
        0
    }) < ttl
}

/// A cache of daily schedules.
#[derive(Debug)]
pub struct PriceCache {
    entries: Vec<CacheEntry>,
    ttl_nanos: u128,
    origin: std::time::Instant,
}

/// Lemma: with unique keys, the entry at an index with key `k` is the one
/// `lookup` finds.
proof fn lemma_lookup_at(es: Seq<CacheEntry>, i: int)
    requires
        keys_unique(es),
        0 <= i < es.len(),
    ensures
        lookup(es, key_of(es[i])) == Some(es[i]),
{
    let k = key_of(es[i]);
    assert(has_key_at(es, k, i));
    let j = choose|j: int| has_key_at(es, k, j);
    if j != i {
        assert(key_of(es[i]) != key_of(es[j]));
    }
}

/// Lemma: a key held by no entry is found by no lookup.
proof fn lemma_lookup_none(es: Seq<CacheEntry>, k: (Seq<char>, CalendarDate))
    requires
        forall|i: int| 0 <= i < es.len() ==> key_of(#[trigger] es[i]) != k,
    ensures
        lookup(es, k) is None,
{
    if exists|i: int| has_key_at(es, k, i) {
        let i = choose|i: int| has_key_at(es, k, i);
        assert(key_of(es[i]) != k);
    }
}

impl PriceCache {
    /// The cache's invariant: no two entries share a key.
    pub closed spec fn wf(self) -> bool {
        keys_unique(self.entries@)
    }

    /// The time-to-live in nanoseconds.
    pub closed spec fn ttl(self) -> int {
        self.ttl_nanos as int
    }

    /// Whether `t` is a time that the cache's clock can show: a reading of
    /// the nanoseconds elapsed since the cache's origin instant.
    pub closed spec fn clock_shows(self, t: u128) -> bool {
        call_ensures(nanos_since, (&self.origin,), t)
    }

    /// Whether two caches run on one clock (the same origin instant).
    pub closed spec fn same_clock(a: PriceCache, b: PriceCache) -> bool {
        a.origin == b.origin
    }

    /// The entry stored for a province and a date, if any.
    pub closed spec fn entry(self, province: Seq<char>, date: CalendarDate) -> Option<CacheEntry> {
        lookup(self.entries@, (province, date))
    }

    /// What a lookup at time `now` gives: the stored schedule where it is
    /// still fresh.
    pub open spec fn cached_at(self, province: Seq<char>, date: CalendarDate, now: int) -> Option<DailyPriceSchedule> {
        match self.entry(province, date) {
            Some(e) => if is_fresh(e.inserted_at as int, now, self.ttl()) {
                Some(e.schedule)
            } else {
                None
            },
            None => None,
        }
    }

    /// Whether `new` is `old` with `schedule` stored at time `now`, replacing
    /// what its province and date held.
    pub open spec fn stored(old: PriceCache, new: PriceCache, schedule: DailyPriceSchedule, now: int) -> bool {
        &&& new.ttl() == old.ttl()
        &&& forall|p: Seq<char>, d: CalendarDate| #[trigger] new.entry(p, d) == if p == schedule.region.province@
            && d == schedule.date {
            Some(CacheEntry { schedule, inserted_at: now as u128 })
        } else {
            old.entry(p, d)
        }
    }

    /// Whether `new` is `old` without the entries that are stale at `now`.
    pub open spec fn cleaned(old: PriceCache, new: PriceCache, now: int) -> bool {
        &&& new.ttl() == old.ttl()
        &&& forall|p: Seq<char>, d: CalendarDate| #[trigger] new.entry(p, d) == match old.entry(p, d) {
            Some(e) => if is_fresh(e.inserted_at as int, now, old.ttl()) {
                Some(e)
            } else {
                None
            },
            None => None,
        }
    }

    /// Whether `c` holds nothing.
    pub open spec fn is_empty(c: PriceCache) -> bool {
        forall|p: Seq<char>, d: CalendarDate| #[trigger] c.entry(p, d) is None
    }

    /// Whether two caches hold the same entries and time-to-live.
    pub open spec fn same_contents(a: PriceCache, b: PriceCache) -> bool {
        &&& a.ttl() == b.ttl()
        &&& forall|p: Seq<char>, d: CalendarDate| #[trigger] a.entry(p, d) == b.entry(p, d)
    }

    /// An empty cache whose entries stay fresh for the configured number of
    /// seconds.
    pub fn new(config: &AppConfig) -> (r: PriceCache)
        ensures
            r.wf(),
            r.ttl() == config.cache.ttl * 1_000_000_000,
            PriceCache::is_empty(r),
    {
        let r = PriceCache {
            entries: Vec::new(),
            ttl_nanos: (config.cache.ttl as u128) * 1_000_000_000,
            origin: clock_origin(),
        };
        assert forall|p: Seq<char>, d: CalendarDate| #[trigger] r.entry(p, d) is None by {
            lemma_lookup_none(r.entries@, (p, d));
        }
        r
    }

    /// The index of the entry with a province and a date, or the number of
    /// entries where there is none.
    fn find(&self, province: &str, date: &CalendarDate) -> (r: usize)
        ensures
            r <= self.entries@.len(),
            r < self.entries@.len() ==> key_of(self.entries@[r as int]) == (province@, *date),
            r == self.entries@.len() ==> forall|i: int| 0 <= i < self.entries@.len() ==> key_of(
                #[trigger] self.entries@[i],
            ) != (province@, *date),
    {
        let mut i: usize = 0;
        while i < self.entries.len()
            invariant
                i <= self.entries@.len(),
                forall|j: int| 0 <= j < i ==> key_of(#[trigger] self.entries@[j]) != (province@, *date),
            decreases self.entries@.len() - i,
        {
            let e = &self.entries[i];
            if same_text(e.schedule.region.province.as_str(), province) && e.schedule.date == *date {
                return i;
            }
            i = i + 1;
        }
        i
    }

    /// The schedule stored for the region's province and the date, where it
    /// is still fresh at time `now`. Only the province of the region is
    /// looked at: the cities of one province share their entries.
    pub fn get_at(&self, region: &Region, date: &CalendarDate, now: u128) -> (r: Option<DailyPriceSchedule>)
        requires
            self.wf(),
        ensures
            r is Some <==> self.cached_at(region.province@, *date, now as int) is Some,
            r matches Some(s) ==> same_schedule(s, self.cached_at(region.province@, *date, now as int)->0),
    {
        let i = self.find(region.province.as_str(), date);
        if i == self.entries.len() {
            proof {
                lemma_lookup_none(self.entries@, (region.province@, *date));
            }
            return None;
        }
        proof {
            lemma_lookup_at(self.entries@, i as int);
        }
        let e = &self.entries[i];
        let elapsed: u128 = if now >= e.inserted_at {
            now - e.inserted_at
        } else {
            0
        };
        if elapsed < self.ttl_nanos {
            Some(e.schedule.clone())
        } else {
            None
        }
    }

    /// Stores a schedule at time `now` under its province and date,
    /// replacing what they held.
    pub fn set_at(&mut self, schedule: DailyPriceSchedule, now: u128)
        requires
            old(self).wf(),
        ensures
            final(self).wf(),
            PriceCache::stored(*old(self), *final(self), schedule, now as int),
            PriceCache::same_clock(*old(self), *final(self)),
    {
        let ghost old_entries = self.entries@;
        let ghost key = (schedule.region.province@, schedule.date);
        let ghost sched = schedule;
        let i = self.find(schedule.region.province.as_str(), &schedule.date);
        let entry = CacheEntry { schedule, inserted_at: now };
        if i < self.entries.len() {
            self.entries.set(i, entry);
        } else {
            self.entries.push(entry);
        }
        let ghost new_entries = self.entries@;
        proof {
            let k = if i < old_entries.len() {
                i as int
            } else {
                old_entries.len() as int
            };
            assert(new_entries[k] == CacheEntry { schedule: sched, inserted_at: now });
            assert(forall|j: int| 0 <= j < new_entries.len() && j != k ==> new_entries[j] == old_entries[j]);
            assert(keys_unique(new_entries)) by {
                assert forall|a: int, b: int|
                    0 <= a < new_entries.len() && 0 <= b < new_entries.len() && a != b implies key_of(
                    #[trigger] new_entries[a],
                ) != key_of(#[trigger] new_entries[b]) by {
                    if a == k {
                        assert(key_of(old_entries[b]) != key);
                    } else if b == k {
                        assert(key_of(old_entries[a]) != key);
                    } else {
                        assert(key_of(old_entries[a]) != key_of(old_entries[b]));
                    }
                }
            }
            assert forall|p: Seq<char>, d: CalendarDate| #[trigger] lookup(new_entries, (p, d)) == if p
                == sched.region.province@ && d == sched.date {
                Some(CacheEntry { schedule: sched, inserted_at: now })
            } else {
                lookup(old_entries, (p, d))
            } by {
                if p == sched.region.province@ && d == sched.date {
                    lemma_lookup_at(new_entries, k);
                } else if exists|j: int| has_key_at(old_entries, (p, d), j) {
                    let j = choose|j: int| has_key_at(old_entries, (p, d), j);
                    lemma_lookup_at(old_entries, j);
                    lemma_lookup_at(new_entries, j);
                } else {
                    assert forall|j: int| 0 <= j < new_entries.len() implies key_of(
                        #[trigger] new_entries[j],
                    ) != (p, d) by {
                        if j != k {
                            assert(!has_key_at(old_entries, (p, d), j));
                        }
                    }
                    lemma_lookup_none(new_entries, (p, d));
                    lemma_lookup_none(old_entries, (p, d));
                }
            }
        }
    }

    /// Forgets every entry.
    pub fn clear(&mut self)
        requires
            old(self).wf(),
        ensures
            final(self).wf(),
            final(self).ttl() == old(self).ttl(),
            PriceCache::is_empty(*final(self)),
            PriceCache::same_clock(*old(self), *final(self)),
    {
        self.entries = Vec::new();
        assert forall|p: Seq<char>, d: CalendarDate| #[trigger] self.entry(p, d) is None by {
            lemma_lookup_none(self.entries@, (p, d));
        }
    }

    /// Forgets the entries that are stale at time `now`.
    pub fn cleanup_expired_at(&mut self, now: u128)
        requires
            old(self).wf(),
        ensures
            final(self).wf(),
            PriceCache::cleaned(*old(self), *final(self), now as int),
            PriceCache::same_clock(*old(self), *final(self)),
    {
        let ghost old_entries = self.entries@;
        let mut rest: Vec<CacheEntry> = Vec::new();
        std::mem::swap(&mut rest, &mut self.entries);
        let mut kept: Vec<CacheEntry> = Vec::new();
        let ghost mut idx: Seq<int> = seq![];
        let ttl = self.ttl_nanos;
        while rest.len() > 0
            invariant
                ttl == self.ttl_nanos,
                keys_unique(old_entries),
                rest@ == old_entries.subrange(0, rest@.len() as int),
                rest@.len() <= old_entries.len(),
                keys_unique(kept@),
                idx.len() == kept@.len(),
                forall|j: int| 0 <= j < kept@.len() ==> rest@.len() <= #[trigger] idx[j] < old_entries.len()
                    && kept@[j] == old_entries[idx[j]]
                    && is_fresh(old_entries[idx[j]].inserted_at as int, now as int, ttl as int),
                forall|i: int| rest@.len() <= i < old_entries.len() && is_fresh(
                    (#[trigger] old_entries[i]).inserted_at as int,
                    now as int,
                    ttl as int,
                ) ==> exists|j: int| 0 <= j < kept@.len() && kept@[j] == old_entries[i],
            decreases rest@.len(),
        {
            let ghost n = rest@.len();
            let e = rest.pop().unwrap();
            assert(e == old_entries[n - 1]);
            let elapsed: u128 = if now >= e.inserted_at {
                now - e.inserted_at
            } else {
                0
            };
            if elapsed < ttl {
                let ghost before = kept@;
                let ghost before_idx = idx;
                proof {
                    assert forall|j: int| 0 <= j < before.len() implies key_of(#[trigger] before[j]) != key_of(e) by {
                        assert(key_of(old_entries[before_idx[j]]) != key_of(old_entries[n - 1]));
                    }
                }
                kept.push(e);
                proof {
                    idx = idx.push(n - 1);
                    assert(kept@[before.len() as int] == old_entries[n - 1]);
                    assert forall|j: int| 0 <= j < before.len() implies kept@[j] == before[j] && idx[j] == before_idx[j] by {}
                    assert forall|i: int| n - 1 <= i < old_entries.len() && is_fresh(
                        (#[trigger] old_entries[i]).inserted_at as int,
                        now as int,
                        ttl as int,
                    ) implies exists|j: int| 0 <= j < kept@.len() && kept@[j] == old_entries[i] by {
                        if i == n - 1 {
                            assert(kept@[before.len() as int] == old_entries[i]);
                        } else {
                            let j = choose|j: int| 0 <= j < before.len() && before[j] == old_entries[i];
                            assert(kept@[j] == before[j]);
                        }
                    }
                }
            }
            proof {
                assert(rest@ =~= old_entries.subrange(0, rest@.len() as int));
            }
        }
        self.entries = kept;
        proof {
            let ne = self.entries@;
            assert forall|p: Seq<char>, d: CalendarDate| #[trigger] lookup(ne, (p, d)) == match lookup(
                old_entries,
                (p, d),
            ) {
                Some(e) => if is_fresh(e.inserted_at as int, now as int, ttl as int) {
                    Some(e)
                } else {
                    None
                },
                None => None,
            } by {
                if exists|i: int| has_key_at(old_entries, (p, d), i) {
                    let i = choose|i: int| has_key_at(old_entries, (p, d), i);
                    lemma_lookup_at(old_entries, i);
                    if is_fresh(old_entries[i].inserted_at as int, now as int, ttl as int) {
                        let j = choose|j: int| 0 <= j < ne.len() && ne[j] == old_entries[i];
                        lemma_lookup_at(ne, j);
                    } else {
                        assert forall|j: int| 0 <= j < ne.len() implies key_of(#[trigger] ne[j]) != (p, d) by {
                            let i2 = idx[j];
                            if i2 != i {
                                assert(key_of(old_entries[i2]) != key_of(old_entries[i]));
                            }
                        }
                        lemma_lookup_none(ne, (p, d));
                    }
                } else {
                    assert forall|j: int| 0 <= j < ne.len() implies key_of(#[trigger] ne[j]) != (p, d) by {
                        let i2 = idx[j];
                        assert(!has_key_at(old_entries, (p, d), i2));
                    }
                    assert forall|i: int| 0 <= i < old_entries.len() implies key_of(#[trigger] old_entries[i]) != (p, d) by {
                        assert(!has_key_at(old_entries, (p, d), i));
                    }
                    lemma_lookup_none(ne, (p, d));
                    lemma_lookup_none(old_entries, (p, d));
                }
            }
        }
    }

    /// Whether `r` is what a lookup of a province and a date at time `t`
    /// gives.
    pub open spec fn found_at(self, province: Seq<char>, date: CalendarDate, t: int, r: Option<DailyPriceSchedule>) -> bool {
        &&& r is Some <==> self.cached_at(province, date, t) is Some
        &&& r matches Some(s) ==> same_schedule(s, self.cached_at(province, date, t)->0)
    }

    /// The schedule stored for the region's province and the date, where it
    /// is still fresh now: the result is the lookup at a reading of the
    /// cache's clock taken during the call; a result is the stored schedule,
    /// and nothing stored gives `None`.
    pub fn get(&self, region: &Region, date: &CalendarDate) -> (r: Option<DailyPriceSchedule>)
        requires
            self.wf(),
        ensures
            exists|t: u128| #[trigger] self.clock_shows(t) && self.found_at(region.province@, *date, t as int, r),
            r matches Some(s) ==> (self.entry(region.province@, *date) matches Some(e) && same_schedule(
                s,
                e.schedule,
            )),
            self.entry(region.province@, *date) is None ==> r is None,
    {
        let now = nanos_since(&self.origin);
        let r = self.get_at(region, date, now);
        assert(self.clock_shows(now) && self.found_at(region.province@, *date, now as int, r));
        r
    }

    /// Stores a schedule now under its province and date.
    pub fn set(&mut self, schedule: DailyPriceSchedule)
        requires
            old(self).wf(),
        ensures
            final(self).wf(),
            PriceCache::same_clock(*old(self), *final(self)),
            exists|t: u128| #[trigger] old(self).clock_shows(t)
                && PriceCache::stored(*old(self), *final(self), schedule, t as int),
    {
        let now = nanos_since(&self.origin);
        assert(self.clock_shows(now));
        self.set_at(schedule, now);
    }

    /// Forgets the entries that are stale now.
    pub fn cleanup_expired(&mut self)
        requires
            old(self).wf(),
        ensures
            final(self).wf(),
            PriceCache::same_clock(*old(self), *final(self)),
            exists|t: u128| #[trigger] old(self).clock_shows(t)
                && PriceCache::cleaned(*old(self), *final(self), t as int),
    {
        let now = nanos_since(&self.origin);
        assert(self.clock_shows(now));
        self.cleanup_expired_at(now);
    }

    /// The schedule fresh in the cache at time `now`; otherwise what the
    /// fetcher gives, stored at time `now` where it is a schedule.
    pub fn get_or_fetch_at<F: FnOnce() -> Result<DailyPriceSchedule, AppError>>(
        &mut self,
        region: &Region,
        date: &CalendarDate,
        now: u128,
        fetcher: F,
    ) -> (r: Result<DailyPriceSchedule, AppError>)
        requires
            old(self).wf(),
            call_requires(fetcher, ()),
        ensures
            final(self).wf(),
            PriceCache::same_clock(*old(self), *final(self)),
            PriceCache::lookup_or_fetch(
                *old(self),
                *final(self),
                region.province@,
                *date,
                now as int,
                now as int,
                r,
                fetcher,
            ),
    {
        match self.get_at(region, date, now) {
            Some(cached) => Ok(cached),
            None => {
                let out = fetcher();
                let ghost out_g = out;
                let ghost before = *self;
                let r = match out {
                    Ok(schedule) => {
                        let copy = schedule.clone();
                        self.set_at(schedule, now);
                        Ok(copy)
                    },
                    Err(e) => Err(e),
                };
                assert(PriceCache::fetched(before, *self, out_g, r, now as int));
                assert(call_ensures(fetcher, (), out_g));
                r
            },
        }
    }

    /// Whether `r` and `new` are what a lookup at time `t1`, falling back to
    /// the fetcher with its answer stored at time `t2`, makes of `old`: a
    /// schedule fresh at `t1` is handed back and nothing changes; otherwise
    /// the fetcher's answer is handed back and, where it is a schedule,
    /// stored.
    pub open spec fn lookup_or_fetch<F: FnOnce() -> Result<DailyPriceSchedule, AppError>>(
        old: PriceCache,
        new: PriceCache,
        province: Seq<char>,
        date: CalendarDate,
        t1: int,
        t2: int,
        r: Result<DailyPriceSchedule, AppError>,
        fetcher: F,
    ) -> bool {
        match old.cached_at(province, date, t1) {
            Some(c) => r matches Ok(s) && same_schedule(s, c) && PriceCache::same_contents(old, new),
            None => exists|out: Result<DailyPriceSchedule, AppError>|
                #[trigger] call_ensures(fetcher, (), out) && PriceCache::fetched(old, new, out, r, t2),
        }
    }

    /// Whether `r` and `new` are what fetching `out` at time `now` makes of
    /// `old`: a schedule is stored and handed back, an error is handed back
    /// and nothing changes.
    pub open spec fn fetched(
        old: PriceCache,
        new: PriceCache,
        out: Result<DailyPriceSchedule, AppError>,
        r: Result<DailyPriceSchedule, AppError>,
        now: int,
    ) -> bool {
        match out {
            Ok(s) => r matches Ok(x) && same_schedule(x, s) && PriceCache::stored(old, new, s, now),
            Err(e) => r == Err::<DailyPriceSchedule, AppError>(e) && PriceCache::same_contents(old, new),
        }
    }

    /// The schedule fresh in the cache now; otherwise what the fetcher
    /// gives, stored when it arrives. The clock gives the two times: the
    /// lookup's and the store's.
    pub fn get_or_fetch<F: FnOnce() -> Result<DailyPriceSchedule, AppError>>(
        &mut self,
        region: &Region,
        date: &CalendarDate,
        fetcher: F,
    ) -> (r: Result<DailyPriceSchedule, AppError>)
        requires
            old(self).wf(),
            call_requires(fetcher, ()),
        ensures
            final(self).wf(),
            PriceCache::same_clock(*old(self), *final(self)),
            exists|t1: u128, t2: u128|
                old(self).clock_shows(t1) && old(self).clock_shows(t2) &&
                #[trigger] PriceCache::lookup_or_fetch(
                    *old(self),
                    *final(self),
                    region.province@,
                    *date,
                    t1 as int,
                    t2 as int,
                    r,
                    fetcher,
                ),
    {
        let now = nanos_since(&self.origin);
        assert(self.clock_shows(now));
        let ghost before = *self;
        match self.get_at(region, date, now) {
            Some(cached) => {
                let r = Ok(cached);
                assert(PriceCache::lookup_or_fetch(before, *self, region.province@, *date, now as int, now as int, r, fetcher));
                r
            },
            None => {
                let out = fetcher();
                let ghost out_g = out;
                let later = nanos_since(&self.origin);
                assert(self.clock_shows(later));
                let r = match out {
                    Ok(schedule) => {
                        let copy = schedule.clone();
                        self.set_at(schedule, later);
                        Ok(copy)
                    },
                    Err(e) => Err(e),
                };
                assert(PriceCache::fetched(before, *self, out_g, r, later as int));
                assert(call_ensures(fetcher, (), out_g));
                assert(PriceCache::lookup_or_fetch(before, *self, region.province@, *date, now as int, later as int, r, fetcher));
                r
            },
        }
    }
}

/// Read after write: once a schedule is stored at time `now`, a lookup of
/// its province and date at time `t` gives it back while it is fresh and
/// nothing after. Any city of the province finds it.
pub proof fn law_lookup_after_store(old: PriceCache, new: PriceCache, schedule: DailyPriceSchedule, now: int, t: int)
    requires
        0 <= now < u128::MAX,
        PriceCache::stored(old, new, schedule, now),
    ensures
        new.cached_at(schedule.region.province@, schedule.date, t) == if is_fresh(now, t, new.ttl()) {
            Some(schedule)
        } else {
            None
        },
{
    assert(new.entry(schedule.region.province@, schedule.date) == Some(
        CacheEntry { schedule, inserted_at: now as u128 },
    ));
}

/// Storing a schedule leaves every other province and date as it was.
pub proof fn law_store_keeps_others(
    old: PriceCache,
    new: PriceCache,
    schedule: DailyPriceSchedule,
    now: int,
    province: Seq<char>,
    date: CalendarDate,
    t: int,
)
    requires
        PriceCache::stored(old, new, schedule, now),
        province != schedule.region.province@ || date != schedule.date,
    ensures
        new.cached_at(province, date, t) == old.cached_at(province, date, t),
{
    assert(new.entry(province, date) == old.entry(province, date));
}

/// After clearing, no lookup finds anything.
pub proof fn law_cleared_finds_nothing(c: PriceCache, province: Seq<char>, date: CalendarDate, t: int)
    requires
        PriceCache::is_empty(c),
    ensures
        c.cached_at(province, date, t) is None,
{
    assert(c.entry(province, date) is None);
}

/// Dropping stale entries at time `now` changes no lookup made then or
/// later: what it drops no lookup would have found.
pub proof fn law_cleanup_unseen(old: PriceCache, new: PriceCache, now: int, province: Seq<char>, date: CalendarDate, t: int)
    requires
        PriceCache::cleaned(old, new, now),
        now <= t,
    ensures
        new.cached_at(province, date, t) == old.cached_at(province, date, t),
{
    assert(new.entry(province, date) == match old.entry(province, date) {
        Some(e) => if is_fresh(e.inserted_at as int, now, old.ttl()) {
            Some(e)
        } else {
            None
        },
        None => None,
    });
}

/// With a time-to-live of zero nothing is ever found.
pub proof fn law_zero_ttl_finds_nothing(c: PriceCache, province: Seq<char>, date: CalendarDate, t: int)
    requires
        c.ttl() == 0,
    ensures
        c.cached_at(province, date, t) is None,
{
}

/// Entries expire on the cache's clock: after a schedule is stored at time
/// `stored_at`, a `get` of its province and date answers at a reading `t`
/// of the clock; it hands the schedule back when less than the time-to-live
/// has passed from `stored_at` to `t`, and nothing once the time-to-live has
/// passed.
pub proof fn law_get_expires_after_ttl(
    old: PriceCache,
    new: PriceCache,
    schedule: DailyPriceSchedule,
    stored_at: u128,
    region: Region,
    date: CalendarDate,
    r: Option<DailyPriceSchedule>,
)
    requires
        stored_at < u128::MAX,
        PriceCache::stored(old, new, schedule, stored_at as int),
        region.province@ == schedule.region.province@,
        date == schedule.date,
        call_ensures(PriceCache::get, (&new, &region, &date), r),
    ensures
        exists|t: u128| #[trigger] new.clock_shows(t) && {
            &&& t >= stored_at + new.ttl() ==> r is None
            &&& stored_at <= t < stored_at + new.ttl() ==> (r matches Some(x) && same_schedule(x, schedule))
        },
{
    let t = choose|t: u128| #[trigger] new.clock_shows(t) && new.found_at(region.province@, date, t as int, r);
    law_lookup_after_store(old, new, schedule, stored_at as int, t as int);
    assert(new.clock_shows(t));
}

}
