//! The on-demand fetch of a missing daily challenge: one attempt per site and day at a
//! time, a pause after a failed attempt, and a cleanup that only removes its own entry.
//!
//! Time is monotonic and counted in nanoseconds from an origin that the caller picks.

use vstd::prelude::*;
use std::collections::HashMap;
use crate::date::CalendarDate;
use crate::domain::LeetCodeDomain;
use crate::status::CrawlerStatus;

verus! {

/// How long after a failed attempt no new attempt is made, in nanoseconds.
pub const COOLDOWN_NANOS: u64 = 30_000_000_000;

/// The number of seconds after which a client is told to ask again while an attempt runs.
pub const RUNNING_RETRY_SECS: u64 = 30;

pub const NANOS_PER_SEC: u64 = 1_000_000_000;

/// One attempt to fetch the challenge of a site and day.
#[derive(Debug, Clone, Copy, PartialEq, Eq, Structural)]
pub struct DailyFallbackEntry {
    pub status: CrawlerStatus,
    /// When the attempt was claimed. It identifies the attempt.
    pub started_at: u64,
    /// Until when no new attempt may start, if the attempt failed.
    pub cooldown_until: Option<u64>,
}

/// The answer to a request that found no challenge in the catalog.
#[derive(Debug, Clone, Copy, PartialEq, Eq, Structural)]
pub enum FallbackClaim {
    /// An attempt runs or pauses; the client should ask again in `retry_after` seconds.
    Busy { retry_after: u64 },
    /// The request claimed a new attempt and has to start the helper.
    Claimed,
}

/// What can happen to the attempts.
pub enum FallbackEvent {
    Claim { key: u64, now: u64 },
    SpawnFailed { key: u64, claimed_at: u64 },
    Finished { key: u64, status: CrawlerStatus, now: u64 },
    Cleanup { key: u64, started_at: u64 },
}

/// The key of a site and day: the year, counted from the least year there is, then
/// month, day and site, each in digits of its own.
pub open spec fn key_of(domain: LeetCodeDomain, date: CalendarDate) -> int {
    (((date.year - i32::MIN) * 16 + date.month) * 32 + date.day) * 2 + match domain {
        LeetCodeDomain::Com => 0int,
        LeetCodeDomain::Cn => 1int,
    }
}

/// The key under which the attempts for a site and day are kept.
pub fn fallback_key(domain: LeetCodeDomain, date: CalendarDate) -> (key: u64)
    ensures
        key == key_of(domain, date),
{
    let y: u64 = (date.year as i64 - i32::MIN as i64) as u64;
    let site: u64 = match domain {
        LeetCodeDomain::Com => 0,
        LeetCodeDomain::Cn => 1,
    };
    ((y * 16 + date.month as u64) * 32 + date.day as u64) * 2 + site
}

/// Two different pairs of site and day of the calendar never share a key.
pub proof fn law_key_identifies_site_and_day(
    d1: LeetCodeDomain,
    date1: CalendarDate,
    d2: LeetCodeDomain,
    date2: CalendarDate,
)
    requires
        date1.in_calendar_range(),
        date2.in_calendar_range(),
        key_of(d1, date1) == key_of(d2, date2),
    ensures
        d1 == d2,
        date1 == date2,
{
}

/// What a request is told, given the attempts known at `now`.
pub open spec fn claim_answer(m: Map<u64, DailyFallbackEntry>, key: u64, now: u64) -> FallbackClaim {
    if m.contains_key(key) && m[key].status == CrawlerStatus::Running {
        FallbackClaim::Busy { retry_after: RUNNING_RETRY_SECS }
    } else if m.contains_key(key) && m[key].cooldown_until is Some && now
        < m[key].cooldown_until->0 {
        FallbackClaim::Busy {
            retry_after: ((m[key].cooldown_until->0 - now) / NANOS_PER_SEC as int) as u64,
        }
    } else {
        FallbackClaim::Claimed
    }
}

/// A claim that succeeds puts a fresh running attempt under the key.
pub open spec fn claimed(m: Map<u64, DailyFallbackEntry>, key: u64, now: u64) -> Map<
    u64,
    DailyFallbackEntry,
> {
    if claim_answer(m, key, now) == FallbackClaim::Claimed {
        m.insert(
            key,
            DailyFallbackEntry {
                status: CrawlerStatus::Running,
                started_at: now,
                cooldown_until: None,
            },
        )
    } else {
        m
    }
}

/// A helper that could not be started fails the attempt; the pause counts from the claim.
pub open spec fn spawn_failed(m: Map<u64, DailyFallbackEntry>, key: u64, claimed_at: u64) -> Map<
    u64,
    DailyFallbackEntry,
> {
    if m.contains_key(key) {
        m.insert(
            key,
            DailyFallbackEntry {
                status: CrawlerStatus::Failed,
                cooldown_until: Some((claimed_at + COOLDOWN_NANOS) as u64),
                ..m[key]
            },
        )
    } else {
        m
    }
}

/// The pause that follows an attempt which ended at `now`: none after success.
pub open spec fn cooldown_after(status: CrawlerStatus, now: u64) -> Option<u64> {
    if status != CrawlerStatus::Completed {
        Some((now + COOLDOWN_NANOS) as u64)
    } else {
        None
    }
}

/// The end of the helper sets the state of the attempt and its pause.
pub open spec fn finished(
    m: Map<u64, DailyFallbackEntry>,
    key: u64,
    status: CrawlerStatus,
    now: u64,
) -> Map<u64, DailyFallbackEntry> {
    if m.contains_key(key) {
        m.insert(
            key,
            DailyFallbackEntry { status, cooldown_until: cooldown_after(status, now), ..m[key] },
        )
    } else {
        m
    }
}

/// A cleanup removes the entry under the key if it is the attempt that scheduled the
/// cleanup, and leaves a newer attempt alone.
pub open spec fn cleaned(m: Map<u64, DailyFallbackEntry>, key: u64, started_at: u64) -> Map<
    u64,
    DailyFallbackEntry,
> {
    if m.contains_key(key) && m[key].started_at == started_at {
        m.remove(key)
    } else {
        m
    }
}

pub open spec fn fallback_step(m: Map<u64, DailyFallbackEntry>, ev: FallbackEvent) -> Map<
    u64,
    DailyFallbackEntry,
> {
    match ev {
        FallbackEvent::Claim { key, now } => claimed(m, key, now),
        FallbackEvent::SpawnFailed { key, claimed_at } => spawn_failed(m, key, claimed_at),
        FallbackEvent::Finished { key, status, now } => finished(m, key, status, now),
        FallbackEvent::Cleanup { key, started_at } => cleaned(m, key, started_at),
    }
}

/// The attempts to fetch missing daily challenges, by key.
pub struct FallbackMap {
    entries: HashMap<u64, DailyFallbackEntry>,
}

impl View for FallbackMap {
    type V = Map<u64, DailyFallbackEntry>;

    closed spec fn view(&self) -> Map<u64, DailyFallbackEntry> {
        self.entries@
    }
}

impl FallbackMap {
    pub fn new() -> (m: FallbackMap)
        ensures
            m@ == Map::<u64, DailyFallbackEntry>::empty(),
    {
        FallbackMap { entries: HashMap::new() }
    }

    /// The attempt kept under the key.
    pub fn get(&self, key: u64) -> (r: Option<DailyFallbackEntry>)
        ensures
            match r {
                Some(e) => self@.contains_key(key) && self@[key] == e,
                None => !self@.contains_key(key),
            },
    {
        match self.entries.get(&key) {
            Some(e) => Some(*e),
            None => None,
        }
    }

    /// Answers a request that found no challenge, and claims a new attempt where
    /// none runs and none pauses. Check and claim are one step.
    pub fn claim(&mut self, key: u64, now: u64) -> (r: FallbackClaim)
        ensures
            r == claim_answer(old(self)@, key, now),
            final(self)@ == claimed(old(self)@, key, now),
    {
        match self.get(key) {
            Some(e) => {
                if e.status.is_running() {
                    return FallbackClaim::Busy { retry_after: RUNNING_RETRY_SECS };
                }
                if let Some(until) = e.cooldown_until {
                    if now < until {
                        return FallbackClaim::Busy { retry_after: (until - now) / NANOS_PER_SEC };
                    }
                }
            },
            None => {},
        }
        self.entries.insert(
            key,
            DailyFallbackEntry {
                status: CrawlerStatus::Running,
                started_at: now,
                cooldown_until: None,
            },
        );
        FallbackClaim::Claimed
    }

    /// Records that the helper of the attempt claimed at `claimed_at` could not be started.
    pub fn spawn_failed(&mut self, key: u64, claimed_at: u64)
        requires
            claimed_at + COOLDOWN_NANOS <= u64::MAX,
        ensures
            final(self)@ == spawn_failed(old(self)@, key, claimed_at),
    {
        if let Some(e) = self.get(key) {
            self.entries.insert(
                key,
                DailyFallbackEntry {
                    status: CrawlerStatus::Failed,
                    started_at: e.started_at,
                    cooldown_until: Some(claimed_at + COOLDOWN_NANOS),
                },
            );
        }
    }

    /// Records how the attempt ended at `now`.
    pub fn finish(&mut self, key: u64, status: CrawlerStatus, now: u64)
        requires
            now + COOLDOWN_NANOS <= u64::MAX,
        ensures
            final(self)@ == finished(old(self)@, key, status, now),
    {
        let cooldown = match status {
            CrawlerStatus::Completed => None,
            _ => Some(now + COOLDOWN_NANOS),
        };
        if let Some(e) = self.get(key) {
            self.entries.insert(
                key,
                DailyFallbackEntry { status, started_at: e.started_at, cooldown_until: cooldown },
            );
        }
    }

    /// Removes the entry under the key if it still is the attempt that was claimed at
    /// `started_at`. Says whether it removed one.
    pub fn cleanup(&mut self, key: u64, started_at: u64) -> (removed: bool)
        ensures
            final(self)@ == cleaned(old(self)@, key, started_at),
            removed == (old(self)@.contains_key(key) && old(self)@[key].started_at == started_at),
    {
        match self.get(key) {
            Some(e) => {
                if e.started_at == started_at {
                    let _ = self.entries.remove(&key);
                    true
                } else {
                    false
                }
            },
            None => false,
        }
    }
}

/// An entry leaves only through a cleanup that names its key and the time at which
/// the attempt was claimed.
pub proof fn law_only_matching_cleanup_removes(
    m: Map<u64, DailyFallbackEntry>,
    ev: FallbackEvent,
    key: u64,
)
    requires
        m.contains_key(key),
        !fallback_step(m, ev).contains_key(key),
    ensures
        ev == (FallbackEvent::Cleanup { key, started_at: m[key].started_at }),
{
}

/// A cleanup scheduled by an earlier attempt leaves the entry of a newer attempt as it is.
pub proof fn law_stale_cleanup_keeps_newer(
    m: Map<u64, DailyFallbackEntry>,
    key: u64,
    started_at: u64,
)
    requires
        m.contains_key(key),
        m[key].started_at != started_at,
    ensures
        cleaned(m, key, started_at) == m,
{
}

/// While an attempt runs, every further request for the same key is told to ask
/// again in `RUNNING_RETRY_SECS` seconds and starts nothing.
pub proof fn law_running_attempt_is_not_repeated(
    m: Map<u64, DailyFallbackEntry>,
    key: u64,
    first: u64,
    later: u64,
)
    requires
        claim_answer(m, key, first) == FallbackClaim::Claimed,
    ensures
        claim_answer(claimed(m, key, first), key, later) == (FallbackClaim::Busy {
            retry_after: RUNNING_RETRY_SECS,
        }),
        claimed(claimed(m, key, first), key, later) == claimed(m, key, first),
{
}

/// After a failed attempt a request within the pause is told to wait no longer than
/// the pause, and starts nothing.
pub proof fn law_cooldown_bounds_retry(
    m: Map<u64, DailyFallbackEntry>,
    key: u64,
    status: CrawlerStatus,
    ended: u64,
    now: u64,
)
    requires
        m.contains_key(key),
        status.is_terminal(),
        status != CrawlerStatus::Completed,
        ended + COOLDOWN_NANOS <= u64::MAX,
        ended <= now < ended + COOLDOWN_NANOS,
    ensures
        claim_answer(finished(m, key, status, ended), key, now) matches FallbackClaim::Busy {
            retry_after,
        } && retry_after <= COOLDOWN_NANOS / NANOS_PER_SEC,
        claimed(finished(m, key, status, ended), key, now) == finished(m, key, status, ended),
{
}

} // verus!
