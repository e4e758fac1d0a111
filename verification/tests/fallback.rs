use oj_api::date::CalendarDate;
use oj_api::domain::LeetCodeDomain;
use oj_api::fallback::{
    fallback_key, DailyFallbackEntry, FallbackClaim, FallbackMap, COOLDOWN_NANOS,
    RUNNING_RETRY_SECS,
};
use oj_api::status::CrawlerStatus;

const SEC: u64 = 1_000_000_000;

fn key() -> u64 {
    fallback_key(LeetCodeDomain::Com, CalendarDate { year: 2024, month: 1, day: 15 })
}

#[test]
fn four_misses_start_one_attempt() {
    let mut map = FallbackMap::new();
    assert_eq!(map.claim(key(), 5 * SEC), FallbackClaim::Claimed);
    for _ in 0..3 {
        assert_eq!(map.claim(key(), 6 * SEC), FallbackClaim::Busy { retry_after: 30 });
    }
    assert_eq!(RUNNING_RETRY_SECS, 30);
    let entry = map.get(key()).unwrap();
    assert_eq!(
        entry,
        DailyFallbackEntry { status: CrawlerStatus::Running, started_at: 5 * SEC, cooldown_until: None }
    );
}

#[test]
fn failed_attempt_pauses_for_thirty_seconds() {
    let mut map = FallbackMap::new();
    map.claim(key(), 0);
    map.finish(key(), CrawlerStatus::Failed, 100 * SEC);
    let entry = map.get(key()).unwrap();
    assert_eq!(entry.status, CrawlerStatus::Failed);
    assert_eq!(entry.started_at, 0);
    assert_eq!(entry.cooldown_until, Some(130 * SEC));
    assert_eq!(COOLDOWN_NANOS, 30 * SEC);
    assert_eq!(map.claim(key(), 100 * SEC), FallbackClaim::Busy { retry_after: 30 });
    assert_eq!(map.claim(key(), 110 * SEC), FallbackClaim::Busy { retry_after: 20 });
    assert_eq!(map.claim(key(), 129 * SEC + 1), FallbackClaim::Busy { retry_after: 0 });
    assert_eq!(map.get(key()).unwrap().started_at, 0);
    assert_eq!(map.claim(key(), 130 * SEC), FallbackClaim::Claimed);
    let entry = map.get(key()).unwrap();
    assert_eq!(entry.status, CrawlerStatus::Running);
    assert_eq!(entry.started_at, 130 * SEC);
    assert_eq!(entry.cooldown_until, None);
}

#[test]
fn timed_out_and_cancelled_attempts_pause_too() {
    for status in [CrawlerStatus::TimedOut, CrawlerStatus::Cancelled] {
        let mut map = FallbackMap::new();
        map.claim(key(), 0);
        map.finish(key(), status, 10 * SEC);
        assert_eq!(map.get(key()).unwrap().cooldown_until, Some(40 * SEC));
        assert_eq!(map.claim(key(), 15 * SEC), FallbackClaim::Busy { retry_after: 25 });
    }
}

#[test]
fn completed_attempt_has_no_pause() {
    let mut map = FallbackMap::new();
    map.claim(key(), 0);
    map.finish(key(), CrawlerStatus::Completed, 10 * SEC);
    let entry = map.get(key()).unwrap();
    assert_eq!(entry.status, CrawlerStatus::Completed);
    assert_eq!(entry.cooldown_until, None);
    assert_eq!(map.claim(key(), 11 * SEC), FallbackClaim::Claimed);
}

#[test]
fn failed_spawn_pauses_from_the_claim() {
    let mut map = FallbackMap::new();
    map.claim(key(), 7 * SEC);
    map.spawn_failed(key(), 7 * SEC);
    let entry = map.get(key()).unwrap();
    assert_eq!(entry.status, CrawlerStatus::Failed);
    assert_eq!(entry.started_at, 7 * SEC);
    assert_eq!(entry.cooldown_until, Some(37 * SEC));
}

#[test]
fn cleanup_removes_its_own_entry() {
    let mut map = FallbackMap::new();
    map.claim(key(), 3);
    map.finish(key(), CrawlerStatus::Completed, 4);
    assert!(map.cleanup(key(), 3));
    assert!(map.get(key()).is_none());
    assert!(!map.cleanup(key(), 3));
}

#[test]
fn stale_cleanup_leaves_newer_attempt() {
    let mut map = FallbackMap::new();
    map.claim(key(), 3);
    map.finish(key(), CrawlerStatus::Completed, 4);
    assert_eq!(map.claim(key(), 50), FallbackClaim::Claimed);
    assert!(!map.cleanup(key(), 3));
    let entry = map.get(key()).unwrap();
    assert_eq!(entry.started_at, 50);
    assert_eq!(entry.status, CrawlerStatus::Running);
    assert!(map.cleanup(key(), 50));
    assert!(map.get(key()).is_none());
}

#[test]
fn events_on_unknown_key_change_nothing() {
    let mut map = FallbackMap::new();
    map.finish(key(), CrawlerStatus::Failed, 1);
    map.spawn_failed(key(), 1);
    assert!(!map.cleanup(key(), 1));
    assert!(map.get(key()).is_none());
}

#[test]
fn keys_tell_sites_and_days_apart() {
    let d1 = CalendarDate { year: 2024, month: 1, day: 15 };
    let d2 = CalendarDate { year: 2024, month: 1, day: 16 };
    let d3 = CalendarDate { year: 2024, month: 2, day: 15 };
    let d4 = CalendarDate { year: 2023, month: 1, day: 15 };
    let keys = [
        fallback_key(LeetCodeDomain::Com, d1),
        fallback_key(LeetCodeDomain::Cn, d1),
        fallback_key(LeetCodeDomain::Com, d2),
        fallback_key(LeetCodeDomain::Com, d3),
        fallback_key(LeetCodeDomain::Com, d4),
    ];
    for i in 0..keys.len() {
        for j in 0..keys.len() {
            assert_eq!(keys[i] == keys[j], i == j);
        }
    }
    let mut map = FallbackMap::new();
    assert_eq!(map.claim(keys[0], 0), FallbackClaim::Claimed);
    assert_eq!(map.claim(keys[1], 0), FallbackClaim::Claimed);
    assert_eq!(map.claim(keys[0], 1), FallbackClaim::Busy { retry_after: 30 });
}

#[test]
fn key_has_the_stated_value() {
    let date = CalendarDate { year: 2024, month: 1, day: 15 };
    let year = 2024u64 + 2147483648u64;
    assert_eq!(fallback_key(LeetCodeDomain::Com, date), ((year * 16 + 1) * 32 + 15) * 2);
    assert_eq!(fallback_key(LeetCodeDomain::Cn, date), ((year * 16 + 1) * 32 + 15) * 2 + 1);
}
