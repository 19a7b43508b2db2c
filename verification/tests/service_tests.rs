use block_demo::browser_pool::BrowserPool;
use block_demo::local_cache_util::{Expiration, LocalCache};
use block_demo::screen_shot_util::{
    CaptureEvent, CaptureQuery, CaptureStep, ScreenShotUtil,
};
use block_demo::svg_chat_service::{RetryDecision, SVGChatService, retry_step};

const PREFIX: &str = "data:image/png;base64,";

#[test]
fn pool_reuses_live_session() {
    let mut pool = BrowserPool::new();
    let (g1, built1) = pool.acquire(false);
    assert!(built1);
    assert_eq!(g1, 1);
    // the session stays alive: both later acquisitions return it unchanged
    let (g2, built2) = pool.acquire(true);
    assert_eq!((g2, built2), (g1, false));
    let (g3, built3) = pool.acquire(true);
    assert_eq!((g3, built3), (g1, false));
}

#[test]
fn pool_recreates_after_dead_probe() {
    let mut pool = BrowserPool::new();
    let (g1, _) = pool.acquire(true);
    // the session was killed between the calls: the probe fails
    let (g2, built2) = pool.acquire(false);
    assert!(built2);
    assert_ne!(g2, g1);
    let (g3, built3) = pool.acquire(true);
    assert_eq!((g3, built3), (g2, false));
}

#[test]
fn retry_step_decisions() {
    assert_eq!(retry_step(0, true), RetryDecision::Done(true));
    assert_eq!(
        retry_step(0, false),
        RetryDecision::Backoff { delay_ms: 100, next_attempt: 1 }
    );
    assert_eq!(
        retry_step(1, false),
        RetryDecision::Backoff { delay_ms: 100, next_attempt: 2 }
    );
    assert_eq!(retry_step(2, false), RetryDecision::Done(false));
}

#[test]
fn retry_succeeds_on_third_attempt_after_two_backoffs() {
    let report = SVGChatService::process_task_with_retry(&vec![false, false, true]);
    assert!(report.success);
    assert_eq!(report.attempts, 3);
    assert_eq!(report.backoffs, 2);
}

#[test]
fn retry_all_attempts_fail() {
    let report = SVGChatService::process_task_with_retry(&vec![false, false, false]);
    assert!(!report.success);
    assert_eq!(report.attempts, 3);
    assert_eq!(report.backoffs, 2);
}

#[test]
fn retry_first_attempt_success_takes_no_backoff() {
    let report = SVGChatService::process_task_with_retry(&vec![true, false, false]);
    assert!(report.success);
    assert_eq!(report.attempts, 1);
    assert_eq!(report.backoffs, 0);
}

#[test]
fn capture_bounds_takes_larger_height() {
    assert_eq!(ScreenShotUtil::capture_bounds(800, 600, 920), (800, 920));
    assert_eq!(ScreenShotUtil::capture_bounds(800, 600, 500), (800, 600));
}

#[test]
fn capture_local_hit_slides_expiry() {
    let mut cache = LocalCache::new();
    let key = String::from("question_screenshot:1");
    let payload = format!("{}YWJj", PREFIX);
    cache.insert(key.clone(), (Expiration::Seconds30, payload.clone()), 0);
    let step = ScreenShotUtil::question_screenshot_start(&mut cache, &key, 10);
    match step {
        CaptureStep::Respond(p, eff) => {
            assert_eq!(p, payload);
            assert!(eff.fast_store_set.is_none());
            assert!(eff.persist_base64.is_none());
        },
        _ => panic!("expected a response from the local tier"),
    }
    // without the re-insert the entry would have expired at 30 000;
    // the hit at 10 slid the deadline to 60 010
    assert!(cache.get(&key, 45_000).is_some());
    assert!(cache.get(&key, 60_010).is_none());
}

#[test]
fn capture_walks_tiers_in_order_and_fails_last() {
    let mut cache = LocalCache::new();
    let key = String::from("question_screenshot:2");
    match ScreenShotUtil::question_screenshot_start(&mut cache, &key, 0) {
        CaptureStep::Ask(CaptureQuery::FastStore) => {},
        _ => panic!("a cold cache must ask for the fast store"),
    }
    match ScreenShotUtil::question_screenshot_next(&mut cache, &key, 0, CaptureEvent::FastStoreMiss)
    {
        CaptureStep::Ask(CaptureQuery::RecordStore) => {},
        _ => panic!("a fast-store miss must ask for the record store"),
    }
    match ScreenShotUtil::question_screenshot_next(
        &mut cache,
        &key,
        0,
        CaptureEvent::RecordStoreMiss,
    ) {
        CaptureStep::Ask(CaptureQuery::TakeScreenshot) => {},
        _ => panic!("a record-store miss must ask for a screenshot"),
    }
    match ScreenShotUtil::question_screenshot_next(
        &mut cache,
        &key,
        0,
        CaptureEvent::ShotFailed(block_demo::screen_shot_util::CaptureError::Screenshot),
    ) {
        CaptureStep::Fail(block_demo::screen_shot_util::CaptureError::Screenshot) => {},
        _ => panic!("a failed screenshot must fail the capture"),
    }
    assert!(cache.get(&key, 0).is_none());
}

#[test]
fn capture_fast_store_hit_formats_without_recaching() {
    let mut cache = LocalCache::new();
    let key = String::from("question_screenshot:3");
    let step = ScreenShotUtil::question_screenshot_next(
        &mut cache,
        &key,
        0,
        CaptureEvent::FastStoreHit(String::from("QUJD")),
    );
    match step {
        CaptureStep::Respond(p, eff) => {
            assert_eq!(p, format!("{}QUJD", PREFIX));
            assert!(eff.fast_store_set.is_none());
            assert!(eff.persist_base64.is_none());
        },
        _ => panic!("a fast-store hit must respond"),
    }
    // noted asymmetry: this path does not populate the local cache
    assert!(cache.get(&key, 0).is_none());
}

#[test]
fn capture_record_store_hit_backfills_fast_store() {
    let mut cache = LocalCache::new();
    let key = String::from("question_screenshot:4");
    let step = ScreenShotUtil::question_screenshot_next(
        &mut cache,
        &key,
        0,
        CaptureEvent::RecordStoreHit(vec![97u8, 98, 99]),
    );
    match step {
        CaptureStep::Respond(p, eff) => {
            assert_eq!(p, format!("{}YWJj", PREFIX));
            assert_eq!(eff.fast_store_set, Some((String::from("YWJj"), 120)));
            assert!(eff.persist_base64.is_none());
        },
        _ => panic!("a record-store hit must respond"),
    }
}

#[test]
fn capture_shot_done_caches_and_persists() {
    let mut cache = LocalCache::new();
    let key = String::from("question_screenshot:5");
    let step = ScreenShotUtil::question_screenshot_next(
        &mut cache,
        &key,
        1000,
        CaptureEvent::ShotDone(String::from("YWJj")),
    );
    let payload = format!("{}YWJj", PREFIX);
    match step {
        CaptureStep::Respond(p, eff) => {
            assert_eq!(p, payload);
            assert!(eff.fast_store_set.is_none());
            assert_eq!(eff.persist_base64, Some(String::from("YWJj")));
        },
        _ => panic!("a successful screenshot must respond"),
    }
    // cached under the short TTL: 1000 + 60 000
    assert_eq!(cache.get(&key, 1000), Some((Expiration::Seconds60, payload)));
    assert!(cache.get(&key, 61_000).is_none());
}
