//! The tiered lookup behind a page capture.
//!
//! A capture request walks four tiers: the process-local expiring
//! cache (a hit slides the entry's expiry by re-inserting it), a fast
//! external key-value store, a durable record store (a hit backfills
//! the fast store), and finally a screenshot taken through the pooled
//! rendering session (a success is persisted durably and cached
//! locally). The stores and the session live outside the library; the
//! caller performs each queried action and hands its result back as an
//! event, so every step's outcome is a pure function of cache state and
//! event.

use vstd::prelude::*;
use crate::encoding::{b64_encode, b64_of, format_png_data_uri, spec_data_uri_of, spec_png_data_uri};
use crate::local_cache_util::{entry_visible, spec_expiry, Expiration, LocalCache};

verus! {

/// How many seconds a fast-store backfill entry lives.
pub const FAST_STORE_TTL_SECS: u64 = 120;

/// Why a capture ended without a payload: the pooled session could not
/// be constructed, or the screenshot itself failed.
#[derive(Clone, Copy, Debug, PartialEq, Eq, Structural)]
pub enum CaptureError {
    PoolConstruction,
    Screenshot,
}

/// The outside action the caller is asked to perform next.
#[derive(Clone, Copy, Debug, PartialEq, Eq, Structural)]
pub enum CaptureQuery {
    FastStore,
    RecordStore,
    TakeScreenshot,
}

/// What an outside action reported back: base64 text from the fast
/// store, stored binary from the record store, base64 text from the
/// rendering session, or the respective miss or failure.
#[derive(Debug)]
pub enum CaptureEvent {
    FastStoreHit(String),
    FastStoreMiss,
    RecordStoreHit(Vec<u8>),
    RecordStoreMiss,
    ShotDone(String),
    ShotFailed(CaptureError),
}

/// Best-effort side effects the caller should carry out after a
/// response: a fast-store write of base64 text with a TTL in seconds,
/// and a durable persist of base64 text to decode and store.
#[derive(Debug)]
pub struct CaptureEffects {
    pub fast_store_set: Option<(String, u64)>,
    pub persist_base64: Option<String>,
}

/// One step of the capture: respond with the payload and side effects,
/// ask the caller to perform the next outside action, or fail.
#[derive(Debug)]
pub enum CaptureStep {
    Respond(String, CaptureEffects),
    Ask(CaptureQuery),
    Fail(CaptureError),
}

/// Whether the local cache answers `k` at time `now`.
pub open spec fn local_hit(c: LocalCache, k: Seq<char>, now: u64) -> bool {
    c.spec_find(k) matches Some(e) && entry_visible(e, now)
}

/// The value the local cache holds under `k`.
pub open spec fn local_value(c: LocalCache, k: Seq<char>) -> Seq<char> {
    c.spec_find(k)->0.value@
}

/// Drives single-asset captures through the tiered lookup.
pub struct ScreenShotUtil {}

impl ScreenShotUtil {
    /// Picks the capture viewport from the measured layout: the primary
    /// element's width, and the larger of the primary and fallback
    /// elements' heights — the rendered content may overflow the
    /// primary container.
    pub fn capture_bounds(primary_width: u64, primary_height: u64, fallback_height: u64) -> (r: (
        u64,
        u64,
    ))
        ensures
            r.0 == primary_width,
            r.1 == (if fallback_height > primary_height {
                fallback_height
            } else {
                primary_height
            }),
    {
        if fallback_height > primary_height {
            (primary_width, fallback_height)
        } else {
            (primary_width, primary_height)
        }
    }

    /// The first capture tier: the process-local cache. A hit returns
    /// the cached payload and re-inserts it under a short fixed TTL, so
    /// a read slides the entry's expiry; a miss asks for the fast
    /// store and leaves the cache untouched.
    pub fn question_screenshot_start(cache: &mut LocalCache, key: &String, now: u64) -> (r:
        CaptureStep)
        requires
            old(cache).wf(),
        ensures
            final(cache).wf(),
            !local_hit(*old(cache), key@, now) ==> r == CaptureStep::Ask(CaptureQuery::FastStore)
                && *final(cache) == *old(cache),
            local_hit(*old(cache), key@, now) ==> {
                &&& r matches CaptureStep::Respond(p, eff) && p@ == local_value(
                    *old(cache),
                    key@,
                ) && eff.fast_store_set is None && eff.persist_base64 is None
                &&& final(cache).spec_find(key@) matches Some(e) && e.policy
                    == Expiration::Seconds60 && e.value@ == local_value(*old(cache), key@)
                    && e.expires_at == spec_expiry(Expiration::Seconds60, now)
                &&& forall|k2: Seq<char>| k2 != key@ ==> final(cache).spec_find(k2) == old(cache).spec_find(k2)
            },
    {
        match cache.get(key, now) {
            Some((_, v)) => {
                let payload = v.clone();
                cache.insert(key.clone(), (Expiration::Seconds60, v), now);
                CaptureStep::Respond(
                    payload,
                    CaptureEffects { fast_store_set: None, persist_base64: None },
                )
            },
            None => CaptureStep::Ask(CaptureQuery::FastStore),
        }
    }

    /// The later capture tiers, one event at a time. A fast-store hit
    /// responds with the prefixed payload and, by design, does not
    /// re-cache locally. A record-store hit responds with the encoded
    /// binary and backfills the fast store. A successful screenshot
    /// responds with the prefixed payload, caches it locally under a
    /// short fixed TTL, and hands the caller the persist effect. A miss
    /// asks for the next tier; a failed screenshot fails the capture.
    pub fn question_screenshot_next(
        cache: &mut LocalCache,
        key: &String,
        now: u64,
        event: CaptureEvent,
    ) -> (r: CaptureStep)
        requires
            old(cache).wf(),
            event matches CaptureEvent::RecordStoreHit(b) ==> b@.len() <= usize::MAX / 8,
        ensures
            final(cache).wf(),
            event is FastStoreMiss ==> r == CaptureStep::Ask(CaptureQuery::RecordStore) && *final(cache) == *old(cache),
            event is RecordStoreMiss ==> r == CaptureStep::Ask(CaptureQuery::TakeScreenshot)
                && *final(cache) == *old(cache),
            event matches CaptureEvent::FastStoreHit(s) ==> (r matches CaptureStep::Respond(p, eff)
                && p@ == spec_png_data_uri(s@) && eff.fast_store_set is None
                && eff.persist_base64 is None) && *final(cache) == *old(cache),
            event matches CaptureEvent::RecordStoreHit(b) ==> (r matches CaptureStep::Respond(
                p,
                eff,
            ) && p@ == spec_data_uri_of(b@) && (eff.fast_store_set matches Some(fs) && fs.0@
                == b64_of(b@) && fs.1 == FAST_STORE_TTL_SECS) && eff.persist_base64 is None)
                && *final(cache) == *old(cache),
            event matches CaptureEvent::ShotDone(s) ==> {
                &&& r matches CaptureStep::Respond(p, eff) && p@ == spec_png_data_uri(s@)
                    && eff.fast_store_set is None && (eff.persist_base64 matches Some(pb) && pb@
                    == s@)
                &&& final(cache).spec_find(key@) matches Some(e) && e.policy
                    == Expiration::Seconds60 && e.value@ == spec_png_data_uri(s@) && e.expires_at
                    == spec_expiry(Expiration::Seconds60, now)
                &&& forall|k2: Seq<char>| k2 != key@ ==> final(cache).spec_find(k2) == old(cache).spec_find(k2)
            },
            event matches CaptureEvent::ShotFailed(e) ==> r == CaptureStep::Fail(e) && *final(cache) == *old(cache),
    {
        match event {
            CaptureEvent::FastStoreHit(s) => {
                let payload = format_png_data_uri(&s);
                CaptureStep::Respond(
                    payload,
                    CaptureEffects { fast_store_set: None, persist_base64: None },
                )
            },
            CaptureEvent::FastStoreMiss => CaptureStep::Ask(CaptureQuery::RecordStore),
            CaptureEvent::RecordStoreHit(b) => {
                let raw = b64_encode(&b);
                let payload = format_png_data_uri(&raw);
                CaptureStep::Respond(
                    payload,
                    CaptureEffects {
                        fast_store_set: Some((raw, FAST_STORE_TTL_SECS)),
                        persist_base64: None,
                    },
                )
            },
            CaptureEvent::RecordStoreMiss => CaptureStep::Ask(CaptureQuery::TakeScreenshot),
            CaptureEvent::ShotDone(s) => {
                let payload = format_png_data_uri(&s);
                cache.insert(key.clone(), (Expiration::Seconds60, payload.clone()), now);
                CaptureStep::Respond(
                    payload,
                    CaptureEffects { fast_store_set: None, persist_base64: Some(s) },
                )
            },
            CaptureEvent::ShotFailed(e) => CaptureStep::Fail(e),
        }
    }
}

} // verus!
