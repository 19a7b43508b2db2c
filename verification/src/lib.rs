//! Verified core of an SVG batch-processing and page-capture service.
//!
//! The library holds the decision logic of the service: an expiring
//! key-value cache with per-entry time-to-live policies, a
//! liveness-checked browser pool, fail-fast collection of concurrent
//! fetch results, the parse/rasterize/encode pipeline over SVG bytes,
//! bounded retry of a whole task, and the tiered lookup behind a page
//! capture. I/O, scheduling and the HTTP boundary live outside the
//! library and hand it plain values.

pub mod browser_pool;
pub mod encoding;
pub mod local_cache_util;
pub mod screen_shot_util;
pub mod svg_chat_service;
pub mod svg_fetch;
pub mod svg_util;
