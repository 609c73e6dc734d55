//! Verified core of a terminal dashboard for live market data.
//!
//! The library owns the dashboard's logic: the event queue that merges a
//! clock, a keyboard poller and a streaming price feed, the input-mode state
//! machine, the single-flight company-data cache, the live-price tracker and
//! the demo signal window.  Terminal rendering, HTTP, websockets and the
//! fuzzy-search ranking are outside collaborators; the library speaks to them
//! through narrow, documented boundaries.

pub mod app;
pub mod asset;
pub mod cache;
pub mod config;
pub mod errors;
pub mod events;
pub mod search_page;
pub mod signal;
pub mod text;
pub mod tracker;
