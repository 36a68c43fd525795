//! Incremental synchronization of OHLCV market data.
//!
//! Each (asset, interval) lineage keeps a cursor. Backfill ticks walk it
//! forward from an epoch start in fixed windows until a window reaches past
//! now; from then on realtime ticks refresh a trailing window and keep the
//! cursor at now. Bars are keyed by (timestamp, timeframe), so writing a
//! window again adds nothing. A classifier labels stored bars.
//!
//! The library decides; the caller performs the fetches, the writes and the
//! scheduling, and hands the outcomes back.

pub mod access;
pub mod asset;
pub mod bar;
pub mod base;
pub mod classifier;
pub mod clock;
pub mod cursor;
pub mod notifier;
pub mod progress;
pub mod request;
pub mod scheduler;
pub mod state;
pub mod store;
pub mod symbol;
pub mod text;
pub mod timeframe;
pub mod user;
