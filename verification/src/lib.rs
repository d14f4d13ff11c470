//! Verified core of a game-server fleet monitor: roster diffing, settings-change
//! detection, per-endpoint scan bookkeeping and the rows a polling cycle persists.

pub mod alert;
pub mod cycle;
pub mod diff;
pub mod events;
pub mod history;
pub mod reconcile;
pub mod records;
pub mod roster;
pub mod scan;
pub mod settings;
pub mod sql;
pub mod text;
pub mod timestamp;
pub mod watchlist;
pub mod webhook;
