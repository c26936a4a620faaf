//! Live state aggregation for physical input controllers.
//!
//! Device readers forward control events over a small bounded channel with a
//! drop-on-full policy; a single reducer folds them into a per-device table of
//! previous/current snapshots that a renderer may copy and display.

pub mod action;
pub mod channel;
pub mod event;
pub mod key;
pub mod reader;
pub mod render;
pub mod snapshot;
pub mod table;
