//! The shapes the rules read and produce.

pub mod check_in;
pub mod couple_nest;
pub mod watch_history;
pub mod couple;
pub mod social;
pub mod gift;
pub mod page;
pub mod vod_source;
