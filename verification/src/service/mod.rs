//! The decisions each request makes, between its storage reads and writes.

pub mod couple_pet;
pub mod couple_nest;
pub mod watch_history;
pub mod friends;
pub mod couple;
pub mod gift;
pub mod check_in;
pub mod messaging;
pub mod vod_sources;
pub mod following;
pub mod room_gift;
pub mod profile_background;
