//! The parts of storage access that are decisions rather than queries: how a
//! pair is keyed, how stored words are read back, and how a transaction's
//! arithmetic comes out.

pub mod gift;
pub mod check_in;
pub mod social;
pub mod vod_source;
pub mod user_follows;
pub mod user_privacy;
pub mod couple_nest;
pub mod couple;
pub mod social_rows;
