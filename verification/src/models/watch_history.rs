//! Personal watch history and starred media.
//!
//! Both records denormalise the title and cover of what they point at, because
//! an entry has to keep reading correctly once the room or the media row is
//! gone. `source_key` is the caller-supplied identity of the thing watched: it
//! is what makes re-watching update a row instead of appending one.

use vstd::prelude::*;

use crate::ids::{MediaId, RoomId, UnixSeconds};

verus! {

/// Longest accepted `title`, matching the column.
pub const WATCH_ENTRY_TITLE_MAX_CHARS: usize = 300;

/// Longest accepted `cover_url`, matching the column.
pub const WATCH_ENTRY_COVER_URL_MAX_CHARS: usize = 500;

/// Longest accepted `source_key`, matching the column.
pub const WATCH_ENTRY_SOURCE_KEY_MAX_CHARS: usize = 200;

/// One entry of the media half of "我的收藏".
#[derive(Debug, Clone)]
pub struct MediaFavorite {
    pub id: i64,
    pub room_id: Option<RoomId>,
    pub media_id: Option<MediaId>,
    pub title: String,
    pub cover_url: String,
    pub source_key: String,
    pub created_at: UnixSeconds,
}

/// Fields a client supplies when starring a piece of media.
#[derive(Debug, Clone)]
pub struct NewMediaFavorite {
    pub room_id: Option<RoomId>,
    pub media_id: Option<MediaId>,
    pub title: String,
    pub cover_url: String,
    pub source_key: String,
}

} // verus!
