//! 情侣空间: a two-account shared space, its list, and what both members
//! watched.

use vstd::prelude::*;

use crate::ids::{EpochDay, MediaId, RoomId, UnixSeconds, UserId};
use crate::text::{enum_word, enum_word_of, lemma_plain_word_reads_as_itself, same_text};

verus! {

/// Longest accepted space title.
pub const COUPLE_SPACE_TITLE_MAX_CHARS: usize = 100;

/// Longest accepted invite note.
pub const COUPLE_INVITE_MESSAGE_MAX_CHARS: usize = 200;

/// Longest accepted note on a shared favourite.
pub const COUPLE_FAVORITE_NOTE_MAX_CHARS: usize = 200;

/// Where a space is in its lifecycle.
#[derive(Debug, Clone, Copy, PartialEq, Eq, Structural)]
pub enum CoupleSpaceStatus {
    /// Invited, not yet accepted. Nothing is shared yet.
    Pending,
    Active,
    /// Unbound by either side. Kept readable, but no longer writable.
    Ended,
}

impl CoupleSpaceStatus {
    /// The stored word for each status.
    pub open spec fn word(self) -> Seq<char> {
        match self {
            CoupleSpaceStatus::Pending => "pending"@,
            CoupleSpaceStatus::Active => "active"@,
            CoupleSpaceStatus::Ended => "ended"@,
        }
    }

    /// The status a word names, if any.
    pub open spec fn from_word(word: Seq<char>) -> Option<CoupleSpaceStatus> {
        if word == "pending"@ {
            Some(CoupleSpaceStatus::Pending)
        } else if word == "active"@ {
            Some(CoupleSpaceStatus::Active)
        } else if word == "ended"@ {
            Some(CoupleSpaceStatus::Ended)
        } else {
            None
        }
    }

    pub fn as_str(self) -> (r: &'static str)
        ensures
            r@ == self.word(),
    {
        match self {
            CoupleSpaceStatus::Pending => "pending",
            CoupleSpaceStatus::Active => "active",
            CoupleSpaceStatus::Ended => "ended",
        }
    }

    /// Reads a status from text, ignoring surrounding white space and ASCII
    /// case; "invalid couple space status: <word>" otherwise.
    pub fn parse(value: &str) -> (r: Result<CoupleSpaceStatus, String>)
        ensures
            match Self::from_word(enum_word(value@)) {
                Some(s) => r == Ok::<CoupleSpaceStatus, String>(s),
                None => r matches Err(m) && m@ == "invalid couple space status: "@ + enum_word(
                    value@,
                ),
            },
    {
        let word = enum_word_of(value);
        if same_text(word.as_str(), "pending") {
            Ok(CoupleSpaceStatus::Pending)
        } else if same_text(word.as_str(), "active") {
            Ok(CoupleSpaceStatus::Active)
        } else if same_text(word.as_str(), "ended") {
            Ok(CoupleSpaceStatus::Ended)
        } else {
            let mut m = String::from_str("invalid couple space status: ");
            m.append(word.as_str());
            Err(m)
        }
    }
}

impl std::str::FromStr for CoupleSpaceStatus {
    type Err = String;

    fn from_str(value: &str) -> (r: Result<Self, Self::Err>)
        ensures
            match Self::from_word(enum_word(value@)) {
                Some(s) => r == Ok::<Self, String>(s),
                None => r matches Err(m) && m@ == "invalid couple space status: "@ + enum_word(
                    value@,
                ),
            },
    {
        Self::parse(value)
    }
}

/// The stored row.
#[derive(Debug, Clone)]
pub struct CoupleSpace {
    pub id: i64,
    pub initiator_user_id: UserId,
    pub partner_user_id: UserId,
    pub status: CoupleSpaceStatus,
    pub title: String,
    pub invite_message: String,
    /// The day the "在一起 N 天" counter starts from. Set when the invite is
    /// accepted, and editable afterwards by either member.
    pub anniversary_date: Option<EpochDay>,
    pub created_at: UnixSeconds,
    pub bound_at: Option<UnixSeconds>,
    pub ended_at: Option<UnixSeconds>,
}

/// The space as one member sees it. The partner's account is named by id;
/// the caller fetches it.
#[derive(Debug, Clone)]
pub struct CoupleSpaceView {
    pub space: CoupleSpace,
    /// The other account, whichever column it sits in.
    pub partner_user_id: UserId,
    /// True when the reader sent the invite.
    pub viewer_is_initiator: bool,
    /// Whole days from the anniversary to today, inclusive. `None` until bound.
    pub days_together: Option<i64>,
    pub favorite_count: i64,
    /// How many titles both members have in their watch history.
    pub shared_watch_count: i64,
}

/// One entry of the couple's shared list.
#[derive(Debug, Clone)]
pub struct CoupleFavorite {
    pub id: i64,
    pub added_by_user_id: Option<UserId>,
    pub room_id: Option<RoomId>,
    pub media_id: Option<MediaId>,
    pub title: String,
    pub cover_url: String,
    pub source_key: String,
    pub note: String,
    pub created_at: UnixSeconds,
}

/// Fields a member supplies when adding to the shared list.
#[derive(Debug, Clone)]
pub struct NewCoupleFavorite {
    pub room_id: Option<RoomId>,
    pub media_id: Option<MediaId>,
    pub title: String,
    pub cover_url: String,
    pub source_key: String,
    pub note: String,
}

/// A title both members watched, derived by intersecting their personal
/// watch histories on `source_key`.
#[derive(Debug, Clone)]
pub struct SharedWatchEntry {
    pub source_key: String,
    pub title: String,
    pub cover_url: String,
    pub room_id: Option<RoomId>,
    pub media_id: Option<MediaId>,
    pub viewer_watched_at: UnixSeconds,
    pub partner_watched_at: UnixSeconds,
}


/// A stored space status reads back as the status that wrote it.
pub proof fn space_status_words_read_back(status: CoupleSpaceStatus)
    ensures
        CoupleSpaceStatus::from_word(enum_word(status.word())) == Some(status),
{
    reveal_strlit("pending");
    reveal_strlit("active");
    reveal_strlit("ended");
    lemma_plain_word_reads_as_itself(status.word());
}

} // verus!
