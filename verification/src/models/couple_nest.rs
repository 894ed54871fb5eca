//! 爱的小窝: everything a bound pair keeps together beyond the two lists the
//! space already had.
//!
//! All of it is scoped to one couple space and both members may read and
//! write all of it, so nothing here carries a per-row owner check — the only
//! question is "are you in this space", and the rules answer it once.

use vstd::prelude::*;

use crate::calendar::{date_from_ymd, days_in_month, is_valid_ymd, CivilDate, MAX_YEAR};
use crate::ids::{EpochDay, UnixSeconds, UserId};

verus! {

#[verifier::external_type_specification]
#[verifier::external_body]
pub struct ExJsonValue(serde_json::Value);

/// `Clone` for `serde_json::Value` (derived in serde_json): nothing is
/// stated of the copy.
pub assume_specification[ <serde_json::Value as core::clone::Clone>::clone ](
    v: &serde_json::Value,
) -> serde_json::Value;

// ---------------------------------------------------------------- 时光轴 ----

/// One dated entry on the timeline. `happened_on` is the day being
/// remembered, which is rarely the day it was written.
#[derive(Debug, Clone)]
pub struct CoupleMemory {
    pub id: i64,
    pub space_id: i64,
    pub author_user_id: Option<UserId>,
    pub happened_on: CivilDate,
    pub title: String,
    pub content: String,
    pub location: String,
    pub created_at: UnixSeconds,
    pub updated_at: UnixSeconds,
}

#[derive(Debug, Clone)]
pub struct NewCoupleMemory {
    pub happened_on: CivilDate,
    pub title: String,
    pub content: String,
    pub location: String,
}

/// `None` leaves the stored value alone.
#[derive(Debug, Clone)]
pub struct CoupleMemoryUpdate {
    pub happened_on: Option<CivilDate>,
    pub title: Option<String>,
    pub content: Option<String>,
    pub location: Option<String>,
}

// ------------------------------------------------------------------ 相册 ----

#[derive(Debug, Clone)]
pub struct CoupleAlbum {
    pub id: i64,
    pub space_id: i64,
    pub created_by_user_id: Option<UserId>,
    pub name: String,
    pub created_at: UnixSeconds,
    /// Filled by the listing query, not stored.
    pub media_count: i64,
    /// Newest item in the album, for the cover tile.
    pub cover: Option<CoupleMedia>,
}

// ------------------------------------------------------------------ 媒体 ----

#[derive(Debug, Clone, Copy, PartialEq, Eq, Structural)]
pub enum CoupleMediaKind {
    Photo,
    Video,
}

impl CoupleMediaKind {
    /// The stored number of each kind.
    pub open spec fn code(self) -> i16 {
        match self {
            CoupleMediaKind::Photo => 1,
            CoupleMediaKind::Video => 2,
        }
    }

    pub fn as_i16(self) -> (r: i16)
        ensures
            r == self.code(),
    {
        match self {
            CoupleMediaKind::Photo => 1,
            CoupleMediaKind::Video => 2,
        }
    }

    /// The kind a stored number names; `None` for any other number.
    pub open spec fn from_code(value: i16) -> Option<CoupleMediaKind> {
        if value == 1 {
            Some(CoupleMediaKind::Photo)
        } else if value == 2 {
            Some(CoupleMediaKind::Video)
        } else {
            None
        }
    }

    /// The kind a stored number names (see [`CoupleMediaKind::from_code`]).
    pub fn from_i16(value: i16) -> (r: Option<CoupleMediaKind>)
        ensures
            r == Self::from_code(value),
    {
        match value {
            1 => Some(CoupleMediaKind::Photo),
            2 => Some(CoupleMediaKind::Video),
            _ => None,
        }
    }
}

/// One photo or video. The blob lives in file storage; this row keeps enough
/// shape to lay out a grid without fetching it.
#[derive(Debug, Clone)]
pub struct CoupleMedia {
    pub id: i64,
    pub space_id: i64,
    pub album_id: Option<i64>,
    pub memory_id: Option<i64>,
    pub uploader_user_id: Option<UserId>,
    pub kind: CoupleMediaKind,
    pub storage_backend: String,
    pub object_key: String,
    pub mime_type: String,
    pub size_bytes: Option<i64>,
    pub width: Option<i32>,
    pub height: Option<i32>,
    pub taken_on: Option<CivilDate>,
    pub caption: String,
    pub created_at: UnixSeconds,
}

#[derive(Debug, Clone)]
pub struct NewCoupleMedia {
    pub album_id: Option<i64>,
    pub memory_id: Option<i64>,
    pub kind: CoupleMediaKind,
    pub storage_backend: String,
    pub object_key: String,
    pub mime_type: String,
    pub size_bytes: Option<i64>,
    pub width: Option<i32>,
    pub height: Option<i32>,
    pub taken_on: Option<CivilDate>,
    pub caption: String,
}

/// Which slice of the pair's media a listing wants.
#[derive(Debug, Clone, Copy, PartialEq, Eq, Structural)]
pub enum CoupleMediaScope {
    /// Everything in the space, newest first — what the album grid shows.
    All,
    /// One album.
    Album(i64),
    /// Attached to one timeline entry.
    Memory(i64),
    /// Not filed in any album.
    Unfiled,
}

/// The media listing's filter: an album to match, a memory to match, and
/// whether only unfiled media qualify.
pub fn media_scope_filter(scope: CoupleMediaScope) -> (r: (Option<i64>, Option<i64>, bool))
    ensures
        r == (match scope {
            CoupleMediaScope::All => (None::<i64>, None::<i64>, false),
            CoupleMediaScope::Album(id) => (Some(id), None::<i64>, false),
            CoupleMediaScope::Memory(id) => (None::<i64>, Some(id), false),
            CoupleMediaScope::Unfiled => (None::<i64>, None::<i64>, true),
        }),
{
    match scope {
        CoupleMediaScope::All => (None, None, false),
        CoupleMediaScope::Album(id) => (Some(id), None, false),
        CoupleMediaScope::Memory(id) => (None, Some(id), false),
        CoupleMediaScope::Unfiled => (None, None, true),
    }
}

// -------------------------------------------------------------- 纪念日 ----

/// A date the pair wants a countdown to. Separate from the space's own
/// anniversary date, which is the single day the together-counter runs from.
#[derive(Debug, Clone)]
pub struct CoupleAnniversary {
    pub id: i64,
    pub space_id: i64,
    pub created_by_user_id: Option<UserId>,
    pub title: String,
    pub happens_on: CivilDate,
    pub repeat_yearly: bool,
    pub note: String,
    pub created_at: UnixSeconds,
    pub updated_at: UnixSeconds,
}

#[derive(Debug, Clone)]
pub struct NewCoupleAnniversary {
    pub title: String,
    pub happens_on: CivilDate,
    pub repeat_yearly: bool,
    pub note: String,
}

#[derive(Debug, Clone)]
pub struct CoupleAnniversaryUpdate {
    pub title: Option<String>,
    pub happens_on: Option<CivilDate>,
    pub repeat_yearly: Option<bool>,
    pub note: Option<String>,
}

/// `month`/`day` in `year`, or the day before when that day does not exist
/// (29 February in a common year), or nothing.
pub open spec fn anniversary_in_year(year: int, month: u32, day: u32) -> Option<CivilDate> {
    if is_valid_ymd(year, month as int, day as int) {
        Some(CivilDate { year: year as i32, month, day })
    } else if is_valid_ymd(year, month as int, day - 1) {
        Some(CivilDate { year: year as i32, month, day: (day - 1) as u32 })
    } else {
        None
    }
}

/// The date of `year`'s occurrence when it is on or after `today`.
pub open spec fn occurrence_from(year: int, month: u32, day: u32, today: CivilDate) -> Option<
    CivilDate,
> {
    match anniversary_in_year(year, month, day) {
        Some(d) => if d.is_before(today) {
            None
        } else {
            Some(d)
        },
        None => None,
    }
}

/// The next time a date comes round, on or after `today`: a one-off keeps its
/// own date; a yearly one lands on this year or next, falling back to the
/// stored date when neither exists.
pub open spec fn next_occurrence_spec(
    happens_on: CivilDate,
    repeat_yearly: bool,
    today: CivilDate,
) -> CivilDate {
    if !repeat_yearly {
        happens_on
    } else {
        match occurrence_from(today.year as int, happens_on.month, happens_on.day, today) {
            Some(d) => d,
            None => match occurrence_from(
                today.year + 1,
                happens_on.month,
                happens_on.day,
                today,
            ) {
                Some(d) => d,
                None => happens_on,
            },
        }
    }
}

fn candidate_in_year(year: i32, month: u32, day: u32, today: &CivilDate) -> (r: Option<
    CivilDate,
>)
    requires
        day >= 1,
    ensures
        r == occurrence_from(year as int, month, day, *today),
{
    let candidate = match date_from_ymd(year, month, day) {
        Some(d) => Some(d),
        None => date_from_ymd(year, month, day - 1),
    };
    match candidate {
        Some(d) => if d.before(today) {
            None
        } else {
            Some(d)
        },
        None => None,
    }
}

impl CoupleAnniversary {
    /// The next time this date comes round, on or after `today`.
    ///
    /// A one-off that has passed returns its own date, so the caller can show
    /// it as history rather than inventing a future for it. A yearly date
    /// lands on this year or next; 29 February in a common year falls back to
    /// the 28th, which is what a countdown should say rather than skipping
    /// three years.
    pub fn next_occurrence(&self, today: CivilDate) -> (r: CivilDate)
        requires
            self.happens_on.is_valid(),
            today.is_valid(),
        ensures
            r == next_occurrence_spec(self.happens_on, self.repeat_yearly, today),
    {
        if !self.repeat_yearly {
            return self.happens_on;
        }
        let month = self.happens_on.month;
        let day = self.happens_on.day;
        if let Some(d) = candidate_in_year(today.year, month, day, &today) {
            return d;
        }
        if let Some(d) = candidate_in_year(today.year + 1, month, day, &today) {
            return d;
        }
        self.happens_on
    }
}

// ------------------------------------------------------------------ 清单 ----

#[derive(Debug, Clone)]
pub struct CoupleTodo {
    pub id: i64,
    pub space_id: i64,
    pub created_by_user_id: Option<UserId>,
    pub title: String,
    pub note: String,
    pub category: String,
    pub priority: i16,
    pub plan_date: Option<CivilDate>,
    pub done_by_user_id: Option<UserId>,
    pub done_at: Option<UnixSeconds>,
    pub created_at: UnixSeconds,
    pub updated_at: UnixSeconds,
}

#[derive(Debug, Clone)]
pub struct NewCoupleTodo {
    pub title: String,
    pub note: String,
    pub category: String,
    pub priority: i16,
    pub plan_date: Option<CivilDate>,
}

/// `done` is tri-state: absent leaves it, `Some(true)` ticks it in the
/// caller's name, `Some(false)` clears both the tick and who made it.
/// `plan_date` is tri-state the same way: `Some(None)` clears it.
#[derive(Debug, Clone)]
pub struct CoupleTodoUpdate {
    pub title: Option<String>,
    pub note: Option<String>,
    pub category: Option<String>,
    pub priority: Option<i16>,
    pub plan_date: Option<Option<CivilDate>>,
    pub done: Option<bool>,
}

// -------------------------------------------------------------- 宠物小屋 ----

#[derive(Debug, Clone)]
pub struct CouplePet {
    pub space_id: i64,
    pub name: String,
    pub species: i16,
    pub skin: i16,
    pub accessory: i16,
    pub stage: i16,
    pub experience: i32,
    /// Hunger and mood as they were at `settled_at`; both decay from there.
    pub hunger: i16,
    pub mood: i16,
    pub settled_at: UnixSeconds,
    pub created_at: UnixSeconds,
    pub updated_at: UnixSeconds,
}

/// A pet as the screen sees it: stored values brought forward to now, plus
/// the streak the check-in rows imply.
#[derive(Debug, Clone)]
pub struct CouplePetView {
    pub pet: CouplePet,
    /// Decayed to the moment of reading.
    pub hunger: i16,
    pub mood: i16,
    /// Consecutive days ending today (or yesterday, if neither has been in
    /// yet today) on which at least one member interacted.
    pub streak_days: i64,
    /// True when both members have already been in today.
    pub both_checked_in_today: bool,
    pub experience_into_stage: i32,
    pub experience_for_next_stage: i32,
}

/// What one interaction does to the pet.
#[derive(Debug, Clone, Copy, PartialEq, Eq, Structural)]
pub enum CouplePetAction {
    /// Fills hunger, a little experience.
    Feed,
    /// Lifts mood, a little experience.
    Play,
    /// Lifts mood most, once a day per member — this is the streak-keeping one.
    Pet,
}

#[derive(Debug, Clone)]
pub struct CouplePetUpdate {
    pub name: Option<String>,
    pub species: Option<i16>,
    pub skin: Option<i16>,
    pub accessory: Option<i16>,
}

/// One day of the streak history panel.
#[derive(Debug, Clone, Copy, PartialEq, Eq, Structural)]
pub struct CouplePetCheckinDay {
    pub on_date: EpochDay,
    /// How many of the two members were in that day.
    pub members: i64,
    pub interactions: i64,
}

// -------------------------------------------------------------- 心动 AI ----

#[derive(Debug, Clone, Copy, PartialEq, Eq, Structural)]
pub enum CoupleAiKind {
    DatePlan,
    Diary,
    LoveLetter,
}

impl CoupleAiKind {
    /// The stored number of each kind.
    pub open spec fn code(self) -> i16 {
        match self {
            CoupleAiKind::DatePlan => 1,
            CoupleAiKind::Diary => 2,
            CoupleAiKind::LoveLetter => 3,
        }
    }

    pub fn as_i16(self) -> (r: i16)
        ensures
            r == self.code(),
    {
        match self {
            CoupleAiKind::DatePlan => 1,
            CoupleAiKind::Diary => 2,
            CoupleAiKind::LoveLetter => 3,
        }
    }

    /// The kind a stored number names; `None` for any other number.
    pub open spec fn from_code(value: i16) -> Option<CoupleAiKind> {
        if value == 1 {
            Some(CoupleAiKind::DatePlan)
        } else if value == 2 {
            Some(CoupleAiKind::Diary)
        } else if value == 3 {
            Some(CoupleAiKind::LoveLetter)
        } else {
            None
        }
    }

    /// The kind a stored number names (see [`CoupleAiKind::from_code`]).
    pub fn from_i16(value: i16) -> (r: Option<CoupleAiKind>)
        ensures
            r == Self::from_code(value),
    {
        match value {
            1 => Some(CoupleAiKind::DatePlan),
            2 => Some(CoupleAiKind::Diary),
            3 => Some(CoupleAiKind::LoveLetter),
            _ => None,
        }
    }
}

/// A generated piece, kept so it survives leaving the page.
#[derive(Debug, Clone)]
pub struct CoupleAiWork {
    pub id: i64,
    pub space_id: i64,
    pub author_user_id: Option<UserId>,
    pub kind: CoupleAiKind,
    pub title: String,
    /// What was asked, so a piece can be regenerated or explained later.
    pub prompt: serde_json::Value,
    pub content: String,
    pub created_at: UnixSeconds,
}

#[derive(Debug, Clone)]
pub struct NewCoupleAiWork {
    pub kind: CoupleAiKind,
    pub title: String,
    pub prompt: serde_json::Value,
    pub content: String,
}

// ------------------------------------------------------------------ 首页 ----

/// Everything the nest's home screen needs, in one read.
#[derive(Debug, Clone)]
pub struct CoupleNestHome {
    pub cover: Option<CoupleMedia>,
    /// The soonest upcoming date, already resolved through `next_occurrence`.
    pub next_anniversary: Option<CoupleAnniversary>,
    pub next_anniversary_on: Option<CivilDate>,
    /// Newest shared media, capped for the home grid.
    pub recent_media: Vec<CoupleMedia>,
    /// Outstanding items, soonest first.
    pub open_todos: Vec<CoupleTodo>,
    pub open_todo_count: i64,
    pub done_todo_count: i64,
    pub memory_count: i64,
    pub media_count: i64,
    pub pet: Option<CouplePetView>,
}


/// A stored kind number reads back as the kind that wrote it, and no two
/// kinds share a number.
pub proof fn kind_codes_read_back(media: CoupleMediaKind, other_media: CoupleMediaKind, ai: CoupleAiKind, other_ai: CoupleAiKind)
    ensures
        CoupleMediaKind::from_code(media.code()) == Some(media),
        CoupleAiKind::from_code(ai.code()) == Some(ai),
        media.code() == other_media.code() ==> media == other_media,
        ai.code() == other_ai.code() ==> ai == other_ai,
{
}


/// A yearly date always comes round: for a valid stored date and a valid
/// today with a next year to land in, the countdown target is on or after
/// today, this year or next, in the stored month, on the stored day (the
/// 28th for 29 February in a common year), and a day that exists.
pub proof fn yearly_dates_come_round(happens_on: CivilDate, today: CivilDate)
    requires
        happens_on.is_valid(),
        today.is_valid(),
        today.year < MAX_YEAR,
    ensures
        ({
            let r = next_occurrence_spec(happens_on, true, today);
            &&& !r.is_before(today)
            &&& r.is_valid()
            &&& r.year == today.year || r.year == today.year + 1
            &&& r.month == happens_on.month
            &&& (r.day == happens_on.day || (happens_on.month == 2 && happens_on.day == 29
                && r.day == 28))
        }),
{
    let m = happens_on.month;
    let d = happens_on.day;
    let next = today.year + 1;
    assert(days_in_month(next, m as int) >= days_in_month(happens_on.year as int, m as int) - 1);
    assert(anniversary_in_year(next, m, d) is Some);
}

} // verus!
