//! Daily check-in rules, claims, and the point ledger they feed.

use vstd::prelude::*;

use crate::ids::{EpochDay, UnixSeconds, UserId};
use crate::text::{enum_word, enum_word_of, lemma_plain_word_reads_as_itself, same_text};

verus! {

/// Ledger reason recorded for points granted by a daily check-in.
pub const POINT_REASON_CHECK_IN: &'static str = "check_in";

/// Largest award an admin may configure, matching the column's CHECK.
pub const CHECK_IN_POINTS_MAX: i32 = 100_000;

/// Westmost day boundary an admin may configure, in minutes from UTC (UTC-12).
pub const CHECK_IN_DAY_BOUNDARY_MIN_MINUTES: i32 = -720;

/// Eastmost day boundary an admin may configure, in minutes from UTC (UTC+14).
pub const CHECK_IN_DAY_BOUNDARY_MAX_MINUTES: i32 = 840;

/// How a claim's award is computed.
#[derive(Debug, Clone, Copy, PartialEq, Eq, Structural)]
pub enum CheckInAwardMode {
    /// Every claim awards the configured fixed amount.
    Fixed,
    /// Every claim draws uniformly from the configured inclusive range.
    Random,
}

impl CheckInAwardMode {
    /// The stored word for each mode.
    pub open spec fn word(self) -> Seq<char> {
        match self {
            CheckInAwardMode::Fixed => "fixed"@,
            CheckInAwardMode::Random => "random"@,
        }
    }

    /// The mode a word names, if any.
    pub open spec fn from_word(word: Seq<char>) -> Option<CheckInAwardMode> {
        if word == "fixed"@ {
            Some(CheckInAwardMode::Fixed)
        } else if word == "random"@ {
            Some(CheckInAwardMode::Random)
        } else {
            None
        }
    }

    pub fn as_str(self) -> (r: &'static str)
        ensures
            r@ == self.word(),
    {
        match self {
            CheckInAwardMode::Fixed => "fixed",
            CheckInAwardMode::Random => "random",
        }
    }

    /// Reads a mode from text, ignoring surrounding white space and ASCII
    /// case. An unknown word is refused with "invalid check-in award mode:
    /// <word>".
    pub fn parse(value: &str) -> (r: Result<CheckInAwardMode, String>)
        ensures
            match Self::from_word(enum_word(value@)) {
                Some(mode) => r == Ok::<CheckInAwardMode, String>(mode),
                None => r matches Err(m) && m@ == "invalid check-in award mode: "@ + enum_word(
                    value@,
                ),
            },
    {
        let word = enum_word_of(value);
        if same_text(word.as_str(), "fixed") {
            Ok(CheckInAwardMode::Fixed)
        } else if same_text(word.as_str(), "random") {
            Ok(CheckInAwardMode::Random)
        } else {
            let mut m = String::from_str("invalid check-in award mode: ");
            m.append(word.as_str());
            Err(m)
        }
    }
}

impl Default for CheckInAwardMode {
    fn default() -> (r: Self)
        ensures
            r == CheckInAwardMode::Fixed,
    {
        CheckInAwardMode::Fixed
    }
}

/// Admin-owned award rules, stored as a single row.
#[derive(Debug, Clone)]
pub struct CheckInConfig {
    /// False disables claiming entirely; the client still renders the card.
    pub enabled: bool,
    pub award_mode: CheckInAwardMode,
    pub fixed_points: i32,
    pub random_min_points: i32,
    pub random_max_points: i32,
    /// Minutes east of UTC that decide which calendar day a claim lands on.
    pub day_boundary_offset_minutes: i32,
    pub updated_at: UnixSeconds,
    pub updated_by: Option<UserId>,
}

/// Partial update of [`CheckInConfig`]; `None` leaves a field as stored.
#[derive(Debug, Clone)]
pub struct CheckInConfigUpdate {
    pub enabled: Option<bool>,
    pub award_mode: Option<CheckInAwardMode>,
    pub fixed_points: Option<i32>,
    pub random_min_points: Option<i32>,
    pub random_max_points: Option<i32>,
    pub day_boundary_offset_minutes: Option<i32>,
}

impl CheckInConfigUpdate {
    /// True when no field is set.
    pub open spec fn spec_is_empty(&self) -> bool {
        &&& self.enabled is None
        &&& self.award_mode is None
        &&& self.fixed_points is None
        &&& self.random_min_points is None
        &&& self.random_max_points is None
        &&& self.day_boundary_offset_minutes is None
    }

    /// True when the update would change nothing, so the caller can skip a write.
    pub fn is_empty(&self) -> (r: bool)
        ensures
            r == self.spec_is_empty(),
    {
        self.enabled.is_none() && self.award_mode.is_none() && self.fixed_points.is_none()
            && self.random_min_points.is_none() && self.random_max_points.is_none()
            && self.day_boundary_offset_minutes.is_none()
    }
}

impl Default for CheckInConfigUpdate {
    fn default() -> (r: Self)
        ensures
            r.spec_is_empty(),
    {
        CheckInConfigUpdate {
            enabled: None,
            award_mode: None,
            fixed_points: None,
            random_min_points: None,
            random_max_points: None,
            day_boundary_offset_minutes: None,
        }
    }
}

/// What the check-in card renders before the user taps it.
#[derive(Debug, Clone)]
pub struct CheckInStatus {
    pub config: CheckInConfig,
    /// The calendar day the server would credit a claim to right now.
    pub today: EpochDay,
    pub checked_in_today: bool,
    /// Consecutive days including today when already claimed, else the streak
    /// that a claim today would continue.
    pub streak: i32,
    pub last_check_in_date: Option<EpochDay>,
    pub balance: i64,
    pub total_earned: i64,
}

/// Outcome of a claim.
#[derive(Debug, Clone)]
pub struct CheckInResult {
    pub check_in_date: EpochDay,
    pub points_awarded: i32,
    pub streak: i32,
    pub balance: i64,
    pub total_earned: i64,
    /// True when today's claim already existed. The response then describes that
    /// earlier claim, so a retried request is not a failure and awards nothing.
    pub already_checked_in: bool,
}

/// One movement in the point ledger.
#[derive(Debug, Clone)]
pub struct PointTransaction {
    pub id: i64,
    /// Signed: positive for awards, negative for spending.
    pub delta: i64,
    pub balance_after: i64,
    pub reason: String,
    pub description: String,
    pub created_at: UnixSeconds,
}

impl std::str::FromStr for CheckInAwardMode {
    type Err = String;

    fn from_str(value: &str) -> (r: Result<Self, Self::Err>)
        ensures
            match Self::from_word(enum_word(value@)) {
                Some(mode) => r == Ok::<Self, String>(mode),
                None => r matches Err(m) && m@ == "invalid check-in award mode: "@ + enum_word(
                    value@,
                ),
            },
    {
        Self::parse(value)
    }
}


/// A stored award mode reads back as the mode that wrote it.
pub proof fn award_mode_words_read_back(mode: CheckInAwardMode)
    ensures
        CheckInAwardMode::from_word(enum_word(mode.word())) == Some(mode),
{
    reveal_strlit("fixed");
    reveal_strlit("random");
    lemma_plain_word_reads_as_itself(mode.word());
}

/// An update is empty only when it sets nothing: setting any one field,
/// the on/off switch included, makes it an update to write; and the update
/// that sets nothing is the only empty one.
pub proof fn a_config_update_setting_a_field_is_not_empty(update: CheckInConfigUpdate)
    ensures
        update.enabled is Some ==> !update.spec_is_empty(),
        update.award_mode is Some ==> !update.spec_is_empty(),
        update.fixed_points is Some ==> !update.spec_is_empty(),
        update.random_min_points is Some ==> !update.spec_is_empty(),
        update.random_max_points is Some ==> !update.spec_is_empty(),
        update.day_boundary_offset_minutes is Some ==> !update.spec_is_empty(),
        update.spec_is_empty() <==> update == (CheckInConfigUpdate {
            enabled: None,
            award_mode: None,
            fixed_points: None,
            random_min_points: None,
            random_max_points: None,
            day_boundary_offset_minutes: None,
        }),
{
}

} // verus!
