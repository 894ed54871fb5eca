//! A claim's arithmetic. The day's row decides whether this is the day's
//! first claim, and only that branch touches the balance and the ledger, so a
//! retried request reads back the earlier claim instead of awarding twice.

use vstd::prelude::*;

use crate::error::{internal, Error};
use crate::ids::EpochDay;
use crate::models::check_in::{CheckInAwardMode, CheckInResult};
use crate::repository::gift::LedgerMove;
use crate::text::enum_word;

verus! {

/// Balance and lifetime earnings, as stored.
#[derive(Debug, Clone, Copy, PartialEq, Eq, Structural)]
pub struct PointTotals {
    pub balance: i64,
    pub total_earned: i64,
}

/// Totals for an account that may have no row yet: zero until it earns.
pub open spec fn totals_or_zero(totals: Option<PointTotals>) -> PointTotals {
    match totals {
        Some(t) => t,
        None => PointTotals { balance: 0, total_earned: 0 },
    }
}

/// The streak the card shows: today's when already claimed, else
/// yesterday's, which is what a claim today would extend; a streak that
/// ended earlier is broken and reads zero.
pub fn status_streak(today_streak: Option<i32>, yesterday_streak: Option<i32>) -> (r: (i32, bool))
    ensures
        r.0 == (match today_streak {
            Some(s) => s,
            None => match yesterday_streak {
                Some(s) => s,
                None => 0,
            },
        }),
        r.1 == today_streak is Some,
{
    let streak = match today_streak {
        Some(s) => s,
        None => match yesterday_streak {
            Some(s) => s,
            None => 0,
        },
    };
    (streak, today_streak.is_some())
}

/// The streak a first claim today records: one more than yesterday's (zero
/// when there was none), held at the counter's ceiling.
pub fn claim_streak(previous_streak: Option<i32>) -> (r: i32)
    ensures
        r == (match previous_streak {
            Some(s) => if s == i32::MAX {
                i32::MAX as int
            } else {
                s + 1
            },
            None => 1,
        }),
{
    match previous_streak {
        Some(s) => if s == i32::MAX {
            i32::MAX
        } else {
            s + 1
        },
        None => 1,
    }
}

/// The totals after a first claim of `points`: a positive award adds to
/// both the balance and the lifetime earnings; a zero award moves nothing.
pub open spec fn awarded_totals(totals: Option<PointTotals>, points: int) -> PointTotals {
    let before = totals_or_zero(totals);
    if points <= 0 {
        before
    } else {
        PointTotals {
            balance: (before.balance + points) as i64,
            total_earned: (before.total_earned + points) as i64,
        }
    }
}

/// The ledger row a first claim writes: one movement of the award for a
/// positive award, none otherwise.
pub open spec fn award_ledger(totals: Option<PointTotals>, points: int) -> Option<LedgerMove> {
    if points <= 0 {
        None
    } else {
        Some(
            LedgerMove {
                delta: points as i64,
                balance_after: awarded_totals(totals, points).balance,
            },
        )
    }
}

/// True when a positive award fits the stored counters.
pub open spec fn award_fits(totals: Option<PointTotals>, points: int) -> bool {
    points <= 0 || (totals_or_zero(totals).balance + points <= i64::MAX
        && totals_or_zero(totals).total_earned + points <= i64::MAX)
}

/// What a first claim does to the totals (see [`awarded_totals`] and
/// [`award_ledger`]); an award that would overflow a counter is refused as
/// "point balance is out of range".
pub fn apply_award(totals: Option<PointTotals>, points: i32) -> (r: Result<
    (PointTotals, Option<LedgerMove>),
    Error,
>)
    ensures
        award_fits(totals, points as int) ==> r == Ok::<(PointTotals, Option<LedgerMove>), Error>(
            (awarded_totals(totals, points as int), award_ledger(totals, points as int)),
        ),
        !award_fits(totals, points as int) ==> (r matches Err(e) && e.is_internal_with(
            "point balance is out of range"@,
        )),
{
    let before = match totals {
        Some(t) => t,
        None => PointTotals { balance: 0, total_earned: 0 },
    };
    if points <= 0 {
        return Ok((before, None));
    }
    let awarded = points as i64;
    if before.balance > i64::MAX - awarded || before.total_earned > i64::MAX - awarded {
        return Err(internal("point balance is out of range"));
    }
    let after = PointTotals {
        balance: before.balance + awarded,
        total_earned: before.total_earned + awarded,
    };
    Ok((after, Some(LedgerMove { delta: awarded, balance_after: after.balance })))
}

/// The answer to a claim for a day that already had one: the earlier claim
/// described, the totals as read, and marked as a repeat.
pub open spec fn repeated_claim_spec(
    today: EpochDay,
    points_awarded: i32,
    streak: i32,
    totals: Option<PointTotals>,
) -> CheckInResult {
    CheckInResult {
        check_in_date: today,
        points_awarded,
        streak,
        balance: totals_or_zero(totals).balance,
        total_earned: totals_or_zero(totals).total_earned,
        already_checked_in: true,
    }
}

/// A claim for a day that already had one (see [`repeated_claim_spec`]):
/// nothing is awarded.
pub fn repeated_claim(
    today: EpochDay,
    points_awarded: i32,
    streak: i32,
    totals: Option<PointTotals>,
) -> (r: CheckInResult)
    ensures
        r == repeated_claim_spec(today, points_awarded, streak, totals),
{
    let t = match totals {
        Some(t) => t,
        None => PointTotals { balance: 0, total_earned: 0 },
    };
    CheckInResult {
        check_in_date: today,
        points_awarded,
        streak,
        balance: t.balance,
        total_earned: t.total_earned,
        already_checked_in: true,
    }
}

/// The day's first claim, as reported.
pub fn first_claim(today: EpochDay, points_awarded: i32, streak: i32, totals: PointTotals) -> (r:
    CheckInResult)
    ensures
        r.check_in_date == today,
        r.points_awarded == points_awarded,
        r.streak == streak,
        r.balance == totals.balance,
        r.total_earned == totals.total_earned,
        !r.already_checked_in,
{
    CheckInResult {
        check_in_date: today,
        points_awarded,
        streak,
        balance: totals.balance,
        total_earned: totals.total_earned,
        already_checked_in: false,
    }
}

/// The single configuration row; its absence contradicts the migration
/// that creates it: "check-in configuration row is missing".
pub fn require_config_row<T>(row: Option<T>) -> (r: Result<T, Error>)
    ensures
        match row {
            Some(x) => r == Ok::<T, Error>(x),
            None => r matches Err(e) && e.is_internal_with("check-in configuration row is missing"@),
        },
{
    match row {
        Some(x) => Ok(x),
        None => Err(internal("check-in configuration row is missing")),
    }
}

/// Reads the stored award mode; a word the rules do not know means the row
/// was edited by hand ("stored check-in configuration is invalid: ...").
pub fn stored_award_mode(raw: &str) -> (r: Result<CheckInAwardMode, Error>)
    ensures
        r is Ok <==> CheckInAwardMode::from_word(enum_word(raw@)) is Some,
        r matches Ok(m) ==> CheckInAwardMode::from_word(enum_word(raw@)) == Some(m),
        r matches Err(e) ==> e.is_internal_with(
            "stored check-in configuration is invalid: invalid check-in award mode: "@
                + enum_word(raw@),
        ),
{
    match CheckInAwardMode::parse(raw) {
        Ok(mode) => Ok(mode),
        Err(message) => {
            let mut m = String::from_str("stored check-in configuration is invalid: ");
            m.append(message.as_str());
            assert(m@ =~= "stored check-in configuration is invalid: invalid check-in award mode: "@
                + enum_word(raw@)) by {
                reveal_strlit("stored check-in configuration is invalid: ");
                reveal_strlit("invalid check-in award mode: ");
                reveal_strlit("stored check-in configuration is invalid: invalid check-in award mode: ");
            }
            Err(Error::Internal(m))
        },
    }
}

// ------------------------------------------------------------------ laws ----

/// A day's claim awards once. The first claim moves the balance and the
/// lifetime earnings by exactly the award, and its ledger row (written only
/// for a positive award) records that movement and the balance it left; a
/// retry the same day reads back those totals and awards nothing more.
pub proof fn claiming_twice_awards_once(
    today: EpochDay,
    points: i32,
    streak: i32,
    totals: Option<PointTotals>,
)
    requires
        award_fits(totals, points as int),
    ensures
        ({
            let before = totals_or_zero(totals);
            let after = awarded_totals(totals, points as int);
            let moved = if points > 0 {
                points as int
            } else {
                0
            };
            let retry = repeated_claim_spec(today, points, streak, Some(after));
            &&& after.balance - before.balance == moved
            &&& after.total_earned - before.total_earned == moved
            &&& (award_ledger(totals, points as int) matches Some(m) ==> m.delta == moved
                && m.balance_after == after.balance)
            &&& (award_ledger(totals, points as int) is None <==> moved == 0)
            &&& retry.already_checked_in
            &&& retry.points_awarded == points
            &&& retry.balance == after.balance
            &&& retry.total_earned == after.total_earned
        }),
{
}

} // verus!
