//! Daily check-in and the points it awards. Two decisions live here: which
//! calendar day "now" belongs to, and how many points a claim is worth.

use vstd::prelude::*;

use crate::calendar::{day_of_spec, SECONDS_PER_DAY};
use crate::error::{first_refusal, invalid_input, refused_with, unauthorized, Error};
use crate::ids::{EpochDay, UnixSeconds};
use crate::models::check_in::{
    CheckInAwardMode, CheckInConfig, CheckInConfigUpdate, CHECK_IN_DAY_BOUNDARY_MAX_MINUTES,
    CHECK_IN_DAY_BOUNDARY_MIN_MINUTES, CHECK_IN_POINTS_MAX,
};

verus! {

/// An award amount an admin may configure.
pub open spec fn points_in_range(points: i32) -> bool {
    0 <= points <= CHECK_IN_POINTS_MAX
}

/// A day boundary an admin may configure.
pub open spec fn offset_in_range(minutes: i32) -> bool {
    CHECK_IN_DAY_BOUNDARY_MIN_MINUTES <= minutes <= CHECK_IN_DAY_BOUNDARY_MAX_MINUTES
}

/// The rules every stored configuration keeps: amounts in range, the random
/// range ordered, the boundary in range.
pub open spec fn config_is_usable(config: CheckInConfig) -> bool {
    &&& points_in_range(config.fixed_points)
    &&& points_in_range(config.random_min_points)
    &&& points_in_range(config.random_max_points)
    &&& config.random_min_points <= config.random_max_points
    &&& offset_in_range(config.day_boundary_offset_minutes)
}

/// `update` laid over `stored`.
pub open spec fn merged_config(stored: CheckInConfig, update: CheckInConfigUpdate) -> CheckInConfig {
    CheckInConfig {
        enabled: match update.enabled {
            Some(v) => v,
            None => stored.enabled,
        },
        award_mode: match update.award_mode {
            Some(v) => v,
            None => stored.award_mode,
        },
        fixed_points: match update.fixed_points {
            Some(v) => v,
            None => stored.fixed_points,
        },
        random_min_points: match update.random_min_points {
            Some(v) => v,
            None => stored.random_min_points,
        },
        random_max_points: match update.random_max_points {
            Some(v) => v,
            None => stored.random_max_points,
        },
        day_boundary_offset_minutes: match update.day_boundary_offset_minutes {
            Some(v) => v,
            None => stored.day_boundary_offset_minutes,
        },
        updated_at: stored.updated_at,
        updated_by: stored.updated_by,
    }
}

/// True when an admin's update may be written over `stored`: each amount it
/// sets in range, the random range (with the stored end standing in for an
/// end it leaves alone) ordered, and a boundary it sets in range.
pub open spec fn update_is_acceptable(update: CheckInConfigUpdate, stored: CheckInConfig) -> bool {
    &&& (update.fixed_points matches Some(p) ==> points_in_range(p))
    &&& (update.random_min_points matches Some(p) ==> points_in_range(p))
    &&& (update.random_max_points matches Some(p) ==> points_in_range(p))
    &&& merged_config(stored, update).random_min_points <= merged_config(
        stored,
        update,
    ).random_max_points
    &&& (update.day_boundary_offset_minutes matches Some(m) ==> offset_in_range(m))
}

/// The sentence refusing an amount sent for `field` that is out of range.
pub open spec fn points_refusal(field: Seq<char>, value: Option<i32>) -> Option<Seq<char>> {
    match value {
        Some(p) => if points_in_range(p) {
            None
        } else {
            Some(field + " must be between 0 and 100000"@)
        },
        None => None,
    }
}

/// The first refusal of a non-empty update, checked in the order fixed,
/// minimum, maximum, range order, boundary.
pub open spec fn update_refusal(update: CheckInConfigUpdate, stored: CheckInConfig) -> Option<
    Seq<char>,
> {
    first_refusal(points_refusal("fixed_points"@, update.fixed_points), first_refusal(points_refusal("random_min_points"@, update.random_min_points), first_refusal(points_refusal("random_max_points"@, update.random_max_points), first_refusal(
        if merged_config(stored, update).random_min_points > merged_config(stored, update).random_max_points {
            Some("random_min_points must not exceed random_max_points"@)
        } else {
            None
        },
        match update.day_boundary_offset_minutes {
            Some(m) => if offset_in_range(m) {
                None
            } else {
                Some("day_boundary_offset_minutes must be between -720 and 840"@)
            },
            None => None,
        },
    ))))
}

fn check_points(field: &str, value: Option<i32>) -> (r: Result<(), Error>)
    ensures
        r is Ok <==> (value matches Some(p) ==> points_in_range(p)),
        r matches Err(e) ==> e.is_invalid_input_with(field@ + " must be between 0 and 100000"@),
{
    match value {
        Some(points) => if 0 <= points && points <= CHECK_IN_POINTS_MAX {
            Ok(())
        } else {
            let mut m = String::from_str(field);
            m.append(" must be between 0 and 100000");
            Err(Error::InvalidInput(m))
        },
        None => Ok(()),
    }
}

/// Whether an admin's partial update is to be written. An empty update needs
/// no write (`Ok(false)`); otherwise the numbers must be usable, checked in
/// the order fixed, minimum, maximum, range order, boundary, and the random
/// range is judged against the *stored* end when only one end moves.
pub fn config_update_decision(update: &CheckInConfigUpdate, stored: &CheckInConfig) -> (r: Result<
    bool,
    Error,
>)
    ensures
        update.spec_is_empty() ==> r == Ok::<bool, Error>(false),
        !update.spec_is_empty() ==> (r is Ok <==> update_is_acceptable(*update, *stored)),
        r matches Ok(write) ==> write == !update.spec_is_empty(),
        !update.spec_is_empty() ==> refused_with(r, update_refusal(*update, *stored)),
{
    if update.is_empty() {
        return Ok(false);
    }
    check_points("fixed_points", update.fixed_points)?;
    check_points("random_min_points", update.random_min_points)?;
    check_points("random_max_points", update.random_max_points)?;
    let random_min = match update.random_min_points {
        Some(v) => v,
        None => stored.random_min_points,
    };
    let random_max = match update.random_max_points {
        Some(v) => v,
        None => stored.random_max_points,
    };
    if random_min > random_max {
        return Err(invalid_input("random_min_points must not exceed random_max_points"));
    }
    if let Some(offset) = update.day_boundary_offset_minutes {
        if !(CHECK_IN_DAY_BOUNDARY_MIN_MINUTES <= offset && offset
            <= CHECK_IN_DAY_BOUNDARY_MAX_MINUTES) {
            return Err(
                invalid_input("day_boundary_offset_minutes must be between -720 and 840"),
            );
        }
    }
    Ok(true)
}

/// The calendar day a claim made at `now` belongs to: the UTC day of `now`
/// shifted east by the configured boundary.
pub open spec fn check_in_day_spec(now: int, offset_minutes: int) -> int {
    day_of_spec(now + offset_minutes * 60)
}

/// Which calendar day a claim made at `now` belongs to. The offset is what
/// makes "one check-in per day" mean the user's day.
pub fn check_in_date_for(now: UnixSeconds, day_boundary_offset_minutes: i32) -> (r: EpochDay)
    ensures
        r == check_in_day_spec(now as int, day_boundary_offset_minutes as int),
{
    let shifted: i128 = (now as i128) + (day_boundary_offset_minutes as i128) * 60;
    let days = SECONDS_PER_DAY as i128;
    let q = shifted / days;
    let rem = shifted % days;
    let day = if rem < 0 {
        q - 1
    } else {
        q
    };
    day as i64
}

/// `v` held within `lo..=hi` (with `lo <= hi`).
pub open spec fn clamp_i32(v: i32, lo: i32, hi: i32) -> i32 {
    if v < lo {
        lo
    } else if v > hi {
        hi
    } else {
        v
    }
}

/// The range a random award is drawn from: the configured ends held within
/// `0..=CHECK_IN_POINTS_MAX`, the upper end no lower than the lower.
pub open spec fn award_range(config: CheckInConfig) -> (i32, i32) {
    let low = clamp_i32(config.random_min_points, 0, CHECK_IN_POINTS_MAX);
    (low, clamp_i32(config.random_max_points, low, CHECK_IN_POINTS_MAX))
}

/// `rand::random_range(low..=high)`: a value drawn from the thread-local
/// generator. All that is stated is that it lies within the range, which is
/// never empty here (`low < high`), so the call does not panic.
#[verifier::external_body]
fn draw_points(low: i32, high: i32) -> (r: i32)
    requires
        low < high,
    ensures
        low <= r <= high,
{
    rand::random_range(low..=high)
}

/// The award for one claim, given the draw the random mode made (ignored in
/// fixed mode and when the range has one value).
pub fn award_with_draw(config: &CheckInConfig, draw: i32) -> (r: i32)
    ensures
        config.award_mode == CheckInAwardMode::Fixed ==> r == clamp_i32(
            config.fixed_points,
            0,
            CHECK_IN_POINTS_MAX,
        ),
        config.award_mode == CheckInAwardMode::Random ==> r == (if award_range(*config).0
            == award_range(*config).1 {
            award_range(*config).0
        } else {
            draw
        }),
{
    match config.award_mode {
        CheckInAwardMode::Fixed => clamp(config.fixed_points, 0, CHECK_IN_POINTS_MAX),
        CheckInAwardMode::Random => {
            let low = clamp(config.random_min_points, 0, CHECK_IN_POINTS_MAX);
            let high = clamp(config.random_max_points, low, CHECK_IN_POINTS_MAX);
            if low == high {
                low
            } else {
                draw
            }
        },
    }
}

fn clamp(v: i32, lo: i32, hi: i32) -> (r: i32)
    requires
        lo <= hi,
    ensures
        r == clamp_i32(v, lo, hi),
{
    if v < lo {
        lo
    } else if v > hi {
        hi
    } else {
        v
    }
}

/// The award for one claim. A random draw happens once, here, so what the
/// ledger records is what the user was told they received; it is always
/// within `0..=CHECK_IN_POINTS_MAX`.
pub fn award_points(config: &CheckInConfig) -> (r: i32)
    ensures
        0 <= r <= CHECK_IN_POINTS_MAX,
        config.award_mode == CheckInAwardMode::Fixed ==> r == clamp_i32(
            config.fixed_points,
            0,
            CHECK_IN_POINTS_MAX,
        ),
        config.award_mode == CheckInAwardMode::Random ==> award_range(*config).0 <= r
            <= award_range(*config).1,
{
    match config.award_mode {
        CheckInAwardMode::Fixed => award_with_draw(config, 0),
        CheckInAwardMode::Random => {
            let low = clamp(config.random_min_points, 0, CHECK_IN_POINTS_MAX);
            let high = clamp(config.random_max_points, low, CHECK_IN_POINTS_MAX);
            if low == high {
                award_with_draw(config, low)
            } else {
                let draw = draw_points(low, high);
                award_with_draw(config, draw)
            }
        },
    }
}

/// A claim is refused outright while check-in is switched off.
pub fn claim_allowed(config: &CheckInConfig) -> (r: Result<(), Error>)
    ensures
        r is Ok <==> config.enabled,
        r matches Err(e) ==> e.is_authorization_with("Daily check-in is disabled"@),
{
    if !config.enabled {
        return Err(unauthorized("Daily check-in is disabled"));
    }
    Ok(())
}

// ------------------------------------------------------------------ laws ----

/// Every update the rules accept keeps a usable configuration usable: an
/// admin can never store an inverted random range or an amount out of range.
pub proof fn accepted_updates_keep_the_config_usable(
    stored: CheckInConfig,
    update: CheckInConfigUpdate,
)
    requires
        config_is_usable(stored),
        update_is_acceptable(update, stored),
    ensures
        config_is_usable(merged_config(stored, update)),
{
}

/// The check-in day moves forward with time: a later instant never lands on
/// an earlier day.
pub proof fn check_in_days_never_go_back(t1: int, t2: int, offset: int)
    requires
        t1 <= t2,
    ensures
        check_in_day_spec(t1, offset) <= check_in_day_spec(t2, offset),
{
    let a = t1 + offset * 60;
    let b = t2 + offset * 60;
    assert(a / 86400 <= b / 86400) by (nonlinear_arith)
        requires
            a <= b,
    ;
}

/// Turning check-in on or off is always a change to write: over a usable
/// stored configuration, an update that sets only the switch is non-empty,
/// acceptable, and leaves the configuration as stored but for the switch,
/// which takes the value sent.
pub proof fn switching_check_in_is_written(enabled: bool, stored: CheckInConfig)
    requires
        config_is_usable(stored),
    ensures
        ({
            let update = CheckInConfigUpdate {
                enabled: Some(enabled),
                award_mode: None,
                fixed_points: None,
                random_min_points: None,
                random_max_points: None,
                day_boundary_offset_minutes: None,
            };
            &&& !update.spec_is_empty()
            &&& update_is_acceptable(update, stored)
            &&& merged_config(stored, update) == (CheckInConfig { enabled, ..stored })
        }),
{
}

/// Holding an award end within `lo..=hi` gives the nearest value of that
/// range: the result lies in it, nothing in it is closer, an end already
/// inside is kept, and order is kept.
pub proof fn award_ends_take_the_nearest_in_range(v: i32, other: i32, lo: i32, hi: i32, q: i32)
    requires
        lo <= hi,
        lo <= q <= hi,
    ensures
        lo <= clamp_i32(v, lo, hi) <= hi,
        ({
            let c = clamp_i32(v, lo, hi) as int;
            let d = if c >= v { c - v } else { v - c };
            let e = if q >= v { q - v } else { v - q };
            d <= e
        }),
        lo <= v <= hi ==> clamp_i32(v, lo, hi) == v,
        v <= other ==> clamp_i32(v, lo, hi) <= clamp_i32(other, lo, hi),
{
}

} // verus!
