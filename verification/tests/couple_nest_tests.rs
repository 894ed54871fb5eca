use chrono::{Duration, NaiveDate, Utc};

use synctv_core::calendar::CivilDate;
use synctv_core::models::couple_nest::{CoupleAnniversary, CouplePetCheckinDay};
use synctv_core::service::couple_pet::{
    decay, stage_for, stage_progress, streak_from, HUNGER_DECAY_MILLI_PER_HOUR,
    MOOD_DECAY_MILLI_PER_HOUR,
};

fn epoch_day(date: NaiveDate) -> i64 {
    date.signed_duration_since(NaiveDate::from_ymd_opt(1970, 1, 1).unwrap())
        .num_days()
}

fn day(days_ago: i64, members: i64) -> CouplePetCheckinDay {
    CouplePetCheckinDay {
        on_date: epoch_day(NaiveDate::from_ymd_opt(2026, 9, 8).unwrap() - Duration::days(days_ago)),
        members,
        interactions: members,
    }
}

fn today() -> i64 {
    epoch_day(NaiveDate::from_ymd_opt(2026, 9, 8).unwrap())
}

fn today_date() -> CivilDate {
    CivilDate { year: 2026, month: 9, day: 8 }
}

fn anniversary(title: &str, happens_on: CivilDate, repeat_yearly: bool) -> CoupleAnniversary {
    let now = Utc::now().timestamp();
    CoupleAnniversary {
        id: 1,
        space_id: 1,
        created_by_user_id: None,
        title: title.to_string(),
        happens_on,
        repeat_yearly,
        note: String::new(),
        created_at: now,
        updated_at: now,
    }
}

#[test]
fn a_run_ending_today_counts_every_day_in_it() {
    let days = vec![day(0, 2), day(1, 1), day(2, 2)];
    assert_eq!(streak_from(&days, today()), 3);
}

#[test]
fn a_run_ending_yesterday_still_counts() {
    let days = vec![day(1, 1), day(2, 1)];
    assert_eq!(streak_from(&days, today()), 2);
}

#[test]
fn a_gap_ends_the_run() {
    let days = vec![day(0, 1), day(1, 1), day(3, 1), day(4, 1)];
    assert_eq!(streak_from(&days, today()), 2);
}

#[test]
fn a_run_that_stopped_days_ago_is_not_a_streak() {
    let days = vec![day(4, 2), day(5, 2)];
    assert_eq!(streak_from(&days, today()), 0);
}

#[test]
fn hunger_falls_a_point_an_hour_and_stops_at_empty() {
    let now = Utc::now().timestamp();
    assert_eq!(
        decay(60, HUNGER_DECAY_MILLI_PER_HOUR, now - Duration::hours(10).num_seconds(), now),
        50
    );
    assert_eq!(
        decay(60, HUNGER_DECAY_MILLI_PER_HOUR, now - Duration::hours(500).num_seconds(), now),
        0
    );
}

#[test]
fn mood_falls_at_half_the_rate_of_hunger() {
    let now = Utc::now().timestamp();
    assert_eq!(
        decay(60, MOOD_DECAY_MILLI_PER_HOUR, now - Duration::hours(10).num_seconds(), now),
        55
    );
}

#[test]
fn a_clock_that_went_backwards_does_not_feed_the_pet() {
    let now = Utc::now().timestamp();
    assert_eq!(
        decay(40, HUNGER_DECAY_MILLI_PER_HOUR, now + Duration::hours(5).num_seconds(), now),
        40
    );
}

#[test]
fn stages_follow_the_thresholds() {
    assert_eq!(stage_for(0), 1);
    assert_eq!(stage_for(99), 1);
    assert_eq!(stage_for(100), 2);
    assert_eq!(stage_for(300), 3);
    assert_eq!(stage_for(700), 4);
    assert_eq!(stage_for(10_000), 4);
}

#[test]
fn progress_is_measured_within_the_current_stage() {
    assert_eq!(stage_progress(0), (0, 100));
    assert_eq!(stage_progress(150), (50, 200));
    assert_eq!(stage_progress(900), (1, 1));
}

#[test]
fn a_yearly_date_already_past_this_year_lands_on_next_year() {
    let a = anniversary("生日", CivilDate { year: 2020, month: 3, day: 4 }, true);
    assert_eq!(a.next_occurrence(today_date()), CivilDate { year: 2027, month: 3, day: 4 });
}

#[test]
fn a_one_off_keeps_its_own_date_even_once_it_has_passed() {
    let a = anniversary("搬家", CivilDate { year: 2024, month: 1, day: 2 }, false);
    assert_eq!(a.next_occurrence(today_date()), CivilDate { year: 2024, month: 1, day: 2 });
}

#[test]
fn the_twenty_ninth_of_february_falls_back_rather_than_skipping_three_years() {
    let a = anniversary("闰日", CivilDate { year: 2024, month: 2, day: 29 }, true);
    assert_eq!(a.next_occurrence(today_date()), CivilDate { year: 2027, month: 2, day: 28 });
}

#[test]
fn a_yearly_date_still_ahead_this_year_lands_this_year() {
    let a = anniversary("纪念日", CivilDate { year: 2019, month: 12, day: 25 }, true);
    assert_eq!(a.next_occurrence(today_date()), CivilDate { year: 2026, month: 12, day: 25 });
    let same_day = anniversary("今天", CivilDate { year: 2010, month: 9, day: 8 }, true);
    assert_eq!(same_day.next_occurrence(today_date()), today_date());
}

#[test]
fn the_twenty_ninth_of_february_lands_on_itself_in_a_leap_year() {
    let a = anniversary("闰日", CivilDate { year: 2024, month: 2, day: 29 }, true);
    let today = CivilDate { year: 2028, month: 1, day: 10 };
    assert_eq!(a.next_occurrence(today), CivilDate { year: 2028, month: 2, day: 29 });
}
