//! 宠物小屋: the pet's numbers are a simulation. Hunger and mood are stored as
//! of an instant and decay from there, so "what is the pet like now" is
//! computed, never read.

use vstd::prelude::*;

use crate::calendar::{day_of, day_of_spec};
use crate::ids::{EpochDay, UnixSeconds};
use crate::models::couple_nest::{
    CouplePet, CouplePetAction, CouplePetCheckinDay, CouplePetView,
};

verus! {

/// Hunger lost per hour left alone, in thousandths of a point. A day of
/// neglect costs 24 of 100.
pub const HUNGER_DECAY_MILLI_PER_HOUR: u32 = 1000;

/// Mood falls at half that: loneliness is slower than hunger.
pub const MOOD_DECAY_MILLI_PER_HOUR: u32 = 500;

/// Cumulative experience needed to reach stage 2, 3 and 4.
pub const STAGE_THRESHOLDS: [i32; 3] = [100, 300, 700];

/// A year of squares is as much history as the streak panel can show.
pub const STREAK_HISTORY_DAYS: i64 = 366;

/// Highest hunger and mood a pet can have.
pub const PET_METER_MAX: i16 = 100;

/// `value` held within `lo..=hi`.
pub open spec fn clamp_spec(value: int, lo: int, hi: int) -> int {
    if value < lo {
        lo
    } else if value > hi {
        hi
    } else {
        value
    }
}

/// Whole points lost over `since..now` at `milli_per_hour` thousandths of a
/// point per hour. Time running backwards loses nothing.
pub open spec fn points_lost(milli_per_hour: int, since: int, now: int) -> int {
    let elapsed = if now > since {
        now - since
    } else {
        0
    };
    (elapsed * milli_per_hour) / 3_600_000
}

/// A meter brought forward from `since` to `now`, kept within 0..=100.
pub open spec fn decay_spec(value: int, milli_per_hour: int, since: int, now: int) -> int {
    clamp_spec(value - points_lost(milli_per_hour, since, now), 0, 100)
}

/// Brings a stored meter forward to `now`: one whole point is lost per
/// `1000 / milli_per_hour` hours, never below empty, never above full.
pub fn decay(value: i16, milli_per_hour: u32, since: UnixSeconds, now: UnixSeconds) -> (r: i16)
    ensures
        r == decay_spec(value as int, milli_per_hour as int, since as int, now as int),
        0 <= r <= 100,
{
    let elapsed: i128 = if now > since {
        (now as i128) - (since as i128)
    } else {
        0
    };
    assert(0 <= elapsed < 0x1_0000_0000_0000_0000);
    let rate = milli_per_hour as i128;
    assert(0 <= elapsed * rate < 0x1_0000_0000_0000_0000_0000_0000) by (nonlinear_arith)
        requires
            0 <= elapsed < 0x1_0000_0000_0000_0000,
            0 <= rate < 0x1_0000_0000,
    ;
    let lost = (elapsed * rate) / 3_600_000;
    let remaining = (value as i128) - lost;
    if remaining < 0 {
        0
    } else if remaining > 100 {
        100
    } else {
        remaining as i16
    }
}

/// The stage earned by a total of experience: 1, then one more for each
/// threshold reached.
pub open spec fn stage_spec(experience: int) -> int {
    if experience >= 700 {
        4
    } else if experience >= 300 {
        3
    } else if experience >= 100 {
        2
    } else {
        1
    }
}

/// Which stage the pet has earned, from its total experience.
pub fn stage_for(experience: i32) -> (r: i16)
    ensures
        r == stage_spec(experience as int),
        1 <= r <= 4,
{
    let mut stage: i16 = 1;
    let mut i: usize = 0;
    while i < 3
        invariant
            i <= 3,
            STAGE_THRESHOLDS@ == seq![100i32, 300i32, 700i32],
            stage == 1 + (if i >= 1 && experience >= 100 {
                1int
            } else {
                0
            }) + (if i >= 2 && experience >= 300 {
                1int
            } else {
                0
            }) + (if i >= 3 && experience >= 700 {
                1int
            } else {
                0
            }),
        decreases 3 - i,
    {
        if experience >= STAGE_THRESHOLDS[i] {
            stage = stage + 1;
        }
        i = i + 1;
    }
    stage
}

/// Progress within the current stage and what the next one costs; a fully
/// grown pet reads as a full bar.
pub open spec fn stage_progress_spec(experience: int) -> (int, int) {
    if experience >= 700 {
        (1, 1)
    } else if experience >= 300 {
        (experience - 300, 400)
    } else if experience >= 100 {
        (experience - 100, 200)
    } else {
        (experience, 100)
    }
}

/// Progress within the current stage, and what the next one costs.
pub fn stage_progress(experience: i32) -> (r: (i32, i32))
    ensures
        r.0 == stage_progress_spec(experience as int).0,
        r.1 == stage_progress_spec(experience as int).1,
{
    let stage = stage_for(experience);
    assert(STAGE_THRESHOLDS@ == seq![100i32, 300i32, 700i32]);
    let floor: i32 = if stage >= 2 {
        STAGE_THRESHOLDS[(stage - 2) as usize]
    } else {
        0
    };
    if ((stage - 1) as usize) < 3 {
        let ceiling = STAGE_THRESHOLDS[(stage - 1) as usize];
        (experience - floor, ceiling - floor)
    } else {
        (1, 1)
    }
}

impl CouplePetAction {
    /// What one interaction adds: (hunger, mood, experience).
    pub open spec fn effect_spec(self) -> (i16, i16, i32) {
        match self {
            CouplePetAction::Feed => (30, 5, 2),
            CouplePetAction::Play => (5, 25, 3),
            CouplePetAction::Pet => (0, 10, 1),
        }
    }

    pub fn effect(self) -> (r: (i16, i16, i32))
        ensures
            r == self.effect_spec(),
    {
        match self {
            CouplePetAction::Feed => (30, 5, 2),
            CouplePetAction::Play => (5, 25, 3),
            CouplePetAction::Pet => (0, 10, 1),
        }
    }
}

/// The days of a history, in the order given.
pub open spec fn dates_of(days: Seq<CouplePetCheckinDay>) -> Seq<int> {
    days.map_values(|d: CouplePetCheckinDay| d.on_date as int)
}

/// How far a run reaches, walking the history in order with `cursor` as the
/// next day the run needs: a matching day extends it, a day before the cursor
/// ends it, and a day after the cursor is passed over.
pub open spec fn run_from(dates: Seq<int>, cursor: int) -> nat
    decreases dates.len(),
{
    if dates.len() == 0 {
        0
    } else if dates[0] == cursor {
        1 + run_from(dates.drop_first(), cursor - 1)
    } else if dates[0] < cursor {
        0
    } else {
        run_from(dates.drop_first(), cursor)
    }
}

/// The run of consecutive days ending today, or ending yesterday when nobody
/// has been in yet today; zero when the newest day is older than that.
pub open spec fn streak_spec(dates: Seq<int>, today: int) -> nat {
    if dates.len() == 0 {
        0
    } else if dates[0] == today {
        run_from(dates, today)
    } else if dates[0] == today - 1 {
        run_from(dates, today - 1)
    } else {
        0
    }
}

proof fn lemma_run_from_bounded(dates: Seq<int>, cursor: int)
    ensures
        run_from(dates, cursor) <= dates.len(),
    decreases dates.len(),
{
    if dates.len() > 0 {
        lemma_run_from_bounded(dates.drop_first(), cursor - 1);
        lemma_run_from_bounded(dates.drop_first(), cursor);
    }
}

/// The longest run of consecutive days ending today, or ending yesterday when
/// nobody has been in yet today.
///
/// Ending yesterday still counts: a streak should not look broken at
/// breakfast merely because the day is young.
pub fn streak_from(days: &Vec<CouplePetCheckinDay>, today: EpochDay) -> (r: i64)
    requires
        days@.len() <= i64::MAX,
    ensures
        r == streak_spec(dates_of(days@), today as int),
        0 <= r <= days@.len(),
{
    let ghost dates = dates_of(days@);
    proof {
        lemma_run_from_bounded(dates, today as int);
        lemma_run_from_bounded(dates, today - 1);
    }
    if days.len() == 0 {
        return 0;
    }
    let first = days[0].on_date as i128;
    let t = today as i128;
    let mut cursor: i128 = if first == t {
        t
    } else if first == t - 1 {
        t - 1
    } else {
        return 0;
    };
    let ghost start = cursor as int;
    let mut streak: i64 = 0;
    let mut i: usize = 0;
    assert(dates.skip(0) =~= dates);
    while i < days.len()
        invariant_except_break
            i <= days@.len(),
            days@.len() <= i64::MAX,
            dates == dates_of(days@),
            0 <= streak <= i,
            cursor == start - streak,
            streak + run_from(dates.skip(i as int), cursor as int) == run_from(dates, start),
        ensures
            streak == run_from(dates, start),
        decreases days@.len() - i,
    {
        let d = days[i].on_date as i128;
        let ghost rest = dates.skip(i as int);
        assert(rest[0] == d);
        assert(rest.drop_first() =~= dates.skip(i + 1));
        if d == cursor {
            streak = streak + 1;
            cursor = cursor - 1;
        } else if d < cursor {
            break;
        }
        i = i + 1;
    }
    proof {
        if i == days.len() {
            assert(dates.skip(i as int).len() == 0);
        }
    }
    streak
}

/// Consecutive days ending at `anchor` at the head of a history.
pub open spec fn is_run_prefix(dates: Seq<int>, anchor: int, k: int) -> bool {
    &&& 0 <= k <= dates.len()
    &&& forall|i: int| 0 <= i < k ==> #[trigger] dates[i] == anchor - i
}

/// A history with the newest day first and no day twice.
pub open spec fn strictly_descending(dates: Seq<int>) -> bool {
    forall|i: int, j: int| 0 <= i < j < dates.len() ==> dates[i] > dates[j]
}

proof fn lemma_run_from_descending(dates: Seq<int>, cursor: int)
    requires
        strictly_descending(dates),
        dates.len() == 0 || dates[0] <= cursor,
    ensures
        is_run_prefix(dates, cursor, run_from(dates, cursor) as int),
        run_from(dates, cursor) < dates.len() ==> dates[run_from(dates, cursor) as int]
            != cursor - run_from(dates, cursor),
    decreases dates.len(),
{
    if dates.len() > 0 {
        let d = dates.drop_first();
        if dates[0] == cursor {
            assert(strictly_descending(d));
            if d.len() > 0 {
                assert(d[0] == dates[1]);
            }
            lemma_run_from_descending(d, cursor - 1);
            let k = run_from(d, cursor - 1) as int;
            assert forall|i: int| 0 <= i < k + 1 implies #[trigger] dates[i] == cursor - i by {
                if i > 0 {
                    assert(dates[i] == d[i - 1]);
                }
            }
            if k + 1 < dates.len() {
                assert(dates[k + 1] == d[k as int]);
            }
        }
    }
}

/// The streak of a newest-first history is the longest run of consecutive
/// days at its head that ends today, or ends yesterday when today is absent.
pub proof fn streak_is_the_run_at_the_head(dates: Seq<int>, today: int)
    requires
        strictly_descending(dates),
    ensures
        dates.len() > 0 && (dates[0] == today || dates[0] == today - 1) ==> {
            let anchor = dates[0];
            let k = streak_spec(dates, today) as int;
            &&& is_run_prefix(dates, anchor, k)
            &&& (k < dates.len() ==> dates[k] != anchor - k)
        },
        dates.len() == 0 || (dates[0] != today && dates[0] != today - 1) ==> streak_spec(
            dates,
            today,
        ) == 0,
{
    if dates.len() > 0 && (dates[0] == today || dates[0] == today - 1) {
        lemma_run_from_descending(dates, dates[0]);
    }
}

/// Instant bound to a timestamp: the day `now` falls on.
pub open spec fn today_of(now: int) -> int {
    day_of_spec(now)
}

/// The pet as it is at `now`: stored values decayed to this moment, the
/// streak the check-in history implies, and progress within its stage.
/// `days` is the check-in history, newest day first.
pub fn pet_view(pet: CouplePet, days: &Vec<CouplePetCheckinDay>, now: UnixSeconds) -> (r:
    CouplePetView)
    requires
        days@.len() <= i64::MAX,
    ensures
        r.pet == pet,
        r.hunger == decay_spec(
            pet.hunger as int,
            HUNGER_DECAY_MILLI_PER_HOUR as int,
            pet.settled_at as int,
            now as int,
        ),
        r.mood == decay_spec(
            pet.mood as int,
            MOOD_DECAY_MILLI_PER_HOUR as int,
            pet.settled_at as int,
            now as int,
        ),
        r.streak_days == streak_spec(dates_of(days@), today_of(now as int)),
        r.both_checked_in_today == (days@.len() > 0 && days@[0].on_date == today_of(now as int)
            && days@[0].members >= 2),
        r.experience_into_stage == stage_progress_spec(pet.experience as int).0,
        r.experience_for_next_stage == stage_progress_spec(pet.experience as int).1,
{
    let today = day_of(now);
    let (into_stage, for_next) = stage_progress(pet.experience);
    let hunger = decay(pet.hunger, HUNGER_DECAY_MILLI_PER_HOUR, pet.settled_at, now);
    let mood = decay(pet.mood, MOOD_DECAY_MILLI_PER_HOUR, pet.settled_at, now);
    let streak_days = streak_from(days, today);
    let both_checked_in_today = days.len() > 0 && days[0].on_date == today && days[0].members
        >= 2;
    CouplePetView {
        pet,
        hunger,
        mood,
        streak_days,
        both_checked_in_today,
        experience_into_stage: into_stage,
        experience_for_next_stage: for_next,
    }
}

/// What an interaction leaves the pet with, to be stored with `now` as its
/// new settled instant: (hunger, mood, experience, stage).
///
/// The effect is applied to the *decayed* values, not the stored ones —
/// feeding a pet that has been alone for a week must not restore it from the
/// number it had a week ago.
pub open spec fn interaction_spec(pet: CouplePet, action: CouplePetAction, now: int) -> (
    int,
    int,
    int,
    int,
) {
    let (hunger_gain, mood_gain, experience_gain) = action.effect_spec();
    let hunger = decay_spec(
        pet.hunger as int,
        HUNGER_DECAY_MILLI_PER_HOUR as int,
        pet.settled_at as int,
        now,
    ) + hunger_gain;
    let mood = decay_spec(pet.mood as int, MOOD_DECAY_MILLI_PER_HOUR as int, pet.settled_at as int, now)
        + mood_gain;
    let experience = clamp_spec(
        pet.experience + experience_gain,
        i32::MIN as int,
        i32::MAX as int,
    );
    (
        if hunger > 100 {
            100
        } else {
            hunger
        },
        if mood > 100 {
            100
        } else {
            mood
        },
        experience,
        stage_spec(experience),
    )
}

/// Applies one interaction at `now`.
pub fn interact(pet: &CouplePet, action: CouplePetAction, now: UnixSeconds) -> (r: (
    i16,
    i16,
    i32,
    i16,
))
    ensures
        (r.0 as int, r.1 as int, r.2 as int, r.3 as int) == interaction_spec(*pet, action, now as int),
{
    let (hunger_gain, mood_gain, experience_gain) = action.effect();
    let hunger_now = decay(pet.hunger, HUNGER_DECAY_MILLI_PER_HOUR, pet.settled_at, now);
    let mood_now = decay(pet.mood, MOOD_DECAY_MILLI_PER_HOUR, pet.settled_at, now);
    let hunger_sum = hunger_now + hunger_gain;
    let hunger = if hunger_sum > 100 {
        100
    } else {
        hunger_sum
    };
    let mood_sum = mood_now + mood_gain;
    let mood = if mood_sum > 100 {
        100
    } else {
        mood_sum
    };
    let sum = (pet.experience as i64) + (experience_gain as i64);
    let experience: i32 = if sum > i32::MAX as i64 {
        i32::MAX
    } else if sum < i32::MIN as i64 {
        i32::MIN
    } else {
        sum as i32
    };
    (hunger, mood, experience, stage_for(experience))
}

// ------------------------------------------------------------------ laws ----

/// A meter never leaves 0..=100, however long the pet was left alone.
pub proof fn meters_stay_in_range(value: int, milli_per_hour: int, since: int, now: int)
    ensures
        0 <= decay_spec(value, milli_per_hour, since, now) <= 100,
{
}

/// Waiting longer never raises a meter: decay is monotone in the reading
/// instant.
pub proof fn decay_never_recovers(value: int, milli_per_hour: int, since: int, t1: int, t2: int)
    requires
        0 <= milli_per_hour,
        t1 <= t2,
    ensures
        decay_spec(value, milli_per_hour, since, t2) <= decay_spec(
            value,
            milli_per_hour,
            since,
            t1,
        ),
{
    let e1 = if t1 > since {
        t1 - since
    } else {
        0
    };
    let e2 = if t2 > since {
        t2 - since
    } else {
        0
    };
    assert(e1 <= e2);
    assert(e1 * milli_per_hour <= e2 * milli_per_hour) by (nonlinear_arith)
        requires
            0 <= e1 <= e2,
            0 <= milli_per_hour,
    ;
    assert((e1 * milli_per_hour) / 3_600_000 <= (e2 * milli_per_hour) / 3_600_000) by (
    nonlinear_arith)
        requires
            e1 * milli_per_hour <= e2 * milli_per_hour,
    ;
}

/// A clock that went backwards does not feed the pet: reading at or before
/// the settled instant returns the stored value, held within 0..=100.
pub proof fn no_decay_before_settling(value: int, milli_per_hour: int, since: int, now: int)
    requires
        now <= since,
    ensures
        decay_spec(value, milli_per_hour, since, now) == clamp_spec(value, 0, 100),
{
}

/// Stages only go up as experience grows, and stay within 1..=4.
pub proof fn stages_are_monotone(e1: int, e2: int)
    requires
        e1 <= e2,
    ensures
        stage_spec(e1) <= stage_spec(e2),
        1 <= stage_spec(e1) <= 4,
{
}

/// The progress bar never overflows: what has been earned within the stage
/// is below what the stage costs (a grown pet reads as one of one).
pub proof fn progress_is_within_the_stage(experience: int)
    requires
        experience >= 0,
    ensures
        0 <= stage_progress_spec(experience).0 < stage_progress_spec(experience).1
            || stage_progress_spec(experience) == (1int, 1int),
        stage_progress_spec(experience).1 > 0,
{
}

/// An interaction never lowers experience (short of the ceiling of the
/// counter) and never leaves a meter above full.
pub proof fn interactions_only_help(pet: CouplePet, action: CouplePetAction, now: int)
    ensures
        interaction_spec(pet, action, now).2 >= pet.experience,
        0 <= interaction_spec(pet, action, now).0 <= 100,
        0 <= interaction_spec(pet, action, now).1 <= 100,
        interaction_spec(pet, action, now).3 == stage_spec(interaction_spec(pet, action, now).2),
{
}

/// Holding a value within `lo..=hi` gives the nearest value of that range:
/// the result lies in it, nothing in it is closer to the value, a value
/// already inside is kept, and order is kept.
pub proof fn holding_in_range_takes_the_nearest(value: int, other: int, lo: int, hi: int, q: int)
    requires
        lo <= hi,
        lo <= q <= hi,
    ensures
        lo <= clamp_spec(value, lo, hi) <= hi,
        ({
            let c = clamp_spec(value, lo, hi);
            let d = if c >= value { c - value } else { value - c };
            let e = if q >= value { q - value } else { value - q };
            d <= e
        }),
        lo <= value <= hi ==> clamp_spec(value, lo, hi) == value,
        value <= other ==> clamp_spec(value, lo, hi) <= clamp_spec(other, lo, hi),
{
}

/// The progress bar and the stage agree: short of full growth, the
/// experience at which the current stage began (experience less progress)
/// still earns this stage while one point less earns the stage before, and
/// adding what the stage costs reaches the next stage exactly.
pub proof fn progress_measures_the_current_stage(experience: int)
    requires
        0 <= experience < 700,
    ensures
        ({
            let (earned, cost) = stage_progress_spec(experience);
            let start = experience - earned;
            &&& stage_spec(start) == stage_spec(experience)
            &&& (start > 0 ==> stage_spec(start - 1) == stage_spec(experience) - 1)
            &&& stage_spec(start + cost) == stage_spec(experience) + 1
            &&& stage_spec(start + cost - 1) == stage_spec(experience)
        }),
{
}

/// What each interaction is for: feeding does the most for hunger, playing
/// the most for mood, petting only cheers the pet up, and every interaction
/// earns some experience and lowers no meter.
pub proof fn each_interaction_has_its_purpose(action: CouplePetAction)
    ensures
        CouplePetAction::Feed.effect_spec().0 > action.effect_spec().0
            || action == CouplePetAction::Feed,
        CouplePetAction::Play.effect_spec().1 > action.effect_spec().1
            || action == CouplePetAction::Play,
        CouplePetAction::Pet.effect_spec().0 == 0,
        CouplePetAction::Pet.effect_spec().1 > 0,
        action.effect_spec().0 >= 0,
        action.effect_spec().1 >= 0,
        action.effect_spec().2 >= 1,
{
}

} // verus!
