use synctv_core::models::couple_nest::{CouplePet, CouplePetAction, CouplePetCheckinDay};
use synctv_core::service::couple_pet::{decay, interact, pet_view, stage_for, stage_progress};

const HOUR: i64 = 3600;
const T0: i64 = 1_788_000_000;

fn pet(hunger: i16, mood: i16, experience: i32, settled_at: i64) -> CouplePet {
    CouplePet {
        space_id: 7,
        name: "团子".to_string(),
        species: 1,
        skin: 0,
        accessory: 0,
        stage: stage_for(experience),
        experience,
        hunger,
        mood,
        settled_at,
        created_at: settled_at,
        updated_at: settled_at,
    }
}

#[test]
fn decay_counts_whole_points_only() {
    // 59 minutes of hunger costs nothing yet; the 60th costs one point.
    assert_eq!(decay(80, 1000, T0, T0 + 59 * 60), 80);
    assert_eq!(decay(80, 1000, T0, T0 + HOUR), 79);
    // Mood loses a point every two hours.
    assert_eq!(decay(80, 500, T0, T0 + HOUR), 80);
    assert_eq!(decay(80, 500, T0, T0 + 2 * HOUR), 79);
}

#[test]
fn decay_never_lifts_a_meter_above_full() {
    assert_eq!(decay(100, 1000, T0, T0), 100);
    assert_eq!(decay(120, 1000, T0, T0), 100);
}

#[test]
fn feeding_applies_to_the_decayed_value() {
    let p = pet(60, 60, 0, T0);
    let (hunger, mood, experience, stage) = interact(&p, CouplePetAction::Feed, T0 + 10 * HOUR);
    assert_eq!((hunger, mood, experience, stage), (80, 60, 2, 1));
}

#[test]
fn playing_caps_mood_at_full_and_can_raise_the_stage() {
    let p = pet(90, 95, 98, T0);
    let (hunger, mood, experience, stage) = interact(&p, CouplePetAction::Play, T0);
    assert_eq!((hunger, mood, experience, stage), (95, 100, 101, 2));
    let (h, m, e, s) = interact(&p, CouplePetAction::Pet, T0);
    assert_eq!((h, m, e, s), (90, 100, 99, 1));
}

#[test]
fn a_view_brings_the_meters_forward_and_reports_today() {
    let now = T0 + 24 * HOUR;
    let today = now.div_euclid(86_400);
    let p = pet(50, 50, 150, T0);
    let days = vec![
        CouplePetCheckinDay { on_date: today, members: 2, interactions: 3 },
        CouplePetCheckinDay { on_date: today - 1, members: 1, interactions: 1 },
    ];
    let view = pet_view(p, &days, now);
    assert_eq!(view.hunger, 26);
    assert_eq!(view.mood, 38);
    assert_eq!(view.streak_days, 2);
    assert!(view.both_checked_in_today);
    assert_eq!((view.experience_into_stage, view.experience_for_next_stage), (50, 200));
    assert_eq!(stage_progress(700), (1, 1));
    assert_eq!(stage_progress(699), (399, 400));
}

#[test]
fn one_member_alone_today_is_not_both() {
    let now = T0;
    let today = now.div_euclid(86_400);
    let days = vec![CouplePetCheckinDay { on_date: today, members: 1, interactions: 1 }];
    let view = pet_view(pet(50, 50, 0, T0), &days, now);
    assert!(!view.both_checked_in_today);
    assert_eq!(view.streak_days, 1);
    let empty: Vec<CouplePetCheckinDay> = Vec::new();
    assert_eq!(pet_view(pet(50, 50, 0, T0), &empty, now).streak_days, 0);
}
