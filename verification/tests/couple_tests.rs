use synctv_core::calendar::CivilDate;
use synctv_core::error::Error;
use synctv_core::ids::UserId;
use synctv_core::models::couple::{CoupleSpace, CoupleSpaceStatus};
use synctv_core::models::couple_nest::{
    CoupleAiKind, CoupleAnniversary, CoupleMediaKind, CoupleTodo, CoupleTodoUpdate,
};
use synctv_core::repository::couple::{binding_slots_free, may_be_bound, stored_space_status};
use synctv_core::repository::couple_nest::{
    stored_ai_kind, stored_media_kind, todo_write_flags, TodoWriteFlags,
};
use synctv_core::service::couple::{
    couple_space_view, days_since, invite_precheck, partner_of, require_active_space,
};
use synctv_core::service::couple_nest::{
    adoption, album_in_space, clamp_priority, clamp_species, item_space_member, keep_prompt,
    memory_not_found, new_couple_ai_work,
    new_couple_memory, next_anniversary, open_todos, pet_still_there,
};
use synctv_core::service::watch_history::{check_source_key_batch, validate_entry_source_key};

fn space(status: CoupleSpaceStatus, anniversary: Option<i64>) -> CoupleSpace {
    CoupleSpace {
        id: 1,
        initiator_user_id: UserId(10),
        partner_user_id: UserId(20),
        status,
        title: String::new(),
        invite_message: String::new(),
        anniversary_date: anniversary,
        created_at: 0,
        bound_at: None,
        ended_at: None,
    }
}

#[test]
fn each_member_sees_the_other_as_partner() {
    let s = space(CoupleSpaceStatus::Active, Some(100));
    assert_eq!(partner_of(&s, UserId(10)), Ok(UserId(20)));
    assert_eq!(partner_of(&s, UserId(20)), Ok(UserId(10)));
    assert_eq!(
        partner_of(&s, UserId(30)),
        Err(Error::NotFound("Couple space not found".to_string()))
    );
}

#[test]
fn the_binding_day_counts_as_day_one() {
    assert_eq!(days_since(100, 100), 1);
    assert_eq!(days_since(100, 109), 10);
    assert_eq!(days_since(100, 99), 0);
    assert_eq!(days_since(100, 50), 0);
    let view = couple_space_view(space(CoupleSpaceStatus::Active, Some(100)), UserId(20), (3, 4), 104)
        .unwrap();
    assert_eq!(view.partner_user_id, UserId(10));
    assert!(!view.viewer_is_initiator);
    assert_eq!(view.days_together, Some(5));
    assert_eq!((view.favorite_count, view.shared_watch_count), (3, 4));
    let pending = couple_space_view(space(CoupleSpaceStatus::Pending, Some(100)), UserId(10), (3, 4), 104)
        .unwrap();
    assert_eq!(pending.days_together, None);
    assert_eq!((pending.favorite_count, pending.shared_watch_count), (0, 0));
}

#[test]
fn an_invite_is_checked_before_any_lookup() {
    assert_eq!(
        invite_precheck(UserId(1), UserId(1), "t", "m"),
        Err(Error::InvalidInput("Cannot invite yourself".to_string()))
    );
    assert_eq!(
        invite_precheck(UserId(1), UserId(2), " 我们 ", " 来吧 "),
        Ok(("我们".to_string(), "来吧".to_string()))
    );
    assert_eq!(
        require_active_space(Some(space(CoupleSpaceStatus::Ended, None)), UserId(10)).unwrap_err(),
        Error::Conflict("This couple space is not active".to_string())
    );
    assert!(!may_be_bound(UserId(3), UserId(3)));
    assert!(may_be_bound(UserId(3), UserId(4)));
    assert_eq!(
        binding_slots_free(true),
        Err(Error::Conflict("One of these accounts is already in a couple space".to_string()))
    );
}

#[test]
fn stored_couple_rows_read_their_codes() {
    assert_eq!(stored_space_status("Active"), Ok(CoupleSpaceStatus::Active));
    assert_eq!(
        stored_space_status("frozen"),
        Err(Error::Internal(
            "stored couple space status is invalid: invalid couple space status: frozen"
                .to_string()
        ))
    );
    assert_eq!(stored_media_kind(2), Ok(CoupleMediaKind::Video));
    assert_eq!(
        stored_media_kind(7),
        Err(Error::Internal("stored couple media kind is invalid: 7".to_string()))
    );
    assert_eq!(stored_ai_kind(3), Ok(CoupleAiKind::LoveLetter));
    assert_eq!(
        stored_ai_kind(-1),
        Err(Error::Internal("stored couple AI kind is invalid: -1".to_string()))
    );
}

#[test]
fn a_todo_edit_distinguishes_clearing_from_leaving() {
    let day = CivilDate { year: 2026, month: 1, day: 2 };
    let mut update = CoupleTodoUpdate {
        title: None,
        note: None,
        category: None,
        priority: None,
        plan_date: Some(None),
        done: Some(true),
    };
    assert_eq!(
        todo_write_flags(&update),
        TodoWriteFlags { clear_plan_date: true, plan_date: None, set_done: true, clear_done: false }
    );
    update.plan_date = Some(Some(day));
    update.done = Some(false);
    assert_eq!(
        todo_write_flags(&update),
        TodoWriteFlags { clear_plan_date: false, plan_date: Some(day), set_done: false, clear_done: true }
    );
    update.plan_date = None;
    update.done = None;
    assert_eq!(
        todo_write_flags(&update),
        TodoWriteFlags { clear_plan_date: false, plan_date: None, set_done: false, clear_done: false }
    );
}

fn anniversary(id: i64, happens_on: CivilDate, repeat_yearly: bool) -> CoupleAnniversary {
    CoupleAnniversary {
        id,
        space_id: 1,
        created_by_user_id: None,
        title: format!("a{id}"),
        happens_on,
        repeat_yearly,
        note: String::new(),
        created_at: 0,
        updated_at: 0,
    }
}

#[test]
fn the_home_screen_counts_down_to_the_soonest_date() {
    let today = CivilDate { year: 2026, month: 9, day: 8 };
    let list = vec![
        anniversary(1, CivilDate { year: 2020, month: 3, day: 4 }, true),
        anniversary(2, CivilDate { year: 2021, month: 10, day: 1 }, true),
        anniversary(3, CivilDate { year: 2024, month: 1, day: 2 }, false),
    ];
    assert_eq!(next_anniversary(&list, today), Some((1, CivilDate { year: 2026, month: 10, day: 1 })));
    let only_past = vec![anniversary(3, CivilDate { year: 2024, month: 1, day: 2 }, false)];
    assert_eq!(next_anniversary(&only_past, today), Some((0, CivilDate { year: 2024, month: 1, day: 2 })));
    assert_eq!(next_anniversary(&Vec::new(), today), None);
}

fn todo(id: i64, done: bool) -> CoupleTodo {
    CoupleTodo {
        id,
        space_id: 1,
        created_by_user_id: None,
        title: format!("t{id}"),
        note: String::new(),
        category: String::new(),
        priority: 1,
        plan_date: None,
        done_by_user_id: if done { Some(UserId(1)) } else { None },
        done_at: if done { Some(5) } else { None },
        created_at: 0,
        updated_at: 0,
    }
}

#[test]
fn the_home_strip_lists_open_items_in_order() {
    let todos = vec![todo(1, false), todo(2, true), todo(3, false), todo(4, false)];
    let open: Vec<i64> = open_todos(todos, 2).iter().map(|t| t.id).collect();
    assert_eq!(open, vec![1, 3]);
}

#[test]
fn couple_nest_values_are_clamped_and_checked() {
    assert_eq!(clamp_priority(-3), 0);
    assert_eq!(clamp_priority(9), 2);
    assert_eq!(clamp_species(0), 1);
    assert_eq!(clamp_species(9), 4);
    assert_eq!(adoption(" 团子 ", 9), Ok(("团子".to_string(), 4)));
    assert!(new_couple_memory(CivilDate { year: 2026, month: 1, day: 1 }, " ", " ", "").is_err());
    assert!(new_couple_memory(CivilDate { year: 2026, month: 1, day: 1 }, "t", "", "").is_ok());
    assert_eq!(album_in_space(Some(1), 1), Ok(()));
    assert!(album_in_space(Some(2), 1).is_err());
    assert!(album_in_space(None, 1).is_err());
}

#[test]
fn a_watch_entry_needs_its_key() {
    assert_eq!(
        validate_entry_source_key("   "),
        Err(Error::InvalidInput("source_key is required".to_string()))
    );
    assert_eq!(validate_entry_source_key(" bili:42 "), Ok("bili:42".to_string()));
    assert!(check_source_key_batch(&vec!["a".to_string(), "b".to_string()]).is_ok());
}

#[test]
fn a_pet_that_vanished_mid_request_is_an_internal_error() {
    assert_eq!(pet_still_there(Some(7), "mid-update"), Ok(7));
    assert_eq!(
        pet_still_there::<i32>(None, "mid-interaction"),
        Err(Error::Internal("the pet vanished mid-interaction".to_string()))
    );
}

#[test]
fn a_prompt_that_is_an_object_is_kept_and_any_other_is_dropped() {
    let mut fields = serde_json::Map::new();
    fields.insert("mood".to_string(), serde_json::Value::String("calm".to_string()));
    let object = serde_json::Value::Object(fields);
    assert_eq!(keep_prompt(object.clone(), true), Some(object));
    assert_eq!(keep_prompt(serde_json::Value::String("x".to_string()), false), None);
}

#[test]
fn a_piece_stores_an_empty_object_in_place_of_a_prompt_that_is_not_one() {
    let work = new_couple_ai_work(
        CoupleAiKind::Diary,
        "  Our day  ",
        serde_json::Value::Array(vec![serde_json::Value::Bool(true)]),
        " dear diary ",
    )
    .unwrap();
    assert_eq!(work.kind, CoupleAiKind::Diary);
    assert_eq!(work.title, "Our day");
    assert_eq!(work.content, "dear diary");
    assert_eq!(work.prompt, serde_json::Value::Object(serde_json::Map::new()));

    let mut fields = serde_json::Map::new();
    fields.insert("city".to_string(), serde_json::Value::String("Paris".to_string()));
    let object = serde_json::Value::Object(fields);
    let kept = new_couple_ai_work(CoupleAiKind::DatePlan, "Plan", object.clone(), "go").unwrap();
    assert_eq!(kept.prompt, object);

    assert!(new_couple_ai_work(CoupleAiKind::LoveLetter, "t", object, "   ").is_err());
}

#[test]
fn an_entry_outside_the_callers_space_reads_as_missing() {
    let s = space(CoupleSpaceStatus::Ended, None);
    assert_eq!(item_space_member(Some(s.clone()), UserId(20), memory_not_found()).unwrap().id, 1);
    assert_eq!(
        item_space_member(Some(s), UserId(30), memory_not_found()).unwrap_err(),
        Error::NotFound("Memory not found".to_string())
    );
    assert_eq!(
        item_space_member(None, UserId(10), memory_not_found()).unwrap_err(),
        Error::NotFound("Memory not found".to_string())
    );
}
