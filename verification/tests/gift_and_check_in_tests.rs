use synctv_core::error::Error;
use synctv_core::ids::{RoomId, UserId};
use synctv_core::models::check_in::{CheckInAwardMode, CheckInConfig, CheckInConfigUpdate};
use synctv_core::models::gift::{GiftRecord, GiftUpdate, NewGift, SendGift};
use synctv_core::repository::check_in::{
    apply_award, claim_streak, first_claim, repeated_claim, require_config_row, status_streak,
    stored_award_mode, PointTotals,
};
use synctv_core::repository::gift::{
    created_gift_id, gift_deletable, gift_matched, gift_read_back, plan_gift_transfer,
    credited_totals, replayed_send, sent_gift, GiftSnapshot, LedgerMove,
};
use synctv_core::service::check_in::{
    award_points, award_with_draw, check_in_date_for, claim_allowed, config_update_decision,
};
use synctv_core::service::room_gift::room_gift_admission;
use synctv_core::service::gift::{
    is_valid_gift_key, normalize_gift_update, room_feed_limit, send_gift_parties, showcase_limit,
    validate_new_gift, validate_price, validate_send_gift,
};

fn snapshot(price: i32, enabled: bool) -> Option<GiftSnapshot> {
    Some(GiftSnapshot {
        key: "rose".to_string(),
        name: "玫瑰".to_string(),
        icon: "🌹".to_string(),
        price_points: price,
        is_enabled: enabled,
    })
}

#[test]
fn a_send_moves_the_same_points_out_and_in() {
    let t = plan_gift_transfer(&snapshot(10, true), 3, Some(100), Some(5)).unwrap();
    assert_eq!(t.total, 30);
    assert_eq!(t.sender_balance, 70);
    assert_eq!(t.debit, Some(LedgerMove { delta: -30, balance_after: 70 }));
    assert_eq!(t.credit, Some(LedgerMove { delta: 30, balance_after: 35 }));
    let fresh = plan_gift_transfer(&snapshot(10, true), 1, Some(10), None).unwrap();
    assert_eq!(fresh.credit, Some(LedgerMove { delta: 10, balance_after: 10 }));
    assert_eq!(fresh.sender_balance, 0);
}

#[test]
fn a_send_is_refused_when_it_would_overdraw_or_the_gift_is_gone() {
    assert_eq!(
        plan_gift_transfer(&snapshot(10, true), 3, Some(29), Some(0)),
        Err(Error::Conflict("insufficient points for this gift".to_string()))
    );
    assert_eq!(
        plan_gift_transfer(&snapshot(10, true), 1, None, None),
        Err(Error::Conflict("insufficient points for this gift".to_string()))
    );
    assert_eq!(
        plan_gift_transfer(&None, 1, Some(100), None),
        Err(Error::NotFound("gift not found".to_string()))
    );
    assert_eq!(
        plan_gift_transfer(&snapshot(10, false), 1, Some(100), None),
        Err(Error::Conflict("gift is no longer available".to_string()))
    );
    assert_eq!(
        plan_gift_transfer(&snapshot(10, true), 1, Some(100), Some(i64::MAX - 5)),
        Err(Error::Internal("point balance is out of range".to_string()))
    );
}

#[test]
fn a_free_gift_moves_nothing() {
    let t = plan_gift_transfer(&snapshot(0, true), 5, Some(7), None).unwrap();
    assert_eq!((t.total, t.sender_balance, t.debit, t.credit), (0, 7, None, None));
}

#[test]
fn catalog_entries_are_checked_and_folded() {
    assert!(is_valid_gift_key("rose_2"));
    assert!(!is_valid_gift_key("r"));
    assert!(!is_valid_gift_key("Rose"));
    assert_eq!(
        validate_price(1_000_001),
        Err(Error::InvalidInput("gift price must be between 0 and 1000000".to_string()))
    );
    let gift = NewGift {
        key: "  ROSE ".to_string(),
        name: " 玫瑰 ".to_string(),
        description: String::new(),
        icon: "🌹".to_string(),
        price_points: 10,
        sort_order: 1,
        is_enabled: true,
    };
    let stored = validate_new_gift(&gift).unwrap();
    assert_eq!(stored.key, "rose");
    assert_eq!(stored.name, "玫瑰");
    let bad = NewGift { key: "日本".to_string(), ..gift };
    assert_eq!(
        validate_new_gift(&bad).unwrap_err(),
        Error::InvalidInput(
            "gift key must be 2 to 40 characters of a-z, 0-9 or underscore".to_string()
        )
    );
    let update = GiftUpdate { name: Some("  ".to_string()), ..GiftUpdate::default() };
    assert_eq!(
        normalize_gift_update(&update).unwrap_err(),
        Error::InvalidInput("gift name must be 1 to 40 characters".to_string())
    );
}

#[test]
fn a_send_request_is_checked_before_any_lookup() {
    let request = SendGift {
        sender_id: UserId(1),
        recipient_id: UserId(1),
        room_id: Some(RoomId(3)),
        gift_id: 4,
        quantity: 1,
        message: String::new(),
        request_id: None,
    };
    assert_eq!(
        validate_send_gift(&request).unwrap_err(),
        Error::InvalidInput("a gift cannot be sent to yourself".to_string())
    );
    let zero = SendGift { recipient_id: UserId(2), quantity: 0, ..request.clone() };
    assert_eq!(
        validate_send_gift(&zero).unwrap_err(),
        Error::InvalidInput("gift quantity must be between 1 and 99".to_string())
    );
    let ok = SendGift { recipient_id: UserId(2), message: "  hi ".to_string(), ..request };
    assert_eq!(validate_send_gift(&ok).unwrap().message, "hi");
    assert_eq!(
        send_gift_parties(true, false, true),
        Err(Error::Authorization("gifts cannot be sent between blocked accounts".to_string()))
    );
    assert_eq!(room_feed_limit(0), 1);
    assert_eq!(room_feed_limit(1000), 50);
    assert_eq!(showcase_limit(1000), 100);
}

fn config(mode: CheckInAwardMode, fixed: i32, min: i32, max: i32) -> CheckInConfig {
    CheckInConfig {
        enabled: true,
        award_mode: mode,
        fixed_points: fixed,
        random_min_points: min,
        random_max_points: max,
        day_boundary_offset_minutes: 0,
        updated_at: 0,
        updated_by: None,
    }
}

#[test]
fn random_awards_land_in_the_configured_range() {
    let c = config(CheckInAwardMode::Random, 0, 5, 9);
    for _ in 0..200 {
        let p = award_points(&c);
        assert!((5..=9).contains(&p));
    }
    let single = config(CheckInAwardMode::Random, 0, 7, 7);
    assert_eq!(award_points(&single), 7);
    assert_eq!(award_with_draw(&c, 6), 6);
    let fixed = config(CheckInAwardMode::Fixed, 12, 5, 9);
    assert_eq!(award_points(&fixed), 12);
}

#[test]
fn an_update_is_judged_against_the_stored_range() {
    let stored = config(CheckInAwardMode::Random, 10, 5, 9);
    assert_eq!(config_update_decision(&CheckInConfigUpdate::default(), &stored), Ok(false));
    let raise_min = CheckInConfigUpdate { random_min_points: Some(10), ..CheckInConfigUpdate::default() };
    assert_eq!(
        config_update_decision(&raise_min, &stored),
        Err(Error::InvalidInput(
            "random_min_points must not exceed random_max_points".to_string()
        ))
    );
    let negative = CheckInConfigUpdate { fixed_points: Some(-1), ..CheckInConfigUpdate::default() };
    assert_eq!(
        config_update_decision(&negative, &stored),
        Err(Error::InvalidInput("fixed_points must be between 0 and 100000".to_string()))
    );
    let shift = CheckInConfigUpdate {
        day_boundary_offset_minutes: Some(900),
        ..CheckInConfigUpdate::default()
    };
    assert_eq!(
        config_update_decision(&shift, &stored),
        Err(Error::InvalidInput(
            "day_boundary_offset_minutes must be between -720 and 840".to_string()
        ))
    );
    let fine = CheckInConfigUpdate { random_max_points: Some(20), ..CheckInConfigUpdate::default() };
    assert_eq!(config_update_decision(&fine, &stored), Ok(true));
}

#[test]
fn the_claim_day_follows_the_configured_boundary() {
    // 2024-01-01T23:30:00Z
    let t = 1_704_151_800;
    assert_eq!(check_in_date_for(t, 0), 19_723);
    assert_eq!(check_in_date_for(t, 60), 19_724);
    assert_eq!(check_in_date_for(t, -720), 19_723);
    let mut disabled = config(CheckInAwardMode::Fixed, 1, 0, 0);
    disabled.enabled = false;
    assert_eq!(
        claim_allowed(&disabled),
        Err(Error::Authorization("Daily check-in is disabled".to_string()))
    );
}

#[test]
fn a_claim_extends_yesterday_and_a_repeat_awards_nothing() {
    assert_eq!(claim_streak(Some(4)), 5);
    assert_eq!(claim_streak(None), 1);
    assert_eq!(claim_streak(Some(i32::MAX)), i32::MAX);
    assert_eq!(status_streak(None, Some(3)), (3, false));
    assert_eq!(status_streak(Some(4), Some(3)), (4, true));
    assert_eq!(status_streak(None, None), (0, false));
    let (after, ledger) = apply_award(Some(PointTotals { balance: 5, total_earned: 50 }), 10).unwrap();
    assert_eq!(after, PointTotals { balance: 15, total_earned: 60 });
    assert_eq!(ledger, Some(LedgerMove { delta: 10, balance_after: 15 }));
    assert_eq!(apply_award(None, 0).unwrap(), (PointTotals { balance: 0, total_earned: 0 }, None));
    let first = first_claim(19_723, 10, 5, after);
    assert!(!first.already_checked_in);
    let again = repeated_claim(19_723, 10, 5, Some(after));
    assert!(again.already_checked_in);
    assert_eq!((again.balance, again.total_earned), (15, 60));
    assert_eq!(stored_award_mode(" RANDOM "), Ok(CheckInAwardMode::Random));
    assert!(matches!(stored_award_mode("lottery"), Err(Error::Internal(_))));
}

#[test]
fn catalog_writes_report_what_went_wrong() {
    assert_eq!(created_gift_id(Some(3), "rose"), Ok(3));
    assert_eq!(
        created_gift_id(None, "rose"),
        Err(Error::AlreadyExists("gift key `rose` is already used".to_string()))
    );
    assert_eq!(gift_matched(1), Ok(()));
    assert_eq!(gift_matched(0), Err(Error::NotFound("gift not found".to_string())));
    assert_eq!(
        gift_deletable(true),
        Err(Error::Conflict(
            "gift has already been sent; disable it instead of deleting it".to_string()
        ))
    );
    assert_eq!(gift_deletable(false), Ok(()));
    assert_eq!(
        gift_read_back(None, true).unwrap_err(),
        Error::Internal("inserted gift disappeared".to_string())
    );
    assert_eq!(
        gift_read_back(None, false).unwrap_err(),
        Error::Internal("updated gift disappeared".to_string())
    );
    assert_eq!(require_config_row(Some(1)), Ok(1));
    assert_eq!(
        require_config_row::<i32>(None),
        Err(Error::Internal("check-in configuration row is missing".to_string()))
    );
}

fn sent_record() -> GiftRecord {
    GiftRecord {
        id: 12,
        sender_id: UserId(1),
        recipient_id: Some(UserId(2)),
        room_id: None,
        gift_id: 3,
        gift_key: "rose".to_string(),
        gift_name: "玫瑰".to_string(),
        gift_icon: "🌹".to_string(),
        unit_price_points: 10,
        quantity: 2,
        total_points: 20,
        transaction_id: Some(77),
        message: "hi".to_string(),
        created_at: 1_700_000_000,
    }
}

#[test]
fn a_retried_send_returns_the_first_record_and_charges_nothing() {
    let replay = replayed_send(sent_record(), Some(480));
    assert!(replay.already_sent);
    assert_eq!(replay.balance, 480);
    assert_eq!(replay.record.id, 12);
    assert_eq!(replay.record.total_points, 20);
    assert_eq!(replay.record.transaction_id, Some(77));

    let without_row = replayed_send(sent_record(), None);
    assert!(without_row.already_sent);
    assert_eq!(without_row.balance, 0);
}

#[test]
fn a_first_send_records_the_entry_it_charged() {
    let request = SendGift {
        sender_id: UserId(1),
        recipient_id: UserId(2),
        room_id: Some(RoomId(7)),
        gift_id: 3,
        quantity: 4,
        message: "for you".to_string(),
        request_id: Some("r-1".to_string()),
    };
    let transfer = plan_gift_transfer(&snapshot(25, true), 4, Some(500), Some(30)).unwrap();
    let gift = snapshot(25, true).unwrap();
    let result = sent_gift(request, gift, transfer, 88, Some(901), 1_700_000_000);
    assert!(!result.already_sent);
    assert_eq!(result.balance, 400);
    assert_eq!(result.record.id, 88);
    assert_eq!(result.record.sender_id, UserId(1));
    assert_eq!(result.record.recipient_id, Some(UserId(2)));
    assert_eq!(result.record.room_id, Some(RoomId(7)));
    assert_eq!(result.record.gift_id, 3);
    assert_eq!(result.record.gift_key, "rose");
    assert_eq!(result.record.gift_name, "玫瑰");
    assert_eq!(result.record.gift_icon, "🌹");
    assert_eq!(result.record.unit_price_points, 25);
    assert_eq!(result.record.quantity, 4);
    assert_eq!(result.record.total_points, 100);
    assert_eq!(result.record.transaction_id, Some(901));
    assert_eq!(result.record.message, "for you");
    assert_eq!(result.record.created_at, 1_700_000_000);

    // The recipient gains the total; what it has earned stays as it was.
    let credit = transfer.credit.unwrap();
    let after = credited_totals(Some(PointTotals { balance: 30, total_earned: 70 }), credit);
    assert_eq!(after, PointTotals { balance: 130, total_earned: 70 });
    assert_eq!(result.balance + after.balance, 500 + 30);
    let fresh = credited_totals(None, LedgerMove { delta: 100, balance_after: 100 });
    assert_eq!(fresh, PointTotals { balance: 100, total_earned: 0 });
}

#[test]
fn a_room_send_needs_a_room_a_voice_there_and_a_recipient_inside() {
    let muted = Error::Authorization("no permission to send chat messages".to_string());
    assert_eq!(
        room_gift_admission(None, Ok(()), true),
        Err(Error::InvalidInput("a room gift needs a room".to_string()))
    );
    assert_eq!(room_gift_admission(Some(RoomId(7)), Err(muted.clone()), true), Err(muted.clone()));
    assert_eq!(room_gift_admission(Some(RoomId(7)), Err(muted.clone()), false), Err(muted));
    assert_eq!(
        room_gift_admission(Some(RoomId(7)), Ok(()), false),
        Err(Error::NotFound("recipient is not in this room".to_string()))
    );
    assert_eq!(room_gift_admission(Some(RoomId(7)), Ok(()), true), Ok(RoomId(7)));
}
