use synctv_core::calendar::{day_of, CivilDate};
use synctv_core::models::couple_nest::CoupleAnniversary;
use synctv_core::error::Error;
use synctv_core::models::check_in::CheckInAwardMode;
use synctv_core::models::couple::CoupleSpaceStatus;
use synctv_core::models::couple_nest::{CoupleAiKind, CoupleMediaKind};
use synctv_core::models::gift::GiftRecordDirection;
use synctv_core::models::social::{
    ConversationKind, ConversationMemberRole, FriendRequestStatus, SocialMessageKind,
};
use synctv_core::models::vod_source::VodSourceFormat;
use synctv_core::text::{
    append_signed_decimal, enum_word_of, required_not_exceeding, same_text, trim_to_string,
    trimmed_within,
};

#[test]
fn trimming_strips_unicode_white_space_at_both_ends_only() {
    assert_eq!(trim_to_string("  \t hello world \n"), "hello world");
    assert_eq!(trim_to_string("\u{3000}你好\u{00a0}"), "你好");
    assert_eq!(trim_to_string("   "), "");
    let once = trim_to_string("  a  b  ");
    assert_eq!(trim_to_string(&once), once);
}

#[test]
fn enum_words_are_trimmed_and_ascii_folded() {
    assert_eq!(enum_word_of("  PenDING "), "pending");
    assert_eq!(enum_word_of("ÄBC"), "Äbc");
}

#[test]
fn lengths_are_counted_in_characters() {
    let ten_chinese = "一二三四五六七八九十";
    assert_eq!(trimmed_within(ten_chinese, 10, "title").unwrap(), ten_chinese);
    match trimmed_within(ten_chinese, 9, "title") {
        Err(Error::InvalidInput(m)) => assert_eq!(m, "title must be at most 9 characters"),
        other => panic!("unexpected {other:?}"),
    }
}

#[test]
fn a_required_value_names_what_is_missing_or_too_long() {
    match required_not_exceeding("   ", 5, "Name") {
        Err(Error::InvalidInput(m)) => assert_eq!(m, "Name is required"),
        other => panic!("unexpected {other:?}"),
    }
    match required_not_exceeding("abcdef", 5, "Name") {
        Err(Error::InvalidInput(m)) => assert_eq!(m, "Name may not exceed 5 characters"),
        other => panic!("unexpected {other:?}"),
    }
    assert_eq!(required_not_exceeding(" abc ", 5, "Name").unwrap(), "abc");
}

#[test]
fn decimals_render_with_their_sign() {
    let mut s = String::from("n=");
    append_signed_decimal(&mut s, -9_223_372_036_854_775_808);
    assert_eq!(s, "n=-9223372036854775808");
    let mut z = String::new();
    append_signed_decimal(&mut z, 0);
    assert_eq!(z, "0");
    assert!(same_text("abc", "abc"));
    assert!(!same_text("abc", "abd"));
}

#[test]
fn every_stored_word_reads_back() {
    for s in [
        FriendRequestStatus::Pending,
        FriendRequestStatus::Accepted,
        FriendRequestStatus::Declined,
        FriendRequestStatus::Cancelled,
    ] {
        assert_eq!(FriendRequestStatus::parse(s.as_str()), Ok(s));
    }
    for k in [ConversationKind::Direct, ConversationKind::Group] {
        assert_eq!(ConversationKind::parse(k.as_str()), Ok(k));
    }
    for r in [ConversationMemberRole::Member, ConversationMemberRole::Admin, ConversationMemberRole::Owner] {
        assert_eq!(ConversationMemberRole::parse(r.as_str()), Ok(r));
    }
    for k in [SocialMessageKind::Text, SocialMessageKind::System] {
        assert_eq!(SocialMessageKind::parse(k.as_str()), Ok(k));
    }
    for m in [CheckInAwardMode::Fixed, CheckInAwardMode::Random] {
        assert_eq!(CheckInAwardMode::parse(m.as_str()), Ok(m));
    }
    for s in [CoupleSpaceStatus::Pending, CoupleSpaceStatus::Active, CoupleSpaceStatus::Ended] {
        assert_eq!(CoupleSpaceStatus::parse(s.as_str()), Ok(s));
    }
    for d in [GiftRecordDirection::Sent, GiftRecordDirection::Received] {
        assert_eq!(GiftRecordDirection::parse(d.as_str()), Ok(d));
    }
    for f in [VodSourceFormat::MaccmsJson, VodSourceFormat::MaccmsXml, VodSourceFormat::M3u] {
        assert_eq!(VodSourceFormat::parse(f.as_str()), Ok(f));
    }
    for k in [CoupleMediaKind::Photo, CoupleMediaKind::Video] {
        assert_eq!(CoupleMediaKind::from_i16(k.as_i16()), Some(k));
    }
    for k in [CoupleAiKind::DatePlan, CoupleAiKind::Diary, CoupleAiKind::LoveLetter] {
        assert_eq!(CoupleAiKind::from_i16(k.as_i16()), Some(k));
    }
}

#[test]
fn stored_words_read_regardless_of_case_and_padding() {
    assert_eq!(FriendRequestStatus::parse(" Accepted\n"), Ok(FriendRequestStatus::Accepted));
    assert_eq!(
        "OWNER".parse::<ConversationMemberRole>(),
        Ok(ConversationMemberRole::Owner)
    );
    assert_eq!(
        FriendRequestStatus::parse(" Maybe "),
        Err("invalid friend request status: maybe".to_string())
    );
    assert_eq!(
        CoupleSpaceStatus::parse("gone"),
        Err("invalid couple space status: gone".to_string())
    );
    assert_eq!(CoupleMediaKind::from_i16(0), None);
    assert_eq!(CoupleAiKind::from_i16(4), None);
}

#[test]
fn vod_formats_accept_their_aliases() {
    assert_eq!(VodSourceFormat::parse("MacCMS"), Ok(VodSourceFormat::MaccmsJson));
    assert_eq!(VodSourceFormat::parse(" json "), Ok(VodSourceFormat::MaccmsJson));
    assert_eq!(VodSourceFormat::parse("XML"), Ok(VodSourceFormat::MaccmsXml));
    assert_eq!(VodSourceFormat::parse("m3u8"), Ok(VodSourceFormat::M3u));
    assert_eq!(
        VodSourceFormat::parse(" RSS "),
        Err("unknown vod source format: rss".to_string())
    );
}

fn yearly(month: u32, day: u32) -> CoupleAnniversary {
    CoupleAnniversary {
        id: 1,
        space_id: 1,
        created_by_user_id: None,
        title: String::new(),
        happens_on: CivilDate { year: 2000, month, day },
        repeat_yearly: true,
        note: String::new(),
        created_at: 0,
        updated_at: 0,
    }
}

#[test]
fn calendar_dates_exist_only_where_the_calendar_has_them() {
    // 29 February exists in 2000 and 2028 but not in 2100 or 2027.
    let leap = yearly(2, 29);
    assert_eq!(
        leap.next_occurrence(CivilDate { year: 2099, month: 12, day: 1 }),
        CivilDate { year: 2100, month: 2, day: 28 }
    );
    assert_eq!(
        leap.next_occurrence(CivilDate { year: 2028, month: 2, day: 29 }),
        CivilDate { year: 2028, month: 2, day: 29 }
    );
    assert_eq!(
        leap.next_occurrence(CivilDate { year: 2027, month: 3, day: 1 }),
        CivilDate { year: 2028, month: 2, day: 29 }
    );
    // 31 December lands on itself; 30 April on the 30th.
    assert_eq!(
        yearly(12, 31).next_occurrence(CivilDate { year: 2026, month: 12, day: 31 }),
        CivilDate { year: 2026, month: 12, day: 31 }
    );
    assert_eq!(
        yearly(4, 30).next_occurrence(CivilDate { year: 2026, month: 5, day: 1 }),
        CivilDate { year: 2027, month: 4, day: 30 }
    );
}

#[test]
fn a_timestamp_falls_on_its_floor_day() {
    assert_eq!(day_of(0), 0);
    assert_eq!(day_of(86_399), 0);
    assert_eq!(day_of(86_400), 1);
    assert_eq!(day_of(-1), -1);
    assert_eq!(day_of(-86_400), -1);
    assert_eq!(day_of(-86_401), -2);
}

#[test]
fn errors_carry_their_sentence() {
    assert_eq!(Error::NotFound("x".to_string()).message(), "x");
    assert_eq!(
        synctv_core::error::conflict("busy"),
        Error::Conflict("busy".to_string())
    );
}
