use synctv_core::error::Error;
use synctv_core::ids::UserId;
use synctv_core::models::social::{
    AcceptedFriendRequest, ConversationKind, ConversationMemberRole, Friend,
    FriendRequestDirection, FriendRequestOutcome,
    FriendRequestStatus, SocialMessageKind,
};
use synctv_core::repository::social::{
    canonical_pair, direct_conversation_key, read_cursor_after, stored_friend_request_status,
    visible_body,
};
use synctv_core::repository::social_rows::{
    overview_from_row, request_counterparts, requests_from_rows, summary_from_row,
    AdminConversationRow, ConversationRow, FriendRequestRow,
};
use synctv_core::service::friends::{
    ensure_friendable, existing_request_outcome, friend_request_precheck,
    next_friend_request_step, FriendRequestAction, FriendRequestEvent,
};
use synctv_core::service::messaging::{
    count_joining, delete_check, group_invitees, group_manager_check, join_fits, leave_check,
    message_limit, removal_rank_check, sorted_unique_ids, validate_message_body,
    writable_counterpart,
};

fn ids(v: &[i64]) -> Vec<UserId> {
    v.iter().map(|&i| UserId(i)).collect()
}

#[test]
fn a_pair_is_keyed_the_same_whichever_way_round() {
    assert_eq!(canonical_pair(&UserId(9), &UserId(3)), (3, 9));
    assert_eq!(canonical_pair(&UserId(3), &UserId(9)), (3, 9));
    assert_eq!(direct_conversation_key(&UserId(9), &UserId(3)), "3:9");
    assert_eq!(direct_conversation_key(&UserId(-2), &UserId(5)), "-2:5");
}

#[test]
fn friending_is_refused_across_blocks_and_to_yourself() {
    assert_eq!(
        friend_request_precheck(UserId(1), UserId(1), "hi"),
        Err(Error::InvalidInput("Cannot send a friend request to yourself".to_string()))
    );
    assert_eq!(friend_request_precheck(UserId(1), UserId(2), "  hi  "), Ok("hi".to_string()));
    assert_eq!(
        ensure_friendable(true, true, false),
        Err(Error::Authorization("Cannot reach this user".to_string()))
    );
    assert_eq!(
        ensure_friendable(true, false, true),
        Err(Error::InvalidInput("Unblock this user first".to_string()))
    );
    assert!(matches!(
        existing_request_outcome(Some(12)),
        Ok(FriendRequestOutcome::Pending { request_id: 12 })
    ));
}

#[test]
fn stored_words_that_nobody_wrote_are_internal_errors() {
    assert_eq!(stored_friend_request_status("pending"), Ok(FriendRequestStatus::Pending));
    assert_eq!(
        stored_friend_request_status("lost"),
        Err(Error::Internal(
            "stored friend request status is invalid: invalid friend request status: lost"
                .to_string()
        ))
    );
    assert_eq!(visible_body("secret".to_string(), true), "");
    assert_eq!(visible_body("hello".to_string(), false), "hello");
}

fn request_row(id: i64, requester: i64, addressee: i64, status: &str) -> FriendRequestRow {
    FriendRequestRow {
        id,
        requester_user_id: UserId(requester),
        addressee_user_id: UserId(addressee),
        message: format!("m{id}"),
        status: status.to_string(),
        created_at: 100 + id,
        responded_at: None,
    }
}

#[test]
fn a_request_listing_drops_rows_whose_counterpart_is_gone() {
    let rows = vec![
        request_row(1, 10, 1, "pending"),
        request_row(2, 11, 1, "pending"),
        request_row(3, 12, 1, "weird"),
    ];
    assert_eq!(request_counterparts(&rows, FriendRequestDirection::Incoming), ids(&[10, 11, 12]));
    assert_eq!(request_counterparts(&rows, FriendRequestDirection::Outgoing), ids(&[1, 1, 1]));
    let listed = requests_from_rows(&rows, FriendRequestDirection::Incoming, &vec![10, 12]);
    assert_eq!(listed.len(), 1);
    assert_eq!(listed[0].id, 1);
    assert_eq!(listed[0].counterpart_user_id, UserId(10));
    assert_eq!(listed[0].message, "m1");
    assert_eq!(listed[0].status, FriendRequestStatus::Pending);
    assert_eq!(listed[0].direction, FriendRequestDirection::Incoming);
}

fn conversation_row() -> ConversationRow {
    ConversationRow {
        id: 5,
        kind: "direct".to_string(),
        title: String::new(),
        owner_user_id: None,
        created_at: 10,
        updated_at: 20,
        role: "member".to_string(),
        muted: false,
        member_count: 2,
        unread_count: 3,
        counterpart_user_id: Some(UserId(8)),
        last_message_id: Some(77),
        last_message_sender_user_id: Some(UserId(9)),
        last_message_kind: None,
        last_message_body: Some("bye".to_string()),
        last_message_created_at: Some(30),
        last_message_deleted: Some(true),
    }
}

#[test]
fn a_conversation_row_reads_with_a_hidden_deleted_message() {
    let summary = summary_from_row(conversation_row(), &vec![8]).unwrap();
    assert_eq!(summary.kind, ConversationKind::Direct);
    assert_eq!(summary.viewer_role, ConversationMemberRole::Member);
    assert_eq!(summary.counterpart_user_id, Some(UserId(8)));
    let last = summary.last_message.unwrap();
    assert_eq!(last.kind, SocialMessageKind::Text);
    assert_eq!(last.body, "");
    assert!(last.deleted);
    assert_eq!(last.sender_user_id, None);
}

#[test]
fn a_conversation_row_with_an_unknown_word_is_refused() {
    let mut row = conversation_row();
    row.role = "king".to_string();
    assert_eq!(
        summary_from_row(row, &vec![]).unwrap_err(),
        Error::Internal(
            "stored conversation member role is invalid: invalid conversation member role: king"
                .to_string()
        )
    );
    let mut no_message = conversation_row();
    no_message.last_message_created_at = None;
    no_message.last_message_kind = Some("junk".to_string());
    assert!(summary_from_row(no_message, &vec![]).unwrap().last_message.is_none());
}

#[test]
fn a_moderation_row_keeps_only_a_live_owner() {
    let row = AdminConversationRow {
        id: 1,
        kind: "group".to_string(),
        title: "t".to_string(),
        owner_user_id: Some(UserId(4)),
        member_count: 3,
        message_count: 9,
        last_message_at: None,
        created_at: 5,
    };
    let gone = overview_from_row(row.clone(), &vec![]).unwrap();
    assert_eq!(gone.owner_user_id, None);
    let live = overview_from_row(row, &vec![4]).unwrap();
    assert_eq!(live.owner_user_id, Some(UserId(4)));
    assert_eq!(live.kind, ConversationKind::Group);
}

#[test]
fn invitees_are_sorted_deduplicated_and_exclude_the_owner() {
    assert_eq!(sorted_unique_ids(&ids(&[5, 3, 5, 1, 3]), None), ids(&[1, 3, 5]));
    assert_eq!(group_invitees(UserId(3), &ids(&[5, 3, 5, 1])).unwrap(), ids(&[1, 5]));
    let too_many: Vec<UserId> = (1..=200).map(UserId).collect();
    assert_eq!(
        group_invitees(UserId(0), &too_many),
        Err(Error::InvalidInput("a group may hold at most 200 members".to_string()))
    );
    assert_eq!(group_invitees(UserId(0), &too_many[..199].to_vec()).unwrap().len(), 199);
}

#[test]
fn the_group_cap_counts_distinct_invitees_and_not_the_owner() {
    // 199 distinct others plus repeats and the owner himself still fit.
    let mut listed: Vec<UserId> = (1..=199).map(UserId).collect();
    listed.extend((1..=50).map(UserId));
    listed.push(UserId(0));
    let invited = group_invitees(UserId(0), &listed).unwrap();
    assert_eq!(invited.len(), 199);
    assert_eq!(invited[0], UserId(1));
    assert_eq!(invited[198], UserId(199));
    // One more distinct invitee is one too many.
    listed.push(UserId(200));
    assert_eq!(
        group_invitees(UserId(0), &listed),
        Err(Error::InvalidInput("a group may hold at most 200 members".to_string()))
    );
    assert_eq!(group_invitees(UserId(4), &Vec::new()).unwrap(), Vec::<UserId>::new());
}

#[test]
fn a_friend_request_accepts_theirs_first_and_otherwise_opens_one() {
    assert!(matches!(
        next_friend_request_step(FriendRequestEvent::TheirOpenRequest(Some(17))),
        FriendRequestAction::AcceptTheirs(17)
    ));
    assert!(matches!(
        next_friend_request_step(FriendRequestEvent::TheirOpenRequest(None)),
        FriendRequestAction::CreateOurs
    ));
    let accepted = AcceptedFriendRequest {
        friend: Friend { user_id: UserId(8), friended_at: 1_700_000_000 },
        conversation_id: 41,
    };
    match next_friend_request_step(FriendRequestEvent::TheirsAccepted(Some(accepted))) {
        FriendRequestAction::Finish(Ok(FriendRequestOutcome::Accepted(a))) => {
            assert_eq!(a.friend.user_id, UserId(8));
            assert_eq!(a.friend.friended_at, 1_700_000_000);
            assert_eq!(a.conversation_id, 41);
        }
        other => panic!("unexpected step {:?}", other),
    }
    assert!(matches!(
        next_friend_request_step(FriendRequestEvent::TheirsAccepted(None)),
        FriendRequestAction::CreateOurs
    ));
    assert!(matches!(
        next_friend_request_step(FriendRequestEvent::OursCreated(Some(5))),
        FriendRequestAction::Finish(Ok(FriendRequestOutcome::Pending { request_id: 5 }))
    ));
    assert!(matches!(
        next_friend_request_step(FriendRequestEvent::OursCreated(None)),
        FriendRequestAction::FindOurs
    ));
    assert!(matches!(
        next_friend_request_step(FriendRequestEvent::OurOpenRequest(Some(6))),
        FriendRequestAction::Finish(Ok(FriendRequestOutcome::Pending { request_id: 6 }))
    ));
    match next_friend_request_step(FriendRequestEvent::OurOpenRequest(None)) {
        FriendRequestAction::Finish(Err(e)) => assert_eq!(
            e,
            Error::Conflict("A friend request to this user already exists".to_string())
        ),
        other => panic!("unexpected step {:?}", other),
    }
}

#[test]
fn a_join_counts_only_newcomers_against_the_ceiling() {
    let current: Vec<UserId> = (1..=198).map(UserId).collect();
    assert_eq!(count_joining(&ids(&[1, 2, 500, 501]), &current), 2);
    assert_eq!(join_fits(&ids(&[1, 500, 501]), &current), Ok(()));
    assert!(join_fits(&ids(&[500, 501, 502]), &current).is_err());
}

#[test]
fn ranks_decide_who_manages_and_who_is_removed() {
    assert_eq!(
        group_manager_check(ConversationMemberRole::Member, ConversationKind::Group),
        Err(Error::Authorization("Only a group owner or admin can do this".to_string()))
    );
    assert_eq!(
        group_manager_check(ConversationMemberRole::Owner, ConversationKind::Direct),
        Err(Error::InvalidInput("This conversation has no member list to manage".to_string()))
    );
    assert_eq!(
        removal_rank_check(ConversationMemberRole::Admin, Some(ConversationMemberRole::Admin)),
        Err(Error::Authorization("Cannot remove a member of equal or higher rank".to_string()))
    );
    assert_eq!(
        removal_rank_check(ConversationMemberRole::Owner, Some(ConversationMemberRole::Admin)),
        Ok(())
    );
    assert_eq!(
        removal_rank_check(ConversationMemberRole::Owner, None),
        Err(Error::NotFound("Member not found".to_string()))
    );
    assert_eq!(
        leave_check(ConversationMemberRole::Owner, ConversationKind::Group),
        Err(Error::InvalidInput("The owner cannot leave; delete the group instead".to_string()))
    );
    assert_eq!(delete_check(ConversationMemberRole::Owner), Ok(()));
}

#[test]
fn message_bodies_and_pages_are_bounded() {
    assert_eq!(validate_message_body("  hi "), Ok("hi".to_string()));
    assert_eq!(
        validate_message_body("   "),
        Err(Error::InvalidInput("message body is required".to_string()))
    );
    let long = "a".repeat(4001);
    assert_eq!(
        validate_message_body(&long),
        Err(Error::InvalidInput("message body must be at most 4000 characters".to_string()))
    );
    assert_eq!(message_limit(Some(0)), 1);
    assert_eq!(message_limit(Some(1000)), 100);
    assert_eq!(message_limit(Some(30)), 30);
}

#[test]
fn a_direct_thread_writes_to_the_other_member() {
    assert_eq!(
        writable_counterpart(ConversationKind::Direct, &ids(&[1, 2]), UserId(1)),
        Ok(Some(UserId(2)))
    );
    assert_eq!(
        writable_counterpart(ConversationKind::Direct, &ids(&[1]), UserId(1)),
        Err(Error::Conflict("The other participant is no longer here".to_string()))
    );
    assert_eq!(writable_counterpart(ConversationKind::Group, &ids(&[1]), UserId(1)), Ok(None));
}

#[test]
fn a_read_cursor_only_moves_forward() {
    assert_eq!(read_cursor_after(Some(10), Some(5), 40), 10);
    assert_eq!(read_cursor_after(Some(10), Some(25), 40), 25);
    assert_eq!(read_cursor_after(Some(10), None, 40), 40);
    assert_eq!(read_cursor_after(None, None, 0), 0);
    let once = read_cursor_after(Some(3), Some(7), 9);
    assert_eq!(read_cursor_after(Some(once), Some(7), 9), once);
}

#[test]
fn asking_again_while_a_request_is_open_returns_the_same_request() {
    // First ask: nothing from the other side, the insert opens request 5.
    assert!(matches!(
        next_friend_request_step(FriendRequestEvent::TheirOpenRequest(None)),
        FriendRequestAction::CreateOurs
    ));
    assert!(matches!(
        next_friend_request_step(FriendRequestEvent::OursCreated(Some(5))),
        FriendRequestAction::Finish(Ok(FriendRequestOutcome::Pending { request_id: 5 }))
    ));
    // Second ask: the open-request index refuses a new row, the lookup finds 5.
    assert!(matches!(
        next_friend_request_step(FriendRequestEvent::TheirOpenRequest(None)),
        FriendRequestAction::CreateOurs
    ));
    assert!(matches!(
        next_friend_request_step(FriendRequestEvent::OursCreated(None)),
        FriendRequestAction::FindOurs
    ));
    assert!(matches!(
        next_friend_request_step(FriendRequestEvent::OurOpenRequest(Some(5))),
        FriendRequestAction::Finish(Ok(FriendRequestOutcome::Pending { request_id: 5 }))
    ));
}
