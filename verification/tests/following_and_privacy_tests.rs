use synctv_core::error::Error;
use synctv_core::ids::{RoomId, UserId};
use synctv_core::repository::user_follows::FollowDirection;
use synctv_core::repository::user_privacy::{
    privacy_after_update, settings_or_default, UserPrivacySettings,
};
use synctv_core::service::following::{follow_decision, require_user};
use synctv_core::service::profile_background::{
    first_prepared, previous_object_released, profile_background_storage_scope,
    reference_owner_key, registered_reference, storage_unconfigured,
};
use synctv_core::service::room_gift::{
    announced_recipient, direct_gift_check, display_name, gift_banner, recipient_in_room,
    room_of_gift,
};

fn invalid(m: &str) -> Error {
    Error::InvalidInput(m.to_string())
}

#[test]
fn nobody_follows_themselves() {
    assert_eq!(
        follow_decision(UserId(1), UserId(1), true, false, false),
        Err(invalid("Cannot follow yourself"))
    );
}

#[test]
fn a_follow_needs_a_live_account_and_no_block_either_way() {
    assert_eq!(
        follow_decision(UserId(1), UserId(2), false, true, true),
        Err(Error::NotFound("User not found".to_string()))
    );
    assert_eq!(
        follow_decision(UserId(1), UserId(2), true, true, true),
        Err(Error::Authorization("Cannot follow this user".to_string()))
    );
    assert_eq!(
        follow_decision(UserId(1), UserId(2), true, false, true),
        Err(invalid("Unblock this user before following them"))
    );
    assert_eq!(follow_decision(UserId(1), UserId(2), true, false, false), Ok(()));
    assert_eq!(require_user(false), Err(Error::NotFound("User not found".to_string())));
    assert_eq!(require_user(true), Ok(()));
}

#[test]
fn listings_walk_the_edge_from_opposite_ends() {
    assert_eq!(FollowDirection::Following.subject_column(), "follower_user_id");
    assert_eq!(FollowDirection::Following.listed_column(), "followee_user_id");
    assert_eq!(FollowDirection::Followers.subject_column(), "followee_user_id");
    assert_eq!(FollowDirection::Followers.listed_column(), "follower_user_id");
}

#[test]
fn an_account_without_a_privacy_row_is_fully_visible() {
    let all = UserPrivacySettings { discoverable: true, show_following: true, show_followers: true };
    assert_eq!(UserPrivacySettings::default(), all);
    assert_eq!(settings_or_default(None), all);
}

#[test]
fn a_privacy_edit_changes_only_the_switches_it_sends() {
    let stored = UserPrivacySettings { discoverable: false, show_following: true, show_followers: false };
    let after = privacy_after_update(Some(stored), None, Some(false), None);
    assert_eq!(
        after,
        UserPrivacySettings { discoverable: false, show_following: false, show_followers: false }
    );
    assert_eq!(privacy_after_update(Some(stored), None, None, None), stored);
    let fresh = privacy_after_update(None, Some(false), None, None);
    assert_eq!(
        fresh,
        UserPrivacySettings { discoverable: false, show_following: true, show_followers: true }
    );
    assert_eq!(privacy_after_update(Some(after), None, Some(false), None), after);
}

#[test]
fn a_room_gift_needs_a_room_and_a_member_recipient() {
    assert_eq!(room_of_gift(None), Err(invalid("a room gift needs a room")));
    assert_eq!(room_of_gift(Some(RoomId(9))), Ok(RoomId(9)));
    assert_eq!(
        recipient_in_room(false),
        Err(Error::NotFound("recipient is not in this room".to_string()))
    );
    assert_eq!(
        direct_gift_check(Some(RoomId(9))),
        Err(invalid("a direct gift must not carry a room"))
    );
    assert_eq!(direct_gift_check(None), Ok(()));
    assert_eq!(
        announced_recipient(None),
        Err(Error::Internal("gift record lost its recipient".to_string()))
    );
    assert_eq!(announced_recipient(Some(UserId(4))), Ok(UserId(4)));
}

#[test]
fn the_banner_names_both_sides_the_gift_and_the_count() {
    assert_eq!(gift_banner("阿明", "小红", "玫瑰", 3), "阿明 送给 小红 玫瑰 × 3");
    assert_eq!(display_name(None, "u42".to_string()), "u42");
    assert_eq!(display_name(Some("bob".to_string()), "u42".to_string()), "bob");
}

#[test]
fn backgrounds_are_filed_under_the_account() {
    assert_eq!(profile_background_storage_scope(UserId(42)), "users/42/profile-backgrounds");
    assert_eq!(reference_owner_key(UserId(-3)), "-3");
    assert_eq!(
        storage_unconfigured(),
        invalid("file storage is not configured for profile backgrounds")
    );
    assert_eq!(first_prepared(vec![5, 6]), Ok(5));
    assert_eq!(
        first_prepared(Vec::<i32>::new()),
        Err(invalid("profile background file is required"))
    );
    assert_eq!(
        registered_reference(None),
        Err(invalid("profile background file object is not registered"))
    );
    assert_eq!(registered_reference(Some(8)), Ok(8));
}

#[test]
fn replacing_a_background_releases_only_another_object() {
    assert!(!previous_object_released("s3", "a/b", "s3", "a/b"));
    assert!(previous_object_released("s3", "a/b", "s3", "a/c"));
    assert!(previous_object_released("local", "a/b", "s3", "a/b"));
}
