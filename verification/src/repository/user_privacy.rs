//! Who may find an account, and who may read its follow graph. An account
//! that never opened the privacy page is fully visible: a missing row and
//! three `true`s mean the same thing.

use vstd::prelude::*;

use crate::ids::UserId;

verus! {

/// The three switches on the privacy page.
#[derive(Debug, Clone, Copy, PartialEq, Eq, Structural)]
pub struct UserPrivacySettings {
    /// Off removes the account from people search. It does not hide the
    /// profile from anyone who has the link: search is a directory, not a lock.
    pub discoverable: bool,
    pub show_following: bool,
    pub show_followers: bool,
}

impl UserPrivacySettings {
    /// Every switch on.
    pub open spec fn all_visible() -> UserPrivacySettings {
        UserPrivacySettings { discoverable: true, show_following: true, show_followers: true }
    }
}

impl Default for UserPrivacySettings {
    fn default() -> (r: Self)
        ensures
            r == UserPrivacySettings::all_visible(),
    {
        UserPrivacySettings { discoverable: true, show_following: true, show_followers: true }
    }
}

/// The switches of an account: its stored row, or all visible without one.
pub fn settings_or_default(stored: Option<UserPrivacySettings>) -> (r: UserPrivacySettings)
    ensures
        r == match stored {
            Some(s) => s,
            None => UserPrivacySettings::all_visible(),
        },
{
    match stored {
        Some(s) => s,
        None => UserPrivacySettings::default(),
    }
}

/// One switch after an edit: the value sent, else the one it had.
pub open spec fn switch_after(sent: Option<bool>, had: bool) -> bool {
    match sent {
        Some(b) => b,
        None => had,
    }
}

/// The switches after an edit that carries some of them: each one sent
/// replaces the stored one, each one left out stays as it was, and an
/// account without a row starts from all visible.
pub open spec fn privacy_after_update_spec(
    stored: Option<UserPrivacySettings>,
    discoverable: Option<bool>,
    show_following: Option<bool>,
    show_followers: Option<bool>,
) -> UserPrivacySettings {
    let base = match stored {
        Some(s) => s,
        None => UserPrivacySettings::all_visible(),
    };
    UserPrivacySettings {
        discoverable: switch_after(discoverable, base.discoverable),
        show_following: switch_after(show_following, base.show_following),
        show_followers: switch_after(show_followers, base.show_followers),
    }
}

/// The row an edit of the privacy page leaves (see
/// [`privacy_after_update_spec`]).
pub fn privacy_after_update(
    stored: Option<UserPrivacySettings>,
    discoverable: Option<bool>,
    show_following: Option<bool>,
    show_followers: Option<bool>,
) -> (r: UserPrivacySettings)
    ensures
        r == privacy_after_update_spec(stored, discoverable, show_following, show_followers),
{
    let base = settings_or_default(stored);
    UserPrivacySettings {
        discoverable: match discoverable {
            Some(b) => b,
            None => base.discoverable,
        },
        show_following: match show_following {
            Some(b) => b,
            None => base.show_following,
        },
        show_followers: match show_followers {
            Some(b) => b,
            None => base.show_followers,
        },
    }
}

/// An edit that sends no switch leaves what a reader sees unchanged; sending
/// the same edit twice leaves what sending it once left.
pub proof fn privacy_edits_are_partial_and_idempotent(
    stored: Option<UserPrivacySettings>,
    discoverable: Option<bool>,
    show_following: Option<bool>,
    show_followers: Option<bool>,
)
    ensures
        privacy_after_update_spec(stored, None, None, None) == match stored {
            Some(s) => s,
            None => UserPrivacySettings::all_visible(),
        },
        privacy_after_update_spec(
            Some(privacy_after_update_spec(stored, discoverable, show_following, show_followers)),
            discoverable,
            show_following,
            show_followers,
        ) == privacy_after_update_spec(stored, discoverable, show_following, show_followers),
{
}

/// One row of people search: the account, plus where the searcher already
/// stands with it, so the row offers the action that is actually left.
#[derive(Debug, Clone)]
pub struct UserSearchHit {
    pub user_id: UserId,
    pub username: String,
    pub is_friend: bool,
    pub request_sent: bool,
    pub request_received: bool,
    pub is_following: bool,
}

} // verus!
