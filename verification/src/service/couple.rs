//! 情侣空间: who may invite whom, which side of a pending invite the caller is
//! on, and turning a stored row into the view the space screen renders — the
//! partner's account, the day counter and the two headline numbers.

use vstd::prelude::*;

use crate::error::{conflict, first_refusal, invalid_input, not_found, refused_with, Error};
use crate::ids::{EpochDay, UserId};
use crate::models::couple::{
    CoupleSpace, CoupleSpaceStatus, CoupleSpaceView, NewCoupleFavorite,
    COUPLE_FAVORITE_NOTE_MAX_CHARS, COUPLE_INVITE_MESSAGE_MAX_CHARS, COUPLE_SPACE_TITLE_MAX_CHARS,
};
use crate::service::watch_history::{
    entry_refusal, entry_texts_fit, validate_entry_cover_url, validate_entry_source_key,
    validate_entry_title,
};
use crate::text::{at_most_message, at_most_refusal, trim_spec, trimmed_within};

verus! {

pub fn space_not_found() -> (e: Error)
    ensures
        e.is_not_found_with("Couple space not found"@),
{
    not_found("Couple space not found")
}

pub fn invite_not_found() -> (e: Error)
    ensures
        e.is_not_found_with("Couple invite not found"@),
{
    not_found("Couple invite not found")
}

/// A space title, trimmed and at most `COUPLE_SPACE_TITLE_MAX_CHARS`.
pub fn validate_space_title(title: &str) -> (r: Result<String, Error>)
    ensures
        r is Ok <==> trim_spec(title@).len() <= COUPLE_SPACE_TITLE_MAX_CHARS,
        r matches Ok(s) ==> s@ == trim_spec(title@),
        r matches Err(e) ==> e.is_invalid_input_with(
            at_most_message("title"@, COUPLE_SPACE_TITLE_MAX_CHARS as nat),
        ),
{
    trimmed_within(title, COUPLE_SPACE_TITLE_MAX_CHARS, "title")
}

/// An invite note, trimmed and at most `COUPLE_INVITE_MESSAGE_MAX_CHARS`.
pub fn validate_invite_message(invite_message: &str) -> (r: Result<String, Error>)
    ensures
        r is Ok <==> trim_spec(invite_message@).len() <= COUPLE_INVITE_MESSAGE_MAX_CHARS,
        r matches Ok(s) ==> s@ == trim_spec(invite_message@),
        r matches Err(e) ==> e.is_invalid_input_with(
            at_most_message("invite_message"@, COUPLE_INVITE_MESSAGE_MAX_CHARS as nat),
        ),
{
    trimmed_within(invite_message, COUPLE_INVITE_MESSAGE_MAX_CHARS, "invite_message")
}

/// A note on a shared favourite, trimmed and at most
/// `COUPLE_FAVORITE_NOTE_MAX_CHARS`.
pub fn validate_favorite_note(note: &str) -> (r: Result<String, Error>)
    ensures
        r is Ok <==> trim_spec(note@).len() <= COUPLE_FAVORITE_NOTE_MAX_CHARS,
        r matches Ok(s) ==> s@ == trim_spec(note@),
        r matches Err(e) ==> e.is_invalid_input_with(
            at_most_message("note"@, COUPLE_FAVORITE_NOTE_MAX_CHARS as nat),
        ),
{
    trimmed_within(note, COUPLE_FAVORITE_NOTE_MAX_CHARS, "note")
}

/// What an invitation needs before any lookup: two different accounts, a
/// title and a note that fit. Returns the trimmed title and note.
pub fn invite_precheck(
    initiator: UserId,
    partner: UserId,
    title: &str,
    invite_message: &str,
) -> (r: Result<(String, String), Error>)
    ensures
        r is Ok <==> initiator != partner && trim_spec(title@).len()
            <= COUPLE_SPACE_TITLE_MAX_CHARS && trim_spec(invite_message@).len()
            <= COUPLE_INVITE_MESSAGE_MAX_CHARS,
        initiator == partner ==> r is Err && r->Err_0.is_invalid_input_with(
            "Cannot invite yourself"@,
        ),
        r matches Ok(p) ==> p.0@ == trim_spec(title@) && p.1@ == trim_spec(invite_message@),
        refused_with(r, first_refusal((if initiator == partner { Some("Cannot invite yourself"@) } else { None }), first_refusal(at_most_refusal(title@, COUPLE_SPACE_TITLE_MAX_CHARS as nat, "title"@), at_most_refusal(invite_message@, COUPLE_INVITE_MESSAGE_MAX_CHARS as nat, "invite_message"@)))),
{
    if initiator == partner {
        return Err(invalid_input("Cannot invite yourself"));
    }
    let title = validate_space_title(title)?;
    let invite_message = validate_invite_message(invite_message)?;
    Ok((title, invite_message))
}

/// Refuses to start something that would need a second active membership,
/// with a sentence saying which account is the problem.
pub fn ensure_not_bound(bound: bool, message: &str) -> (r: Result<(), Error>)
    ensures
        r is Ok <==> !bound,
        r matches Err(e) ==> e.is_conflict_with(message@),
{
    if bound {
        return Err(conflict(message));
    }
    Ok(())
}

/// The open invite from `initiator` to `partner`, read off the space that
/// concerns the partner.
pub fn pending_invite_from(
    partner_space: &Option<CoupleSpace>,
    initiator: UserId,
    partner: UserId,
) -> (r: Option<i64>)
    ensures
        r == (match partner_space {
            Some(s) => if s.status == CoupleSpaceStatus::Pending && s.initiator_user_id
                == initiator && s.partner_user_id == partner {
                Some(s.id)
            } else {
                None::<i64>
            },
            None => None::<i64>,
        }),
{
    match partner_space {
        Some(space) => if space.status == CoupleSpaceStatus::Pending && space.initiator_user_id
            == initiator && space.partner_user_id == partner {
            Some(space.id)
        } else {
            None
        },
        None => None,
    }
}

/// When the open-invite index refused a second invite in this direction, the
/// pending space that concerns the initiator is the answer; anything else
/// conflicts with "An invite to this user already exists".
pub fn existing_invite(initiator_space: Option<CoupleSpace>) -> (r: Result<CoupleSpace, Error>)
    ensures
        r is Ok <==> (initiator_space matches Some(s) && s.status == CoupleSpaceStatus::Pending),
        r matches Ok(s) ==> initiator_space == Some(s),
        r matches Err(e) ==> e.is_conflict_with("An invite to this user already exists"@),
{
    match initiator_space {
        Some(space) => if space.status == CoupleSpaceStatus::Pending {
            Ok(space)
        } else {
            Err(conflict("An invite to this user already exists"))
        },
        None => Err(conflict("An invite to this user already exists")),
    }
}

/// True when `user` is one of the two accounts of `space`.
pub open spec fn is_member(space: CoupleSpace, user: UserId) -> bool {
    space.initiator_user_id == user || space.partner_user_id == user
}

/// A space the caller belongs to, whatever its status, for read paths. A
/// stranger cannot tell "not yours" from "does not exist".
pub fn require_space_member(space: Option<CoupleSpace>, user: UserId) -> (r: Result<
    CoupleSpace,
    Error,
>)
    ensures
        r is Ok <==> (space matches Some(s) && is_member(s, user)),
        r matches Ok(s) ==> space == Some(s),
        r matches Err(e) ==> e.is_not_found_with("Couple space not found"@),
{
    match space {
        Some(s) => if s.initiator_user_id == user || s.partner_user_id == user {
            Ok(s)
        } else {
            Err(space_not_found())
        },
        None => Err(space_not_found()),
    }
}

/// A space the caller belongs to and that is still bound, for write paths.
pub fn require_active_space(space: Option<CoupleSpace>, user: UserId) -> (r: Result<
    CoupleSpace,
    Error,
>)
    ensures
        r is Ok <==> (space matches Some(s) && is_member(s, user) && s.status
            == CoupleSpaceStatus::Active),
        r matches Ok(s) ==> space == Some(s),
        (space matches Some(s) && is_member(s, user) && s.status != CoupleSpaceStatus::Active)
            ==> r is Err && r->Err_0.is_conflict_with("This couple space is not active"@),
        !(space matches Some(s) && is_member(s, user)) ==> r is Err
            && r->Err_0.is_not_found_with("Couple space not found"@),
{
    let s = require_space_member(space, user)?;
    if s.status != CoupleSpaceStatus::Active {
        return Err(conflict("This couple space is not active"));
    }
    Ok(s)
}

/// The other account of a space, whichever column it sits in.
pub open spec fn partner_spec(space: CoupleSpace, viewer: UserId) -> Option<UserId> {
    if space.initiator_user_id == viewer {
        Some(space.partner_user_id)
    } else if space.partner_user_id == viewer {
        Some(space.initiator_user_id)
    } else {
        None
    }
}

/// The other account, whichever column it sits in; a stranger gets "Couple
/// space not found".
pub fn partner_of(space: &CoupleSpace, viewer: UserId) -> (r: Result<UserId, Error>)
    ensures
        r is Ok <==> partner_spec(*space, viewer) is Some,
        r matches Ok(p) ==> partner_spec(*space, viewer) == Some(p),
        r matches Err(e) ==> e.is_not_found_with("Couple space not found"@),
{
    if space.initiator_user_id == viewer {
        Ok(space.partner_user_id)
    } else if space.partner_user_id == viewer {
        Ok(space.initiator_user_id)
    } else {
        Err(space_not_found())
    }
}

/// Whole days from `anniversary` to `today`, counting both ends, so the day
/// a couple binds reads 1 rather than 0; a future date reads 0.
pub open spec fn days_since_spec(anniversary: int, today: int) -> int {
    let d = today - anniversary + 1;
    if d < 0 {
        0
    } else if d > i64::MAX {
        i64::MAX as int
    } else {
        d
    }
}

pub fn days_since(anniversary: EpochDay, today: EpochDay) -> (r: i64)
    ensures
        r == days_since_spec(anniversary as int, today as int),
{
    let d = (today as i128) - (anniversary as i128) + 1;
    if d < 0 {
        0
    } else if d > i64::MAX as i128 {
        i64::MAX
    } else {
        d as i64
    }
}

/// Only a bound space has live counters; the caller reads them only then.
pub fn needs_counters(space: &CoupleSpace) -> (r: bool)
    ensures
        r == (space.status == CoupleSpaceStatus::Active),
{
    space.status == CoupleSpaceStatus::Active
}

/// What the space screen renders from a stored row: the partner, which side
/// sent the invite, the day counter and the two headline numbers. A pending
/// or ended space shows no counters and no day count.
pub fn couple_space_view(
    space: CoupleSpace,
    viewer: UserId,
    counters: (i64, i64),
    today: EpochDay,
) -> (r: Result<CoupleSpaceView, Error>)
    ensures
        r is Ok <==> partner_spec(space, viewer) is Some,
        r matches Ok(v) ==> {
            &&& v.space == space
            &&& Some(v.partner_user_id) == partner_spec(space, viewer)
            &&& v.viewer_is_initiator == (space.initiator_user_id == viewer)
            &&& v.days_together == (if space.status == CoupleSpaceStatus::Active {
                match space.anniversary_date {
                    Some(a) => Some(days_since_spec(a as int, today as int) as i64),
                    None => None::<i64>,
                }
            } else {
                None::<i64>
            })
            &&& (v.favorite_count, v.shared_watch_count) == (if space.status
                == CoupleSpaceStatus::Active {
                counters
            } else {
                (0i64, 0i64)
            })
        },
        r matches Err(e) ==> e.is_not_found_with("Couple space not found"@),
{
    let partner_user_id = partner_of(&space, viewer)?;
    let active = space.status == CoupleSpaceStatus::Active;
    let (favorite_count, shared_watch_count) = if active {
        counters
    } else {
        (0, 0)
    };
    let days_together = if active {
        match space.anniversary_date {
            Some(a) => Some(days_since(a, today)),
            None => None,
        }
    } else {
        None
    };
    let viewer_is_initiator = space.initiator_user_id == viewer;
    Ok(CoupleSpaceView {
        space,
        partner_user_id,
        viewer_is_initiator,
        days_together,
        favorite_count,
        shared_watch_count,
    })
}

/// An entry for the shared list: title, cover and key as the watch history
/// has them, and a note that fits.
pub fn normalize_couple_favorite(favorite: &NewCoupleFavorite) -> (r: Result<
    NewCoupleFavorite,
    Error,
>)
    ensures
        r is Ok <==> entry_texts_fit(favorite.title@, favorite.cover_url@, favorite.source_key@)
            && trim_spec(favorite.note@).len() <= COUPLE_FAVORITE_NOTE_MAX_CHARS,
        r matches Ok(f) ==> {
            &&& f.room_id == favorite.room_id
            &&& f.media_id == favorite.media_id
            &&& f.title@ == trim_spec(favorite.title@)
            &&& f.cover_url@ == trim_spec(favorite.cover_url@)
            &&& f.source_key@ == trim_spec(favorite.source_key@)
            &&& f.note@ == trim_spec(favorite.note@)
        },
        refused_with(r, first_refusal(entry_refusal(favorite.title@, favorite.cover_url@, favorite.source_key@), at_most_refusal(favorite.note@, COUPLE_FAVORITE_NOTE_MAX_CHARS as nat, "note"@))),
{
    let title = validate_entry_title(favorite.title.as_str())?;
    let cover_url = validate_entry_cover_url(favorite.cover_url.as_str())?;
    let source_key = validate_entry_source_key(favorite.source_key.as_str())?;
    let note = validate_favorite_note(favorite.note.as_str())?;
    Ok(NewCoupleFavorite {
        room_id: favorite.room_id,
        media_id: favorite.media_id,
        title,
        cover_url,
        source_key,
        note,
    })
}

/// A removal from the shared list stands only when the entry was there.
pub fn favorite_removed(removed: bool) -> (r: Result<(), Error>)
    ensures
        r is Ok <==> removed,
        r matches Err(e) ==> e.is_not_found_with("Favorite not found"@),
{
    if removed {
        Ok(())
    } else {
        Err(not_found("Favorite not found"))
    }
}

// ------------------------------------------------------------------ laws ----

/// The partner's partner is the viewer: reading the space from either side
/// names the other account.
pub proof fn partner_of_partner_is_viewer(space: CoupleSpace, viewer: UserId)
    requires
        space.initiator_user_id != space.partner_user_id,
        partner_spec(space, viewer) is Some,
    ensures
        partner_spec(space, partner_spec(space, viewer)->0) == Some(viewer),
{
}

/// The day a couple binds reads "1 天", and a date in the future reads 0.
pub proof fn the_binding_day_counts_as_one(anniversary: int, today: int)
    ensures
        days_since_spec(anniversary, anniversary) == 1,
        today < anniversary ==> days_since_spec(anniversary, today) == 0,
        today >= anniversary && today - anniversary < i64::MAX ==> days_since_spec(
            anniversary,
            today,
        ) == today - anniversary + 1,
{
}

} // verus!
