//! Friend requests and the friendship graph: nobody friends themselves,
//! nobody friends an account that is gone or that has blocked them, and two
//! people who ask each other are made friends rather than left holding each
//! other's invitation.

use vstd::prelude::*;

use crate::error::{conflict, first_refusal, invalid_input, not_found, refused_with, unauthorized, Error};
use crate::ids::UserId;
use crate::models::social::{
    AcceptedFriendRequest, FriendRequestOutcome, FRIEND_REQUEST_MESSAGE_MAX_CHARS,
};
use crate::text::{at_most_message, at_most_refusal, trim_spec, trimmed_within};

verus! {

/// Rejects the pairs that must never become an edge: a missing account
/// ("User not found"), a block held by the other side ("Cannot reach this
/// user", which does not reveal the block), and the caller's own block
/// ("Unblock this user first").
pub fn ensure_friendable(
    other_exists: bool,
    blocked_by_other: bool,
    blocking_other: bool,
) -> (r: Result<(), Error>)
    ensures
        r is Ok <==> other_exists && !blocked_by_other && !blocking_other,
        !other_exists ==> r is Err && r->Err_0.is_not_found_with("User not found"@),
        other_exists && blocked_by_other ==> r is Err && r->Err_0.is_authorization_with(
            "Cannot reach this user"@,
        ),
        other_exists && !blocked_by_other && blocking_other ==> r is Err
            && r->Err_0.is_invalid_input_with("Unblock this user first"@),
{
    if !other_exists {
        return Err(not_found("User not found"));
    }
    if blocked_by_other {
        return Err(unauthorized("Cannot reach this user"));
    }
    if blocking_other {
        return Err(invalid_input("Unblock this user first"));
    }
    Ok(())
}

/// The note attached to a request, trimmed; empty is fine.
pub fn validate_request_message(message: &str) -> (r: Result<String, Error>)
    ensures
        r is Ok <==> trim_spec(message@).len() <= FRIEND_REQUEST_MESSAGE_MAX_CHARS,
        r matches Ok(s) ==> s@ == trim_spec(message@),
        r matches Err(e) ==> e matches Error::InvalidInput(m) && m@ == at_most_message(
            "message"@,
            FRIEND_REQUEST_MESSAGE_MAX_CHARS as nat,
        ),
{
    trimmed_within(message, FRIEND_REQUEST_MESSAGE_MAX_CHARS, "message")
}

/// What a request needs before any lookup: two different accounts and a note
/// that fits.
pub fn friend_request_precheck(requester: UserId, addressee: UserId, message: &str) -> (r: Result<
    String,
    Error,
>)
    ensures
        r is Ok <==> requester != addressee && trim_spec(message@).len()
            <= FRIEND_REQUEST_MESSAGE_MAX_CHARS,
        requester == addressee ==> r is Err && r->Err_0.is_invalid_input_with(
            "Cannot send a friend request to yourself"@,
        ),
        r matches Ok(s) ==> s@ == trim_spec(message@),
        refused_with(r, first_refusal((if requester == addressee { Some("Cannot send a friend request to yourself"@) } else { None }), at_most_refusal(message@, FRIEND_REQUEST_MESSAGE_MAX_CHARS as nat, "message"@))),
{
    if requester == addressee {
        return Err(invalid_input("Cannot send a friend request to yourself"));
    }
    validate_request_message(message)
}

/// Friends already: the request is refused.
pub fn ensure_not_friends(already_friends: bool) -> (r: Result<(), Error>)
    ensures
        r is Ok <==> !already_friends,
        r matches Err(e) ==> e.is_conflict_with("You are already friends with this user"@),
{
    if already_friends {
        return Err(conflict("You are already friends with this user"));
    }
    Ok(())
}

/// The last step of a request whose insert was refused by the open-request
/// index: the open request in this direction is the answer, and if it has
/// gone in the meantime the request conflicts.
pub fn existing_request_outcome(open_request_id: Option<i64>) -> (r: Result<
    FriendRequestOutcome,
    Error,
>)
    ensures
        open_request_id matches Some(id) ==> r == Ok::<FriendRequestOutcome, Error>(
            FriendRequestOutcome::Pending { request_id: id },
        ),
        open_request_id is None ==> r is Err && r->Err_0.is_conflict_with(
            "A friend request to this user already exists"@,
        ),
{
    match open_request_id {
        Some(request_id) => Ok(FriendRequestOutcome::Pending { request_id }),
        None => Err(conflict("A friend request to this user already exists")),
    }
}

/// An answer to a request only stands when the storage found a request this
/// account could answer; otherwise "Friend request not found".
pub fn answered(found: bool) -> (r: Result<(), Error>)
    ensures
        r is Ok <==> found,
        r matches Err(e) ==> e.is_not_found_with("Friend request not found"@),
{
    if found {
        Ok(())
    } else {
        Err(not_found("Friend request not found"))
    }
}

// ------------------------------------------------------------- sequence ----

/// What a friend request has learned from its latest lookup or write, once
/// the checks before any lookup have passed.
#[derive(Debug, Clone)]
pub enum FriendRequestEvent {
    /// The open request the other side sent to the requester, if any.
    TheirOpenRequest(Option<i64>),
    /// What accepting that request produced; `None` when it was answered in
    /// the meantime.
    TheirsAccepted(Option<AcceptedFriendRequest>),
    /// The id of the new request; `None` when the open-request index refused
    /// it because one in this direction is already open.
    OursCreated(Option<i64>),
    /// The open request in this direction, looked up after that refusal.
    OurOpenRequest(Option<i64>),
}

/// What a friend request does next.
#[derive(Debug)]
pub enum FriendRequestAction {
    /// Accept the other side's open request in the requester's name.
    AcceptTheirs(i64),
    /// Insert a new request in this direction.
    CreateOurs,
    /// Look up the open request in this direction.
    FindOurs,
    /// Answer the caller.
    Finish(Result<FriendRequestOutcome, Error>),
}

/// How a friend request moves on from what it last learned (see
/// [`next_friend_request_step`]).
pub open spec fn steps_to(event: FriendRequestEvent, r: FriendRequestAction) -> bool {
    match event {
        FriendRequestEvent::TheirOpenRequest(Some(id)) => r == FriendRequestAction::AcceptTheirs(
            id,
        ),
        FriendRequestEvent::TheirOpenRequest(None) => r == FriendRequestAction::CreateOurs,
        FriendRequestEvent::TheirsAccepted(Some(a)) => r == FriendRequestAction::Finish(
            Ok::<FriendRequestOutcome, Error>(FriendRequestOutcome::Accepted(a)),
        ),
        FriendRequestEvent::TheirsAccepted(None) => r == FriendRequestAction::CreateOurs,
        FriendRequestEvent::OursCreated(Some(id)) => r == FriendRequestAction::Finish(
            Ok::<FriendRequestOutcome, Error>(FriendRequestOutcome::Pending { request_id: id }),
        ),
        FriendRequestEvent::OursCreated(None) => r == FriendRequestAction::FindOurs,
        FriendRequestEvent::OurOpenRequest(Some(id)) => r == FriendRequestAction::Finish(
            Ok::<FriendRequestOutcome, Error>(FriendRequestOutcome::Pending { request_id: id }),
        ),
        FriendRequestEvent::OurOpenRequest(None) => r matches FriendRequestAction::Finish(
            Err(e),
        ) && e.is_conflict_with("A friend request to this user already exists"@),
    }
}

/// The order of a friend request: both sides wanting it is consent enough,
/// so an open request from the other side is accepted first; otherwise a
/// new request is opened; and when one in this direction is already open,
/// that one is the answer ("A friend request to this user already exists"
/// if it has gone in the meantime).
pub fn next_friend_request_step(event: FriendRequestEvent) -> (r: FriendRequestAction)
    ensures
        steps_to(event, r),
{
    match event {
        FriendRequestEvent::TheirOpenRequest(Some(id)) => FriendRequestAction::AcceptTheirs(id),
        FriendRequestEvent::TheirOpenRequest(None) => FriendRequestAction::CreateOurs,
        FriendRequestEvent::TheirsAccepted(Some(a)) => FriendRequestAction::Finish(
            Ok(FriendRequestOutcome::Accepted(a)),
        ),
        FriendRequestEvent::TheirsAccepted(None) => FriendRequestAction::CreateOurs,
        FriendRequestEvent::OursCreated(Some(id)) => FriendRequestAction::Finish(
            Ok(FriendRequestOutcome::Pending { request_id: id }),
        ),
        FriendRequestEvent::OursCreated(None) => FriendRequestAction::FindOurs,
        FriendRequestEvent::OurOpenRequest(open) => FriendRequestAction::Finish(
            existing_request_outcome(open),
        ),
    }
}

// ------------------------------------------------------------------ laws ----

/// What storage answers to a friend request's action, while `ours` is the
/// open request in this direction (`None` when there is none), `fresh` the
/// id a new request would take, and `accepted` what accepting the other
/// side's request produces: the open-request index refuses an insert while
/// one is open, and the lookup finds that one.
pub open spec fn store_answer(
    action: FriendRequestAction,
    ours: Option<i64>,
    fresh: i64,
    accepted: Option<AcceptedFriendRequest>,
) -> FriendRequestEvent {
    match action {
        FriendRequestAction::AcceptTheirs(_) => FriendRequestEvent::TheirsAccepted(accepted),
        FriendRequestAction::CreateOurs => FriendRequestEvent::OursCreated(
            if ours is Some {
                None
            } else {
                Some(fresh)
            },
        ),
        FriendRequestAction::FindOurs => FriendRequestEvent::OurOpenRequest(ours),
        FriendRequestAction::Finish(_) => FriendRequestEvent::OurOpenRequest(ours),
    }
}

/// Asking twice gives the same request: with no request from the other
/// side, a first ask opens a new one and answers with its id, and asking
/// again while that request is still open answers with that same id, not a
/// second request.
pub proof fn asking_again_returns_the_same_request(
    first_id: i64,
    later_id: i64,
    a1: FriendRequestAction,
    a2: FriendRequestAction,
    b1: FriendRequestAction,
    b2: FriendRequestAction,
    b3: FriendRequestAction,
)
    requires
        steps_to(FriendRequestEvent::TheirOpenRequest(None), a1),
        steps_to(store_answer(a1, None, first_id, None), a2),
        steps_to(FriendRequestEvent::TheirOpenRequest(None), b1),
        steps_to(store_answer(b1, Some(first_id), later_id, None), b2),
        steps_to(store_answer(b2, Some(first_id), later_id, None), b3),
    ensures
        a2 == FriendRequestAction::Finish(
            Ok::<FriendRequestOutcome, Error>(FriendRequestOutcome::Pending { request_id: first_id }),
        ),
        b3 == a2,
{
}

/// Two people asking each other is consent: when the other side's request
/// is open, asking accepts it and answers with what the acceptance produced,
/// without opening a request of one's own.
pub proof fn a_crossed_request_is_accepted(
    theirs_id: i64,
    fresh: i64,
    accepted: AcceptedFriendRequest,
    a1: FriendRequestAction,
    a2: FriendRequestAction,
)
    requires
        steps_to(FriendRequestEvent::TheirOpenRequest(Some(theirs_id)), a1),
        steps_to(store_answer(a1, None, fresh, Some(accepted)), a2),
    ensures
        a1 == FriendRequestAction::AcceptTheirs(theirs_id),
        a2 == FriendRequestAction::Finish(
            Ok::<FriendRequestOutcome, Error>(FriendRequestOutcome::Accepted(accepted)),
        ),
{
}

} // verus!
