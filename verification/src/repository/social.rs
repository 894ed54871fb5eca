//! How friendship and direct threads are keyed. The friendship edge is
//! stored once per pair in ascending id order, so `(a, b)` and `(b, a)` are
//! the same row and a half-friendship cannot be represented; the direct
//! thread of a pair is found by a key built from that same order.

use vstd::prelude::*;

use crate::error::Error;
use crate::ids::UserId;
use crate::models::social::{
    ConversationKind, ConversationMemberRole, FriendRequestStatus, SocialMessageKind,
};
use crate::text::{append_signed_decimal, enum_word, signed_decimal_spec};

verus! {

/// The pair as stored: lower id first.
pub open spec fn canonical_pair_spec(first: UserId, second: UserId) -> (i64, i64) {
    if first.0 <= second.0 {
        (first.0, second.0)
    } else {
        (second.0, first.0)
    }
}

/// The pair as `friendships` stores it: lower id first.
pub fn canonical_pair(first: &UserId, second: &UserId) -> (r: (i64, i64))
    ensures
        r == canonical_pair_spec(*first, *second),
{
    let (a, b) = (first.as_i64(), second.as_i64());
    if a <= b {
        (a, b)
    } else {
        (b, a)
    }
}

/// The key of a pair's direct thread: "<low>:<high>" in decimal.
pub open spec fn direct_key_spec(first: UserId, second: UserId) -> Seq<char> {
    let (low, high) = canonical_pair_spec(first, second);
    signed_decimal_spec(low as int) + seq![':'] + signed_decimal_spec(high as int)
}

/// Key that maps a pair of accounts to their single direct conversation.
pub fn direct_conversation_key(first: &UserId, second: &UserId) -> (r: String)
    ensures
        r@ == direct_key_spec(*first, *second),
{
    let (low, high) = canonical_pair(first, second);
    let mut key = String::new();
    append_signed_decimal(&mut key, low);
    proof {
        reveal_strlit(":");
    }
    key.append(":");
    append_signed_decimal(&mut key, high);
    assert(key@ =~= direct_key_spec(*first, *second));
    key
}

/// "stored <label> is invalid: <reason>".
pub open spec fn stored_invalid_message(label: Seq<char>, reason: Seq<char>) -> Seq<char> {
    "stored "@ + label + " is invalid: "@ + reason
}

fn stored_invalid(label: &str, reason: String) -> (e: Error)
    ensures
        e.is_internal_with(stored_invalid_message(label@, reason@)),
{
    let mut m = String::from_str("stored ");
    m.append(label);
    m.append(" is invalid: ");
    m.append(reason.as_str());
    Error::Internal(m)
}

/// A stored friend request status; a word the rules do not know means the
/// row was written by hand, which is an internal error.
pub fn stored_friend_request_status(raw: &str) -> (r: Result<FriendRequestStatus, Error>)
    ensures
        r is Ok <==> FriendRequestStatus::from_word(enum_word(raw@)) is Some,
        r matches Ok(s) ==> FriendRequestStatus::from_word(enum_word(raw@)) == Some(s),
        r matches Err(e) ==> e.is_internal_with(
            stored_invalid_message(
                "friend request status"@,
                "invalid friend request status: "@ + enum_word(raw@),
            ),
        ),
{
    match FriendRequestStatus::parse(raw) {
        Ok(s) => Ok(s),
        Err(reason) => Err(stored_invalid("friend request status", reason)),
    }
}

/// A stored member role; an unknown word is an internal error.
pub fn stored_member_role(raw: &str) -> (r: Result<ConversationMemberRole, Error>)
    ensures
        r is Ok <==> ConversationMemberRole::from_word(enum_word(raw@)) is Some,
        r matches Ok(s) ==> ConversationMemberRole::from_word(enum_word(raw@)) == Some(s),
        r matches Err(e) ==> e.is_internal_with(
            stored_invalid_message(
                "conversation member role"@,
                "invalid conversation member role: "@ + enum_word(raw@),
            ),
        ),
{
    match ConversationMemberRole::parse(raw) {
        Ok(s) => Ok(s),
        Err(reason) => Err(stored_invalid("conversation member role", reason)),
    }
}

/// A stored conversation kind; an unknown word is an internal error.
pub fn stored_conversation_kind(raw: &str) -> (r: Result<ConversationKind, Error>)
    ensures
        r is Ok <==> ConversationKind::from_word(enum_word(raw@)) is Some,
        r matches Ok(s) ==> ConversationKind::from_word(enum_word(raw@)) == Some(s),
        r matches Err(e) ==> e.is_internal_with(
            stored_invalid_message(
                "conversation kind"@,
                "invalid conversation kind: "@ + enum_word(raw@),
            ),
        ),
{
    match ConversationKind::parse(raw) {
        Ok(s) => Ok(s),
        Err(reason) => Err(stored_invalid("conversation kind", reason)),
    }
}

/// A stored message kind; an unknown word is an internal error.
pub fn stored_message_kind(raw: &str) -> (r: Result<SocialMessageKind, Error>)
    ensures
        r is Ok <==> SocialMessageKind::from_word(enum_word(raw@)) is Some,
        r matches Ok(s) ==> SocialMessageKind::from_word(enum_word(raw@)) == Some(s),
        r matches Err(e) ==> e.is_internal_with(
            stored_invalid_message(
                "social message kind"@,
                "invalid social message kind: "@ + enum_word(raw@),
            ),
        ),
{
    match SocialMessageKind::parse(raw) {
        Ok(s) => Ok(s),
        Err(reason) => Err(stored_invalid("social message kind", reason)),
    }
}

/// A removed message keeps its slot but not its text.
pub fn visible_body(body: String, deleted: bool) -> (r: String)
    ensures
        deleted ==> r@ == Seq::<char>::empty(),
        !deleted ==> r == body,
{
    if deleted {
        String::new()
    } else {
        body
    }
}

/// Where a member's read cursor stands after marking a thread read up to
/// `requested`, or up to `newest` (the thread's last message id, 0 for an
/// empty thread) when no message is named: the cursor only moves forward.
pub open spec fn read_cursor_spec(stored: Option<i64>, requested: Option<i64>, newest: i64) -> i64 {
    let current = match stored {
        Some(c) => c,
        None => 0,
    };
    let target = match requested {
        Some(m) => m,
        None => newest,
    };
    if current >= target {
        current
    } else {
        target
    }
}

/// The read cursor after a mark (see [`read_cursor_spec`]).
pub fn read_cursor_after(stored: Option<i64>, requested: Option<i64>, newest: i64) -> (r: i64)
    ensures
        r == read_cursor_spec(stored, requested, newest),
{
    let current = match stored {
        Some(c) => c,
        None => 0,
    };
    let target = match requested {
        Some(m) => m,
        None => newest,
    };
    if current >= target {
        current
    } else {
        target
    }
}

// ------------------------------------------------------------------ laws ----

/// A pair is one edge whichever way round it is named: the stored pair and
/// the direct-thread key do not depend on the order of the two accounts, and
/// the stored pair holds exactly the two ids, lower first.
pub proof fn a_pair_is_one_edge(first: UserId, second: UserId)
    ensures
        canonical_pair_spec(first, second) == canonical_pair_spec(second, first),
        direct_key_spec(first, second) == direct_key_spec(second, first),
        canonical_pair_spec(first, second).0 <= canonical_pair_spec(first, second).1,
        (canonical_pair_spec(first, second).0 == first.0 && canonical_pair_spec(first, second).1
            == second.0) || (canonical_pair_spec(first, second).0 == second.0
            && canonical_pair_spec(first, second).1 == first.0),
{
}


/// A read cursor never moves back: after a mark it stands at or beyond where
/// it stood and at or beyond the message marked, and repeating the same mark
/// leaves it where the first one did.
pub proof fn read_cursors_only_move_forward(stored: Option<i64>, requested: Option<i64>, newest: i64)
    ensures
        read_cursor_spec(stored, requested, newest) >= match stored {
            Some(c) => c,
            None => 0,
        },
        read_cursor_spec(stored, requested, newest) >= match requested {
            Some(m) => m,
            None => newest,
        },
        read_cursor_spec(Some(read_cursor_spec(stored, requested, newest)), requested, newest)
            == read_cursor_spec(stored, requested, newest),
        read_cursor_spec(stored, requested, newest) == match stored {
            Some(c) => c,
            None => 0,
        } || read_cursor_spec(stored, requested, newest) == match requested {
            Some(m) => m,
            None => newest,
        },
{
}

} // verus!
