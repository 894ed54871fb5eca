//! Turning stored social rows into what a listing returns. Accounts are
//! stitched back onto rows by id after one batched lookup: an id the lookup
//! did not return is an account that is gone, and reads as absent.

use vstd::prelude::*;

use crate::error::Error;
use crate::ids::{UnixSeconds, UserId};
use crate::models::social::{
    AdminConversationOverview, ConversationKind, ConversationMemberRole, ConversationSummary, FriendRequest,
    FriendRequestDirection, FriendRequestStatus, SocialMessage, SocialMessageKind,
};
use crate::repository::social::{
    stored_conversation_kind, stored_invalid_message, stored_member_role, stored_message_kind,
    visible_body,
};
use crate::text::enum_word;

verus! {

/// Whether `id` is among the accounts a lookup returned.
pub fn contains_id(ids: &Vec<i64>, id: i64) -> (r: bool)
    ensures
        r == ids@.contains(id),
{
    let mut i: usize = 0;
    while i < ids.len()
        invariant
            i <= ids@.len(),
            forall|t: int| 0 <= t < i ==> ids@[t] != id,
        decreases ids@.len() - i,
    {
        if ids[i] == id {
            assert(ids@[i as int] == id);
            return true;
        }
        i = i + 1;
    }
    false
}

/// An account reference after the lookup: kept when the account was found.
pub open spec fn hydrated_spec(known: Seq<i64>, id: Option<UserId>) -> Option<UserId> {
    match id {
        Some(u) => if known.contains(u.0) {
            Some(u)
        } else {
            None
        },
        None => None,
    }
}

/// An account reference after the lookup (see [`hydrated_spec`]).
pub fn hydrated(known: &Vec<i64>, id: Option<UserId>) -> (r: Option<UserId>)
    ensures
        r == hydrated_spec(known@, id),
{
    match id {
        Some(u) => if contains_id(known, u.as_i64()) {
            Some(u)
        } else {
            None
        },
        None => None,
    }
}

// ----------------------------------------------------- friend requests ------

/// A pending request as stored, before its counterpart is stitched back.
#[derive(Debug, Clone)]
pub struct FriendRequestRow {
    pub id: i64,
    pub requester_user_id: UserId,
    pub addressee_user_id: UserId,
    pub message: String,
    pub status: String,
    pub created_at: UnixSeconds,
    pub responded_at: Option<UnixSeconds>,
}

/// The other side of a request for a reader on `direction`'s side.
pub open spec fn counterpart_of(row: FriendRequestRow, direction: FriendRequestDirection) -> UserId {
    match direction {
        FriendRequestDirection::Incoming => row.requester_user_id,
        FriendRequestDirection::Outgoing => row.addressee_user_id,
    }
}

/// A row is listed when its counterpart is still an account and its status
/// is a word the rules know.
pub open spec fn request_listed(
    row: FriendRequestRow,
    direction: FriendRequestDirection,
    known: Seq<i64>,
) -> bool {
    &&& known.contains(counterpart_of(row, direction).0)
    &&& FriendRequestStatus::from_word(enum_word(row.status@)) is Some
}

/// The request a listed row reads as.
pub open spec fn request_of(row: FriendRequestRow, direction: FriendRequestDirection) -> FriendRequest {
    FriendRequest {
        id: row.id,
        counterpart_user_id: counterpart_of(row, direction),
        direction,
        message: row.message,
        status: FriendRequestStatus::from_word(enum_word(row.status@))->0,
        created_at: row.created_at,
        responded_at: row.responded_at,
    }
}

/// The listed rows, in order, as requests.
pub open spec fn listed_requests(
    rows: Seq<FriendRequestRow>,
    direction: FriendRequestDirection,
    known: Seq<i64>,
) -> Seq<FriendRequest>
    decreases rows.len(),
{
    if rows.len() == 0 {
        Seq::empty()
    } else {
        let rest = listed_requests(rows.drop_last(), direction, known);
        if request_listed(rows.last(), direction, known) {
            rest.push(request_of(rows.last(), direction))
        } else {
            rest
        }
    }
}

/// The counterpart of each row, in order: the ids the lookup is asked for.
pub fn request_counterparts(rows: &Vec<FriendRequestRow>, direction: FriendRequestDirection) -> (r:
    Vec<UserId>)
    ensures
        r@.len() == rows@.len(),
        forall|i: int| 0 <= i < rows@.len() ==> r@[i] == counterpart_of(#[trigger] rows@[i], direction),
{
    let mut out: Vec<UserId> = Vec::new();
    let mut i: usize = 0;
    while i < rows.len()
        invariant
            i <= rows@.len(),
            out@.len() == i,
            forall|t: int| 0 <= t < i ==> out@[t] == counterpart_of(#[trigger] rows@[t], direction),
        decreases rows@.len() - i,
    {
        let id = match direction {
            FriendRequestDirection::Incoming => rows[i].requester_user_id,
            FriendRequestDirection::Outgoing => rows[i].addressee_user_id,
        };
        out.push(id);
        i = i + 1;
    }
    out
}

/// A page of requests as the reader sees them. A row whose counterpart is
/// gone, or whose status word is unknown, is left out rather than failing the
/// page.
pub fn requests_from_rows(
    rows: &Vec<FriendRequestRow>,
    direction: FriendRequestDirection,
    known: &Vec<i64>,
) -> (r: Vec<FriendRequest>)
    ensures
        r@ == listed_requests(rows@, direction, known@),
{
    let mut out: Vec<FriendRequest> = Vec::new();
    let mut i: usize = 0;
    while i < rows.len()
        invariant
            i <= rows@.len(),
            out@ == listed_requests(rows@.subrange(0, i as int), direction, known@),
        decreases rows@.len() - i,
    {
        let ghost prefix = rows@.subrange(0, i as int + 1);
        assert(prefix.drop_last() =~= rows@.subrange(0, i as int));
        let row = &rows[i];
        let counterpart = match direction {
            FriendRequestDirection::Incoming => row.requester_user_id,
            FriendRequestDirection::Outgoing => row.addressee_user_id,
        };
        if contains_id(known, counterpart.as_i64()) {
            match FriendRequestStatus::parse(row.status.as_str()) {
                Ok(status) => {
                    out.push(
                        FriendRequest {
                            id: row.id,
                            counterpart_user_id: counterpart,
                            direction,
                            message: row.message.clone(),
                            status,
                            created_at: row.created_at,
                            responded_at: row.responded_at,
                        },
                    );
                },
                Err(_) => {},
            }
        }
        i = i + 1;
    }
    assert(rows@.subrange(0, rows@.len() as int) =~= rows@);
    out
}

// -------------------------------------------------------- conversations ------

/// One row of the conversation list as stored, before its words are read
/// and its accounts stitched back.
#[derive(Debug, Clone)]
pub struct ConversationRow {
    pub id: i64,
    pub kind: String,
    pub title: String,
    pub owner_user_id: Option<UserId>,
    pub created_at: UnixSeconds,
    pub updated_at: UnixSeconds,
    pub role: String,
    pub muted: bool,
    pub member_count: i64,
    pub unread_count: i64,
    pub counterpart_user_id: Option<UserId>,
    pub last_message_id: Option<i64>,
    pub last_message_sender_user_id: Option<UserId>,
    pub last_message_kind: Option<String>,
    pub last_message_body: Option<String>,
    pub last_message_created_at: Option<UnixSeconds>,
    pub last_message_deleted: Option<bool>,
}

/// The word a last message's kind is read from: the stored one, or "text"
/// when the column came back empty.
pub open spec fn last_kind_word(row: ConversationRow) -> Seq<char> {
    match row.last_message_kind {
        Some(k) => k@,
        None => "text"@,
    }
}

/// A row carries a last message when both its id and its time came back.
pub open spec fn has_last_message(row: ConversationRow) -> bool {
    row.last_message_id is Some && row.last_message_created_at is Some
}

/// Every stored word of the row is one the rules know.
pub open spec fn conversation_row_readable(row: ConversationRow) -> bool {
    &&& has_last_message(row) ==> SocialMessageKind::from_word(enum_word(last_kind_word(row))) is Some
    &&& ConversationKind::from_word(enum_word(row.kind@)) is Some
    &&& ConversationMemberRole::from_word(enum_word(row.role@)) is Some
}

/// The sentence of the first unknown word of the row, checked in the order
/// the last message's kind, the conversation's kind, the viewer's role.
pub open spec fn conversation_row_refusal(row: ConversationRow) -> Option<Seq<char>> {
    if has_last_message(row) && SocialMessageKind::from_word(enum_word(last_kind_word(row)))
        is None {
        Some(
            stored_invalid_message(
                "social message kind"@,
                "invalid social message kind: "@ + enum_word(last_kind_word(row)),
            ),
        )
    } else if ConversationKind::from_word(enum_word(row.kind@)) is None {
        Some(
            stored_invalid_message(
                "conversation kind"@,
                "invalid conversation kind: "@ + enum_word(row.kind@),
            ),
        )
    } else if ConversationMemberRole::from_word(enum_word(row.role@)) is None {
        Some(
            stored_invalid_message(
                "conversation member role"@,
                "invalid conversation member role: "@ + enum_word(row.role@),
            ),
        )
    } else {
        None
    }
}

/// The list entry a readable row becomes, given the accounts the lookup
/// found. A removed last message keeps its slot but not its text.
pub open spec fn summary_matches(
    s: ConversationSummary,
    row: ConversationRow,
    known: Seq<i64>,
) -> bool {
    &&& s.id == row.id
    &&& s.kind == ConversationKind::from_word(enum_word(row.kind@))->0
    &&& s.title == row.title
    &&& s.owner_user_id == row.owner_user_id
    &&& s.counterpart_user_id == hydrated_spec(known, row.counterpart_user_id)
    &&& s.member_count == row.member_count
    &&& s.viewer_role == ConversationMemberRole::from_word(enum_word(row.role@))->0
    &&& s.muted == row.muted
    &&& s.unread_count == row.unread_count
    &&& s.created_at == row.created_at
    &&& s.updated_at == row.updated_at
    &&& (s.last_message is Some <==> has_last_message(row))
    &&& (s.last_message matches Some(m) ==> {
        let deleted = match row.last_message_deleted {
            Some(d) => d,
            None => false,
        };
        &&& m.id == row.last_message_id->0
        &&& m.conversation_id == row.id
        &&& m.sender_user_id == hydrated_spec(known, row.last_message_sender_user_id)
        &&& m.kind == SocialMessageKind::from_word(enum_word(last_kind_word(row)))->0
        &&& m.created_at == row.last_message_created_at->0
        &&& m.deleted == deleted
        &&& (deleted ==> m.body@ == Seq::<char>::empty())
        &&& (!deleted ==> m.body@ == match row.last_message_body {
            Some(b) => b@,
            None => Seq::<char>::empty(),
        })
    })
}

/// A conversation row as a list entry (see [`summary_matches`]). An unknown
/// word is an internal error, checked in the order the last message's kind,
/// the conversation's kind, the viewer's role.
pub fn summary_from_row(row: ConversationRow, known: &Vec<i64>) -> (r: Result<
    ConversationSummary,
    Error,
>)
    ensures
        r is Ok <==> conversation_row_readable(row),
        r matches Ok(s) ==> summary_matches(s, row, known@),
        match conversation_row_refusal(row) {
            None => r is Ok,
            Some(m) => r matches Err(e) && e.is_internal_with(m),
        },
{
    let last_message = match (row.last_message_id, row.last_message_created_at) {
        (Some(id), Some(created_at)) => {
            let deleted = match row.last_message_deleted {
                Some(d) => d,
                None => false,
            };
            let kind = match &row.last_message_kind {
                Some(k) => stored_message_kind(k.as_str())?,
                None => {
                    proof {
                        reveal_strlit("text");
                    }
                    stored_message_kind("text")?
                },
            };
            let body = match &row.last_message_body {
                Some(b) => b.clone(),
                None => String::new(),
            };
            Some(
                SocialMessage {
                    id,
                    conversation_id: row.id,
                    sender_user_id: hydrated(known, row.last_message_sender_user_id),
                    kind,
                    body: visible_body(body, deleted),
                    created_at,
                    deleted,
                },
            )
        },
        _ => None,
    };
    let kind = stored_conversation_kind(row.kind.as_str())?;
    let viewer_role = stored_member_role(row.role.as_str())?;
    Ok(
        ConversationSummary {
            id: row.id,
            kind,
            title: row.title,
            owner_user_id: row.owner_user_id,
            counterpart_user_id: hydrated(known, row.counterpart_user_id),
            member_count: row.member_count,
            viewer_role,
            muted: row.muted,
            unread_count: row.unread_count,
            last_message,
            created_at: row.created_at,
            updated_at: row.updated_at,
        },
    )
}

// ----------------------------------------------------------- moderation ------

/// One conversation of the moderation listing as stored.
#[derive(Debug, Clone)]
pub struct AdminConversationRow {
    pub id: i64,
    pub kind: String,
    pub title: String,
    pub owner_user_id: Option<UserId>,
    pub member_count: i64,
    pub message_count: i64,
    pub last_message_at: Option<UnixSeconds>,
    pub created_at: UnixSeconds,
}

/// A moderation row as an overview: its kind read ("stored conversation kind
/// is invalid: ..." otherwise) and its owner kept only while the account
/// exists.
pub fn overview_from_row(row: AdminConversationRow, known: &Vec<i64>) -> (r: Result<
    AdminConversationOverview,
    Error,
>)
    ensures
        match ConversationKind::from_word(enum_word(row.kind@)) {
            Some(k) => r matches Ok(o) && {
                &&& o.id == row.id
                &&& o.kind == k
                &&& o.title == row.title
                &&& o.owner_user_id == hydrated_spec(known@, row.owner_user_id)
                &&& o.member_count == row.member_count
                &&& o.message_count == row.message_count
                &&& o.last_message_at == row.last_message_at
                &&& o.created_at == row.created_at
            },
            None => r matches Err(e) && e.is_internal_with(
                stored_invalid_message(
                    "conversation kind"@,
                    "invalid conversation kind: "@ + enum_word(row.kind@),
                ),
            ),
        },
{
    let kind = stored_conversation_kind(row.kind.as_str())?;
    Ok(
        AdminConversationOverview {
            id: row.id,
            kind,
            title: row.title,
            owner_user_id: hydrated(known, row.owner_user_id),
            member_count: row.member_count,
            message_count: row.message_count,
            last_message_at: row.last_message_at,
            created_at: row.created_at,
        },
    )
}

} // verus!
