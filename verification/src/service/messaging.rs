//! Direct threads and groups behind the 消息 tab. Authorization is the
//! substance: a non-member gets "not found" rather than "forbidden", a direct
//! thread stays writable only while both accounts may message each other, and
//! only friends can be pulled into a group.

use vstd::prelude::*;

use crate::error::{conflict, invalid_input, not_found, unauthorized, Error};
use crate::ids::UserId;
use crate::models::page::{DEFAULT_PAGE_SIZE, MAX_PAGE_SIZE};
use crate::models::social::{
    ConversationKind, ConversationMemberRole, CONVERSATION_MEMBER_MAX,
    CONVERSATION_TITLE_MAX_CHARS, SOCIAL_MESSAGE_BODY_MAX_CHARS,
};
use crate::text::{at_most_message, at_most_sentence, trim_spec, trim_to_string};

verus! {

pub fn conversation_not_found() -> (e: Error)
    ensures
        e.is_not_found_with("Conversation not found"@),
{
    not_found("Conversation not found")
}

/// A group title: trimmed, present, at most `CONVERSATION_TITLE_MAX_CHARS`.
pub fn validate_conversation_title(title: &str) -> (r: Result<String, Error>)
    ensures
        r is Ok <==> 0 < trim_spec(title@).len() <= CONVERSATION_TITLE_MAX_CHARS,
        r matches Ok(s) ==> s@ == trim_spec(title@),
        r matches Err(e) ==> if trim_spec(title@).len() == 0 {
            e.is_invalid_input_with("title is required"@)
        } else {
            e.is_invalid_input_with(at_most_message("title"@, CONVERSATION_TITLE_MAX_CHARS as nat))
        },
{
    let trimmed = trim_to_string(title);
    let n = trimmed.as_str().unicode_len();
    if n == 0 {
        return Err(invalid_input("title is required"));
    }
    if n > CONVERSATION_TITLE_MAX_CHARS {
        return Err(Error::InvalidInput(at_most_sentence("title", CONVERSATION_TITLE_MAX_CHARS)));
    }
    Ok(trimmed)
}

/// A message body: trimmed and present — whitespace alone would occupy a
/// row, bump every unread count and render as nothing — and at most
/// `SOCIAL_MESSAGE_BODY_MAX_CHARS`.
pub fn validate_message_body(body: &str) -> (r: Result<String, Error>)
    ensures
        r is Ok <==> 0 < trim_spec(body@).len() <= SOCIAL_MESSAGE_BODY_MAX_CHARS,
        r matches Ok(s) ==> s@ == trim_spec(body@),
        r matches Err(e) ==> if trim_spec(body@).len() == 0 {
            e.is_invalid_input_with("message body is required"@)
        } else {
            e.is_invalid_input_with(
                at_most_message("message body"@, SOCIAL_MESSAGE_BODY_MAX_CHARS as nat),
            )
        },
{
    let trimmed = trim_to_string(body);
    let n = trimmed.as_str().unicode_len();
    if n == 0 {
        return Err(invalid_input("message body is required"));
    }
    if n > SOCIAL_MESSAGE_BODY_MAX_CHARS {
        return Err(
            Error::InvalidInput(at_most_sentence("message body", SOCIAL_MESSAGE_BODY_MAX_CHARS)),
        );
    }
    Ok(trimmed)
}

/// The page size of a message listing: the default when absent, held within
/// `1..=MAX_PAGE_SIZE`.
pub open spec fn message_limit_spec(limit: Option<u32>) -> int {
    let l = match limit {
        Some(v) => v as int,
        None => DEFAULT_PAGE_SIZE as int,
    };
    if l < 1 {
        1
    } else if l > MAX_PAGE_SIZE {
        MAX_PAGE_SIZE as int
    } else {
        l
    }
}

pub fn message_limit(limit: Option<u32>) -> (r: i64)
    ensures
        r == message_limit_spec(limit),
        1 <= r <= MAX_PAGE_SIZE,
{
    let l = match limit {
        Some(v) => v,
        None => DEFAULT_PAGE_SIZE,
    };
    let clamped = if l < 1 {
        1
    } else if l > MAX_PAGE_SIZE {
        MAX_PAGE_SIZE
    } else {
        l
    };
    clamped as i64
}

/// Nobody opens a direct thread with themselves.
pub fn open_direct_precheck(user: UserId, other: UserId) -> (r: Result<(), Error>)
    ensures
        r is Ok <==> user != other,
        r matches Err(e) ==> e.is_invalid_input_with("Cannot open a conversation with yourself"@),
{
    if user == other {
        return Err(invalid_input("Cannot open a conversation with yourself"));
    }
    Ok(())
}

/// Who may hold a direct thread with whom: friends, and a bound couple.
pub fn may_message(are_friends: bool, bound_couple: bool) -> (r: bool)
    ensures
        r == (are_friends || bound_couple),
{
    are_friends || bound_couple
}

/// A direct thread between two accounts that may not message each other is
/// refused with "You can only message friends".
pub fn require_may_message(allowed: bool) -> (r: Result<(), Error>)
    ensures
        r is Ok <==> allowed,
        r matches Err(e) ==> e.is_authorization_with("You can only message friends"@),
{
    if !allowed {
        return Err(unauthorized("You can only message friends"));
    }
    Ok(())
}

proof fn lemma_push_contains<A>(s: Seq<A>, a: A, x: A)
    ensures
        s.push(a).contains(x) <==> (s.contains(x) || a == x),
{
    if s.contains(x) {
        let w = choose|w: int| 0 <= w < s.len() && s[w] == x;
        assert(s.push(a)[w] == x);
    }
    if a == x {
        assert(s.push(a)[s.len() as int] == x);
    }
    if s.push(a).contains(x) {
        let w = choose|w: int| 0 <= w < s.push(a).len() && s.push(a)[w] == x;
        if w < s.len() {
            assert(s[w] == x);
        }
    }
}

/// Ids in strictly increasing order, hence each at most once.
pub open spec fn strictly_increasing(ids: Seq<UserId>) -> bool {
    forall|i: int, j: int| 0 <= i < j < ids.len() ==> ids[i].0 < ids[j].0
}

/// How many distinct accounts `ids` names besides `owner`.
pub open spec fn distinct_others(ids: Seq<UserId>, owner: UserId) -> nat {
    ids.to_set().remove(owner).len()
}

/// A strictly increasing list holding exactly the ids of `ids` other than
/// `owner` is as long as their count.
proof fn lemma_unique_count(r: Seq<UserId>, ids: Seq<UserId>, owner: UserId)
    requires
        strictly_increasing(r),
        forall|x: UserId| r.contains(x) <==> (ids.contains(x) && Some(owner) != Some(x)),
    ensures
        r.len() == distinct_others(ids, owner),
{
    broadcast use vstd::set::group_set_axioms;

    assert(r.no_duplicates()) by {
        assert forall|i: int, j: int| 0 <= i < r.len() && 0 <= j < r.len() && i != j implies r[i]
            != r[j] by {
            if i < j {
                assert(r[i].0 < r[j].0);
            } else {
                assert(r[j].0 < r[i].0);
            }
        }
    }
    r.unique_seq_to_set();
    assert forall|x: UserId| r.to_set().contains(x) <==> ids.to_set().remove(owner).contains(x) by {
        if x == owner {
            assert(Some(owner) == Some(x));
        }
    }
    assert(r.to_set() =~= ids.to_set().remove(owner));
}

/// The distinct ids of `ids`, in ascending order, leaving out `exclude`.
pub fn sorted_unique_ids(ids: &Vec<UserId>, exclude: Option<UserId>) -> (r: Vec<UserId>)
    ensures
        strictly_increasing(r@),
        forall|x: UserId| r@.contains(x) <==> (ids@.contains(x) && exclude != Some(x)),
        r@.len() <= ids@.len(),
{
    let mut out: Vec<UserId> = Vec::new();
    let mut k: usize = 0;
    while k < ids.len()
        invariant
            k <= ids@.len(),
            strictly_increasing(out@),
            out@.len() <= k,
            forall|x: UserId|
                out@.contains(x) <==> (ids@.subrange(0, k as int).contains(x) && exclude != Some(
                    x,
                )),
        decreases ids@.len() - k,
    {
        let id = ids[k];
        let ghost prefix = ids@.subrange(0, k as int);
        assert(ids@.subrange(0, k + 1) =~= prefix.push(id));
        proof {
            assert forall|x: UserId| prefix.push(id).contains(x) <==> (prefix.contains(x) || id == x) by {
                lemma_push_contains(prefix, id, x);
            }
        }
        let skip = match exclude {
            Some(e) => e == id,
            None => false,
        };
        if !skip {
            let mut p: usize = 0;
            while p < out.len() && out[p].0 < id.0
                invariant
                    p <= out@.len(),
                    forall|t: int| 0 <= t < p ==> (#[trigger] out@[t]).0 < id.0,
                decreases out@.len() - p,
            {
                p = p + 1;
            }
            if p < out.len() && out[p].0 == id.0 {
                assert(out@[p as int] == id);
                assert(out@.contains(id));
                assert forall|x: UserId|
                    out@.contains(x) <==> (ids@.subrange(0, k + 1).contains(x) && exclude
                        != Some(x)) by {
                    if x == id {
                    } else {
                        if prefix.push(id).contains(x) {
                            let w = choose|w: int| 0 <= w < prefix.push(id).len() && prefix.push(id)[w] == x;
                            assert(prefix[w] == x);
                        }
                    }
                }
            } else {
                let ghost before = out@;
                out.insert(p, id);
                assert(out@ == before.insert(p as int, id));
                assert forall|i: int, j: int| 0 <= i < j < out@.len() implies out@[i].0
                    < out@[j].0 by {
                    if j < p {
                        assert(out@[i] == before[i]);
                        assert(out@[j] == before[j]);
                    } else if j == p {
                        assert(out@[i] == before[i]);
                    } else if i < p {
                        assert(out@[i] == before[i]);
                        assert(out@[j] == before[j - 1]);
                        if p < before.len() {
                            assert(before[p as int].0 > id.0);
                        }
                    } else if i == p {
                        assert(out@[j] == before[j - 1]);
                        assert(before[p as int].0 > id.0);
                    } else {
                        assert(out@[i] == before[i - 1]);
                        assert(out@[j] == before[j - 1]);
                    }
                }
                assert forall|x: UserId|
                    out@.contains(x) <==> (ids@.subrange(0, k + 1).contains(x) && exclude
                        != Some(x)) by {
                    if out@.contains(x) {
                        let w = choose|w: int| 0 <= w < out@.len() && out@[w] == x;
                        if w < p {
                            assert(before[w] == x);
                            assert(before.contains(x));
                        } else if w > p {
                            assert(before[w - 1] == x);
                            assert(before.contains(x));
                        }
                    }
                    if before.contains(x) {
                        let w = choose|w: int| 0 <= w < before.len() && before[w] == x;
                        if w < p {
                            assert(out@[w] == x);
                        } else {
                            assert(out@[w + 1] == x);
                        }
                    }
                    if x == id {
                        assert(out@[p as int] == x);
                    }
                    if prefix.push(id).contains(x) && x != id {
                        let w = choose|w: int| 0 <= w < prefix.push(id).len() && prefix.push(id)[w] == x;
                        assert(prefix[w] == x);
                    }
                }
            }
        } else {
            assert forall|x: UserId|
                out@.contains(x) <==> (ids@.subrange(0, k + 1).contains(x) && exclude != Some(
                    x,
                )) by {
                if prefix.push(id).contains(x) && x != id {
                    let w = choose|w: int| 0 <= w < prefix.push(id).len() && prefix.push(id)[w] == x;
                    assert(prefix[w] == x);
                }
            }
        }
        k = k + 1;
    }
    assert(ids@.subrange(0, ids@.len() as int) =~= ids@);
    out
}

/// The accounts a new group invites: everyone listed except the owner, each
/// once, in ascending order. The size cap counts the owner, so a group is
/// never created over the limit ("a group may hold at most 200 members").
pub fn group_invitees(owner: UserId, member_user_ids: &Vec<UserId>) -> (r: Result<
    Vec<UserId>,
    Error,
>)
    ensures
        r is Ok <==> distinct_others(member_user_ids@, owner) + 1 <= CONVERSATION_MEMBER_MAX,
        r matches Ok(v) ==> v@.len() == distinct_others(member_user_ids@, owner),
        r matches Ok(v) ==> {
            &&& strictly_increasing(v@)
            &&& forall|x: UserId| v@.contains(x) <==> (member_user_ids@.contains(x) && x != owner)
            &&& v@.len() + 1 <= CONVERSATION_MEMBER_MAX
        },
        r matches Err(e) ==> e.is_invalid_input_with("a group may hold at most 200 members"@),
{
    let invited = sorted_unique_ids(member_user_ids, Some(owner));
    proof {
        lemma_unique_count(invited@, member_user_ids@, owner);
    }
    if invited.len() >= CONVERSATION_MEMBER_MAX {
        return Err(invalid_input("a group may hold at most 200 members"));
    }
    Ok(invited)
}

/// How many of `invited` are not yet among `current`.
pub open spec fn joining_count(invited: Seq<UserId>, current: Seq<UserId>) -> nat
    decreases invited.len(),
{
    if invited.len() == 0 {
        0
    } else {
        joining_count(invited.drop_last(), current) + if current.contains(invited.last()) {
            0nat
        } else {
            1nat
        }
    }
}

/// Counts the invitees that would actually join.
pub fn count_joining(invited: &Vec<UserId>, current: &Vec<UserId>) -> (r: usize)
    ensures
        r == joining_count(invited@, current@),
        r <= invited@.len(),
{
    let mut count: usize = 0;
    let mut i: usize = 0;
    while i < invited.len()
        invariant
            i <= invited@.len(),
            count == joining_count(invited@.subrange(0, i as int), current@),
            count <= i,
        decreases invited@.len() - i,
    {
        let id = invited[i];
        let mut found = false;
        let mut j: usize = 0;
        while j < current.len()
            invariant
                j <= current@.len(),
                found == current@.subrange(0, j as int).contains(id),
            decreases current@.len() - j,
        {
            assert(current@.subrange(0, j + 1) =~= current@.subrange(0, j as int).push(current@[j as int]));
            proof {
                lemma_push_contains(current@.subrange(0, j as int), current@[j as int], id);
            }
            if current[j] == id {
                found = true;
            }
            j = j + 1;
        }
        assert(current@.subrange(0, current@.len() as int) =~= current@);
        assert(invited@.subrange(0, i + 1).drop_last() =~= invited@.subrange(0, i as int));
        if !found {
            count = count + 1;
        }
        i = i + 1;
    }
    assert(invited@.subrange(0, invited@.len() as int) =~= invited@);
    count
}

/// Adding members never takes a group over its ceiling: the members table
/// has no cap of its own, so this count is what keeps the group inside it.
pub fn join_fits(invited: &Vec<UserId>, current: &Vec<UserId>) -> (r: Result<(), Error>)
    ensures
        r is Ok <==> current@.len() + joining_count(invited@, current@) <= CONVERSATION_MEMBER_MAX,
        r matches Err(e) ==> e.is_invalid_input_with("a group may hold at most 200 members"@),
{
    let joining = count_joining(invited, current);
    if current.len() > CONVERSATION_MEMBER_MAX || joining > CONVERSATION_MEMBER_MAX - current.len() {
        return Err(invalid_input("a group may hold at most 200 members"));
    }
    Ok(())
}

/// Only friends can be pulled into a group; the inviter themself is skipped.
/// `friendable` is the outcome of the friendability check for this account.
pub fn group_invite_check(
    actor: UserId,
    other: UserId,
    friendable: Result<(), Error>,
    are_friends: bool,
) -> (r: Result<(), Error>)
    ensures
        actor == other ==> r is Ok,
        actor != other ==> (r is Ok <==> friendable is Ok && are_friends),
        actor != other && friendable is Err ==> r == friendable,
        actor != other && friendable is Ok && !are_friends ==> r is Err
            && r->Err_0.is_authorization_with("You can only add friends to a group"@),
{
    if actor == other {
        return Ok(());
    }
    friendable?;
    if !are_friends {
        return Err(unauthorized("You can only add friends to a group"));
    }
    Ok(())
}

/// The caller's role in a conversation; a conversation the caller is not in
/// reads exactly like one that does not exist.
pub fn require_membership(role: Option<ConversationMemberRole>) -> (r: Result<
    ConversationMemberRole,
    Error,
>)
    ensures
        r is Ok <==> role is Some,
        r matches Ok(x) ==> role == Some(x),
        r matches Err(e) ==> e.is_not_found_with("Conversation not found"@),
{
    match role {
        Some(x) => Ok(x),
        None => Err(conversation_not_found()),
    }
}

/// The kind of a conversation that must exist.
pub fn require_kind(kind: Option<ConversationKind>) -> (r: Result<ConversationKind, Error>)
    ensures
        r is Ok <==> kind is Some,
        r matches Ok(k) ==> kind == Some(k),
        r matches Err(e) ==> e.is_not_found_with("Conversation not found"@),
{
    match kind {
        Some(k) => Ok(k),
        None => Err(conversation_not_found()),
    }
}

/// Managing a member list needs a group, and a role that may manage it.
pub fn group_manager_check(role: ConversationMemberRole, kind: ConversationKind) -> (r: Result<
    ConversationMemberRole,
    Error,
>)
    ensures
        r is Ok <==> kind == ConversationKind::Group && role.spec_can_manage(),
        r matches Ok(x) ==> x == role,
        kind != ConversationKind::Group ==> r is Err && r->Err_0.is_invalid_input_with(
            "This conversation has no member list to manage"@,
        ),
        kind == ConversationKind::Group && !role.spec_can_manage() ==> r is Err
            && r->Err_0.is_authorization_with("Only a group owner or admin can do this"@),
{
    if kind != ConversationKind::Group {
        return Err(invalid_input("This conversation has no member list to manage"));
    }
    if !role.can_manage() {
        return Err(unauthorized("Only a group owner or admin can do this"));
    }
    Ok(role)
}

/// Removing someone else, before any lookup: removing yourself is leaving.
pub fn removal_precheck(actor: UserId, member: UserId) -> (r: Result<(), Error>)
    ensures
        r is Ok <==> actor != member,
        r matches Err(e) ==> e.is_invalid_input_with(
            "Leave the group instead of removing yourself"@,
        ),
{
    if actor == member {
        return Err(invalid_input("Leave the group instead of removing yourself"));
    }
    Ok(())
}

/// An admin may clear out members but not their peers or the owner; only
/// the owner outranks an admin.
pub fn removal_rank_check(
    actor_role: ConversationMemberRole,
    member_role: Option<ConversationMemberRole>,
) -> (r: Result<(), Error>)
    ensures
        r is Ok <==> (member_role matches Some(m) && m.rank_spec() < actor_role.rank_spec()),
        member_role is None ==> r is Err && r->Err_0.is_not_found_with("Member not found"@),
        member_role matches Some(m) && m.rank_spec() >= actor_role.rank_spec() ==> r is Err
            && r->Err_0.is_authorization_with(
            "Cannot remove a member of equal or higher rank"@,
        ),
{
    match member_role {
        None => Err(not_found("Member not found")),
        Some(m) => if m.outranks_or_equals(actor_role) {
            Err(unauthorized("Cannot remove a member of equal or higher rank"))
        } else {
            Ok(())
        },
    }
}

/// A removal stands only when the member was there.
pub fn member_removed(removed: bool) -> (r: Result<(), Error>)
    ensures
        r is Ok <==> removed,
        r matches Err(e) ==> e.is_not_found_with("Member not found"@),
{
    if removed {
        Ok(())
    } else {
        Err(not_found("Member not found"))
    }
}

/// Only groups can be left, and the owner cannot leave: a group without an
/// owner has nobody who can delete it.
pub fn leave_check(role: ConversationMemberRole, kind: ConversationKind) -> (r: Result<(), Error>)
    ensures
        r is Ok <==> kind == ConversationKind::Group && role != ConversationMemberRole::Owner,
        kind != ConversationKind::Group ==> r is Err && r->Err_0.is_invalid_input_with(
            "Only groups can be left"@,
        ),
        kind == ConversationKind::Group && role == ConversationMemberRole::Owner ==> r is Err
            && r->Err_0.is_invalid_input_with("The owner cannot leave; delete the group instead"@),
{
    if kind != ConversationKind::Group {
        return Err(invalid_input("Only groups can be left"));
    }
    if role == ConversationMemberRole::Owner {
        return Err(invalid_input("The owner cannot leave; delete the group instead"));
    }
    Ok(())
}

/// Only the owner deletes a group.
pub fn delete_check(role: ConversationMemberRole) -> (r: Result<(), Error>)
    ensures
        r is Ok <==> role == ConversationMemberRole::Owner,
        r matches Err(e) ==> e.is_authorization_with("Only the group owner can delete it"@),
{
    if role != ConversationMemberRole::Owner {
        return Err(unauthorized("Only the group owner can delete it"));
    }
    Ok(())
}

/// Storage deletes groups only; a direct thread survives the request.
pub fn group_deleted(deleted: bool) -> (r: Result<(), Error>)
    ensures
        r is Ok <==> deleted,
        r matches Err(e) ==> e.is_invalid_input_with("Only groups can be deleted"@),
{
    if deleted {
        Ok(())
    } else {
        Err(invalid_input("Only groups can be deleted"))
    }
}

/// A write the storage matched, or "Conversation not found".
pub fn conversation_found(found: bool) -> (r: Result<(), Error>)
    ensures
        r is Ok <==> found,
        r matches Err(e) ==> e.is_not_found_with("Conversation not found"@),
{
    if found {
        Ok(())
    } else {
        Err(conversation_not_found())
    }
}

/// A withdrawal stands only when the caller's own message was there.
pub fn message_deleted(deleted: bool) -> (r: Result<(), Error>)
    ensures
        r is Ok <==> deleted,
        r matches Err(e) ==> e.is_not_found_with("Message not found"@),
{
    if deleted {
        Ok(())
    } else {
        Err(not_found("Message not found"))
    }
}

/// The first member of a thread other than `sender`, if any.
pub open spec fn counterpart_spec(members: Seq<UserId>, sender: UserId) -> Option<UserId>
    decreases members.len(),
{
    if members.len() == 0 {
        None
    } else if members[0] != sender {
        Some(members[0])
    } else {
        counterpart_spec(members.drop_first(), sender)
    }
}

/// Whom a message in a thread must be allowed to reach. A group is writable
/// by any member (`Ok(None)`); a direct thread names the other participant,
/// who must still be there ("The other participant is no longer here").
pub fn writable_counterpart(kind: ConversationKind, members: &Vec<UserId>, sender: UserId) -> (r:
    Result<Option<UserId>, Error>)
    ensures
        kind == ConversationKind::Group ==> r == Ok::<Option<UserId>, Error>(None),
        kind == ConversationKind::Direct ==> match counterpart_spec(members@, sender) {
            Some(c) => r == Ok::<Option<UserId>, Error>(Some(c)),
            None => r is Err && r->Err_0.is_conflict_with(
                "The other participant is no longer here"@,
            ),
        },
{
    if kind == ConversationKind::Group {
        return Ok(None);
    }
    let mut i: usize = 0;
    assert(members@.skip(0) =~= members@);
    while i < members.len()
        invariant
            kind == ConversationKind::Direct,
            i <= members@.len(),
            counterpart_spec(members@.skip(i as int), sender) == counterpart_spec(members@, sender),
        decreases members@.len() - i,
    {
        assert(members@.skip(i as int).drop_first() =~= members@.skip(i + 1));
        if members[i] != sender {
            return Ok(Some(members[i]));
        }
        i = i + 1;
    }
    Err(conflict("The other participant is no longer here"))
}

// ------------------------------------------------------------------ laws ----

/// A removal only ever goes down the ranks: whoever removes a member ranks
/// strictly above them, so a member never removes an admin, an admin never
/// removes an owner, and nobody removes an equal.
pub proof fn removals_go_down_the_ranks(actor: ConversationMemberRole, member: ConversationMemberRole)
    requires
        member.rank_spec() < actor.rank_spec(),
    ensures
        actor != ConversationMemberRole::Member,
        member != ConversationMemberRole::Owner,
        actor == ConversationMemberRole::Admin ==> member == ConversationMemberRole::Member,
{
}

/// A join counts exactly the newcomers: for member lists without repeats,
/// the group afterwards is the current members together with the invited
/// ones, and it holds the current count plus [`joining_count`] accounts. So
/// a join that [`join_fits`] accepts leaves the group within its ceiling.
pub proof fn joining_counts_exactly_the_newcomers(invited: Seq<UserId>, current: Seq<UserId>)
    requires
        invited.no_duplicates(),
        current.no_duplicates(),
    ensures
        current.to_set().union(invited.to_set()).finite(),
        current.to_set().union(invited.to_set()).len() == current.len() + joining_count(
            invited,
            current,
        ),
    decreases invited.len(),
{
    broadcast use vstd::set::group_set_axioms, vstd::seq_lib::seq_to_set_is_finite;

    if invited.len() == 0 {
        assert(current.to_set().union(invited.to_set()) =~= current.to_set());
        current.unique_seq_to_set();
    } else {
        let front = invited.drop_last();
        let x = invited.last();
        assert(invited =~= front.push(x));
        assert(front.no_duplicates());
        joining_counts_exactly_the_newcomers(front, current);
        front.lemma_push_to_set_commute(x);
        let before = current.to_set().union(front.to_set());
        assert(current.to_set().union(invited.to_set()) =~= before.insert(x));
        assert(!front.contains(x)) by {
            if front.contains(x) {
                let k = choose|k: int| 0 <= k < front.len() && front[k] == x;
                assert(invited[k] == invited[invited.len() - 1]);
            }
        }
        assert(before.contains(x) <==> current.contains(x));
    }
}

/// A message page holds what was asked for when that is a usable size
/// (1 to `MAX_PAGE_SIZE`), the default when nothing was asked, and
/// otherwise the nearest usable size; a larger request never gets a smaller
/// page.
pub proof fn message_pages_take_the_nearest_usable_size(asked: u32, other: u32, q: int)
    requires
        1 <= q <= MAX_PAGE_SIZE,
    ensures
        message_limit_spec(None) == DEFAULT_PAGE_SIZE as int,
        1 <= message_limit_spec(Some(asked)) <= MAX_PAGE_SIZE,
        1 <= asked <= MAX_PAGE_SIZE ==> message_limit_spec(Some(asked)) == asked as int,
        ({
            let c = message_limit_spec(Some(asked));
            let d = if c >= asked { c - asked } else { asked - c };
            let e = if q >= asked { q - asked } else { asked - q };
            d <= e
        }),
        asked <= other ==> message_limit_spec(Some(asked)) <= message_limit_spec(Some(other)),
{
}

} // verus!
