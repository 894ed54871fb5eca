//! Sending a gift inside a room, and the banner that announces it there. The
//! gift record is the truth and the chat message a notification: a repeat of
//! an earlier send is announced once, when it first happened.

use vstd::prelude::*;

use crate::error::{internal, invalid_input, not_found, Error};
use crate::ids::{RoomId, UserId};
use crate::models::gift::SendGiftResult;
use crate::text::{append_signed_decimal, signed_decimal_spec};

verus! {

/// A room send names its room; "a room gift needs a room" otherwise.
pub fn room_of_gift(room_id: Option<RoomId>) -> (r: Result<RoomId, Error>)
    ensures
        match room_id {
            Some(id) => r == Ok::<RoomId, Error>(id),
            None => r matches Err(e) && e.is_invalid_input_with("a room gift needs a room"@),
        },
{
    match room_id {
        Some(id) => Ok(id),
        None => Err(invalid_input("a room gift needs a room")),
    }
}

/// A room is not a way to reach strangers: the recipient must be a member
/// ("recipient is not in this room").
pub fn recipient_in_room(recipient_is_member: bool) -> (r: Result<(), Error>)
    ensures
        r is Ok <==> recipient_is_member,
        r matches Err(e) ==> e.is_not_found_with("recipient is not in this room"@),
{
    if !recipient_is_member {
        return Err(not_found("recipient is not in this room"));
    }
    Ok(())
}

/// Whether a room send may go ahead, in the order the room checks it: the
/// request names a room; the sender may speak there (`may_speak` is the
/// room's answer to that permission check, its refusal passed on as it
/// came, since a gift posts a chat message); and the recipient is a member.
/// Returns the room.
pub fn room_gift_admission(
    room_id: Option<RoomId>,
    may_speak: Result<(), Error>,
    recipient_is_member: bool,
) -> (r: Result<RoomId, Error>)
    ensures
        room_id is None ==> (r matches Err(e) && e.is_invalid_input_with(
            "a room gift needs a room"@,
        )),
        room_id is Some && may_speak is Err ==> r == Err::<RoomId, Error>(may_speak->Err_0),
        room_id is Some && may_speak is Ok && !recipient_is_member ==> (r matches Err(e)
            && e.is_not_found_with("recipient is not in this room"@)),
        room_id is Some && may_speak is Ok && recipient_is_member ==> r == Ok::<RoomId, Error>(
            room_id->0,
        ),
{
    let room = room_of_gift(room_id)?;
    may_speak?;
    recipient_in_room(recipient_is_member)?;
    Ok(room)
}

/// Whether a send is announced: only the first time it happens.
pub fn should_announce(result: &SendGiftResult) -> (r: bool)
    ensures
        r == !result.already_sent,
{
    !result.already_sent
}

/// The recipient a banner names. A record without one contradicts the send
/// that just made it ("gift record lost its recipient").
pub fn announced_recipient(recipient_id: Option<UserId>) -> (r: Result<UserId, Error>)
    ensures
        match recipient_id {
            Some(id) => r == Ok::<UserId, Error>(id),
            None => r matches Err(e) && e.is_internal_with("gift record lost its recipient"@),
        },
{
    match recipient_id {
        Some(id) => Ok(id),
        None => Err(internal("gift record lost its recipient")),
    }
}

/// A profile-page send has no audience and must not carry a room ("a direct
/// gift must not carry a room").
pub fn direct_gift_check(room_id: Option<RoomId>) -> (r: Result<(), Error>)
    ensures
        r is Ok <==> room_id is None,
        r matches Err(e) ==> e.is_invalid_input_with("a direct gift must not carry a room"@),
{
    if room_id.is_some() {
        return Err(invalid_input("a direct gift must not carry a room"));
    }
    Ok(())
}

/// The name a banner shows for an account: its username, or the given
/// stand-in for its id when the lookup found none. The send is paid for by
/// then, so a missing name must not fail the announcement.
pub fn display_name(found: Option<String>, id_text: String) -> (r: String)
    ensures
        r == match found {
            Some(name) => name,
            None => id_text,
        },
{
    match found {
        Some(name) => name,
        None => id_text,
    }
}

/// The banner text: "<sender> 送给 <recipient> <gift> × <quantity>".
pub open spec fn gift_banner_spec(
    sender: Seq<char>,
    recipient: Seq<char>,
    gift_name: Seq<char>,
    quantity: int,
) -> Seq<char> {
    sender + " 送给 "@ + recipient + " "@ + gift_name + " × "@ + signed_decimal_spec(quantity)
}

/// The chat line announcing a send (see [`gift_banner_spec`]).
pub fn gift_banner(sender: &str, recipient: &str, gift_name: &str, quantity: i32) -> (r: String)
    ensures
        r@ == gift_banner_spec(sender@, recipient@, gift_name@, quantity as int),
{
    let mut line = String::from_str(sender);
    line.append(" 送给 ");
    line.append(recipient);
    line.append(" ");
    line.append(gift_name);
    line.append(" × ");
    append_signed_decimal(&mut line, quantity as i64);
    line
}

} // verus!
