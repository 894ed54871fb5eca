//! The follow graph as a social action rather than a raw insert: no following
//! yourself, no following an account that is gone, and no follow edge across
//! a block in either direction.

use vstd::prelude::*;

use crate::error::{invalid_input, not_found, unauthorized, Error};
use crate::ids::UserId;

verus! {

/// The first check of a follow, before any lookup: an account cannot follow
/// itself ("Cannot follow yourself").
pub fn follow_precheck(follower: UserId, followee: UserId) -> (r: Result<(), Error>)
    ensures
        r is Ok <==> follower != followee,
        r matches Err(e) ==> e.is_invalid_input_with("Cannot follow yourself"@),
{
    if follower == followee {
        return Err(invalid_input("Cannot follow yourself"));
    }
    Ok(())
}

/// The lookups' verdict on a follow: a missing account is "User not found";
/// a block held by the other side is refused without revealing it ("Cannot
/// follow this user"); the caller's own block names the action to take first
/// ("Unblock this user before following them").
pub fn follow_allowed(
    followee_exists: bool,
    followee_blocks_follower: bool,
    follower_blocks_followee: bool,
) -> (r: Result<(), Error>)
    ensures
        r is Ok <==> followee_exists && !followee_blocks_follower && !follower_blocks_followee,
        !followee_exists ==> (r matches Err(e) && e.is_not_found_with("User not found"@)),
        followee_exists && followee_blocks_follower ==> (r matches Err(e)
            && e.is_authorization_with("Cannot follow this user"@)),
        followee_exists && !followee_blocks_follower && follower_blocks_followee ==> (r matches Err(
            e,
        ) && e.is_invalid_input_with("Unblock this user before following them"@)),
{
    if !followee_exists {
        return Err(not_found("User not found"));
    }
    if followee_blocks_follower {
        return Err(unauthorized("Cannot follow this user"));
    }
    if follower_blocks_followee {
        return Err(invalid_input("Unblock this user before following them"));
    }
    Ok(())
}

/// The whole guard of a follow, the checks in the order the service makes
/// them: yourself, a missing account, their block, your block.
pub fn follow_decision(
    follower: UserId,
    followee: UserId,
    followee_exists: bool,
    followee_blocks_follower: bool,
    follower_blocks_followee: bool,
) -> (r: Result<(), Error>)
    ensures
        r is Ok <==> {
            &&& follower != followee
            &&& followee_exists
            &&& !followee_blocks_follower
            &&& !follower_blocks_followee
        },
        follower == followee ==> (r matches Err(e) && e.is_invalid_input_with(
            "Cannot follow yourself"@,
        )),
        follower != followee && !followee_exists ==> (r matches Err(e) && e.is_not_found_with(
            "User not found"@,
        )),
        follower != followee && followee_exists && followee_blocks_follower ==> (r matches Err(e)
            && e.is_authorization_with("Cannot follow this user"@)),
        follower != followee && followee_exists && !followee_blocks_follower
            && follower_blocks_followee ==> (r matches Err(e) && e.is_invalid_input_with(
            "Unblock this user before following them"@,
        )),
{
    follow_precheck(follower, followee)?;
    follow_allowed(followee_exists, followee_blocks_follower, follower_blocks_followee)
}

/// A listing or profile of an id that names no live account reads as gone
/// ("User not found") rather than as an account that follows nobody.
pub fn require_user(exists: bool) -> (r: Result<(), Error>)
    ensures
        r is Ok <==> exists,
        r matches Err(e) ==> e.is_not_found_with("User not found"@),
{
    if !exists {
        return Err(not_found("User not found"));
    }
    Ok(())
}

} // verus!
