//! Reading a couple space back, and the checks the binding transaction makes.

use vstd::prelude::*;

use crate::error::{conflict, Error};
use crate::ids::UserId;
use crate::models::couple::CoupleSpaceStatus;
use crate::text::enum_word;

verus! {

/// A stored space status; an unknown word means a hand-written row: "stored
/// couple space status is invalid: invalid couple space status: <word>".
pub fn stored_space_status(raw: &str) -> (r: Result<CoupleSpaceStatus, Error>)
    ensures
        match CoupleSpaceStatus::from_word(enum_word(raw@)) {
            Some(s) => r == Ok::<CoupleSpaceStatus, Error>(s),
            None => r matches Err(e) && e.is_internal_with(
                "stored couple space status is invalid: "@ + "invalid couple space status: "@
                    + enum_word(raw@),
            ),
        },
{
    match CoupleSpaceStatus::parse(raw) {
        Ok(s) => Ok(s),
        Err(reason) => {
            let mut m = String::from_str("stored couple space status is invalid: ");
            m.append(reason.as_str());
            assert(m@ =~= "stored couple space status is invalid: "@
                + "invalid couple space status: "@ + enum_word(raw@));
            Err(Error::Internal(m))
        },
    }
}

/// An account is never bound to itself, so asking about one account twice
/// answers without a lookup.
pub fn may_be_bound(first: UserId, second: UserId) -> (r: bool)
    ensures
        r == (first != second),
{
    first != second
}

/// Binding gives each account its single active membership; when either
/// already holds one the accept is refused ("One of these accounts is
/// already in a couple space").
pub fn binding_slots_free(already_bound: bool) -> (r: Result<(), Error>)
    ensures
        r is Ok <==> !already_bound,
        r matches Err(e) ==> e.is_conflict_with(
            "One of these accounts is already in a couple space"@,
        ),
{
    if already_bound {
        return Err(conflict("One of these accounts is already in a couple space"));
    }
    Ok(())
}

} // verus!
