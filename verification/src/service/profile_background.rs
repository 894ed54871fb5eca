//! The picture behind a member's profile page header: where its objects are
//! filed, which reference owns one, and when replacing it releases the old
//! stored object.

use vstd::prelude::*;

use crate::error::{invalid_input, Error};
use crate::ids::UserId;
use crate::text::{append_signed_decimal, same_text, signed_decimal_spec};

verus! {

/// The reference kind a profile background is stored under.
pub const USER_PROFILE_BACKGROUND_REFERENCE_KIND: &'static str = "user_profile_background";

/// "users/<id>/profile-backgrounds", the id in decimal.
pub open spec fn storage_scope_spec(user_id: UserId) -> Seq<char> {
    "users/"@ + signed_decimal_spec(user_id.0 as int) + "/profile-backgrounds"@
}

/// The storage folder of an account's backgrounds (see
/// [`storage_scope_spec`]).
pub fn profile_background_storage_scope(user_id: UserId) -> (r: String)
    ensures
        r@ == storage_scope_spec(user_id),
{
    let mut scope = String::from_str("users/");
    append_signed_decimal(&mut scope, user_id.as_i64());
    scope.append("/profile-backgrounds");
    scope
}

/// The owner key a background reference carries: the account id in decimal.
pub fn reference_owner_key(user_id: UserId) -> (r: String)
    ensures
        r@ == signed_decimal_spec(user_id.0 as int),
{
    let mut key = String::new();
    append_signed_decimal(&mut key, user_id.as_i64());
    key
}

/// The refusal when no file storage is configured.
pub fn storage_unconfigured() -> (e: Error)
    ensures
        e.is_invalid_input_with("file storage is not configured for profile backgrounds"@),
{
    invalid_input("file storage is not configured for profile backgrounds")
}

/// The first of the prepared files; "profile background file is required"
/// when the storage prepared none.
pub fn first_prepared<T>(files: Vec<T>) -> (r: Result<T, Error>)
    ensures
        files@.len() > 0 ==> r == Ok::<T, Error>(files@[0]),
        files@.len() == 0 ==> (r matches Err(e) && e.is_invalid_input_with(
            "profile background file is required"@,
        )),
{
    let mut files = files;
    if files.len() == 0 {
        return Err(invalid_input("profile background file is required"));
    }
    Ok(files.remove(0))
}

/// The id of the reference just inserted; "profile background file object is
/// not registered" when the object was unknown to the storage.
pub fn registered_reference(inserted: Option<i64>) -> (r: Result<i64, Error>)
    ensures
        match inserted {
            Some(id) => r == Ok::<i64, Error>(id),
            None => r matches Err(e) && e.is_invalid_input_with(
                "profile background file object is not registered"@,
            ),
        },
{
    match inserted {
        Some(id) => Ok(id),
        None => Err(invalid_input("profile background file object is not registered")),
    }
}

/// Replacing a background releases the previous stored object only when it
/// is another object: a different backend or a different key.
pub fn previous_object_released(
    previous_backend: &str,
    previous_key: &str,
    new_backend: &str,
    new_key: &str,
) -> (r: bool)
    ensures
        r == (previous_backend@ != new_backend@ || previous_key@ != new_key@),
{
    !same_text(previous_backend, new_backend) || !same_text(previous_key, new_key)
}

} // verus!
