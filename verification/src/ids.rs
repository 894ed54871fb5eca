//! Identifiers of accounts, rooms and media, and the plain numbers time is
//! carried in.

use vstd::prelude::*;

verus! {

/// An account id.
#[derive(Debug, Clone, Copy, PartialEq, Eq, Hash, Structural)]
pub struct UserId(pub i64);

impl UserId {
    /// The id as stored.
    pub fn as_i64(&self) -> (r: i64)
        ensures
            r == self.0,
    {
        self.0
    }
}

/// A room id.
#[derive(Debug, Clone, Copy, PartialEq, Eq, Hash, Structural)]
pub struct RoomId(pub i64);

/// A media id.
#[derive(Debug, Clone, Copy, PartialEq, Eq, Hash, Structural)]
pub struct MediaId(pub i64);

/// An instant, in whole seconds since 1970-01-01T00:00:00Z.
pub type UnixSeconds = i64;

/// A calendar day, counted in days since 1970-01-01 (negative before it).
pub type EpochDay = i64;

} // verus!
