//! The error a rule reports, by kind, with the sentence shown to the caller.

use vstd::prelude::*;

verus! {

/// What went wrong, and the sentence that says so.
#[derive(Debug, Clone, PartialEq, Eq)]
pub enum Error {
    /// The caller sent something that can never be accepted as it is.
    InvalidInput(String),
    /// The thing asked for does not exist, or is not visible to the caller.
    NotFound(String),
    /// The request is well formed but collides with the current state.
    Conflict(String),
    /// The caller may not do this.
    Authorization(String),
    /// A uniqueness rule refused a new entry.
    AlreadyExists(String),
    /// Stored state contradicts an invariant the rules rely on.
    Internal(String),
}

impl Error {
    /// The sentence carried by the error, whatever its kind.
    pub open spec fn message_view(&self) -> Seq<char> {
        match self {
            Error::InvalidInput(m) => m@,
            Error::NotFound(m) => m@,
            Error::Conflict(m) => m@,
            Error::Authorization(m) => m@,
            Error::AlreadyExists(m) => m@,
            Error::Internal(m) => m@,
        }
    }

    /// An input error saying `m`.
    pub open spec fn is_invalid_input_with(self, m: Seq<char>) -> bool {
        self matches Error::InvalidInput(s) && s@ == m
    }

    /// A not-found error saying `m`.
    pub open spec fn is_not_found_with(self, m: Seq<char>) -> bool {
        self matches Error::NotFound(s) && s@ == m
    }

    /// A conflict error saying `m`.
    pub open spec fn is_conflict_with(self, m: Seq<char>) -> bool {
        self matches Error::Conflict(s) && s@ == m
    }

    /// An authorization error saying `m`.
    pub open spec fn is_authorization_with(self, m: Seq<char>) -> bool {
        self matches Error::Authorization(s) && s@ == m
    }

    /// An already-exists error saying `m`.
    pub open spec fn is_already_exists_with(self, m: Seq<char>) -> bool {
        self matches Error::AlreadyExists(s) && s@ == m
    }

    /// An internal error saying `m`.
    pub open spec fn is_internal_with(self, m: Seq<char>) -> bool {
        self matches Error::Internal(s) && s@ == m
    }

    /// A copy of the sentence, for rendering.
    pub fn message(&self) -> (r: String)
        ensures
            r@ == self.message_view(),
    {
        match self {
            Error::InvalidInput(m) => m.clone(),
            Error::NotFound(m) => m.clone(),
            Error::Conflict(m) => m.clone(),
            Error::Authorization(m) => m.clone(),
            Error::AlreadyExists(m) => m.clone(),
            Error::Internal(m) => m.clone(),
        }
    }
}

/// The first refusal of a list of checks made in order: `first` when it
/// refused, else `then`.
pub open spec fn first_refusal(first: Option<Seq<char>>, then: Option<Seq<char>>) -> Option<
    Seq<char>,
> {
    if first is Some {
        first
    } else {
        then
    }
}

/// A result that succeeds exactly when nothing refused it, and otherwise
/// fails as invalid input with the refusing sentence.
pub open spec fn refused_with<T>(r: Result<T, Error>, refusal: Option<Seq<char>>) -> bool {
    match refusal {
        None => r is Ok,
        Some(m) => r matches Err(e) && e.is_invalid_input_with(m),
    }
}

/// An input error carrying `message`.
pub fn invalid_input(message: &str) -> (e: Error)
    ensures
        e.is_invalid_input_with(message@),
{
    Error::InvalidInput(String::from_str(message))
}

/// A not-found error carrying `message`.
pub fn not_found(message: &str) -> (e: Error)
    ensures
        e.is_not_found_with(message@),
{
    Error::NotFound(String::from_str(message))
}

/// A conflict error carrying `message`.
pub fn conflict(message: &str) -> (e: Error)
    ensures
        e.is_conflict_with(message@),
{
    Error::Conflict(String::from_str(message))
}

/// An authorization error carrying `message`.
pub fn unauthorized(message: &str) -> (e: Error)
    ensures
        e.is_authorization_with(message@),
{
    Error::Authorization(String::from_str(message))
}

/// An internal error carrying `message`.
pub fn internal(message: &str) -> (e: Error)
    ensures
        e.is_internal_with(message@),
{
    Error::Internal(String::from_str(message))
}

} // verus!
