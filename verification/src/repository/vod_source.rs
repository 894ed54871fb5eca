//! Reading a stored source back. The header bag lives in a JSON column; the
//! storage layer hands over its members, each value kept where it was a
//! string, and the row's format as the word that was written.

use vstd::prelude::*;

use crate::error::Error;
use crate::ids::UnixSeconds;
use crate::models::vod_source::{VodSource, VodSourceFormat};
use crate::text::enum_word;

verus! {

/// A stored row before its format word and header bag are read.
#[derive(Debug, Clone)]
pub struct VodSourceRow {
    pub id: i64,
    pub name: String,
    pub format: String,
    pub endpoint: String,
    /// The members of the header column when it holds an object, each with
    /// its value where that value is a string; `None` for any other JSON.
    pub headers: Option<Vec<(String, Option<String>)>>,
    pub enabled: bool,
    pub sort_order: i32,
    pub created_at: UnixSeconds,
    pub updated_at: UnixSeconds,
}

/// The string-valued members, in order.
pub open spec fn string_members(members: Seq<(String, Option<String>)>) -> Seq<(String, String)>
    decreases members.len(),
{
    if members.len() == 0 {
        Seq::empty()
    } else {
        let rest = string_members(members.drop_last());
        match members.last().1 {
            Some(v) => rest.push((members.last().0, v)),
            None => rest,
        }
    }
}

/// The header bag a row reads as: nothing when the column is no object,
/// else its string-valued members. A malformed column came from a hand
/// edit; reading it as empty keeps the source usable.
pub open spec fn stored_headers_spec(headers: Option<Seq<(String, Option<String>)>>) -> Seq<
    (String, String),
> {
    match headers {
        None => Seq::empty(),
        Some(m) => string_members(m),
    }
}

/// The header bag of a stored row (see [`stored_headers_spec`]).
pub fn headers_from_stored(headers: &Option<Vec<(String, Option<String>)>>) -> (r: Vec<
    (String, String),
>)
    ensures
        r@ == stored_headers_spec(
            match headers {
                None => None,
                Some(v) => Some(v@),
            },
        ),
{
    let mut out: Vec<(String, String)> = Vec::new();
    match headers {
        None => {},
        Some(members) => {
            let mut i: usize = 0;
            while i < members.len()
                invariant
                    i <= members@.len(),
                    out@ == string_members(members@.subrange(0, i as int)),
                decreases members@.len() - i,
            {
                let ghost prefix = members@.subrange(0, i as int + 1);
                assert(prefix.drop_last() =~= members@.subrange(0, i as int));
                match &members[i].1 {
                    Some(v) => {
                        out.push((members[i].0.clone(), v.clone()));
                    },
                    None => {},
                }
                i = i + 1;
            }
            assert(members@.subrange(0, members@.len() as int) =~= members@);
        },
    }
    out
}

/// A stored row as a source. A format word nothing reads is refused with the
/// parser's sentence as invalid input.
pub fn source_from_row(row: VodSourceRow) -> (r: Result<VodSource, Error>)
    ensures
        match VodSourceFormat::from_word(enum_word(row.format@)) {
            Some(f) => r matches Ok(s) && {
                &&& s.id == row.id
                &&& s.name == row.name
                &&& s.format == f
                &&& s.endpoint == row.endpoint
                &&& s.headers@ == stored_headers_spec(
                    match row.headers {
                        None => None,
                        Some(v) => Some(v@),
                    },
                )
                &&& s.enabled == row.enabled
                &&& s.sort_order == row.sort_order
                &&& s.created_at == row.created_at
                &&& s.updated_at == row.updated_at
            },
            None => r matches Err(e) && e.is_invalid_input_with(
                "unknown vod source format: "@ + enum_word(row.format@),
            ),
        },
{
    let format = match VodSourceFormat::parse(row.format.as_str()) {
        Ok(f) => f,
        Err(m) => {
            return Err(Error::InvalidInput(m));
        },
    };
    let headers = headers_from_stored(&row.headers);
    Ok(
        VodSource {
            id: row.id,
            name: row.name,
            format,
            endpoint: row.endpoint,
            headers,
            enabled: row.enabled,
            sort_order: row.sort_order,
            created_at: row.created_at,
            updated_at: row.updated_at,
        },
    )
}

} // verus!
