//! 观看历史 and the media half of 我的收藏: the shape of a client-supplied
//! entry. `source_key` is the row's identity and must be a real string, and
//! the denormalised text has to fit its column.

use vstd::prelude::*;

use crate::error::{first_refusal, refused_with, Error};
use crate::models::watch_history::{
    NewMediaFavorite, WATCH_ENTRY_COVER_URL_MAX_CHARS, WATCH_ENTRY_SOURCE_KEY_MAX_CHARS,
    WATCH_ENTRY_TITLE_MAX_CHARS,
};
use crate::text::{
    at_most_message, at_most_refusal, at_most_sentence, trim_spec, trim_to_string, trimmed_within,
};

verus! {

/// The identity of the thing watched. Blank is refused ("source_key is
/// required") because the unique index treats it as a real key; longer than
/// its column is refused too.
pub fn validate_entry_source_key(source_key: &str) -> (r: Result<String, Error>)
    ensures
        r is Ok <==> 0 < trim_spec(source_key@).len() <= WATCH_ENTRY_SOURCE_KEY_MAX_CHARS,
        r matches Ok(s) ==> s@ == trim_spec(source_key@),
        r matches Err(e) ==> e matches Error::InvalidInput(m) && (if trim_spec(
            source_key@,
        ).len() == 0 {
            m@ == "source_key is required"@
        } else {
            m@ == at_most_message("source_key"@, WATCH_ENTRY_SOURCE_KEY_MAX_CHARS as nat)
        }),
{
    let trimmed = trim_to_string(source_key);
    let n = trimmed.as_str().unicode_len();
    if n == 0 {
        return Err(Error::InvalidInput(String::from_str("source_key is required")));
    }
    if n > WATCH_ENTRY_SOURCE_KEY_MAX_CHARS {
        return Err(
            Error::InvalidInput(at_most_sentence("source_key", WATCH_ENTRY_SOURCE_KEY_MAX_CHARS)),
        );
    }
    Ok(trimmed)
}

/// A denormalised title: trimmed, at most its column's width.
pub fn validate_entry_title(title: &str) -> (r: Result<String, Error>)
    ensures
        r is Ok <==> trim_spec(title@).len() <= WATCH_ENTRY_TITLE_MAX_CHARS,
        r matches Ok(s) ==> s@ == trim_spec(title@),
        r matches Err(e) ==> e matches Error::InvalidInput(m) && m@ == at_most_message(
            "title"@,
            WATCH_ENTRY_TITLE_MAX_CHARS as nat,
        ),
{
    trimmed_within(title, WATCH_ENTRY_TITLE_MAX_CHARS, "title")
}

/// A denormalised cover address: trimmed, at most its column's width.
pub fn validate_entry_cover_url(cover_url: &str) -> (r: Result<String, Error>)
    ensures
        r is Ok <==> trim_spec(cover_url@).len() <= WATCH_ENTRY_COVER_URL_MAX_CHARS,
        r matches Ok(s) ==> s@ == trim_spec(cover_url@),
        r matches Err(e) ==> e matches Error::InvalidInput(m) && m@ == at_most_message(
            "cover_url"@,
            WATCH_ENTRY_COVER_URL_MAX_CHARS as nat,
        ),
{
    trimmed_within(cover_url, WATCH_ENTRY_COVER_URL_MAX_CHARS, "cover_url")
}

/// The sentence refusing a source key: "source_key is required" when it
/// trims to nothing, the length sentence when it is too long.
pub open spec fn source_key_refusal(source_key: Seq<char>) -> Option<Seq<char>> {
    if trim_spec(source_key).len() == 0 {
        Some("source_key is required"@)
    } else if trim_spec(source_key).len() > WATCH_ENTRY_SOURCE_KEY_MAX_CHARS {
        Some(at_most_message("source_key"@, WATCH_ENTRY_SOURCE_KEY_MAX_CHARS as nat))
    } else {
        None
    }
}

/// The first refusal among an entry's texts, checked title, cover, key.
pub open spec fn entry_refusal(title: Seq<char>, cover_url: Seq<char>, source_key: Seq<char>) -> Option<
    Seq<char>,
> {
    first_refusal(
        at_most_refusal(title, WATCH_ENTRY_TITLE_MAX_CHARS as nat, "title"@),
        first_refusal(
            at_most_refusal(cover_url, WATCH_ENTRY_COVER_URL_MAX_CHARS as nat, "cover_url"@),
            source_key_refusal(source_key),
        ),
    )
}

/// The refusal of the first key of a batch that is refused, if any.
pub open spec fn first_key_refusal(source_keys: Seq<String>) -> Option<Seq<char>>
    decreases source_keys.len(),
{
    if source_keys.len() == 0 {
        None
    } else {
        first_refusal(source_key_refusal(source_keys[0]@), first_key_refusal(source_keys.drop_first()))
    }
}

/// The three texts of an entry all fit: title, cover, and a present key.
pub open spec fn entry_texts_fit(title: Seq<char>, cover_url: Seq<char>, source_key: Seq<char>) -> bool {
    &&& trim_spec(title).len() <= WATCH_ENTRY_TITLE_MAX_CHARS
    &&& trim_spec(cover_url).len() <= WATCH_ENTRY_COVER_URL_MAX_CHARS
    &&& 0 < trim_spec(source_key).len() <= WATCH_ENTRY_SOURCE_KEY_MAX_CHARS
}

/// A star as it will be stored: each text checked in the order title, cover,
/// key, and the ids passed through.
pub fn normalize_media_favorite(favorite: &NewMediaFavorite) -> (r: Result<
    NewMediaFavorite,
    Error,
>)
    ensures
        r is Ok <==> entry_texts_fit(
            favorite.title@,
            favorite.cover_url@,
            favorite.source_key@,
        ),
        r matches Ok(f) ==> {
            &&& f.room_id == favorite.room_id
            &&& f.media_id == favorite.media_id
            &&& f.title@ == trim_spec(favorite.title@)
            &&& f.cover_url@ == trim_spec(favorite.cover_url@)
            &&& f.source_key@ == trim_spec(favorite.source_key@)
        },
        refused_with(r, entry_refusal(favorite.title@, favorite.cover_url@, favorite.source_key@)),
{
    let title = validate_entry_title(favorite.title.as_str())?;
    let cover_url = validate_entry_cover_url(favorite.cover_url.as_str())?;
    let source_key = validate_entry_source_key(favorite.source_key.as_str())?;
    Ok(NewMediaFavorite {
        room_id: favorite.room_id,
        media_id: favorite.media_id,
        title,
        cover_url,
        source_key,
    })
}

/// The keys to look up for a batch of cards: every key must be a valid
/// source key; an empty batch needs no lookup at all (`Ok(false)`), a
/// non-empty valid one does (`Ok(true)`).
pub fn check_source_key_batch(source_keys: &Vec<String>) -> (r: Result<bool, Error>)
    ensures
        source_keys@.len() == 0 ==> r == Ok::<bool, Error>(false),
        source_keys@.len() > 0 ==> (r is Ok <==> forall|i: int|
            0 <= i < source_keys@.len() ==> 0 < trim_spec(#[trigger] source_keys@[i]@).len()
                <= WATCH_ENTRY_SOURCE_KEY_MAX_CHARS),
        r matches Ok(b) ==> b == (source_keys@.len() > 0),
        source_keys@.len() > 0 ==> refused_with(r, first_key_refusal(source_keys@)),
{
    if source_keys.len() == 0 {
        return Ok(false);
    }
    assert(source_keys@.skip(0) =~= source_keys@);
    let mut i: usize = 0;
    while i < source_keys.len()
        invariant
            i <= source_keys@.len(),
            forall|t: int|
                0 <= t < i ==> 0 < trim_spec(#[trigger] source_keys@[t]@).len()
                    <= WATCH_ENTRY_SOURCE_KEY_MAX_CHARS,
            first_key_refusal(source_keys@) == first_key_refusal(source_keys@.skip(i as int)),
        decreases source_keys@.len() - i,
    {
        assert(source_keys@.skip(i as int).drop_first() =~= source_keys@.skip(i + 1));
        assert(source_keys@.skip(i as int)[0] == source_keys@[i as int]);
        validate_entry_source_key(source_keys[i].as_str())?;
        i = i + 1;
    }
    assert(source_keys@.skip(i as int).len() == 0);
    Ok(true)
}

} // verus!
