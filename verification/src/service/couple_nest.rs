//! 爱的小窝: the rules on top of the nest's storage — field bounds, which
//! space a referenced album, memory or photo belongs to, and what the home
//! screen picks out of the rows it reads.

use vstd::prelude::*;

use crate::calendar::CivilDate;
use crate::ids::UserId;
use crate::models::couple::CoupleSpace;
use crate::service::couple::is_member;
use crate::error::{first_refusal, invalid_input, not_found, refused_with, Error};
use crate::models::couple_nest::{
    next_occurrence_spec, CoupleAiKind, CoupleAnniversary, CoupleAnniversaryUpdate,
    CoupleMemoryUpdate, CouplePetUpdate, CoupleTodo, CoupleTodoUpdate,
    NewCoupleAiWork, NewCoupleAnniversary, NewCoupleMedia, NewCoupleMemory, NewCoupleTodo,
};
use crate::text::{
    is_required_message, may_not_exceed_message, required_not_exceeding, required_refusal,
    too_long_refusal, trim_spec, trimmed_not_exceeding, when_present,
};

verus! {

// Bounds, all matching the column widths so an over-long value is refused
// with a sentence rather than as a storage error.
pub const MEMORY_TITLE_MAX: usize = 120;
pub const MEMORY_CONTENT_MAX: usize = 8000;
pub const LOCATION_MAX: usize = 200;
pub const ALBUM_NAME_MAX: usize = 80;
pub const CAPTION_MAX: usize = 200;
pub const ANNIVERSARY_TITLE_MAX: usize = 80;
pub const NOTE_MAX: usize = 200;
pub const TODO_TITLE_MAX: usize = 120;
pub const TODO_NOTE_MAX: usize = 300;
pub const TODO_CATEGORY_MAX: usize = 40;
pub const PET_NAME_MAX: usize = 40;
pub const AI_TITLE_MAX: usize = 120;
pub const AI_CONTENT_MAX: usize = 20000;

/// Home shows a strip, not the whole library.
pub const HOME_MEDIA_LIMIT: i64 = 10;
pub const HOME_TODO_LIMIT: i64 = 5;

/// `value` trimmed and at most `max` characters; "<what> may not exceed <max>
/// characters" otherwise.
pub fn trimmed(value: &str, max: usize, what: &str) -> (r: Result<String, Error>)
    ensures
        r is Ok <==> trim_spec(value@).len() <= max,
        r matches Ok(s) ==> s@ == trim_spec(value@),
        r matches Err(e) ==> e matches Error::InvalidInput(m) && m@ == may_not_exceed_message(
            what@,
            max as nat,
        ),
{
    trimmed_not_exceeding(value, max, what)
}

/// Like [`trimmed`], and refusing an empty value with "<what> is required".
pub fn required(value: &str, max: usize, what: &str) -> (r: Result<String, Error>)
    ensures
        r is Ok <==> 0 < trim_spec(value@).len() <= max,
        r matches Ok(s) ==> s@ == trim_spec(value@),
        r matches Err(e) ==> e matches Error::InvalidInput(m) && (if trim_spec(value@).len()
            > max {
            m@ == may_not_exceed_message(what@, max as nat)
        } else {
            m@ == is_required_message(what@)
        }),
{
    required_not_exceeding(value, max, what)
}

/// Applies [`trimmed`] to a field that may be absent.
pub fn trimmed_opt(value: Option<String>, max: usize, what: &str) -> (r: Result<
    Option<String>,
    Error,
>)
    ensures
        r is Ok <==> (value matches Some(v) ==> trim_spec(v@).len() <= max),
        r matches Ok(o) ==> (o is Some <==> value is Some) && (o matches Some(s) ==> s@
            == trim_spec(value->0@)),
        r matches Err(e) ==> e matches Error::InvalidInput(m) && m@ == may_not_exceed_message(
            what@,
            max as nat,
        ),
{
    match value {
        Some(v) => {
            let t = trimmed(v.as_str(), max, what)?;
            Ok(Some(t))
        },
        None => Ok(None),
    }
}

/// Applies [`required`] to a field that may be absent.
pub fn required_opt(value: Option<String>, max: usize, what: &str) -> (r: Result<
    Option<String>,
    Error,
>)
    ensures
        r is Ok <==> (value matches Some(v) ==> 0 < trim_spec(v@).len() <= max),
        r matches Ok(o) ==> (o is Some <==> value is Some) && (o matches Some(s) ==> s@
            == trim_spec(value->0@)),
        refused_with(r, when_present(value, |v: Seq<char>| required_refusal(v, max as nat, what@))),
{
    match value {
        Some(v) => {
            let t = required(v.as_str(), max, what)?;
            Ok(Some(t))
        },
        None => Ok(None),
    }
}

pub fn memory_not_found() -> (e: Error)
    ensures
        e == Error::NotFound(e->NotFound_0) && e->NotFound_0@ == "Memory not found"@,
{
    not_found("Memory not found")
}

pub fn album_not_found() -> (e: Error)
    ensures
        e == Error::NotFound(e->NotFound_0) && e->NotFound_0@ == "Album not found"@,
{
    not_found("Album not found")
}

pub fn media_not_found() -> (e: Error)
    ensures
        e == Error::NotFound(e->NotFound_0) && e->NotFound_0@ == "Media not found"@,
{
    not_found("Media not found")
}

pub fn anniversary_not_found() -> (e: Error)
    ensures
        e == Error::NotFound(e->NotFound_0) && e->NotFound_0@ == "Anniversary not found"@,
{
    not_found("Anniversary not found")
}

pub fn todo_not_found() -> (e: Error)
    ensures
        e == Error::NotFound(e->NotFound_0) && e->NotFound_0@ == "List item not found"@,
{
    not_found("List item not found")
}

pub fn pet_not_found() -> (e: Error)
    ensures
        e == Error::NotFound(e->NotFound_0) && e->NotFound_0@
            == "No pet has been adopted yet"@,
{
    not_found("No pet has been adopted yet")
}

pub fn ai_work_not_found() -> (e: Error)
    ensures
        e == Error::NotFound(e->NotFound_0) && e->NotFound_0@ == "Saved piece not found"@,
{
    not_found("Saved piece not found")
}

// ------------------------------------------------------------- 时光轴 ------

/// A timeline entry as it will be stored: each text trimmed and within its
/// bound, and at least one of title and content present.
pub fn new_couple_memory(happened_on: CivilDate, title: &str, content: &str, location: &str) -> (r:
    Result<NewCoupleMemory, Error>)
    ensures
        r is Ok <==> {
            &&& trim_spec(title@).len() <= MEMORY_TITLE_MAX
            &&& trim_spec(content@).len() <= MEMORY_CONTENT_MAX
            &&& trim_spec(location@).len() <= LOCATION_MAX
            &&& (trim_spec(title@).len() > 0 || trim_spec(content@).len() > 0)
        },
        r matches Ok(m) ==> {
            &&& m.happened_on == happened_on
            &&& m.title@ == trim_spec(title@)
            &&& m.content@ == trim_spec(content@)
            &&& m.location@ == trim_spec(location@)
        },
        refused_with(r, first_refusal(too_long_refusal(title@, MEMORY_TITLE_MAX as nat, "Title"@), first_refusal(too_long_refusal(content@, MEMORY_CONTENT_MAX as nat, "Content"@), first_refusal(too_long_refusal(location@, LOCATION_MAX as nat, "Location"@), (if trim_spec(title@).len() == 0 && trim_spec(content@).len() == 0 { Some("A memory needs a title or something written in it"@) } else { None }))))),
{
    let title = trimmed(title, MEMORY_TITLE_MAX, "Title")?;
    let content = trimmed(content, MEMORY_CONTENT_MAX, "Content")?;
    let location = trimmed(location, LOCATION_MAX, "Location")?;
    if title.as_str().unicode_len() == 0 && content.as_str().unicode_len() == 0 {
        return Err(invalid_input("A memory needs a title or something written in it"));
    }
    Ok(NewCoupleMemory { happened_on, title, content, location })
}

/// An edit with each present text trimmed and within its bound; the date is
/// passed through.
pub fn normalize_memory_update(update: CoupleMemoryUpdate) -> (r: Result<
    CoupleMemoryUpdate,
    Error,
>)
    ensures
        r is Ok <==> {
            &&& (update.title matches Some(t) ==> trim_spec(t@).len() <= MEMORY_TITLE_MAX)
            &&& (update.content matches Some(c) ==> trim_spec(c@).len() <= MEMORY_CONTENT_MAX)
            &&& (update.location matches Some(l) ==> trim_spec(l@).len() <= LOCATION_MAX)
        },
        r matches Ok(u) ==> {
            &&& u.happened_on == update.happened_on
            &&& (u.title is Some <==> update.title is Some)
            &&& (u.title matches Some(t) ==> t@ == trim_spec(update.title->0@))
            &&& (u.content is Some <==> update.content is Some)
            &&& (u.content matches Some(c) ==> c@ == trim_spec(update.content->0@))
            &&& (u.location is Some <==> update.location is Some)
            &&& (u.location matches Some(l) ==> l@ == trim_spec(update.location->0@))
        },
        refused_with(r, first_refusal(when_present(update.title, |v: Seq<char>| too_long_refusal(v, MEMORY_TITLE_MAX as nat, "Title"@)), first_refusal(when_present(update.content, |v: Seq<char>| too_long_refusal(v, MEMORY_CONTENT_MAX as nat, "Content"@)), when_present(update.location, |v: Seq<char>| too_long_refusal(v, LOCATION_MAX as nat, "Location"@))))),
{
    let happened_on = update.happened_on;
    let title = trimmed_opt(update.title, MEMORY_TITLE_MAX, "Title")?;
    let content = trimmed_opt(update.content, MEMORY_CONTENT_MAX, "Content")?;
    let location = trimmed_opt(update.location, LOCATION_MAX, "Location")?;
    Ok(CoupleMemoryUpdate { happened_on, title, content, location })
}

// --------------------------------------------------------- 相册 / 媒体 ------

/// An album name: trimmed, present, at most `ALBUM_NAME_MAX` characters.
pub fn album_name(name: &str) -> (r: Result<String, Error>)
    ensures
        r is Ok <==> 0 < trim_spec(name@).len() <= ALBUM_NAME_MAX,
        r matches Ok(s) ==> s@ == trim_spec(name@),
        refused_with(r, required_refusal(name@, ALBUM_NAME_MAX as nat, "Album name"@)),
{
    required(name, ALBUM_NAME_MAX, "Album name")
}

/// A photo or video to file: its caption trimmed and bounded, and an object
/// key that is not blank.
pub fn normalize_new_media(media: NewCoupleMedia) -> (r: Result<NewCoupleMedia, Error>)
    ensures
        r is Ok <==> trim_spec(media.caption@).len() <= CAPTION_MAX && trim_spec(
            media.object_key@,
        ).len() > 0,
        r matches Ok(m) ==> {
            &&& m.caption@ == trim_spec(media.caption@)
            &&& m.object_key == media.object_key
            &&& m.album_id == media.album_id
            &&& m.memory_id == media.memory_id
            &&& m.kind == media.kind
            &&& m.storage_backend == media.storage_backend
            &&& m.mime_type == media.mime_type
            &&& m.size_bytes == media.size_bytes
            &&& m.width == media.width
            &&& m.height == media.height
            &&& m.taken_on == media.taken_on
        },
        refused_with(r, first_refusal(too_long_refusal(media.caption@, CAPTION_MAX as nat, "Caption"@), (if trim_spec(media.object_key@).len() == 0 { Some("An object key is required"@) } else { None }))),
{
    let caption = trimmed(media.caption.as_str(), CAPTION_MAX, "Caption")?;
    let key = crate::text::trim_to_string(media.object_key.as_str());
    if key.as_str().unicode_len() == 0 {
        return Err(invalid_input("An object key is required"));
    }
    Ok(NewCoupleMedia {
        album_id: media.album_id,
        memory_id: media.memory_id,
        kind: media.kind,
        storage_backend: media.storage_backend,
        object_key: media.object_key,
        mime_type: media.mime_type,
        size_bytes: media.size_bytes,
        width: media.width,
        height: media.height,
        taken_on: media.taken_on,
        caption,
    })
}

/// An album referenced from `space_id`: it must exist and live in that space,
/// else it reads as not found — a wrong id must not file a photo into another
/// couple's album.
pub fn album_in_space(album_space: Option<i64>, space_id: i64) -> (r: Result<(), Error>)
    ensures
        r is Ok <==> album_space == Some(space_id),
        r matches Err(e) ==> e.is_not_found_with("Album not found"@),
{
    match album_space {
        Some(owner) => if owner == space_id {
            Ok(())
        } else {
            Err(album_not_found())
        },
        None => Err(album_not_found()),
    }
}

/// A memory referenced from `space_id`: it must exist and live in that space.
pub fn memory_in_space(memory_space: Option<i64>, space_id: i64) -> (r: Result<(), Error>)
    ensures
        r is Ok <==> memory_space == Some(space_id),
        r matches Err(e) ==> e.is_not_found_with("Memory not found"@),
{
    match memory_space {
        Some(owner) => if owner == space_id {
            Ok(())
        } else {
            Err(memory_not_found())
        },
        None => Err(memory_not_found()),
    }
}

/// A photo referenced from `space_id` (as its cover): it must exist and live
/// in that space.
pub fn media_in_space(media_space: Option<i64>, space_id: i64) -> (r: Result<(), Error>)
    ensures
        r is Ok <==> media_space == Some(space_id),
        r matches Err(e) ==> e.is_not_found_with("Media not found"@),
{
    match media_space {
        Some(owner) => if owner == space_id {
            Ok(())
        } else {
            Err(media_not_found())
        },
        None => Err(media_not_found()),
    }
}

/// The space an entry (a memory, album, date, list item or piece) lives in,
/// for a caller who must belong to it. Membership decides visibility, so a
/// caller outside the space is told the entry does not exist (`missing`)
/// rather than that it is not theirs.
pub fn item_space_member(space: Option<CoupleSpace>, viewer: UserId, missing: Error) -> (r: Result<
    CoupleSpace,
    Error,
>)
    ensures
        r is Ok <==> (space matches Some(s) && is_member(s, viewer)),
        r matches Ok(s) ==> space == Some(s),
        r matches Err(e) ==> e == missing,
{
    match space {
        Some(s) => if s.initiator_user_id == viewer || s.partner_user_id == viewer {
            Ok(s)
        } else {
            Err(missing)
        },
        None => Err(missing),
    }
}

// ------------------------------------------------------------- 纪念日 ------

/// A date to count down to: a present title, a trimmed note, both bounded.
pub fn new_couple_anniversary(
    title: &str,
    happens_on: CivilDate,
    repeat_yearly: bool,
    note: &str,
) -> (r: Result<NewCoupleAnniversary, Error>)
    ensures
        r is Ok <==> 0 < trim_spec(title@).len() <= ANNIVERSARY_TITLE_MAX && trim_spec(
            note@,
        ).len() <= NOTE_MAX,
        r matches Ok(a) ==> {
            &&& a.title@ == trim_spec(title@)
            &&& a.note@ == trim_spec(note@)
            &&& a.happens_on == happens_on
            &&& a.repeat_yearly == repeat_yearly
        },
        refused_with(r, first_refusal(required_refusal(title@, ANNIVERSARY_TITLE_MAX as nat, "Title"@), too_long_refusal(note@, NOTE_MAX as nat, "Note"@))),
{
    let title = required(title, ANNIVERSARY_TITLE_MAX, "Title")?;
    let note = trimmed(note, NOTE_MAX, "Note")?;
    Ok(NewCoupleAnniversary { title, happens_on, repeat_yearly, note })
}

/// An anniversary edit with a present title kept present and a note trimmed.
pub fn normalize_anniversary_update(update: CoupleAnniversaryUpdate) -> (r: Result<
    CoupleAnniversaryUpdate,
    Error,
>)
    ensures
        r is Ok <==> {
            &&& (update.title matches Some(t) ==> 0 < trim_spec(t@).len()
                <= ANNIVERSARY_TITLE_MAX)
            &&& (update.note matches Some(n) ==> trim_spec(n@).len() <= NOTE_MAX)
        },
        r matches Ok(u) ==> {
            &&& u.happens_on == update.happens_on
            &&& u.repeat_yearly == update.repeat_yearly
            &&& (u.title is Some <==> update.title is Some)
            &&& (u.title matches Some(t) ==> t@ == trim_spec(update.title->0@))
            &&& (u.note is Some <==> update.note is Some)
            &&& (u.note matches Some(n) ==> n@ == trim_spec(update.note->0@))
        },
        refused_with(r, first_refusal(when_present(update.title, |v: Seq<char>| required_refusal(v, ANNIVERSARY_TITLE_MAX as nat, "Title"@)), when_present(update.note, |v: Seq<char>| too_long_refusal(v, NOTE_MAX as nat, "Note"@)))),
{
    let happens_on = update.happens_on;
    let repeat_yearly = update.repeat_yearly;
    let title = required_opt(update.title, ANNIVERSARY_TITLE_MAX, "Title")?;
    let note = trimmed_opt(update.note, NOTE_MAX, "Note")?;
    Ok(CoupleAnniversaryUpdate { title, happens_on, repeat_yearly, note })
}

// --------------------------------------------------------------- 清单 ------

/// Priorities are 0 (low) to 2 (high); anything else is pulled into range.
pub open spec fn clamp_priority_spec(priority: i16) -> i16 {
    if priority < 0 {
        0
    } else if priority > 2 {
        2
    } else {
        priority
    }
}

pub fn clamp_priority(priority: i16) -> (r: i16)
    ensures
        r == clamp_priority_spec(priority),
{
    if priority < 0 {
        0
    } else if priority > 2 {
        2
    } else {
        priority
    }
}

/// A list item as it will be stored.
pub fn new_couple_todo(
    title: &str,
    note: &str,
    category: &str,
    priority: i16,
    plan_date: Option<CivilDate>,
) -> (r: Result<NewCoupleTodo, Error>)
    ensures
        r is Ok <==> {
            &&& 0 < trim_spec(title@).len() <= TODO_TITLE_MAX
            &&& trim_spec(note@).len() <= TODO_NOTE_MAX
            &&& trim_spec(category@).len() <= TODO_CATEGORY_MAX
        },
        r matches Ok(t) ==> {
            &&& t.title@ == trim_spec(title@)
            &&& t.note@ == trim_spec(note@)
            &&& t.category@ == trim_spec(category@)
            &&& t.priority == clamp_priority_spec(priority)
            &&& t.plan_date == plan_date
        },
        refused_with(r, first_refusal(required_refusal(title@, TODO_TITLE_MAX as nat, "Title"@), first_refusal(too_long_refusal(note@, TODO_NOTE_MAX as nat, "Note"@), too_long_refusal(category@, TODO_CATEGORY_MAX as nat, "Category"@)))),
{
    let title = required(title, TODO_TITLE_MAX, "Title")?;
    let note = trimmed(note, TODO_NOTE_MAX, "Note")?;
    let category = trimmed(category, TODO_CATEGORY_MAX, "Category")?;
    Ok(NewCoupleTodo { title, note, category, priority: clamp_priority(priority), plan_date })
}

/// A list-item edit: texts trimmed and bounded, the priority pulled into
/// range, the date and tick passed through.
pub fn normalize_todo_update(update: CoupleTodoUpdate) -> (r: Result<CoupleTodoUpdate, Error>)
    ensures
        r is Ok <==> {
            &&& (update.title matches Some(t) ==> 0 < trim_spec(t@).len() <= TODO_TITLE_MAX)
            &&& (update.note matches Some(n) ==> trim_spec(n@).len() <= TODO_NOTE_MAX)
            &&& (update.category matches Some(c) ==> trim_spec(c@).len() <= TODO_CATEGORY_MAX)
        },
        r matches Ok(u) ==> {
            &&& (u.title is Some <==> update.title is Some)
            &&& (u.title matches Some(t) ==> t@ == trim_spec(update.title->0@))
            &&& (u.note is Some <==> update.note is Some)
            &&& (u.note matches Some(n) ==> n@ == trim_spec(update.note->0@))
            &&& (u.category is Some <==> update.category is Some)
            &&& (u.category matches Some(c) ==> c@ == trim_spec(update.category->0@))
            &&& (u.priority is Some <==> update.priority is Some)
            &&& (u.priority matches Some(p) ==> p == clamp_priority_spec(update.priority->0))
            &&& u.plan_date == update.plan_date
            &&& u.done == update.done
        },
        refused_with(r, first_refusal(when_present(update.title, |v: Seq<char>| required_refusal(v, TODO_TITLE_MAX as nat, "Title"@)), first_refusal(when_present(update.note, |v: Seq<char>| too_long_refusal(v, TODO_NOTE_MAX as nat, "Note"@)), when_present(update.category, |v: Seq<char>| too_long_refusal(v, TODO_CATEGORY_MAX as nat, "Category"@))))),
{
    let plan_date = update.plan_date;
    let done = update.done;
    let priority = match update.priority {
        Some(p) => Some(clamp_priority(p)),
        None => None,
    };
    let title = required_opt(update.title, TODO_TITLE_MAX, "Title")?;
    let note = trimmed_opt(update.note, TODO_NOTE_MAX, "Note")?;
    let category = trimmed_opt(update.category, TODO_CATEGORY_MAX, "Category")?;
    Ok(CoupleTodoUpdate { title, note, category, priority, plan_date, done })
}

// ------------------------------------------------------------ 宠物小屋 ------

/// Species are 1 to 4; anything else is pulled into range.
pub open spec fn clamp_species_spec(species: i16) -> i16 {
    if species < 1 {
        1
    } else if species > 4 {
        4
    } else {
        species
    }
}

pub fn clamp_species(species: i16) -> (r: i16)
    ensures
        r == clamp_species_spec(species),
{
    if species < 1 {
        1
    } else if species > 4 {
        4
    } else {
        species
    }
}

/// Name and species for an adoption: the name trimmed and bounded, the
/// species pulled into range.
pub fn adoption(name: &str, species: i16) -> (r: Result<(String, i16), Error>)
    ensures
        r is Ok <==> trim_spec(name@).len() <= PET_NAME_MAX,
        r matches Ok(a) ==> a.0@ == trim_spec(name@) && a.1 == clamp_species_spec(species),
        refused_with(r, too_long_refusal(name@, PET_NAME_MAX as nat, "Pet name"@)),
{
    let name = trimmed(name, PET_NAME_MAX, "Pet name")?;
    Ok((name, clamp_species(species)))
}

/// A pet edit: the name trimmed and bounded, the species pulled into range,
/// skin and accessory passed through.
pub fn normalize_pet_update(update: CouplePetUpdate) -> (r: Result<CouplePetUpdate, Error>)
    ensures
        r is Ok <==> (update.name matches Some(n) ==> trim_spec(n@).len() <= PET_NAME_MAX),
        r matches Ok(u) ==> {
            &&& (u.name is Some <==> update.name is Some)
            &&& (u.name matches Some(n) ==> n@ == trim_spec(update.name->0@))
            &&& (u.species is Some <==> update.species is Some)
            &&& (u.species matches Some(s) ==> s == clamp_species_spec(update.species->0))
            &&& u.skin == update.skin
            &&& u.accessory == update.accessory
        },
        refused_with(r, when_present(update.name, |v: Seq<char>| too_long_refusal(v, PET_NAME_MAX as nat, "Pet name"@))),
{
    let skin = update.skin;
    let accessory = update.accessory;
    let species = match update.species {
        Some(s) => Some(clamp_species(s)),
        None => None,
    };
    let name = trimmed_opt(update.name, PET_NAME_MAX, "Pet name")?;
    Ok(CouplePetUpdate { name, species, skin, accessory })
}

/// The pet read back after a write of this request; gone means it was
/// removed in between: "the pet vanished <moment>" (after adoption,
/// mid-interaction, mid-update).
pub fn pet_still_there<T>(found: Option<T>, moment: &str) -> (r: Result<T, Error>)
    ensures
        match found {
            Some(p) => r == Ok::<T, Error>(p),
            None => r matches Err(e) && e.is_internal_with("the pet vanished "@ + moment@),
        },
{
    match found {
        Some(p) => Ok(p),
        None => {
            let mut m = String::from_str("the pet vanished ");
            m.append(moment);
            Err(Error::Internal(m))
        },
    }
}

// ------------------------------------------------------------- 心动 AI ------

/// `serde_json::Value::is_object`; nothing beyond the boolean it returns is
/// stated.
#[verifier::external_body]
fn json_is_object(value: &serde_json::Value) -> bool {
    value.is_object()
}

/// `serde_json::Map::new` wrapped as a JSON value: an empty object. Nothing
/// is stated of the value.
#[verifier::external_body]
fn empty_json_object() -> serde_json::Value {
    serde_json::Value::Object(serde_json::Map::new())
}

/// The prompt to keep with a piece: the one given when it is an object;
/// `None` when it is not, which the caller stores as an empty object.
pub fn keep_prompt(prompt: serde_json::Value, is_object: bool) -> (r: Option<serde_json::Value>)
    ensures
        is_object ==> r == Some(prompt),
        !is_object ==> r is None,
{
    if is_object {
        Some(prompt)
    } else {
        None
    }
}

/// A piece to store: the title trimmed and bounded, the content present and
/// bounded, and a prompt that is not an object replaced by an empty one.
pub fn new_couple_ai_work(
    kind: CoupleAiKind,
    title: &str,
    prompt: serde_json::Value,
    content: &str,
) -> (r: Result<NewCoupleAiWork, Error>)
    ensures
        r is Ok <==> trim_spec(title@).len() <= AI_TITLE_MAX && 0 < trim_spec(content@).len()
            <= AI_CONTENT_MAX,
        r matches Ok(w) ==> {
            &&& w.kind == kind
            &&& w.title@ == trim_spec(title@)
            &&& w.content@ == trim_spec(content@)
        },
        refused_with(r, first_refusal(too_long_refusal(title@, AI_TITLE_MAX as nat, "Title"@), required_refusal(content@, AI_CONTENT_MAX as nat, "Content"@))),
{
    let title = trimmed(title, AI_TITLE_MAX, "Title")?;
    let is_object = json_is_object(&prompt);
    let prompt = match keep_prompt(prompt, is_object) {
        Some(kept) => kept,
        None => empty_json_object(),
    };
    let content = required(content, AI_CONTENT_MAX, "Content")?;
    Ok(NewCoupleAiWork { kind, title, prompt, content })
}

// --------------------------------------------------------------- 首页 ------

/// How the home screen ranks a date: upcoming dates before past ones, then
/// the soonest.
pub open spec fn ranks_no_later(past1: bool, on1: CivilDate, past2: bool, on2: CivilDate) -> bool {
    (!past1 && past2) || (past1 == past2 && !on2.is_before(on1))
}

/// Where an anniversary lands on the home screen: its next occurrence, and
/// whether that is already past.
pub open spec fn home_rank(a: CoupleAnniversary, today: CivilDate) -> (bool, CivilDate) {
    let on = next_occurrence_spec(a.happens_on, a.repeat_yearly, today);
    (on.is_before(today), on)
}

/// The date to count down to on the home screen: among all the pair's
/// dates, each resolved through its own repeat rule, the soonest upcoming
/// one; a one-off already past sorts after every upcoming date rather than
/// being dropped. The first of equally ranked dates wins.
pub fn next_anniversary(anniversaries: &Vec<CoupleAnniversary>, today: CivilDate) -> (r: Option<
    (usize, CivilDate),
>)
    requires
        today.is_valid(),
        forall|i: int| 0 <= i < anniversaries@.len() ==> (#[trigger] anniversaries@[i]).happens_on.is_valid(),
    ensures
        r is None <==> anniversaries@.len() == 0,
        r matches Some(p) ==> {
            let (i, on) = p;
            &&& i < anniversaries@.len()
            &&& on == home_rank(anniversaries@[i as int], today).1
            &&& forall|j: int| 0 <= j < anniversaries@.len() ==> ranks_no_later(
                home_rank(anniversaries@[i as int], today).0,
                on,
                #[trigger] home_rank(anniversaries@[j], today).0,
                home_rank(anniversaries@[j], today).1,
            )
            &&& forall|j: int| 0 <= j < i ==> !ranks_no_later(
                #[trigger] home_rank(anniversaries@[j], today).0,
                home_rank(anniversaries@[j], today).1,
                home_rank(anniversaries@[i as int], today).0,
                on,
            )
        },
{
    if anniversaries.len() == 0 {
        return None;
    }
    let mut best: usize = 0;
    let mut best_on = anniversaries[0].next_occurrence(today);
    let mut best_past = best_on.before(&today);
    let mut k: usize = 1;
    while k < anniversaries.len()
        invariant
            today.is_valid(),
            forall|i: int| 0 <= i < anniversaries@.len() ==> (#[trigger] anniversaries@[i]).happens_on.is_valid(),
            1 <= k <= anniversaries@.len(),
            best < k,
            best_on == home_rank(anniversaries@[best as int], today).1,
            best_past == home_rank(anniversaries@[best as int], today).0,
            forall|j: int| 0 <= j < k ==> ranks_no_later(
                best_past,
                best_on,
                #[trigger] home_rank(anniversaries@[j], today).0,
                home_rank(anniversaries@[j], today).1,
            ),
            forall|j: int| 0 <= j < best ==> !ranks_no_later(
                #[trigger] home_rank(anniversaries@[j], today).0,
                home_rank(anniversaries@[j], today).1,
                best_past,
                best_on,
            ),
        decreases anniversaries@.len() - k,
    {
        let on = anniversaries[k].next_occurrence(today);
        let past = on.before(&today);
        let better = (!past && best_past) || (past == best_past && on.before(&best_on));
        if better {
            best = k;
            best_on = on;
            best_past = past;
        }
        k = k + 1;
    }
    Some((best, best_on))
}

/// Outstanding items in list order, at most `limit` of them.
pub open spec fn open_prefix(todos: Seq<CoupleTodo>, limit: nat) -> Seq<CoupleTodo>
    decreases todos.len(),
{
    if todos.len() == 0 || limit == 0 {
        Seq::empty()
    } else if todos[0].done_at is None {
        seq![todos[0]] + open_prefix(todos.drop_first(), (limit - 1) as nat)
    } else {
        open_prefix(todos.drop_first(), limit)
    }
}

/// The home strip of the list: outstanding items in their listed order, at
/// most `limit` of them.
pub fn open_todos(todos: Vec<CoupleTodo>, limit: usize) -> (r: Vec<CoupleTodo>)
    ensures
        r@ == open_prefix(todos@, limit as nat),
{
    let ghost given = todos@;
    let mut rest = todos;
    let mut out: Vec<CoupleTodo> = Vec::new();
    while rest.len() > 0 && out.len() < limit
        invariant
            out@.len() <= limit,
            out@ + open_prefix(rest@, (limit - out@.len()) as nat) == open_prefix(
                given,
                limit as nat,
            ),
        decreases rest@.len(),
    {
        let ghost before = rest@;
        let item = rest.remove(0);
        assert(rest@ =~= before.drop_first());
        if item.done_at.is_none() {
            let ghost left = (limit - out@.len()) as nat;
            assert(open_prefix(before, left) == seq![item] + open_prefix(
                rest@,
                (left - 1) as nat,
            ));
            out.push(item);
            assert(out@ + open_prefix(rest@, (limit - out@.len()) as nat) =~= open_prefix(
                given,
                limit as nat,
            ));
        }
    }
    proof {
        assert(open_prefix(rest@, (limit - out@.len()) as nat) == Seq::<CoupleTodo>::empty());
        assert(out@ =~= out@ + Seq::<CoupleTodo>::empty());
    }
    out
}

// ------------------------------------------------------------------ laws ----

/// A list item's priority is pulled to the nearest of 0 (low) to 2 (high):
/// the stored value is always in range, no value in range lies closer to
/// the one sent, so one already in range is kept as sent; and a higher
/// priority sent never stores lower.
pub proof fn priorities_are_pulled_to_the_nearest_in_range(p: i16, other: i16, q: i16)
    requires
        0 <= q <= 2,
    ensures
        0 <= clamp_priority_spec(p) <= 2,
        ({
            let c = clamp_priority_spec(p) as int;
            let d = if c >= p { c - p } else { p - c };
            let e = if q >= p { q - p } else { p - q };
            d <= e
        }),
        0 <= p <= 2 ==> clamp_priority_spec(p) == p,
        p <= other ==> clamp_priority_spec(p) <= clamp_priority_spec(other),
{
}

/// A pet's species is pulled to the nearest of 1 to 4: the stored species
/// is always in range, no species in range lies closer to the one sent, so
/// one already in range is kept as sent; and the order of what was sent is
/// kept.
pub proof fn species_are_pulled_to_the_nearest_in_range(s: i16, other: i16, q: i16)
    requires
        1 <= q <= 4,
    ensures
        1 <= clamp_species_spec(s) <= 4,
        ({
            let c = clamp_species_spec(s) as int;
            let d = if c >= s { c - s } else { s - c };
            let e = if q >= s { q - s } else { s - q };
            d <= e
        }),
        1 <= s <= 4 ==> clamp_species_spec(s) == s,
        s <= other ==> clamp_species_spec(s) <= clamp_species_spec(other),
{
}

} // verus!
