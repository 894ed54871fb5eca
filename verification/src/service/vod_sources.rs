//! Subscription sources an administrator publishes: a source with no name, an
//! endpoint that is not an absolute HTTP URL, or a header bag that could
//! smuggle one header into another is refused before it reaches a row.

use vstd::prelude::*;

use crate::error::{first_refusal, refused_with, Error};
use crate::models::vod_source::{NewVodSource, VodSource, VodSourceFormat, VodSourceUpdate};
use crate::text::{
    chars_of, is_required_message, may_not_exceed_message, required_not_exceeding,
    lemma_trim_is_infix, required_refusal, same_text, trim_spec, trim_to_string,
    trimming_is_idempotent, when_present,
};

verus! {

/// Longest accepted display name, matching `vod_sources.name`.
pub const VOD_SOURCE_NAME_MAX_CHARS: usize = 120;

/// Most headers one source may carry.
pub const VOD_SOURCE_HEADERS_MAX: usize = 16;

/// What `url::Url::parse` makes of `input`: `None` when it is no absolute URL,
/// else the scheme of the parsed URL.
pub uninterp spec fn parsed_url_scheme(input: Seq<char>) -> Option<Seq<char>>;

/// `url::Url::parse`, then `Url::scheme` on success. The WHATWG parsing
/// rules are not restated: the result is the named value of the input.
#[verifier::external_body]
fn url_scheme(input: &str) -> (r: Option<String>)
    ensures
        r is Some <==> parsed_url_scheme(input@) is Some,
        r matches Some(s) ==> parsed_url_scheme(input@) == Some(s@),
{
    match url::Url::parse(input) {
        Ok(parsed) => Some(parsed.scheme().to_string()),
        Err(_) => None,
    }
}

/// A display name: trimmed, present, at most
/// [`VOD_SOURCE_NAME_MAX_CHARS`] characters.
pub fn validate_name(name: &str) -> (r: Result<String, Error>)
    ensures
        r is Ok <==> 0 < trim_spec(name@).len() <= VOD_SOURCE_NAME_MAX_CHARS,
        r matches Ok(s) ==> s@ == trim_spec(name@),
        r matches Err(e) ==> e matches Error::InvalidInput(m) && (if trim_spec(name@).len()
            == 0 {
            m@ == is_required_message("Source name"@)
        } else {
            m@ == may_not_exceed_message("Source name"@, VOD_SOURCE_NAME_MAX_CHARS as nat)
        }),
{
    required_not_exceeding(name, VOD_SOURCE_NAME_MAX_CHARS, "Source name")
}

/// True for the schemes a client can fetch a catalog from.
pub open spec fn is_web_scheme(scheme: Seq<char>) -> bool {
    scheme == "http"@ || scheme == "https"@
}

/// An endpoint the service accepts: present once trimmed, and an absolute
/// URL of a web scheme.
pub open spec fn endpoint_acceptable(endpoint: Seq<char>) -> bool {
    &&& trim_spec(endpoint).len() > 0
    &&& parsed_url_scheme(trim_spec(endpoint)) matches Some(s)
    &&& is_web_scheme(s)
}

/// The answer for an endpoint once the URL parser has spoken: no URL, a URL
/// of another scheme, or the endpoint itself.
pub fn endpoint_from_scheme(endpoint: String, scheme: Option<String>) -> (r: Result<
    String,
    Error,
>)
    ensures
        match scheme {
            None => r matches Err(e) && e.is_invalid_input_with("Source endpoint is not a URL"@),
            Some(s) => if is_web_scheme(s@) {
                r == Ok::<String, Error>(endpoint)
            } else {
                r matches Err(e) && e.is_invalid_input_with(
                    "Source endpoint must be http or https"@,
                )
            },
        },
{
    match scheme {
        None => Err(Error::InvalidInput(String::from_str("Source endpoint is not a URL"))),
        Some(s) => {
            if same_text(s.as_str(), "http") || same_text(s.as_str(), "https") {
                Ok(endpoint)
            } else {
                Err(Error::InvalidInput(String::from_str("Source endpoint must be http or https")))
            }
        },
    }
}

/// An absolute `http` or `https` endpoint, trimmed. A blank one is
/// "required"; otherwise the URL parser decides, and
/// [`endpoint_from_scheme`] answers from its result.
pub fn validate_endpoint(endpoint: &str) -> (r: Result<String, Error>)
    ensures
        trim_spec(endpoint@).len() == 0 ==> (r matches Err(e) && e.is_invalid_input_with(
            "Source endpoint is required"@,
        )),
        trim_spec(endpoint@).len() > 0 ==> match parsed_url_scheme(trim_spec(endpoint@)) {
            None => r matches Err(e) && e.is_invalid_input_with("Source endpoint is not a URL"@),
            Some(s) => if is_web_scheme(s) {
                r matches Ok(v) && v@ == trim_spec(endpoint@)
            } else {
                r matches Err(e) && e.is_invalid_input_with(
                    "Source endpoint must be http or https"@,
                )
            },
        },
{
    let trimmed = trim_to_string(endpoint);
    if trimmed.as_str().unicode_len() == 0 {
        return Err(Error::InvalidInput(String::from_str("Source endpoint is required")));
    }
    let scheme = url_scheme(trimmed.as_str());
    endpoint_from_scheme(trimmed, scheme)
}

// ------------------------------------------------------------- headers ------

/// True when `s` holds a carriage return or a line feed.
pub open spec fn has_line_break(s: Seq<char>) -> bool {
    exists|i: int| 0 <= i < s.len() && (s[i] == '\r' || s[i] == '\n')
}

/// An entry whose name trims to something is kept; a blank name is skipped.
pub open spec fn header_kept(entry: (String, String)) -> bool {
    trim_spec(entry.0@).len() > 0
}

/// A kept entry with a line break in its trimmed name or in its value as
/// sent: one header smuggling in another.
pub open spec fn header_refused(entry: (String, String)) -> bool {
    header_kept(entry) && (has_line_break(trim_spec(entry.0@)) || has_line_break(entry.1@))
}

/// A header bag the service accepts: not too many entries, none refused.
pub open spec fn headers_acceptable(headers: Seq<(String, String)>) -> bool {
    &&& headers.len() <= VOD_SOURCE_HEADERS_MAX
    &&& forall|i: int| 0 <= i < headers.len() ==> !header_refused(#[trigger] headers[i])
}

/// The bag after cleaning, as a map: each kept entry under its trimmed name
/// with its trimmed value, a later entry replacing an earlier one of the same
/// trimmed name.
pub open spec fn cleaned_headers(headers: Seq<(String, String)>) -> Map<Seq<char>, Seq<char>>
    decreases headers.len(),
{
    if headers.len() == 0 {
        Map::empty()
    } else {
        let rest = cleaned_headers(headers.drop_last());
        let e = headers.last();
        if header_kept(e) {
            rest.insert(trim_spec(e.0@), trim_spec(e.1@))
        } else {
            rest
        }
    }
}

/// A list of header entries read as a map, a later entry winning.
pub open spec fn header_map(entries: Seq<(String, String)>) -> Map<Seq<char>, Seq<char>>
    decreases entries.len(),
{
    if entries.len() == 0 {
        Map::empty()
    } else {
        header_map(entries.drop_last()).insert(entries.last().0@, entries.last().1@)
    }
}

/// No two entries share a name.
pub open spec fn distinct_names(entries: Seq<(String, String)>) -> bool {
    forall|i: int, j: int|
        0 <= i < j < entries.len() ==> #[trigger] entries[i].0@ != #[trigger] entries[j].0@
}

/// Replacing the entry of a name, in a list of distinct names, is an insert
/// into its map.
proof fn lemma_header_map_replace(entries: Seq<(String, String)>, j: int, e: (String, String))
    requires
        distinct_names(entries),
        0 <= j < entries.len(),
        entries[j].0@ == e.0@,
    ensures
        header_map(entries.update(j, e)) == header_map(entries).insert(e.0@, e.1@),
    decreases entries.len(),
{
    let n = entries.len();
    let updated = entries.update(j, e);
    if j == n - 1 {
        assert(updated.drop_last() =~= entries.drop_last());
        assert(header_map(updated) =~= header_map(entries).insert(e.0@, e.1@));
    } else {
        let front = entries.drop_last();
        assert(updated.drop_last() =~= front.update(j, e));
        assert(distinct_names(front));
        lemma_header_map_replace(front, j, e);
        assert(entries.last().0@ != e.0@) by {
            assert(entries[j].0@ != entries[n - 1].0@);
        }
        assert(header_map(updated) =~= header_map(entries).insert(e.0@, e.1@));
    }
}

/// Appending an entry is an insert into the map.
proof fn lemma_header_map_push(entries: Seq<(String, String)>, e: (String, String))
    ensures
        header_map(entries.push(e)) == header_map(entries).insert(e.0@, e.1@),
{
    assert(entries.push(e).drop_last() =~= entries);
}

/// Sets `name` to `value` in a list of distinct names: the entry of that
/// name is replaced where there is one, else the pair is appended.
fn upsert_header(entries: &mut Vec<(String, String)>, name: String, value: String)
    requires
        distinct_names(old(entries)@),
    ensures
        distinct_names(final(entries)@),
        header_map(final(entries)@) == header_map(old(entries)@).insert(name@, value@),
{
    let mut j: usize = 0;
    while j < entries.len()
        invariant
            entries@ == old(entries)@,
            distinct_names(entries@),
            j <= entries@.len(),
            forall|t: int| 0 <= t < j ==> (#[trigger] entries@[t]).0@ != name@,
        decreases entries@.len() - j,
    {
        if same_text(entries[j].0.as_str(), name.as_str()) {
            let ghost before = entries@;
            let ghost e = (name, value);
            proof {
                lemma_header_map_replace(before, j as int, e);
            }
            entries.set(j, (name, value));
            assert(entries@ == before.update(j as int, e));
            assert forall|a: int, b: int| 0 <= a < b < entries@.len() implies #[trigger]
                entries@[a].0@ != #[trigger] entries@[b].0@ by {
                assert(before[a].0@ != before[b].0@);
            }
            return;
        }
        j = j + 1;
    }
    let ghost before = entries@;
    let ghost e = (name, value);
    proof {
        lemma_header_map_push(before, e);
    }
    entries.push((name, value));
    assert(entries@ == before.push(e));
    assert forall|a: int, b: int| 0 <= a < b < entries@.len() implies #[trigger]
        entries@[a].0@ != #[trigger] entries@[b].0@ by {
        if b < before.len() {
            assert(before[a].0@ != before[b].0@);
        }
    }
}

/// Whether `s` holds a carriage return or a line feed.
pub fn contains_line_break(s: &str) -> (r: bool)
    ensures
        r == has_line_break(s@),
{
    let chars = chars_of(s);
    let mut i: usize = 0;
    while i < chars.len()
        invariant
            chars@ == s@,
            i <= chars@.len(),
            forall|t: int| 0 <= t < i ==> !(chars@[t] == '\r' || chars@[t] == '\n'),
        decreases chars@.len() - i,
    {
        if chars[i] == '\r' || chars[i] == '\n' {
            return true;
        }
        i = i + 1;
    }
    false
}

/// The header bag as stored: at most [`VOD_SOURCE_HEADERS_MAX`] entries
/// ("A source may carry at most 16 headers"), blank names skipped, names and
/// values trimmed, a later entry of the same trimmed name replacing an
/// earlier one, and a line break in a kept name or value refused ("Header
/// names and values may not contain line breaks").
pub fn validate_headers(headers: &Vec<(String, String)>) -> (r: Result<
    Vec<(String, String)>,
    Error,
>)
    ensures
        r is Ok <==> headers_acceptable(headers@),
        r matches Ok(v) ==> distinct_names(v@) && header_map(v@) == cleaned_headers(headers@),
        r matches Err(e) ==> if headers@.len() > VOD_SOURCE_HEADERS_MAX {
            e.is_invalid_input_with("A source may carry at most 16 headers"@)
        } else {
            e.is_invalid_input_with("Header names and values may not contain line breaks"@)
        },
{
    if headers.len() > VOD_SOURCE_HEADERS_MAX {
        return Err(Error::InvalidInput(String::from_str("A source may carry at most 16 headers")));
    }
    let mut cleaned: Vec<(String, String)> = Vec::new();
    let mut i: usize = 0;
    while i < headers.len()
        invariant
            i <= headers@.len(),
            headers@.len() <= VOD_SOURCE_HEADERS_MAX,
            distinct_names(cleaned@),
            header_map(cleaned@) == cleaned_headers(headers@.subrange(0, i as int)),
            forall|t: int| 0 <= t < i ==> !header_refused(#[trigger] headers@[t]),
        decreases headers@.len() - i,
    {
        let ghost prefix = headers@.subrange(0, i as int + 1);
        assert(prefix.drop_last() =~= headers@.subrange(0, i as int));
        assert(prefix.last() == headers@[i as int]);
        let name = trim_to_string(headers[i].0.as_str());
        if name.as_str().unicode_len() > 0 {
            if contains_line_break(name.as_str()) || contains_line_break(headers[i].1.as_str()) {
                assert(header_refused(headers@[i as int]));
                return Err(
                    Error::InvalidInput(
                        String::from_str("Header names and values may not contain line breaks"),
                    ),
                );
            }
            let value = trim_to_string(headers[i].1.as_str());
            upsert_header(&mut cleaned, name, value);
        }
        i = i + 1;
    }
    assert(headers@.subrange(0, headers@.len() as int) =~= headers@);
    Ok(cleaned)
}

// ------------------------------------------------------------ requests ------

/// The sentence refusing an endpoint, if any: missing, not a URL, or not a
/// web scheme.
pub open spec fn endpoint_refusal(endpoint: Seq<char>) -> Option<Seq<char>> {
    if trim_spec(endpoint).len() == 0 {
        Some("Source endpoint is required"@)
    } else {
        match parsed_url_scheme(trim_spec(endpoint)) {
            None => Some("Source endpoint is not a URL"@),
            Some(s) => if is_web_scheme(s) {
                None
            } else {
                Some("Source endpoint must be http or https"@)
            },
        }
    }
}

/// The sentence refusing a header bag, if any: too many entries, or a line
/// break in a kept one.
pub open spec fn headers_refusal(headers: Seq<(String, String)>) -> Option<Seq<char>> {
    if headers.len() > VOD_SOURCE_HEADERS_MAX {
        Some("A source may carry at most 16 headers"@)
    } else if !headers_acceptable(headers) {
        Some("Header names and values may not contain line breaks"@)
    } else {
        None
    }
}

/// A source about to be stored: name, endpoint and headers checked in that
/// order, the rest passed through.
pub fn new_vod_source(
    name: &str,
    format: VodSourceFormat,
    endpoint: &str,
    headers: &Vec<(String, String)>,
    enabled: bool,
    sort_order: i32,
) -> (r: Result<NewVodSource, Error>)
    ensures
        r is Ok <==> {
            &&& 0 < trim_spec(name@).len() <= VOD_SOURCE_NAME_MAX_CHARS
            &&& endpoint_acceptable(endpoint@)
            &&& headers_acceptable(headers@)
        },
        r matches Ok(s) ==> {
            &&& s.name@ == trim_spec(name@)
            &&& s.format == format
            &&& s.endpoint@ == trim_spec(endpoint@)
            &&& distinct_names(s.headers@)
            &&& header_map(s.headers@) == cleaned_headers(headers@)
            &&& s.enabled == enabled
            &&& s.sort_order == sort_order
        },
        refused_with(r, first_refusal(required_refusal(name@, VOD_SOURCE_NAME_MAX_CHARS as nat, "Source name"@), first_refusal(endpoint_refusal(endpoint@), headers_refusal(headers@)))),
{
    let name = validate_name(name)?;
    let endpoint = validate_endpoint(endpoint)?;
    let headers = validate_headers(headers)?;
    Ok(NewVodSource { name, format, endpoint, headers, enabled, sort_order })
}

/// An edit with each present name, endpoint and header bag checked as a new
/// source's would be, in that order; format, switch and position passed
/// through.
pub fn normalize_vod_source_update(update: VodSourceUpdate) -> (r: Result<VodSourceUpdate, Error>)
    ensures
        r is Ok <==> {
            &&& (update.name matches Some(n) ==> 0 < trim_spec(n@).len()
                <= VOD_SOURCE_NAME_MAX_CHARS)
            &&& (update.endpoint matches Some(p) ==> endpoint_acceptable(p@))
            &&& (update.headers matches Some(h) ==> headers_acceptable(h@))
        },
        r matches Ok(u) ==> {
            &&& (u.name is Some <==> update.name is Some)
            &&& (u.name matches Some(n) ==> n@ == trim_spec(update.name->0@))
            &&& (u.endpoint is Some <==> update.endpoint is Some)
            &&& (u.endpoint matches Some(p) ==> p@ == trim_spec(update.endpoint->0@))
            &&& (u.headers is Some <==> update.headers is Some)
            &&& (u.headers matches Some(h) ==> distinct_names(h@) && header_map(h@)
                == cleaned_headers(update.headers->0@))
            &&& u.format == update.format
            &&& u.enabled == update.enabled
            &&& u.sort_order == update.sort_order
        },
        refused_with(r, first_refusal(when_present(update.name, |v: Seq<char>| required_refusal(v, VOD_SOURCE_NAME_MAX_CHARS as nat, "Source name"@)), first_refusal(when_present(update.endpoint, |v: Seq<char>| endpoint_refusal(v)), (match update.headers { Some(h) => headers_refusal(h@), None => None })))),
{
    let name = match &update.name {
        Some(n) => Some(validate_name(n.as_str())?),
        None => None,
    };
    let endpoint = match &update.endpoint {
        Some(p) => Some(validate_endpoint(p.as_str())?),
        None => None,
    };
    let headers = match &update.headers {
        Some(h) => Some(validate_headers(h)?),
        None => None,
    };
    Ok(
        VodSourceUpdate {
            name,
            format: update.format,
            endpoint,
            headers,
            enabled: update.enabled,
            sort_order: update.sort_order,
        },
    )
}

/// The refusal for an id that names no source.
pub fn source_not_found() -> (e: Error)
    ensures
        e.is_not_found_with("Source not found"@),
{
    Error::NotFound(String::from_str("Source not found"))
}

/// An edit's answer: the stored row, or "Source not found" when the id
/// matched none.
pub fn updated_source(stored: Option<VodSource>) -> (r: Result<VodSource, Error>)
    ensures
        match stored {
            Some(s) => r == Ok::<VodSource, Error>(s),
            None => r matches Err(e) && e.is_not_found_with("Source not found"@),
        },
{
    match stored {
        Some(s) => Ok(s),
        None => Err(source_not_found()),
    }
}

/// A delete's answer: done when a row went, "Source not found" otherwise.
pub fn deleted_source(removed: bool) -> (r: Result<(), Error>)
    ensures
        r is Ok <==> removed,
        r matches Err(e) ==> e.is_not_found_with("Source not found"@),
{
    if removed {
        Ok(())
    } else {
        Err(source_not_found())
    }
}

// ------------------------------------------------------------------ laws ----

/// Trimming cannot bring in a line break that was not there.
proof fn lemma_trim_keeps_out_line_breaks(s: Seq<char>)
    requires
        !has_line_break(s),
    ensures
        !has_line_break(trim_spec(s)),
{
    lemma_trim_is_infix(s);
    let off = s.len() - crate::text::trim_start_spec(s).len();
    if has_line_break(trim_spec(s)) {
        let i = choose|i: int|
            0 <= i < trim_spec(s).len() && (trim_spec(s)[i] == '\r' || trim_spec(s)[i] == '\n');
        assert(trim_spec(s)[i] == s[off + i]);
        assert(has_line_break(s));
    }
}

/// A header bag the service accepts stores no header that could smuggle in
/// another: every stored name is present and trimmed, and no stored name or
/// value holds a carriage return or a line feed.
pub proof fn accepted_headers_are_clean(headers: Seq<(String, String)>)
    requires
        headers_acceptable(headers),
    ensures
        forall|k: Seq<char>|
            #[trigger] cleaned_headers(headers).dom().contains(k) ==> {
                &&& k.len() > 0
                &&& trim_spec(k) == k
                &&& !has_line_break(k)
                &&& !has_line_break(cleaned_headers(headers)[k])
            },
    decreases headers.len(),
{
    if headers.len() > 0 {
        let front = headers.drop_last();
        assert(headers_acceptable(front)) by {
            assert forall|i: int| 0 <= i < front.len() implies !header_refused(
                #[trigger] front[i],
            ) by {
                assert(front[i] == headers[i]);
            }
        }
        accepted_headers_are_clean(front);
        let e = headers.last();
        assert(!header_refused(headers[headers.len() - 1]));
        let m = cleaned_headers(headers);
        let before = cleaned_headers(front);
        if header_kept(e) {
            trimming_is_idempotent(e.0@);
            lemma_trim_keeps_out_line_breaks(e.1@);
            assert(m == before.insert(trim_spec(e.0@), trim_spec(e.1@)));
            assert forall|k: Seq<char>| #[trigger] m.dom().contains(k) implies {
                &&& k.len() > 0
                &&& trim_spec(k) == k
                &&& !has_line_break(k)
                &&& !has_line_break(m[k])
            } by {
                if k != trim_spec(e.0@) {
                    assert(before.dom().contains(k));
                }
            }
        } else {
            assert(m == before);
        }
    }
}

} // verus!
