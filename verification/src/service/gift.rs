//! 礼物: catalog curation, and sending one by spending points. A bad field
//! comes back as a field error instead of a storage CHECK violation, and a
//! send is refused when either side has blocked the other.

use vstd::prelude::*;

use crate::error::{first_refusal, invalid_input, not_found, refused_with, unauthorized, Error};
use crate::models::gift::{
    Gift, GiftUpdate, NewGift, SendGift, GIFT_DESCRIPTION_MAX_CHARS, GIFT_ICON_MAX_CHARS,
    GIFT_KEY_MAX_CHARS, GIFT_MESSAGE_MAX_CHARS, GIFT_NAME_MAX_CHARS, GIFT_PRICE_MAX,
    GIFT_QUANTITY_MAX, GIFT_REQUEST_ID_MAX_CHARS,
};
use crate::text::{
    ascii_lower_seq, ascii_lowercase, at_most_refusal, chars_of, trim_spec,
    trim_to_string, trimmed_within, when_present,
};

verus! {

/// Most room sends one listing returns.
pub const ROOM_GIFT_FEED_MAX: i64 = 50;

/// How many kinds of gift a profile shelf shows when the client does not say.
pub const GIFT_SHOWCASE_DEFAULT: i32 = 12;

/// Most kinds of gift a profile shelf shows.
pub const GIFT_SHOWCASE_MAX: i32 = 100;

/// A character allowed in a catalog key: a-z, 0-9 or underscore.
pub open spec fn is_key_char(c: char) -> bool {
    ('a' as u32 <= c as u32 <= 'z' as u32) || ('0' as u32 <= c as u32 <= '9' as u32) || c
        == '_'
}

/// Keys are matched by clients and stored in records, so the accepted shape
/// is narrow: 2 to 40 characters of lowercase letters, digits and underscores.
pub open spec fn is_valid_gift_key_spec(key: Seq<char>) -> bool {
    &&& 2 <= key.len() <= GIFT_KEY_MAX_CHARS
    &&& forall|i: int| 0 <= i < key.len() ==> is_key_char(#[trigger] key[i])
}

pub fn is_valid_gift_key(key: &str) -> (r: bool)
    ensures
        r == is_valid_gift_key_spec(key@),
{
    let chars = chars_of(key);
    let length = chars.len();
    if length < 2 || length > GIFT_KEY_MAX_CHARS {
        return false;
    }
    let mut i: usize = 0;
    while i < length
        invariant
            chars@ == key@,
            length == chars@.len(),
            i <= length,
            forall|t: int| 0 <= t < i ==> is_key_char(#[trigger] chars@[t]),
        decreases length - i,
    {
        let c = chars[i];
        let u = c as u32;
        if !((97 <= u && u <= 122) || (48 <= u && u <= 57) || c == '_') {
            return false;
        }
        i = i + 1;
    }
    true
}

/// Prices run from 0 to `GIFT_PRICE_MAX`.
pub fn validate_price(price_points: i32) -> (r: Result<(), Error>)
    ensures
        r is Ok <==> 0 <= price_points <= GIFT_PRICE_MAX,
        r matches Err(e) ==> e.is_invalid_input_with(
            "gift price must be between 0 and 1000000"@,
        ),
{
    if 0 <= price_points && price_points <= GIFT_PRICE_MAX {
        Ok(())
    } else {
        Err(invalid_input("gift price must be between 0 and 1000000"))
    }
}

/// A display name: trimmed, 1 to `GIFT_NAME_MAX_CHARS` characters.
pub fn validate_gift_name(name: &str) -> (r: Result<String, Error>)
    ensures
        r is Ok <==> 0 < trim_spec(name@).len() <= GIFT_NAME_MAX_CHARS,
        r matches Ok(s) ==> s@ == trim_spec(name@),
        r matches Err(e) ==> e.is_invalid_input_with("gift name must be 1 to 40 characters"@),
{
    let name = trim_to_string(name);
    let n = name.as_str().unicode_len();
    if n == 0 || n > GIFT_NAME_MAX_CHARS {
        return Err(invalid_input("gift name must be 1 to 40 characters"));
    }
    Ok(name)
}

/// The sentence refusing a display name: "gift name must be 1 to 40
/// characters" unless it trims to 1 to `GIFT_NAME_MAX_CHARS` characters.
pub open spec fn gift_name_refusal(name: Seq<char>) -> Option<Seq<char>> {
    if 0 < trim_spec(name).len() <= GIFT_NAME_MAX_CHARS {
        None
    } else {
        Some("gift name must be 1 to 40 characters"@)
    }
}

/// The sentence refusing a price outside `0..=GIFT_PRICE_MAX`.
pub open spec fn gift_price_refusal(price_points: i32) -> Option<Seq<char>> {
    if 0 <= price_points <= GIFT_PRICE_MAX {
        None
    } else {
        Some("gift price must be between 0 and 1000000"@)
    }
}

/// The key a catalog entry is stored under: trimmed, then ASCII lower-cased.
pub open spec fn stored_key(key: Seq<char>) -> Seq<char> {
    ascii_lower_seq(trim_spec(key))
}

/// A new catalog entry as it will be stored: the key folded and checked, the
/// name, blurb and icon trimmed and bounded, the price in range.
pub fn validate_new_gift(gift: &NewGift) -> (r: Result<NewGift, Error>)
    ensures
        r is Ok <==> {
            &&& is_valid_gift_key_spec(stored_key(gift.key@))
            &&& 0 < trim_spec(gift.name@).len() <= GIFT_NAME_MAX_CHARS
            &&& trim_spec(gift.description@).len() <= GIFT_DESCRIPTION_MAX_CHARS
            &&& trim_spec(gift.icon@).len() <= GIFT_ICON_MAX_CHARS
            &&& 0 <= gift.price_points <= GIFT_PRICE_MAX
        },
        r matches Ok(g) ==> {
            &&& g.key@ == stored_key(gift.key@)
            &&& g.name@ == trim_spec(gift.name@)
            &&& g.description@ == trim_spec(gift.description@)
            &&& g.icon@ == trim_spec(gift.icon@)
            &&& g.price_points == gift.price_points
            &&& g.sort_order == gift.sort_order
            &&& g.is_enabled == gift.is_enabled
        },
        !is_valid_gift_key_spec(stored_key(gift.key@)) ==> r is Err
            && r->Err_0.is_invalid_input_with(
            "gift key must be 2 to 40 characters of a-z, 0-9 or underscore"@,
        ),
        refused_with(r, first_refusal((if is_valid_gift_key_spec(stored_key(gift.key@)) { None } else { Some("gift key must be 2 to 40 characters of a-z, 0-9 or underscore"@) }), first_refusal(gift_name_refusal(gift.name@), first_refusal(at_most_refusal(gift.description@, GIFT_DESCRIPTION_MAX_CHARS as nat, "gift description"@), first_refusal(at_most_refusal(gift.icon@, GIFT_ICON_MAX_CHARS as nat, "gift icon"@), gift_price_refusal(gift.price_points)))))),
{
    let trimmed_key = trim_to_string(gift.key.as_str());
    let key = ascii_lowercase(trimmed_key.as_str());
    if !is_valid_gift_key(key.as_str()) {
        return Err(
            invalid_input("gift key must be 2 to 40 characters of a-z, 0-9 or underscore"),
        );
    }
    let name = validate_gift_name(gift.name.as_str())?;
    let description = trimmed_within(
        gift.description.as_str(),
        GIFT_DESCRIPTION_MAX_CHARS,
        "gift description",
    )?;
    let icon = trimmed_within(gift.icon.as_str(), GIFT_ICON_MAX_CHARS, "gift icon")?;
    validate_price(gift.price_points)?;
    Ok(NewGift {
        key,
        name,
        description,
        icon,
        price_points: gift.price_points,
        sort_order: gift.sort_order,
        is_enabled: gift.is_enabled,
    })
}

/// An entry read back for an empty edit: missing is "gift not found".
pub fn found_gift(gift: Option<Gift>) -> (r: Result<Gift, Error>)
    ensures
        r is Ok <==> gift is Some,
        r matches Ok(g) ==> gift == Some(g),
        r matches Err(e) ==> e.is_not_found_with("gift not found"@),
{
    match gift {
        Some(g) => Ok(g),
        None => Err(not_found("gift not found")),
    }
}

/// A catalog edit as it will be applied: each present text trimmed and
/// bounded, a present price in range, order and switch passed through.
pub fn normalize_gift_update(update: &GiftUpdate) -> (r: Result<GiftUpdate, Error>)
    ensures
        r is Ok <==> {
            &&& (update.name matches Some(n) ==> 0 < trim_spec(n@).len() <= GIFT_NAME_MAX_CHARS)
            &&& (update.description matches Some(d) ==> trim_spec(d@).len()
                <= GIFT_DESCRIPTION_MAX_CHARS)
            &&& (update.icon matches Some(i) ==> trim_spec(i@).len() <= GIFT_ICON_MAX_CHARS)
            &&& (update.price_points matches Some(p) ==> 0 <= p <= GIFT_PRICE_MAX)
        },
        r matches Ok(u) ==> {
            &&& (u.name is Some <==> update.name is Some)
            &&& (u.name matches Some(n) ==> n@ == trim_spec(update.name->0@))
            &&& (u.description is Some <==> update.description is Some)
            &&& (u.description matches Some(d) ==> d@ == trim_spec(update.description->0@))
            &&& (u.icon is Some <==> update.icon is Some)
            &&& (u.icon matches Some(i) ==> i@ == trim_spec(update.icon->0@))
            &&& u.price_points == update.price_points
            &&& u.sort_order == update.sort_order
            &&& u.is_enabled == update.is_enabled
        },
        refused_with(r, first_refusal(when_present(update.name, |v: Seq<char>| gift_name_refusal(v)), first_refusal(when_present(update.description, |v: Seq<char>| at_most_refusal(v, GIFT_DESCRIPTION_MAX_CHARS as nat, "gift description"@)), first_refusal(when_present(update.icon, |v: Seq<char>| at_most_refusal(v, GIFT_ICON_MAX_CHARS as nat, "gift icon"@)), (match update.price_points { Some(p) => gift_price_refusal(p), None => None }))))),
{
    let name = match &update.name {
        Some(raw) => Some(validate_gift_name(raw.as_str())?),
        None => None,
    };
    let description = match &update.description {
        Some(raw) => Some(
            trimmed_within(raw.as_str(), GIFT_DESCRIPTION_MAX_CHARS, "gift description")?,
        ),
        None => None,
    };
    let icon = match &update.icon {
        Some(raw) => Some(trimmed_within(raw.as_str(), GIFT_ICON_MAX_CHARS, "gift icon")?),
        None => None,
    };
    if let Some(price) = update.price_points {
        validate_price(price)?;
    }
    Ok(GiftUpdate {
        name,
        description,
        icon,
        price_points: update.price_points,
        sort_order: update.sort_order,
        is_enabled: update.is_enabled,
    })
}

/// The idempotency key a send is filed under: trimmed, blank meaning none.
pub open spec fn request_key(raw: Option<String>) -> Option<Seq<char>> {
    match raw {
        Some(s) => if trim_spec(s@).len() == 0 {
            None
        } else {
            Some(trim_spec(s@))
        },
        None => None,
    }
}

/// A send as it will be attempted: two different accounts, a quantity from
/// 1 to `GIFT_QUANTITY_MAX`, a note that fits, and an idempotency key that is
/// trimmed, dropped when blank and at most `GIFT_REQUEST_ID_MAX_CHARS`.
pub fn validate_send_gift(request: &SendGift) -> (r: Result<SendGift, Error>)
    ensures
        r is Ok <==> {
            &&& request.sender_id != request.recipient_id
            &&& 1 <= request.quantity <= GIFT_QUANTITY_MAX
            &&& trim_spec(request.message@).len() <= GIFT_MESSAGE_MAX_CHARS
            &&& (request_key(request.request_id) matches Some(k) ==> k.len()
                <= GIFT_REQUEST_ID_MAX_CHARS)
        },
        request.sender_id == request.recipient_id ==> r is Err
            && r->Err_0.is_invalid_input_with("a gift cannot be sent to yourself"@),
        request.sender_id != request.recipient_id && !(1 <= request.quantity
            <= GIFT_QUANTITY_MAX) ==> r is Err && r->Err_0.is_invalid_input_with(
            "gift quantity must be between 1 and 99"@,
        ),
        r matches Ok(s) ==> {
            &&& s.sender_id == request.sender_id
            &&& s.recipient_id == request.recipient_id
            &&& s.room_id == request.room_id
            &&& s.gift_id == request.gift_id
            &&& s.quantity == request.quantity
            &&& s.message@ == trim_spec(request.message@)
            &&& (s.request_id is Some <==> request_key(request.request_id) is Some)
            &&& (s.request_id matches Some(k) ==> Some(k@) == request_key(request.request_id))
        },
        refused_with(r, first_refusal((if request.sender_id == request.recipient_id { Some("a gift cannot be sent to yourself"@) } else { None }), first_refusal((if 1 <= request.quantity <= GIFT_QUANTITY_MAX { None } else { Some("gift quantity must be between 1 and 99"@) }), first_refusal(at_most_refusal(request.message@, GIFT_MESSAGE_MAX_CHARS as nat, "gift message"@), (match request_key(request.request_id) { Some(k) => if k.len() > GIFT_REQUEST_ID_MAX_CHARS { Some("gift request id must be at most 64 characters"@) } else { None }, None => None }))))),
{
    if request.sender_id == request.recipient_id {
        return Err(invalid_input("a gift cannot be sent to yourself"));
    }
    if !(1 <= request.quantity && request.quantity <= GIFT_QUANTITY_MAX) {
        return Err(invalid_input("gift quantity must be between 1 and 99"));
    }
    let message = trimmed_within(request.message.as_str(), GIFT_MESSAGE_MAX_CHARS, "gift message")?;
    let request_id = match &request.request_id {
        Some(raw) => {
            let trimmed = trim_to_string(raw.as_str());
            let n = trimmed.as_str().unicode_len();
            if n == 0 {
                None
            } else if n > GIFT_REQUEST_ID_MAX_CHARS {
                return Err(
                    invalid_input("gift request id must be at most 64 characters"),
                );
            } else {
                Some(trimmed)
            }
        },
        None => None,
    };
    Ok(SendGift {
        sender_id: request.sender_id,
        recipient_id: request.recipient_id,
        room_id: request.room_id,
        gift_id: request.gift_id,
        quantity: request.quantity,
        message,
        request_id,
    })
}

/// The recipient must exist before points move ("recipient not found"), and
/// a block in either direction stops the send.
pub fn send_gift_parties(
    recipient_exists: bool,
    recipient_blocks_sender: bool,
    sender_blocks_recipient: bool,
) -> (r: Result<(), Error>)
    ensures
        r is Ok <==> recipient_exists && !recipient_blocks_sender && !sender_blocks_recipient,
        !recipient_exists ==> r is Err && r->Err_0.is_not_found_with("recipient not found"@),
        recipient_exists && (recipient_blocks_sender || sender_blocks_recipient) ==> r is Err
            && r->Err_0.is_authorization_with(
            "gifts cannot be sent between blocked accounts"@,
        ),
{
    if !recipient_exists {
        return Err(not_found("recipient not found"));
    }
    if recipient_blocks_sender || sender_blocks_recipient {
        return Err(unauthorized("gifts cannot be sent between blocked accounts"));
    }
    Ok(())
}

/// The room feed's size: at least one, at most `ROOM_GIFT_FEED_MAX`.
pub fn room_feed_limit(limit: i64) -> (r: i64)
    ensures
        r == (if limit < 1 {
            1
        } else if limit > ROOM_GIFT_FEED_MAX {
            ROOM_GIFT_FEED_MAX
        } else {
            limit
        }),
{
    if limit < 1 {
        1
    } else if limit > ROOM_GIFT_FEED_MAX {
        ROOM_GIFT_FEED_MAX
    } else {
        limit
    }
}

/// How many kinds a profile shelf shows: the request held to
/// `0..=GIFT_SHOWCASE_MAX`, with zero (or less) meaning the default.
pub fn showcase_limit(limit: i32) -> (r: i64)
    ensures
        r == (if limit <= 0 {
            GIFT_SHOWCASE_DEFAULT as i64
        } else if limit > GIFT_SHOWCASE_MAX {
            GIFT_SHOWCASE_MAX as i64
        } else {
            limit as i64
        }),
        1 <= r <= GIFT_SHOWCASE_MAX,
{
    let clamped = if limit < 0 {
        0
    } else if limit > GIFT_SHOWCASE_MAX {
        GIFT_SHOWCASE_MAX
    } else {
        limit
    };
    if clamped == 0 {
        GIFT_SHOWCASE_DEFAULT as i64
    } else {
        clamped as i64
    }
}

} // verus!
