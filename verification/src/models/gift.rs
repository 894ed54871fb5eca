//! 礼物: the catalog admins curate, and the sends that spend check-in points.

use vstd::prelude::*;

use crate::ids::{RoomId, UnixSeconds, UserId};
use crate::text::{enum_word, enum_word_of, lemma_plain_word_reads_as_itself, same_text};

verus! {

/// Ledger reason recorded for points a gift send spends.
pub const POINT_REASON_GIFT_SEND: &'static str = "gift_send";

/// The credit half of a send: every `gift_send` debit has a matching
/// `gift_receive` credit on the other account, and the two net to zero.
pub const POINT_REASON_GIFT_RECEIVE: &'static str = "gift_receive";

/// Largest price an admin may configure, matching the column's CHECK.
pub const GIFT_PRICE_MAX: i32 = 1_000_000;

/// Most copies one send may carry, matching the column's CHECK.
pub const GIFT_QUANTITY_MAX: i32 = 99;

/// Longest accepted catalog key.
pub const GIFT_KEY_MAX_CHARS: usize = 40;

/// Longest accepted display name.
pub const GIFT_NAME_MAX_CHARS: usize = 40;

/// Longest accepted catalog blurb.
pub const GIFT_DESCRIPTION_MAX_CHARS: usize = 200;

/// Longest accepted icon glyph or URL.
pub const GIFT_ICON_MAX_CHARS: usize = 300;

/// Longest accepted note attached to a send.
pub const GIFT_MESSAGE_MAX_CHARS: usize = 200;

/// Longest accepted idempotency key.
pub const GIFT_REQUEST_ID_MAX_CHARS: usize = 64;

/// One catalog entry.
#[derive(Debug, Clone)]
pub struct Gift {
    pub id: i64,
    /// Stable machine key, so a client can special-case artwork.
    pub key: String,
    pub name: String,
    pub description: String,
    /// Either a short glyph (usually an emoji) or an asset URL.
    pub icon: String,
    pub price_points: i32,
    pub sort_order: i32,
    /// Disabled entries stay readable for history, but cannot be sent.
    pub is_enabled: bool,
    pub created_at: UnixSeconds,
    pub updated_at: UnixSeconds,
    pub updated_by: Option<UserId>,
}

/// A new catalog entry.
#[derive(Debug, Clone)]
pub struct NewGift {
    pub key: String,
    pub name: String,
    pub description: String,
    pub icon: String,
    pub price_points: i32,
    pub sort_order: i32,
    pub is_enabled: bool,
}

/// Partial update of a catalog entry; `None` leaves a field as stored. The
/// key is deliberately absent: records snapshot it and clients key artwork
/// off it.
#[derive(Debug, Clone)]
pub struct GiftUpdate {
    pub name: Option<String>,
    pub description: Option<String>,
    pub icon: Option<String>,
    pub price_points: Option<i32>,
    pub sort_order: Option<i32>,
    pub is_enabled: Option<bool>,
}

impl GiftUpdate {
    /// True when no field is set.
    pub open spec fn spec_is_empty(&self) -> bool {
        &&& self.name is None
        &&& self.description is None
        &&& self.icon is None
        &&& self.price_points is None
        &&& self.sort_order is None
        &&& self.is_enabled is None
    }

    /// True when the update would change nothing, so the caller can skip a write.
    pub fn is_empty(&self) -> (r: bool)
        ensures
            r == self.spec_is_empty(),
    {
        self.name.is_none() && self.description.is_none() && self.icon.is_none()
            && self.price_points.is_none() && self.sort_order.is_none()
            && self.is_enabled.is_none()
    }
}

impl Default for GiftUpdate {
    fn default() -> (r: Self)
        ensures
            r.spec_is_empty(),
    {
        GiftUpdate {
            name: None,
            description: None,
            icon: None,
            price_points: None,
            sort_order: None,
            is_enabled: None,
        }
    }
}

/// What a caller asks for when sending.
#[derive(Debug, Clone)]
pub struct SendGift {
    pub sender_id: UserId,
    pub recipient_id: UserId,
    /// `None` when sent from a profile rather than from a room.
    pub room_id: Option<RoomId>,
    pub gift_id: i64,
    pub quantity: i32,
    pub message: String,
    /// Idempotency key: a repeat returns the first record untouched.
    pub request_id: Option<String>,
}

/// One send, with the catalog fields as they were at the time.
#[derive(Debug, Clone)]
pub struct GiftRecord {
    pub id: i64,
    pub sender_id: UserId,
    /// `None` once the recipient deletes their account.
    pub recipient_id: Option<UserId>,
    pub room_id: Option<RoomId>,
    pub gift_id: i64,
    pub gift_key: String,
    pub gift_name: String,
    pub gift_icon: String,
    pub unit_price_points: i32,
    pub quantity: i32,
    pub total_points: i64,
    /// The ledger debit this send paid through.
    pub transaction_id: Option<i64>,
    pub message: String,
    pub created_at: UnixSeconds,
}

/// A send plus the counterpart's display name.
#[derive(Debug, Clone)]
pub struct GiftRecordView {
    pub record: GiftRecord,
    pub sender_username: String,
    /// `None` once the recipient's account is gone.
    pub recipient_username: Option<String>,
}

/// Outcome of a send.
#[derive(Debug, Clone)]
pub struct SendGiftResult {
    pub record: GiftRecord,
    /// The sender's balance after the debit.
    pub balance: i64,
    /// True when `request_id` matched an earlier send; nothing was charged.
    pub already_sent: bool,
}

/// Aggregate counters rendered on a profile.
#[derive(Debug, Clone, Copy, PartialEq, Eq, Structural)]
pub struct GiftStats {
    pub sent_count: i64,
    pub sent_points: i64,
    pub received_count: i64,
    /// Points the sends were worth, not points the account holds.
    pub received_points: i64,
}

impl Default for GiftStats {
    fn default() -> (r: Self)
        ensures
            r == (GiftStats { sent_count: 0, sent_points: 0, received_count: 0, received_points: 0 }),
    {
        GiftStats { sent_count: 0, sent_points: 0, received_count: 0, received_points: 0 }
    }
}

/// Which side of a send a listing is about.
#[derive(Debug, Clone, Copy, PartialEq, Eq, Structural)]
pub enum GiftRecordDirection {
    Sent,
    Received,
}

impl GiftRecordDirection {
    pub open spec fn word(self) -> Seq<char> {
        match self {
            GiftRecordDirection::Sent => "sent"@,
            GiftRecordDirection::Received => "received"@,
        }
    }

    pub open spec fn from_word(word: Seq<char>) -> Option<GiftRecordDirection> {
        if word == "sent"@ {
            Some(GiftRecordDirection::Sent)
        } else if word == "received"@ {
            Some(GiftRecordDirection::Received)
        } else {
            None
        }
    }

    pub fn as_str(self) -> (r: &'static str)
        ensures
            r@ == self.word(),
    {
        match self {
            GiftRecordDirection::Sent => "sent",
            GiftRecordDirection::Received => "received",
        }
    }

    /// Reads a direction from text, ignoring surrounding white space and
    /// ASCII case; "invalid gift record direction: <word>" otherwise.
    pub fn parse(value: &str) -> (r: Result<GiftRecordDirection, String>)
        ensures
            match Self::from_word(enum_word(value@)) {
                Some(d) => r == Ok::<GiftRecordDirection, String>(d),
                None => r matches Err(m) && m@ == "invalid gift record direction: "@
                    + enum_word(value@),
            },
    {
        let word = enum_word_of(value);
        if same_text(word.as_str(), "sent") {
            Ok(GiftRecordDirection::Sent)
        } else if same_text(word.as_str(), "received") {
            Ok(GiftRecordDirection::Received)
        } else {
            let mut m = String::from_str("invalid gift record direction: ");
            m.append(word.as_str());
            Err(m)
        }
    }

    /// True when the listing matches on the recipient column.
    pub fn is_received(self) -> (r: bool)
        ensures
            r == (self == GiftRecordDirection::Received),
    {
        match self {
            GiftRecordDirection::Received => true,
            GiftRecordDirection::Sent => false,
        }
    }
}

impl Default for GiftRecordDirection {
    fn default() -> (r: Self)
        ensures
            r == GiftRecordDirection::Sent,
    {
        GiftRecordDirection::Sent
    }
}

impl std::str::FromStr for GiftRecordDirection {
    type Err = String;

    fn from_str(value: &str) -> (r: Result<Self, Self::Err>)
        ensures
            match Self::from_word(enum_word(value@)) {
                Some(d) => r == Ok::<Self, String>(d),
                None => r matches Err(m) && m@ == "invalid gift record direction: "@
                    + enum_word(value@),
            },
    {
        Self::parse(value)
    }
}


/// A direction's word reads back as that direction.
pub proof fn record_direction_words_read_back(direction: GiftRecordDirection)
    ensures
        GiftRecordDirection::from_word(enum_word(direction.word())) == Some(direction),
{
    reveal_strlit("sent");
    reveal_strlit("received");
    lemma_plain_word_reads_as_itself(direction.word());
}

/// A catalog edit is empty only when it sets nothing: setting any one
/// field, enabling or disabling included, makes it an edit to write; and the
/// edit that sets nothing is the only empty one.
pub proof fn a_gift_update_setting_a_field_is_not_empty(update: GiftUpdate)
    ensures
        update.name is Some ==> !update.spec_is_empty(),
        update.description is Some ==> !update.spec_is_empty(),
        update.icon is Some ==> !update.spec_is_empty(),
        update.price_points is Some ==> !update.spec_is_empty(),
        update.sort_order is Some ==> !update.spec_is_empty(),
        update.is_enabled is Some ==> !update.spec_is_empty(),
        update.spec_is_empty() <==> update == (GiftUpdate {
            name: None,
            description: None,
            icon: None,
            price_points: None,
            sort_order: None,
            is_enabled: None,
        }),
{
}

} // verus!
