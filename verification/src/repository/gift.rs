//! A gift send moves points between two accounts inside one transaction: the
//! balance row is locked, the debit is refused if it would overdraw, and only
//! then are the ledger rows and the gift record written. This is that
//! transaction's arithmetic.

use vstd::prelude::*;

use crate::error::{conflict, internal, not_found, Error};
use crate::ids::UnixSeconds;
use crate::models::gift::{Gift, GiftRecord, SendGift, SendGiftResult};
use crate::repository::check_in::{totals_or_zero, PointTotals};

verus! {

/// The catalog entry as the transaction read it.
#[derive(Debug, Clone)]
pub struct GiftSnapshot {
    pub key: String,
    pub name: String,
    pub icon: String,
    pub price_points: i32,
    pub is_enabled: bool,
}

/// One ledger row: the signed movement and the balance it left.
#[derive(Debug, Clone, Copy, PartialEq, Eq, Structural)]
pub struct LedgerMove {
    pub delta: i64,
    pub balance_after: i64,
}

/// What a send writes: the total charged, the sender's balance afterwards,
/// and the two ledger rows (absent for a free gift, which moves nothing).
#[derive(Debug, Clone, Copy, PartialEq, Eq, Structural)]
pub struct GiftTransfer {
    pub total: i64,
    pub sender_balance: i64,
    /// The sender's debit, reason `gift_send`.
    pub debit: Option<LedgerMove>,
    /// The recipient's credit, reason `gift_receive`.
    pub credit: Option<LedgerMove>,
}

/// The points a send of `quantity` copies costs.
pub open spec fn gift_total(price_points: int, quantity: int) -> int {
    price_points * quantity
}

/// What a send of an enabled entry priced at `price_points` does to the
/// balances read under lock: the transfer written, or the refusal.
pub open spec fn transfer_outcome(
    price_points: int,
    quantity: int,
    sender_balance: Option<i64>,
    recipient_balance: Option<i64>,
    r: Result<GiftTransfer, Error>,
) -> bool {
    let total = gift_total(price_points, quantity);
    let recipient_before = match recipient_balance {
        Some(b) => b as int,
        None => 0,
    };
    if total > 0 {
        match sender_balance {
            Some(b) => if b < total {
                r is Err && r->Err_0.is_conflict_with("insufficient points for this gift"@)
            } else if recipient_before + total > i64::MAX {
                r is Err && r->Err_0.is_internal_with("point balance is out of range"@)
            } else {
                r == Ok::<GiftTransfer, Error>(
                    GiftTransfer {
                        total: total as i64,
                        sender_balance: (b - total) as i64,
                        debit: Some(
                            LedgerMove { delta: -total as i64, balance_after: (b - total) as i64 },
                        ),
                        credit: Some(
                            LedgerMove {
                                delta: total as i64,
                                balance_after: (recipient_before + total) as i64,
                            },
                        ),
                    },
                )
            },
            None => r is Err && r->Err_0.is_conflict_with("insufficient points for this gift"@),
        }
    } else {
        r == Ok::<GiftTransfer, Error>(
            GiftTransfer {
                total: total as i64,
                sender_balance: match sender_balance {
                    Some(b) => b,
                    None => 0,
                },
                debit: None,
                credit: None,
            },
        )
    }
}

/// Plans a send against the balances read under lock: `sender_balance` is
/// the sender's row (absent when the account never earned a point) and
/// `recipient_balance` the recipient's.
///
/// A missing entry is "gift not found" and a disabled one "gift is no longer
/// available". A priced send needs a sender row holding at least the total
/// ("insufficient points for this gift"); it debits the sender and credits
/// the recipient the same amount. A free send moves nothing and reports the
/// sender's balance as read.
pub fn plan_gift_transfer(
    gift: &Option<GiftSnapshot>,
    quantity: i32,
    sender_balance: Option<i64>,
    recipient_balance: Option<i64>,
) -> (r: Result<GiftTransfer, Error>)
    ensures
        gift is None ==> r is Err && r->Err_0.is_not_found_with("gift not found"@),
        gift is Some && !gift->0.is_enabled ==> r is Err && r->Err_0.is_conflict_with(
            "gift is no longer available"@,
        ),
        gift is Some && gift->0.is_enabled ==> transfer_outcome(
            gift->0.price_points as int,
            quantity as int,
            sender_balance,
            recipient_balance,
            r,
        ),
{
    let g = match gift {
        Some(g) => g,
        None => return Err(not_found("gift not found")),
    };
    if !g.is_enabled {
        return Err(conflict("gift is no longer available"));
    }
    let price = g.price_points as i64;
    let copies = quantity as i64;
    assert(-0x8000_0000_0000_0000 < price * copies < 0x7fff_ffff_ffff_ffff) by (nonlinear_arith)
        requires
            -0x8000_0000 <= price < 0x8000_0000,
            -0x8000_0000 <= copies < 0x8000_0000,
    ;
    let total: i64 = price * copies;
    if total > 0 {
        let balance = match sender_balance {
            Some(b) => if b >= total {
                b
            } else {
                return Err(conflict("insufficient points for this gift"));
            },
            None => return Err(conflict("insufficient points for this gift")),
        };
        let after = balance - total;
        let recipient_before: i64 = match recipient_balance {
            Some(b) => b,
            None => 0,
        };
        if recipient_before > i64::MAX - total {
            return Err(internal("point balance is out of range"));
        }
        let recipient_after = recipient_before + total;
        Ok(GiftTransfer {
            total,
            sender_balance: after,
            debit: Some(LedgerMove { delta: -total, balance_after: after }),
            credit: Some(LedgerMove { delta: total, balance_after: recipient_after }),
        })
    } else {
        let balance = match sender_balance {
            Some(b) => b,
            None => 0,
        };
        Ok(GiftTransfer { total, sender_balance: balance, debit: None, credit: None })
    }
}

// -------------------------------------------------------------- catalog ------

/// A new entry's id. The key is chosen by an admin, so an insert the unique
/// key refused is a caller error: "gift key `<key>` is already used".
pub fn created_gift_id(inserted: Option<i64>, key: &str) -> (r: Result<i64, Error>)
    ensures
        match inserted {
            Some(id) => r == Ok::<i64, Error>(id),
            None => r matches Err(e) && e.is_already_exists_with(
                "gift key `"@ + key@ + "` is already used"@,
            ),
        },
{
    match inserted {
        Some(id) => Ok(id),
        None => {
            let mut m = String::from_str("gift key `");
            m.append(key);
            m.append("` is already used");
            Err(Error::AlreadyExists(m))
        },
    }
}

/// An edit or delete stands only when it matched a row; "gift not found"
/// otherwise.
pub fn gift_matched(rows_affected: u64) -> (r: Result<(), Error>)
    ensures
        r is Ok <==> rows_affected > 0,
        r matches Err(e) ==> e.is_not_found_with("gift not found"@),
{
    if rows_affected == 0 {
        return Err(not_found("gift not found"));
    }
    Ok(())
}

/// A sent gift stays in the catalog so its records keep reading: "gift has
/// already been sent; disable it instead of deleting it".
pub fn gift_deletable(already_sent: bool) -> (r: Result<(), Error>)
    ensures
        r is Ok <==> !already_sent,
        r matches Err(e) ==> e.is_conflict_with(
            "gift has already been sent; disable it instead of deleting it"@,
        ),
{
    if already_sent {
        return Err(conflict("gift has already been sent; disable it instead of deleting it"));
    }
    Ok(())
}

/// The entry read back after a write; gone means the write raced a delete:
/// "inserted gift disappeared" or "updated gift disappeared".
pub fn gift_read_back(found: Option<Gift>, after_insert: bool) -> (r: Result<Gift, Error>)
    ensures
        match found {
            Some(g) => r == Ok::<Gift, Error>(g),
            None => r matches Err(e) && e.is_internal_with(
                if after_insert {
                    "inserted gift disappeared"@
                } else {
                    "updated gift disappeared"@
                },
            ),
        },
{
    match found {
        Some(g) => Ok(g),
        None => if after_insert {
            Err(internal("inserted gift disappeared"))
        } else {
            Err(internal("updated gift disappeared"))
        },
    }
}

// ------------------------------------------------------------ first send ------

/// The recipient's balance before a send, read off its stored totals.
pub open spec fn balance_of(totals: Option<PointTotals>) -> Option<i64> {
    match totals {
        Some(t) => Some(t.balance),
        None => None,
    }
}

/// The recipient's stored totals after a credit: the balance the ledger row
/// records, and the lifetime earnings as they were (zero without a row) —
/// points received as a gift are not points earned.
pub open spec fn credited_totals_spec(before: Option<PointTotals>, credit: LedgerMove) -> PointTotals {
    PointTotals { balance: credit.balance_after, total_earned: totals_or_zero(before).total_earned }
}

/// The recipient's totals to store after a credit (see
/// [`credited_totals_spec`]).
pub fn credited_totals(before: Option<PointTotals>, credit: LedgerMove) -> (r: PointTotals)
    ensures
        r == credited_totals_spec(before, credit),
{
    let total_earned = match before {
        Some(t) => t.total_earned,
        None => 0,
    };
    PointTotals { balance: credit.balance_after, total_earned }
}

/// The answer to a first send: a record that keeps the catalog entry's key,
/// name, icon and price as they were when it was charged, the request's
/// parties, room, quantity and message, the transfer's total, the stored id,
/// debit and time; the sender's balance after the transfer; not a repeat.
pub open spec fn sent_gift_spec(
    request: SendGift,
    gift: GiftSnapshot,
    transfer: GiftTransfer,
    id: i64,
    transaction_id: Option<i64>,
    created_at: UnixSeconds,
) -> SendGiftResult {
    SendGiftResult {
        record: GiftRecord {
            id,
            sender_id: request.sender_id,
            recipient_id: Some(request.recipient_id),
            room_id: request.room_id,
            gift_id: request.gift_id,
            gift_key: gift.key,
            gift_name: gift.name,
            gift_icon: gift.icon,
            unit_price_points: gift.price_points,
            quantity: request.quantity,
            total_points: transfer.total,
            transaction_id,
            message: request.message,
            created_at,
        },
        balance: transfer.sender_balance,
        already_sent: false,
    }
}

/// Builds the answer to a first send (see [`sent_gift_spec`]).
pub fn sent_gift(
    request: SendGift,
    gift: GiftSnapshot,
    transfer: GiftTransfer,
    id: i64,
    transaction_id: Option<i64>,
    created_at: UnixSeconds,
) -> (r: SendGiftResult)
    ensures
        r == sent_gift_spec(request, gift, transfer, id, transaction_id, created_at),
{
    let SendGift { sender_id, recipient_id, room_id, gift_id, quantity, message, request_id: _ } =
        request;
    let GiftSnapshot { key, name, icon, price_points, is_enabled: _ } = gift;
    SendGiftResult {
        record: GiftRecord {
            id,
            sender_id,
            recipient_id: Some(recipient_id),
            room_id,
            gift_id,
            gift_key: key,
            gift_name: name,
            gift_icon: icon,
            unit_price_points: price_points,
            quantity,
            total_points: transfer.total,
            transaction_id,
            message,
            created_at,
        },
        balance: transfer.sender_balance,
        already_sent: false,
    }
}

// -------------------------------------------------------------- showcase ------

/// One kind of gift on a profile's shelf, with the senders aggregated away.
#[derive(Debug, Clone)]
pub struct GiftShowcaseEntry {
    pub gift_key: String,
    pub gift_name: String,
    pub gift_icon: String,
    pub quantity: i64,
    pub total_points: i64,
    pub last_received_at: UnixSeconds,
}

/// The totals under the shelf, over every gift received rather than only the
/// kinds that fit on the page.
#[derive(Debug, Clone)]
pub struct GiftShowcase {
    pub entries: Vec<GiftShowcaseEntry>,
    pub total_quantity: i64,
    pub total_points: i64,
}

// --------------------------------------------------------------- replay ------

/// The answer to a send whose request id is already on file: the first
/// send's record, the sender's balance as it stands (0 without a balance
/// row), and marked as a repeat. Nothing is charged.
pub open spec fn replayed_send_spec(first: GiftRecord, balance: Option<i64>) -> SendGiftResult {
    SendGiftResult {
        record: first,
        balance: match balance {
            Some(b) => b,
            None => 0,
        },
        already_sent: true,
    }
}

/// The answer to a retried send (see [`replayed_send_spec`]).
pub fn replayed_send(first: GiftRecord, balance: Option<i64>) -> (r: SendGiftResult)
    ensures
        r == replayed_send_spec(first, balance),
{
    let balance = match balance {
        Some(b) => b,
        None => 0,
    };
    SendGiftResult { record: first, balance, already_sent: true }
}

// ------------------------------------------------------------------ laws ----

/// A send transfers rather than burns: the debit and the credit net to zero,
/// the sender never goes below zero, and each side moves by exactly the
/// total; a free send writes no ledger row at all.
pub proof fn a_send_conserves_points(
    price_points: i32,
    quantity: i32,
    sender_balance: Option<i64>,
    recipient_balance: Option<i64>,
    r: Result<GiftTransfer, Error>,
)
    requires
        transfer_outcome(price_points as int, quantity as int, sender_balance, recipient_balance, r),
    ensures
        r matches Ok(t) ==> {
            &&& (t.debit is Some <==> t.credit is Some)
            &&& (t.debit is Some <==> t.total > 0)
            &&& (t.debit is Some ==> t.sender_balance >= 0)
            &&& (t.debit matches Some(d) ==> d.delta + t.credit->0.delta == 0 && d.delta
                == -t.total && d.balance_after == t.sender_balance)
            &&& (t.debit is Some ==> sender_balance is Some && t.sender_balance
                == sender_balance->0 - t.total)
            &&& (t.credit matches Some(c) ==> c.balance_after == (match recipient_balance {
                Some(b) => b as int,
                None => 0,
            }) + t.total)
        },
        gift_total(price_points as int, quantity as int) > 0 && (sender_balance is None
            || sender_balance->0 < gift_total(price_points as int, quantity as int)) ==> r is Err,
{
    let p = price_points as int;
    let q = quantity as int;
    assert(-0x8000_0000_0000_0000 < p * q < 0x7fff_ffff_ffff_ffff) by (nonlinear_arith)
        requires
            -0x8000_0000 <= p < 0x8000_0000,
            -0x8000_0000 <= q < 0x8000_0000,
    ;
}


/// A retried send charges nothing: it answers with the first send's record,
/// marked as a repeat, and with the balance the first send left, which is the
/// balance before it less the total once, not twice.
pub proof fn a_retried_send_charges_nothing(
    price_points: i32,
    quantity: i32,
    sender_balance: Option<i64>,
    recipient_balance: Option<i64>,
    first: GiftTransfer,
    record: GiftRecord,
)
    requires
        transfer_outcome(
            price_points as int,
            quantity as int,
            sender_balance,
            recipient_balance,
            Ok::<GiftTransfer, Error>(first),
        ),
    ensures
        replayed_send_spec(record, Some(first.sender_balance)).record == record,
        replayed_send_spec(record, Some(first.sender_balance)).already_sent,
        replayed_send_spec(record, Some(first.sender_balance)).balance == first.sender_balance,
        first.total > 0 ==> replayed_send_spec(record, Some(first.sender_balance)).balance
            == sender_balance->0 - first.total,
        first.total <= 0 ==> replayed_send_spec(record, Some(first.sender_balance)).balance
            == match sender_balance {
            Some(b) => b,
            None => 0,
        },
{
    let p = price_points as int;
    let q = quantity as int;
    assert(-0x8000_0000_0000_0000 < p * q < 0x7fff_ffff_ffff_ffff) by (nonlinear_arith)
        requires
            -0x8000_0000 <= p < 0x8000_0000,
            -0x8000_0000 <= q < 0x8000_0000,
    ;
}

/// A priced first send of an enabled entry records that entry as it was
/// charged: its key, name, icon and price, the quantity asked for, and a
/// total of price times quantity, never marked as a repeat. The sender keeps
/// the balance less that total and the recipient gains exactly it, so the two
/// balances sum as before; the recipient's lifetime earnings do not move.
pub proof fn a_send_records_the_entry_it_charged(
    request: SendGift,
    gift: GiftSnapshot,
    sender_balance: Option<i64>,
    recipient_totals: Option<PointTotals>,
    transfer: GiftTransfer,
    id: i64,
    transaction_id: Option<i64>,
    created_at: UnixSeconds,
)
    requires
        gift_total(gift.price_points as int, request.quantity as int) > 0,
        transfer_outcome(
            gift.price_points as int,
            request.quantity as int,
            sender_balance,
            balance_of(recipient_totals),
            Ok::<GiftTransfer, Error>(transfer),
        ),
    ensures
        ({
            let r = sent_gift_spec(request, gift, transfer, id, transaction_id, created_at);
            let total = gift_total(gift.price_points as int, request.quantity as int);
            let before = totals_or_zero(recipient_totals);
            let after = credited_totals_spec(recipient_totals, transfer.credit->0);
            &&& r.record.gift_key == gift.key
            &&& r.record.gift_name == gift.name
            &&& r.record.gift_icon == gift.icon
            &&& r.record.unit_price_points == gift.price_points
            &&& r.record.quantity == request.quantity
            &&& r.record.total_points == total
            &&& !r.already_sent
            &&& sender_balance is Some
            &&& r.balance == sender_balance->0 - total
            &&& after.balance == before.balance + total
            &&& r.balance + after.balance == sender_balance->0 + before.balance
            &&& after.total_earned == before.total_earned
        }),
{
    let p = gift.price_points as int;
    let q = request.quantity as int;
    assert(-0x8000_0000_0000_0000 < p * q < 0x7fff_ffff_ffff_ffff) by (nonlinear_arith)
        requires
            -0x8000_0000 <= p < 0x8000_0000,
            -0x8000_0000 <= q < 0x8000_0000,
    ;
}

} // verus!
