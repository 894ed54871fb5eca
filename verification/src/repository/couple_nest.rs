//! Reading couple-space rows back, and the flags an edit of a to-do item is
//! written with.

use vstd::prelude::*;

use crate::calendar::CivilDate;
use crate::error::Error;
use crate::ids::UserId;
use crate::models::couple_nest::{CoupleAiKind, CoupleMediaKind, CoupleTodoUpdate};
use crate::text::{append_signed_decimal, signed_decimal_spec};

verus! {

/// A stored media kind. The column's CHECK keeps it in range, so a value
/// outside means a hand-written row: "stored couple media kind is invalid:
/// <n>".
pub fn stored_media_kind(code: i16) -> (r: Result<CoupleMediaKind, Error>)
    ensures
        code == 1 ==> r == Ok::<CoupleMediaKind, Error>(CoupleMediaKind::Photo),
        code == 2 ==> r == Ok::<CoupleMediaKind, Error>(CoupleMediaKind::Video),
        code != 1 && code != 2 ==> (r matches Err(e) && e.is_internal_with(
            "stored couple media kind is invalid: "@ + signed_decimal_spec(code as int),
        )),
{
    match CoupleMediaKind::from_i16(code) {
        Some(kind) => Ok(kind),
        None => {
            let mut m = String::from_str("stored couple media kind is invalid: ");
            append_signed_decimal(&mut m, code as i64);
            Err(Error::Internal(m))
        },
    }
}

/// A stored AI work kind; "stored couple AI kind is invalid: <n>" outside
/// the known codes.
pub fn stored_ai_kind(code: i16) -> (r: Result<CoupleAiKind, Error>)
    ensures
        code == 1 ==> r == Ok::<CoupleAiKind, Error>(CoupleAiKind::DatePlan),
        code == 2 ==> r == Ok::<CoupleAiKind, Error>(CoupleAiKind::Diary),
        code == 3 ==> r == Ok::<CoupleAiKind, Error>(CoupleAiKind::LoveLetter),
        !(1 <= code <= 3) ==> (r matches Err(e) && e.is_internal_with(
            "stored couple AI kind is invalid: "@ + signed_decimal_spec(code as int),
        )),
{
    match CoupleAiKind::from_i16(code) {
        Some(kind) => Ok(kind),
        None => {
            let mut m = String::from_str("stored couple AI kind is invalid: ");
            append_signed_decimal(&mut m, code as i64);
            Err(Error::Internal(m))
        },
    }
}

/// What the to-do update statement is told besides the texts: whether to
/// clear the plan date, the date to set, and whether to tick the item in the
/// actor's name or clear its tick.
#[derive(Debug, Clone, Copy, PartialEq, Eq, Structural)]
pub struct TodoWriteFlags {
    pub clear_plan_date: bool,
    pub plan_date: Option<CivilDate>,
    pub set_done: bool,
    pub clear_done: bool,
}

/// The flags of an edit. `Some(None)` for the date is the one way to clear
/// it, which a plain "keep unless given" cannot express; the tick has three
/// states: set, clear, leave.
pub open spec fn todo_flags_of(update: CoupleTodoUpdate) -> TodoWriteFlags {
    TodoWriteFlags {
        clear_plan_date: update.plan_date == Some(None::<CivilDate>),
        plan_date: match update.plan_date {
            Some(Some(d)) => Some(d),
            _ => None::<CivilDate>,
        },
        set_done: update.done == Some(true),
        clear_done: update.done == Some(false),
    }
}

/// The flags of an edit (see [`todo_flags_of`]).
pub fn todo_write_flags(update: &CoupleTodoUpdate) -> (r: TodoWriteFlags)
    ensures
        r == todo_flags_of(*update),
{
    let clear_plan_date = match &update.plan_date {
        Some(None) => true,
        _ => false,
    };
    let plan_date = match &update.plan_date {
        Some(Some(d)) => Some(*d),
        _ => None,
    };
    let (set_done, clear_done) = match update.done {
        Some(true) => (true, false),
        Some(false) => (false, true),
        None => (false, false),
    };
    TodoWriteFlags { clear_plan_date, plan_date, set_done, clear_done }
}

/// A to-do item's plan date and tick as the statement leaves them.
pub open spec fn todo_state_after(
    flags: TodoWriteFlags,
    plan_date: Option<CivilDate>,
    done_by: Option<UserId>,
    actor: UserId,
) -> (Option<CivilDate>, Option<UserId>) {
    let date = if flags.clear_plan_date {
        None
    } else {
        match flags.plan_date {
            Some(d) => Some(d),
            None => plan_date,
        }
    };
    let done = if flags.set_done {
        Some(actor)
    } else if flags.clear_done {
        None
    } else {
        done_by
    };
    (date, done)
}

/// An edit sets what it carries and nothing else: a date it names is
/// stored, `Some(None)` clears it, an absent one leaves it; a tick is
/// recorded in the actor's name, an untick clears it, an absent one leaves it.
pub proof fn todo_edits_touch_only_what_they_carry(
    update: CoupleTodoUpdate,
    plan_date: Option<CivilDate>,
    done_by: Option<UserId>,
    actor: UserId,
)
    ensures
        todo_state_after(todo_flags_of(update), plan_date, done_by, actor).0 == match update.plan_date {
            Some(p) => p,
            None => plan_date,
        },
        todo_state_after(todo_flags_of(update), plan_date, done_by, actor).1 == match update.done {
            Some(true) => Some(actor),
            Some(false) => None::<UserId>,
            None => done_by,
        },
{
}

} // verus!
