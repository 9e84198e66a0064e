use vstd::prelude::*;

use crate::clock::{clock_unix_timestamp, Timed};
use crate::error::{FinvoiceError, InstructionError};
use crate::state::{with_status, Invoice, InvoiceStatus};

verus! {

/// The accounts of a default.
#[derive(Clone, Copy, Debug, PartialEq, Eq)]
pub struct MarkDefault {
    pub invoice: Invoice,
}

/// The check of a default: `now` is past the due date.
pub open spec fn mark_default_check(invoice: Invoice, now: i64) -> Result<(), FinvoiceError> {
    if !(now > invoice.due_date) {
        Err(FinvoiceError::TooEarly)
    } else {
        Ok(())
    }
}

/// What a default does: on success the invoice is defaulted, whatever its
/// stage was; on refusal nothing changes.
pub open spec fn mark_default_outcome(pre: MarkDefault, post: MarkDefault, now: i64, r: Result<(), FinvoiceError>) -> bool {
    match r {
        Ok(_) => {
            &&& mark_default_check(pre.invoice, now) == Ok::<(), FinvoiceError>(())
            &&& post == (MarkDefault { invoice: with_status(pre.invoice, InvoiceStatus::Defaulted) })
        },
        Err(e) => {
            &&& mark_default_check(pre.invoice, now) == Err::<(), FinvoiceError>(e)
            &&& post == pre
        },
    }
}

/// Marks an invoice as defaulted once its due date has passed, given that
/// the cluster's clock reads `now`, in seconds since the Unix epoch.
pub fn mark_default_at(ctx: &mut MarkDefault, now: i64) -> (r: Result<(), FinvoiceError>)
    ensures
        mark_default_outcome(*old(ctx), *final(ctx), now, r),
{
    if !(now > ctx.invoice.due_date) {
        return Err(FinvoiceError::TooEarly);
    }
    ctx.invoice.status = InvoiceStatus::Defaulted.as_u8();
    Ok(())
}

/// What a default does, with the clock read from the runtime: a failed
/// read changes nothing; a success is what a default at the time read,
/// returned beside it, does; a refusal is what a default at some time
/// does.
pub open spec fn mark_default_instruction_outcome(pre: MarkDefault, post: MarkDefault, r: Result<Timed<()>, InstructionError>) -> bool {
    match r {
        Err(InstructionError::Program(_)) => post == pre,
        Err(InstructionError::Finvoice(e)) => exists|now: i64| #[trigger] mark_default_outcome(pre, post, now, Err(e)),
        Ok(t) => mark_default_outcome(pre, post, t.at@, Ok(())),
    }
}

/// Marks an invoice as defaulted once its due date has passed, reading the
/// time from the cluster's clock.
pub fn mark_default(ctx: &mut MarkDefault) -> (r: Result<Timed<()>, InstructionError>)
    ensures
        mark_default_instruction_outcome(*old(ctx), *final(ctx), r),
{
    let ghost pre = *ctx;
    let now = match clock_unix_timestamp() {
        Ok(t) => t,
        Err(e) => return Err(InstructionError::Program(e)),
    };
    match mark_default_at(ctx, now.unix_timestamp()) {
        Ok(()) => Ok(Timed { value: (), at: now }),
        Err(e) => {
            assert(mark_default_outcome(pre, *ctx, now@, Err(e)));
            Err(InstructionError::Finvoice(e))
        },
    }
}

} // verus!
