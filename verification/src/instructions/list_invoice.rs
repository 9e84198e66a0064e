use vstd::prelude::*;

use crate::accounts::SignerInfo;
use crate::clock::{clock_unix_timestamp, Timed};
use crate::error::{FinvoiceError, InstructionError};
use crate::pubkey::Pubkey;
use crate::state::{has_status, with_status, Invoice, InvoiceStatus, Listing};

verus! {

/// Reported when an invoice is put up for sale.
#[derive(Clone, Copy, Debug, PartialEq, Eq)]
pub struct InvoiceListed {
    pub invoice: Pubkey,
    pub seller: Pubkey,
    pub price: u64,
    pub expiry: i64,
}

/// The accounts of a listing.
#[derive(Clone, Copy, Debug, PartialEq, Eq)]
pub struct ListInvoice {
    pub issuer: SignerInfo,
    pub invoice: Invoice,
    /// The address of the invoice account.
    pub invoice_key: Pubkey,
    /// The listing account, freshly allocated.
    pub listing: Listing,
}

/// The check of a listing: the invoice is created, the issuer signed, the
/// price is positive and the expiry is after `now`; the first that fails
/// gives the error.
pub open spec fn list_check(invoice: Invoice, issuer: SignerInfo, price: u64, expiry: i64, now: i64) -> Result<(), FinvoiceError> {
    if !has_status(invoice, InvoiceStatus::Created) {
        Err(FinvoiceError::InvalidStatus)
    } else if !issuer.is_signer {
        Err(FinvoiceError::MissingIssuerSignature)
    } else if price == 0 {
        Err(FinvoiceError::InsufficientPayment)
    } else if expiry <= now {
        Err(FinvoiceError::InvalidDueDate)
    } else {
        Ok(())
    }
}

/// What a listing does: on success it fills the listing account, marks the
/// invoice listed and reports the offer; on refusal it changes nothing.
pub open spec fn list_outcome(
    pre: ListInvoice,
    post: ListInvoice,
    price: u64,
    expiry: i64,
    now: i64,
    r: Result<InvoiceListed, FinvoiceError>,
) -> bool {
    match r {
        Ok(event) => {
            &&& list_check(pre.invoice, pre.issuer, price, expiry, now) == Ok::<(), FinvoiceError>(())
            &&& post == (ListInvoice {
                invoice: with_status(pre.invoice, InvoiceStatus::Listed),
                listing: Listing { invoice: pre.invoice_key, price, expiry, seller: pre.issuer.key },
                ..pre
            })
            &&& event == (InvoiceListed { invoice: pre.invoice_key, seller: pre.issuer.key, price, expiry })
        },
        Err(e) => {
            &&& list_check(pre.invoice, pre.issuer, price, expiry, now) == Err::<(), FinvoiceError>(e)
            &&& post == pre
        },
    }
}

/// Puts a created invoice up for sale at `price` until `expiry`, given that
/// the cluster's clock reads `now`, in seconds since the Unix epoch.
pub fn list_invoice_at(ctx: &mut ListInvoice, price: u64, expiry: i64, now: i64) -> (r: Result<InvoiceListed, FinvoiceError>)
    ensures
        list_outcome(*old(ctx), *final(ctx), price, expiry, now, r),
{
    if !(ctx.invoice.status == InvoiceStatus::Created.as_u8()) {
        return Err(FinvoiceError::InvalidStatus);
    }
    if !ctx.issuer.is_signer {
        return Err(FinvoiceError::MissingIssuerSignature);
    }
    if !(price > 0) {
        return Err(FinvoiceError::InsufficientPayment);
    }
    if !(expiry > now) {
        return Err(FinvoiceError::InvalidDueDate);
    }
    ctx.listing.invoice = ctx.invoice_key;
    ctx.listing.price = price;
    ctx.listing.expiry = expiry;
    ctx.listing.seller = ctx.issuer.key;
    ctx.invoice.status = InvoiceStatus::Listed.as_u8();
    Ok(InvoiceListed { invoice: ctx.invoice_key, seller: ctx.issuer.key, price, expiry })
}

/// What a listing does, with the clock read from the runtime: a failed
/// read changes nothing, and happens only once the invoice, the signature
/// and the price have passed their checks; a success is what a listing at
/// the time read, returned beside it, does; a refusal is what a listing at
/// some time does.
pub open spec fn list_instruction_outcome(
    pre: ListInvoice,
    post: ListInvoice,
    price: u64,
    expiry: i64,
    r: Result<Timed<InvoiceListed>, InstructionError>,
) -> bool {
    match r {
        Err(InstructionError::Program(_)) => {
            &&& post == pre
            &&& has_status(pre.invoice, InvoiceStatus::Created)
            &&& pre.issuer.is_signer
            &&& price > 0
        },
        Err(InstructionError::Finvoice(e)) => exists|now: i64| #[trigger] list_outcome(pre, post, price, expiry, now, Err(e)),
        Ok(t) => list_outcome(pre, post, price, expiry, t.at@, Ok(t.value)),
    }
}

/// Puts a created invoice up for sale at `price` until `expiry`, reading
/// the time from the cluster's clock once the invoice, the signature and
/// the price have passed their checks.
pub fn list_invoice_fn(ctx: &mut ListInvoice, price: u64, expiry: i64) -> (r: Result<Timed<InvoiceListed>, InstructionError>)
    ensures
        list_instruction_outcome(*old(ctx), *final(ctx), price, expiry, r),
{
    let ghost pre = *ctx;
    if !(ctx.invoice.status == InvoiceStatus::Created.as_u8()) {
        assert(list_outcome(pre, *ctx, price, expiry, 0, Err(FinvoiceError::InvalidStatus)));
        return Err(InstructionError::Finvoice(FinvoiceError::InvalidStatus));
    }
    if !ctx.issuer.is_signer {
        assert(list_outcome(pre, *ctx, price, expiry, 0, Err(FinvoiceError::MissingIssuerSignature)));
        return Err(InstructionError::Finvoice(FinvoiceError::MissingIssuerSignature));
    }
    if !(price > 0) {
        assert(list_outcome(pre, *ctx, price, expiry, 0, Err(FinvoiceError::InsufficientPayment)));
        return Err(InstructionError::Finvoice(FinvoiceError::InsufficientPayment));
    }
    let now = match clock_unix_timestamp() {
        Ok(t) => t,
        Err(e) => return Err(InstructionError::Program(e)),
    };
    match list_invoice_at(ctx, price, expiry, now.unix_timestamp()) {
        Ok(event) => Ok(Timed { value: event, at: now }),
        Err(e) => {
            assert(list_outcome(pre, *ctx, price, expiry, now@, Err(e)));
            Err(InstructionError::Finvoice(e))
        },
    }
}

} // verus!
