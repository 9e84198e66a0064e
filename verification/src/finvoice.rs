//! The program's instructions, as its clients call them.

use vstd::prelude::*;

use crate::clock::Timed;
use crate::error::{FinvoiceError, InstructionError};
use crate::instructions::attest_invoice::{attest_invoice as attest_invoice_handler, attest_outcome, AttestInvoice, InvoiceAttested};
use crate::instructions::initialize_invoice::{
    initialize_instruction_outcome, initialize_invoice as initialize_invoice_handler, InitializeInvoice, InitializeOutcome,
};
use crate::instructions::list_invoice::{list_instruction_outcome, list_invoice_fn, InvoiceListed, ListInvoice};
use crate::instructions::mark_default::{mark_default as mark_default_handler, mark_default_instruction_outcome, MarkDefault};
use crate::pubkey::Pubkey;

verus! {

/// Creates an invoice: see [`crate::instructions::initialize_invoice`].
pub fn initialize_invoice(
    ctx: &mut InitializeInvoice,
    payer: Option<Pubkey>,
    invoice_amount: u64,
    currency: u16,
    due_date: i64,
    ipfs_cid: [u8; 46],
) -> (r: Result<Timed<InitializeOutcome>, InstructionError>)
    ensures
        initialize_instruction_outcome(*old(ctx), *final(ctx), payer, invoice_amount, currency, due_date, ipfs_cid, r),
{
    initialize_invoice_handler(ctx, payer, invoice_amount, currency, due_date, ipfs_cid)
}

/// Records an attestation: see [`crate::instructions::attest_invoice`].
pub fn attest_invoice(ctx: &mut AttestInvoice, attestor_sig: [u8; 64]) -> (r: Result<InvoiceAttested, FinvoiceError>)
    ensures
        attest_outcome(*old(ctx), *final(ctx), attestor_sig, r),
{
    attest_invoice_handler(ctx, attestor_sig)
}

/// Lists an invoice for sale: see [`crate::instructions::list_invoice`].
pub fn list_invoice(ctx: &mut ListInvoice, price: u64, expiry: i64) -> (r: Result<Timed<InvoiceListed>, InstructionError>)
    ensures
        list_instruction_outcome(*old(ctx), *final(ctx), price, expiry, r),
{
    list_invoice_fn(ctx, price, expiry)
}

/// Marks an invoice as defaulted: see [`crate::instructions::mark_default`].
pub fn mark_default(ctx: &mut MarkDefault) -> (r: Result<Timed<()>, InstructionError>)
    ensures
        mark_default_instruction_outcome(*old(ctx), *final(ctx), r),
{
    mark_default_handler(ctx)
}

} // verus!
