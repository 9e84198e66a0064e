use vstd::prelude::*;

use crate::accounts::{is_token_account_of, token_account_of, SignerInfo, TokenAccountInfo};
use crate::clock::{clock_unix_timestamp, Timed};
use crate::cpi::TokenMint;
use crate::error::{FinvoiceError, InstructionError};
use crate::pubkey::Pubkey;
use crate::state::{Invoice, InvoiceStatus};

verus! {

/// Reported when an invoice is created.
#[derive(Clone, Copy, Debug, PartialEq, Eq)]
pub struct InvoiceCreated {
    pub invoice: Pubkey,
    pub issuer: Pubkey,
    pub amount: u64,
    pub due_date: i64,
}

/// The accounts of an invoice's creation.
#[derive(Clone, Copy, Debug, PartialEq, Eq)]
pub struct InitializeInvoice {
    pub issuer: SignerInfo,
    /// The mint of the invoice's NFT.
    pub invoice_mint: Pubkey,
    /// The invoice account, freshly allocated.
    pub invoice: Invoice,
    /// The address of the invoice account.
    pub invoice_key: Pubkey,
    /// The escrow vault of the invoice.
    pub escrow_vault: Pubkey,
    /// The issuer's token account that receives the invoice's NFT.
    pub issuer_nft_ata: TokenAccountInfo,
}

/// The result of an invoice's creation: the mint of its NFT, to make, and
/// the event that reports it.
#[derive(Clone, Copy, Debug, PartialEq, Eq)]
pub struct InitializeOutcome {
    pub mint_nft: TokenMint,
    pub event: InvoiceCreated,
}

/// The mint of the invoice's one NFT into the issuer's token account,
/// signed by the issuer.
pub open spec fn invoice_nft_mint(ctx: InitializeInvoice) -> TokenMint {
    TokenMint { mint: ctx.invoice_mint, to: ctx.issuer_nft_ata.key, authority: ctx.issuer.key, amount: 1 }
}

/// The check of an invoice's creation: a positive amount, a due date after
/// `now`, the issuer's signature, and an NFT account of the issuer for the
/// invoice's mint; the first that fails gives the error.
pub open spec fn initialize_check(ctx: InitializeInvoice, invoice_amount: u64, due_date: i64, now: i64) -> Result<(), FinvoiceError> {
    if invoice_amount == 0 {
        Err(FinvoiceError::InvalidAmount)
    } else if due_date <= now {
        Err(FinvoiceError::InvalidDueDate)
    } else if !ctx.issuer.is_signer {
        Err(FinvoiceError::MissingIssuerSignature)
    } else if !is_token_account_of(ctx.issuer_nft_ata, ctx.invoice_mint, ctx.issuer.key) {
        Err(FinvoiceError::InvalidNftAccount)
    } else {
        Ok(())
    }
}

/// A new invoice: created at `now`, with no attestation yet (a zero
/// attestor address and a zero signature).
pub open spec fn new_invoice(
    issuer: Pubkey,
    payer: Option<Pubkey>,
    invoice_amount: u64,
    currency: u16,
    due_date: i64,
    mint: Pubkey,
    ipfs_cid: [u8; 46],
    now: i64,
) -> Invoice {
    Invoice {
        issuer,
        payer,
        invoice_amount,
        currency,
        due_date,
        status: InvoiceStatus::Created.spec_as_u8(),
        mint_pubkey: mint,
        ipfs_cid,
        attestor_pubkey: Pubkey::spec_zero(),
        attestor_sig: vstd::array::spec_array_fill_for_copy_type::<u8, 64>(0u8),
        created_at: now,
    }
}

/// What an invoice's creation does: on success it fills the invoice account,
/// mints the invoice's NFT to the issuer and reports the invoice; on refusal
/// it changes nothing.
pub open spec fn initialize_outcome(
    pre: InitializeInvoice,
    post: InitializeInvoice,
    payer: Option<Pubkey>,
    invoice_amount: u64,
    currency: u16,
    due_date: i64,
    ipfs_cid: [u8; 46],
    now: i64,
    r: Result<InitializeOutcome, FinvoiceError>,
) -> bool {
    match r {
        Ok(out) => {
            &&& initialize_check(pre, invoice_amount, due_date, now) == Ok::<(), FinvoiceError>(())
            &&& post == (InitializeInvoice {
                invoice: new_invoice(pre.issuer.key, payer, invoice_amount, currency, due_date, pre.invoice_mint, ipfs_cid, now),
                ..pre
            })
            &&& out.mint_nft == invoice_nft_mint(pre)
            &&& is_token_account_of(pre.issuer_nft_ata, pre.invoice_mint, pre.issuer.key)
            &&& out.event == (InvoiceCreated { invoice: pre.invoice_key, issuer: pre.issuer.key, amount: invoice_amount, due_date })
        },
        Err(e) => {
            &&& initialize_check(pre, invoice_amount, due_date, now) == Err::<(), FinvoiceError>(e)
            &&& post == pre
        },
    }
}

/// Creates an invoice due at `due_date`, for `invoice_amount` in
/// `currency`, whose document is at `ipfs_cid`, and returns the mint of its
/// NFT to the issuer, given that the cluster's
/// clock reads `now`, in seconds since the Unix epoch.
pub fn initialize_invoice_at(
    ctx: &mut InitializeInvoice,
    payer: Option<Pubkey>,
    invoice_amount: u64,
    currency: u16,
    due_date: i64,
    ipfs_cid: [u8; 46],
    now: i64,
) -> (r: Result<InitializeOutcome, FinvoiceError>)
    ensures
        initialize_outcome(*old(ctx), *final(ctx), payer, invoice_amount, currency, due_date, ipfs_cid, now, r),
{
    if !(invoice_amount > 0) {
        return Err(FinvoiceError::InvalidAmount);
    }
    if !(due_date > now) {
        return Err(FinvoiceError::InvalidDueDate);
    }
    if !ctx.issuer.is_signer {
        return Err(FinvoiceError::MissingIssuerSignature);
    }
    if !token_account_of(&ctx.issuer_nft_ata, &ctx.invoice_mint, &ctx.issuer.key) {
        return Err(FinvoiceError::InvalidNftAccount);
    }
    ctx.invoice.issuer = ctx.issuer.key;
    ctx.invoice.payer = payer;
    ctx.invoice.invoice_amount = invoice_amount;
    ctx.invoice.currency = currency;
    ctx.invoice.due_date = due_date;
    ctx.invoice.status = InvoiceStatus::Created.as_u8();
    ctx.invoice.mint_pubkey = ctx.invoice_mint;
    ctx.invoice.ipfs_cid = ipfs_cid;
    ctx.invoice.attestor_pubkey = Pubkey::default();
    ctx.invoice.attestor_sig = [0u8; 64];
    ctx.invoice.created_at = now;
    let mint_nft = TokenMint { mint: ctx.invoice_mint, to: ctx.issuer_nft_ata.key, authority: ctx.issuer.key, amount: 1 };
    let event = InvoiceCreated {
        invoice: ctx.invoice_key,
        issuer: ctx.invoice.issuer,
        amount: ctx.invoice.invoice_amount,
        due_date: ctx.invoice.due_date,
    };
    Ok(InitializeOutcome { mint_nft, event })
}

/// What an invoice's creation does, with the clock read from the runtime:
/// a failed read changes nothing; a success is what a creation at the time
/// read, returned beside it, does (that time becomes the creation time); a
/// refusal is what a creation at some time does.
pub open spec fn initialize_instruction_outcome(
    pre: InitializeInvoice,
    post: InitializeInvoice,
    payer: Option<Pubkey>,
    invoice_amount: u64,
    currency: u16,
    due_date: i64,
    ipfs_cid: [u8; 46],
    r: Result<Timed<InitializeOutcome>, InstructionError>,
) -> bool {
    match r {
        Err(InstructionError::Program(_)) => post == pre && invoice_amount > 0,
        Err(InstructionError::Finvoice(e)) => exists|now: i64|
            #[trigger] initialize_outcome(pre, post, payer, invoice_amount, currency, due_date, ipfs_cid, now, Err(e)),
        Ok(t) => initialize_outcome(pre, post, payer, invoice_amount, currency, due_date, ipfs_cid, t.at@, Ok(t.value)),
    }
}

/// Creates an invoice due at `due_date`, for `invoice_amount` in
/// `currency`, whose document is at `ipfs_cid`, and returns the mint of its
/// NFT to the issuer, reading the time from the
/// cluster's clock once the amount is known to be positive. The clock is
/// read once: within an instruction the Clock sysvar does not change.
pub fn initialize_invoice(
    ctx: &mut InitializeInvoice,
    payer: Option<Pubkey>,
    invoice_amount: u64,
    currency: u16,
    due_date: i64,
    ipfs_cid: [u8; 46],
) -> (r: Result<Timed<InitializeOutcome>, InstructionError>)
    ensures
        initialize_instruction_outcome(*old(ctx), *final(ctx), payer, invoice_amount, currency, due_date, ipfs_cid, r),
{
    if !(invoice_amount > 0) {
        proof {
            let pre = *ctx;
            assert(initialize_outcome(pre, pre, payer, invoice_amount, currency, due_date, ipfs_cid, 0, Err(FinvoiceError::InvalidAmount)));
        }
        return Err(InstructionError::Finvoice(FinvoiceError::InvalidAmount));
    }
    let now = match clock_unix_timestamp() {
        Ok(t) => t,
        Err(e) => return Err(InstructionError::Program(e)),
    };
    match initialize_invoice_at(ctx, payer, invoice_amount, currency, due_date, ipfs_cid, now.unix_timestamp()) {
        Ok(out) => Ok(Timed { value: out, at: now }),
        Err(e) => Err(InstructionError::Finvoice(e)),
    }
}

} // verus!
