//! Laws of the invoice lifecycle, over the contracts of the instructions.
//!
//! The status bytes are ordered as the lifecycle goes: created, listed,
//! funded, settled, defaulted. No instruction moves a valid status back.

use vstd::prelude::*;

use crate::accounts::{is_token_account_of, SignerInfo};
use crate::error::FinvoiceError;
use crate::instructions::attest_invoice::{attest_check, attest_outcome, AttestInvoice, InvoiceAttested};
use crate::cpi::{TokenTransfer, Transfer};
use crate::instructions::buy_invoice::{buy_check, buy_outcome, BuyInvoice, BuyOutcome};
use crate::instructions::initialize_invoice::{initialize_check, initialize_outcome, new_invoice, InitializeInvoice, InitializeOutcome};
use crate::instructions::list_invoice::{list_check, list_outcome, InvoiceListed, ListInvoice};
use crate::instructions::mark_default::{mark_default_check, mark_default_outcome, MarkDefault};
use crate::instructions::settle_invoice::{settle_check, settle_outcome, SettleInvoice, SettleOutcome};
use crate::pubkey::Pubkey;
use crate::state::{has_status, same_terms, status_is_valid, with_status, Invoice, InvoiceStatus};

verus! {

/// Each lifecycle stage has its own status byte, and the byte of a stage
/// reads back as that stage; no other byte stands for a stage.
pub proof fn lemma_status_bytes(s: InvoiceStatus, t: InvoiceStatus, b: u8)
    ensures
        s.spec_as_u8() == t.spec_as_u8() ==> s == t,
        InvoiceStatus::from_byte(s.spec_as_u8()) == Some(s),
        InvoiceStatus::from_byte(b) matches Some(u) ==> u.spec_as_u8() == b,
        InvoiceStatus::from_byte(b) is Some <==> b <= 4,
{
}

/// A new invoice is created, with a valid status, and no attestation; one
/// token of the invoice's mint, its NFT, is minted to the issuer.
pub proof fn lemma_created_invoice(
    pre: InitializeInvoice,
    post: InitializeInvoice,
    payer: Option<Pubkey>,
    invoice_amount: u64,
    currency: u16,
    due_date: i64,
    ipfs_cid: [u8; 46],
    now: i64,
    r: Result<InitializeOutcome, FinvoiceError>,
)
    requires
        initialize_outcome(pre, post, payer, invoice_amount, currency, due_date, ipfs_cid, now, r),
        r is Ok,
    ensures
        has_status(post.invoice, InvoiceStatus::Created),
        status_is_valid(post.invoice),
        post.invoice.invoice_amount > 0,
        post.invoice.due_date > post.invoice.created_at,
        post.invoice.issuer == pre.issuer.key,
        post.invoice.attestor_pubkey == Pubkey::spec_zero(),
        r->Ok_0.mint_nft.mint == post.invoice.mint_pubkey,
        r->Ok_0.mint_nft.amount == 1,
        r->Ok_0.mint_nft.to == pre.issuer_nft_ata.key,
        is_token_account_of(pre.issuer_nft_ata, post.invoice.mint_pubkey, post.invoice.issuer),
{
}

/// An attestation changes neither the stage nor the terms of an invoice;
/// it is accepted on created and listed invoices only.
pub proof fn lemma_attest_transition(pre: AttestInvoice, post: AttestInvoice, sig: [u8; 64], r: Result<InvoiceAttested, FinvoiceError>)
    requires
        attest_outcome(pre, post, sig, r),
    ensures
        r is Ok ==> has_status(pre.invoice, InvoiceStatus::Created) || has_status(pre.invoice, InvoiceStatus::Listed),
        post.invoice.status == pre.invoice.status,
        same_terms(pre.invoice, post.invoice),
        status_is_valid(pre.invoice) ==> status_is_valid(post.invoice),
        status_is_valid(pre.invoice) ==> pre.invoice.status <= post.invoice.status,
{
}

/// A listing takes a created invoice to listed, and keeps its terms and its
/// attestation.
pub proof fn lemma_list_transition(
    pre: ListInvoice,
    post: ListInvoice,
    price: u64,
    expiry: i64,
    now: i64,
    r: Result<InvoiceListed, FinvoiceError>,
)
    requires
        list_outcome(pre, post, price, expiry, now, r),
    ensures
        r is Ok ==> has_status(pre.invoice, InvoiceStatus::Created) && has_status(post.invoice, InvoiceStatus::Listed),
        r is Ok ==> post.listing.price > 0 && post.listing.expiry > now,
        same_terms(pre.invoice, post.invoice),
        post.invoice.attestor_pubkey == pre.invoice.attestor_pubkey,
        post.invoice.attestor_sig == pre.invoice.attestor_sig,
        status_is_valid(pre.invoice) ==> status_is_valid(post.invoice),
        status_is_valid(pre.invoice) ==> pre.invoice.status <= post.invoice.status,
{
}

/// A purchase takes a listed invoice to funded, for at least the listed
/// price, from a buyer other than the issuer; a payment in tokens goes to an
/// account of the escrow vault, and the invoice's NFT goes from an account
/// that holds it to the buyer's account; it keeps the terms and the
/// attestation.
pub proof fn lemma_buy_transition(pre: BuyInvoice, post: BuyInvoice, amount: u64, r: Result<BuyOutcome, FinvoiceError>)
    requires
        buy_outcome(pre, post, amount, r),
    ensures
        r is Ok ==> has_status(pre.invoice, InvoiceStatus::Listed) && has_status(post.invoice, InvoiceStatus::Funded),
        r is Ok ==> amount >= pre.listing.price && pre.buyer.key != pre.invoice.issuer,
        r is Ok && pre.payment_mint is Some ==> {
            &&& r->Ok_0.payment == Transfer::Token(
                TokenTransfer {
                    from: pre.buyer_token_account.unwrap().key,
                    to: pre.escrow_token_account.unwrap().key,
                    authority: pre.buyer.key,
                    amount,
                    signer: None,
                },
            )
            &&& is_token_account_of(pre.escrow_token_account.unwrap(), pre.buyer_token_account.unwrap().mint, pre.escrow_vault)
        },
        r is Ok ==> {
            &&& r->Ok_0.nft.amount == 1
            &&& r->Ok_0.nft.from == pre.seller_nft_ata.key
            &&& r->Ok_0.nft.to == pre.buyer_nft_ata.key
            &&& pre.seller_nft_ata.mint == pre.invoice.mint_pubkey
            &&& pre.seller_nft_ata.amount > 0
            &&& is_token_account_of(pre.buyer_nft_ata, pre.invoice.mint_pubkey, pre.buyer.key)
        },
        same_terms(pre.invoice, post.invoice),
        post.invoice.attestor_pubkey == pre.invoice.attestor_pubkey,
        post.invoice.attestor_sig == pre.invoice.attestor_sig,
        status_is_valid(pre.invoice) ==> status_is_valid(post.invoice),
        status_is_valid(pre.invoice) ==> pre.invoice.status <= post.invoice.status,
{
}

/// A settlement takes a funded invoice to settled, paying the escrow only
/// to the holder of the invoice's NFT, and keeps its terms and its
/// attestation.
pub proof fn lemma_settle_transition(pre: SettleInvoice, post: SettleInvoice, r: Result<SettleOutcome, FinvoiceError>)
    requires
        settle_outcome(pre, post, r),
    ensures
        r is Ok ==> has_status(pre.invoice, InvoiceStatus::Funded) && has_status(post.invoice, InvoiceStatus::Settled),
        r is Ok ==> {
            &&& pre.nft_holder.mint == pre.invoice.mint_pubkey
            &&& pre.nft_holder.amount > 0
            &&& pre.nft_holder.owner == pre.recipient
            &&& r->Ok_0.event.recipient == pre.recipient
        },
        r is Ok ==> match r->Ok_0.payout {
            Transfer::Token(t) => {
                &&& pre.payment_mint is Some
                &&& t.to == pre.recipient_token_account.unwrap().key
                &&& pre.recipient_token_account.unwrap().owner == pre.recipient
            },
            Transfer::System(st) => {
                &&& pre.payment_mint is None
                &&& st.instruction.accounts@[1].pubkey == pre.recipient
            },
        },
        same_terms(pre.invoice, post.invoice),
        post.invoice.attestor_pubkey == pre.invoice.attestor_pubkey,
        post.invoice.attestor_sig == pre.invoice.attestor_sig,
        status_is_valid(pre.invoice) ==> status_is_valid(post.invoice),
        status_is_valid(pre.invoice) ==> pre.invoice.status <= post.invoice.status,
{
}

/// A default takes an invoice past its due date, whatever its stage, to
/// defaulted, and keeps its terms and its attestation.
pub proof fn lemma_default_transition(pre: MarkDefault, post: MarkDefault, now: i64, r: Result<(), FinvoiceError>)
    requires
        mark_default_outcome(pre, post, now, r),
    ensures
        r is Ok <==> now > pre.invoice.due_date,
        r is Ok ==> has_status(post.invoice, InvoiceStatus::Defaulted),
        same_terms(pre.invoice, post.invoice),
        post.invoice.attestor_pubkey == pre.invoice.attestor_pubkey,
        post.invoice.attestor_sig == pre.invoice.attestor_sig,
        status_is_valid(pre.invoice) ==> status_is_valid(post.invoice),
        status_is_valid(pre.invoice) ==> pre.invoice.status <= post.invoice.status,
{
}

/// A settled or defaulted invoice is closed to trade: attestation, listing,
/// purchase and settlement all refuse it for its status.
pub proof fn lemma_closed_invoice(
    invoice: Invoice,
    attestor: SignerInfo,
    issuer: SignerInfo,
    price: u64,
    expiry: i64,
    now: i64,
    buy: BuyInvoice,
    amount: u64,
    settle: SettleInvoice,
)
    requires
        has_status(invoice, InvoiceStatus::Settled) || has_status(invoice, InvoiceStatus::Defaulted),
        buy.invoice == invoice,
        settle.invoice == invoice,
    ensures
        attest_check(invoice, attestor) == Err::<(), FinvoiceError>(FinvoiceError::InvalidStatus),
        list_check(invoice, issuer, price, expiry, now) == Err::<(), FinvoiceError>(FinvoiceError::InvalidStatus),
        buy_check(buy, amount) == Err::<(), FinvoiceError>(FinvoiceError::InvalidStatus),
        settle_check(settle) == Err::<(), FinvoiceError>(FinvoiceError::InvalidStatus),
{
}

/// The whole lifecycle goes through: an invoice created with a positive
/// amount and a future due date can be listed by a signing issuer at a
/// positive price until a later expiry, bought for at least that price by
/// anyone but the issuer (its NFT moving from the issuer to the buyer), and
/// settled to the holder of its NFT, where the token accounts are those of
/// the parties; it ends settled, with the terms it was created with.
pub proof fn lemma_full_lifecycle(
    init: InitializeInvoice,
    payer: Option<Pubkey>,
    invoice_amount: u64,
    currency: u16,
    due_date: i64,
    ipfs_cid: [u8; 46],
    created_at: i64,
    list: ListInvoice,
    price: u64,
    expiry: i64,
    listed_at: i64,
    buy: BuyInvoice,
    amount: u64,
    settle: SettleInvoice,
)
    requires
        invoice_amount > 0,
        due_date > created_at,
        init.issuer.is_signer,
        is_token_account_of(init.issuer_nft_ata, init.invoice_mint, init.issuer.key),
        list.invoice == new_invoice(init.issuer.key, payer, invoice_amount, currency, due_date, init.invoice_mint, ipfs_cid, created_at),
        list.issuer.is_signer,
        price > 0,
        expiry > listed_at,
        buy.invoice == with_status(list.invoice, InvoiceStatus::Listed),
        buy.listing.price == price,
        amount >= price,
        buy.buyer.key != init.issuer.key,
        buy.payment_mint is Some ==> {
            &&& buy.buyer_token_account is Some
            &&& buy.escrow_token_account matches Some(a)
                && is_token_account_of(a, buy.buyer_token_account.unwrap().mint, buy.escrow_vault)
        },
        buy.issuer.key == init.issuer.key,
        buy.seller_nft_ata.mint == init.invoice_mint,
        buy.seller_nft_ata.amount > 0,
        is_token_account_of(buy.buyer_nft_ata, init.invoice_mint, buy.buyer.key),
        settle.invoice == with_status(buy.invoice, InvoiceStatus::Funded),
        settle.nft_holder.mint == init.invoice_mint,
        settle.nft_holder.amount > 0,
        settle.recipient == settle.nft_holder.owner,
        settle.payment_mint is Some ==> {
            &&& settle.escrow_token_account matches Some(a) && a.owner == settle.escrow_vault.key
            &&& settle.recipient_token_account matches Some(a)
                && is_token_account_of(a, settle.escrow_token_account.unwrap().mint, settle.recipient)
        },
    ensures
        initialize_check(init, invoice_amount, due_date, created_at) == Ok::<(), FinvoiceError>(()),
        list_check(list.invoice, list.issuer, price, expiry, listed_at) == Ok::<(), FinvoiceError>(()),
        buy_check(buy, amount) == Ok::<(), FinvoiceError>(()),
        settle_check(settle) == Ok::<(), FinvoiceError>(()),
        has_status(with_status(settle.invoice, InvoiceStatus::Settled), InvoiceStatus::Settled),
        same_terms(list.invoice, with_status(settle.invoice, InvoiceStatus::Settled)),
{
}

} // verus!
