//! What each instruction does, stated over its accounts and arguments
//! alone: exactly when it succeeds, which error it gives otherwise, and
//! what it leaves behind.

use vstd::prelude::*;

use crate::cpi::{is_system_transfer, PdaSigner, TokenTransfer, Transfer};
use crate::clock::Timed;
use crate::error::{FinvoiceError, InstructionError};
use crate::instructions::attest_invoice::{attest_outcome, AttestInvoice, InvoiceAttested};
use crate::instructions::buy_invoice::{buy_outcome, BuyInvoice, BuyOutcome};
use crate::instructions::initialize_invoice::{initialize_instruction_outcome, initialize_outcome, InitializeInvoice, InitializeOutcome};
use crate::instructions::list_invoice::{list_instruction_outcome, list_outcome, InvoiceListed, ListInvoice};
use crate::instructions::mark_default::{mark_default_instruction_outcome, mark_default_outcome, MarkDefault};
use crate::instructions::settle_invoice::{settle_outcome, SettleInvoice, SettleOutcome};
use crate::pubkey::Pubkey;
use crate::state::{Invoice, InvoiceStatus, Listing};

verus! {

/// Creating an invoice at time `now` succeeds exactly when the amount is
/// positive, the due date is after `now`, the issuer signed and the NFT
/// account is the issuer's account of the invoice's mint. It then records
/// the terms, the issuer, the mint and `now` as the creation time, with no
/// attestation, and mints one token of the mint to that account.
pub proof fn lemma_initialize_effect(
    pre: InitializeInvoice,
    post: InitializeInvoice,
    payer: Option<Pubkey>,
    invoice_amount: u64,
    currency: u16,
    due_date: i64,
    ipfs_cid: [u8; 46],
    now: i64,
    r: Result<InitializeOutcome, FinvoiceError>,
)
    requires
        initialize_outcome(pre, post, payer, invoice_amount, currency, due_date, ipfs_cid, now, r),
    ensures
        r is Ok <==> invoice_amount > 0 && due_date > now && pre.issuer.is_signer && pre.issuer_nft_ata.mint
            == pre.invoice_mint && pre.issuer_nft_ata.owner == pre.issuer.key,
        r == Err::<InitializeOutcome, FinvoiceError>(FinvoiceError::InvalidAmount) <==> invoice_amount == 0,
        r == Err::<InitializeOutcome, FinvoiceError>(FinvoiceError::InvalidDueDate) <==> invoice_amount > 0
            && due_date <= now,
        r == Err::<InitializeOutcome, FinvoiceError>(FinvoiceError::MissingIssuerSignature) <==> invoice_amount > 0
            && due_date > now && !pre.issuer.is_signer,
        r is Err ==> post == pre,
        r is Ok ==> {
            &&& post.invoice.issuer == pre.issuer.key
            &&& post.invoice.payer == payer
            &&& post.invoice.invoice_amount == invoice_amount
            &&& post.invoice.currency == currency
            &&& post.invoice.due_date == due_date
            &&& post.invoice.status == InvoiceStatus::Created.spec_as_u8()
            &&& post.invoice.mint_pubkey == pre.invoice_mint
            &&& post.invoice.ipfs_cid == ipfs_cid
            &&& post.invoice.attestor_pubkey == Pubkey::spec_zero()
            &&& forall|i: int| 0 <= i < 64 ==> post.invoice.attestor_sig[i] == 0u8
            &&& post.invoice.created_at == now
            &&& post.invoice.due_date > post.invoice.created_at
            &&& post.issuer == pre.issuer && post.invoice_key == pre.invoice_key
            &&& post.invoice_mint == pre.invoice_mint && post.issuer_nft_ata == pre.issuer_nft_ata
            &&& r->Ok_0.mint_nft.mint == pre.invoice_mint
            &&& r->Ok_0.mint_nft.to == pre.issuer_nft_ata.key
            &&& r->Ok_0.mint_nft.authority == pre.issuer.key
            &&& r->Ok_0.mint_nft.amount == 1
            &&& r->Ok_0.event.invoice == pre.invoice_key
            &&& r->Ok_0.event.issuer == pre.issuer.key
            &&& r->Ok_0.event.amount == invoice_amount
            &&& r->Ok_0.event.due_date == due_date
        },
{
}

/// An attestation succeeds exactly on a created or listed invoice whose
/// attestor signed. Whatever the stage, it then records the attestor's
/// address and the signature given, and changes nothing else.
pub proof fn lemma_attest_effect(pre: AttestInvoice, post: AttestInvoice, sig: [u8; 64], r: Result<InvoiceAttested, FinvoiceError>)
    requires
        attest_outcome(pre, post, sig, r),
    ensures
        r is Ok <==> (pre.invoice.status == InvoiceStatus::Created.spec_as_u8() || pre.invoice.status
            == InvoiceStatus::Listed.spec_as_u8()) && pre.attestor.is_signer,
        r == Err::<InvoiceAttested, FinvoiceError>(FinvoiceError::InvalidStatus) <==> !(pre.invoice.status
            == InvoiceStatus::Created.spec_as_u8() || pre.invoice.status == InvoiceStatus::Listed.spec_as_u8()),
        r is Err ==> post == pre,
        r is Ok ==> {
            &&& post.invoice.attestor_pubkey == pre.attestor.key
            &&& post.invoice.attestor_sig == sig
            &&& post.invoice == (Invoice { attestor_pubkey: pre.attestor.key, attestor_sig: sig, ..pre.invoice })
            &&& post.attestor == pre.attestor && post.invoice_key == pre.invoice_key
            &&& r->Ok_0 == (InvoiceAttested { invoice: pre.invoice_key, attestor: pre.attestor.key })
        },
{
}

/// A listing at time `now` succeeds exactly on a created invoice, signed by
/// the issuer, at a positive price, with an expiry after `now`. It then
/// fills the listing with the invoice, price, expiry and seller, marks the
/// invoice listed, and changes nothing else.
pub proof fn lemma_list_effect(
    pre: ListInvoice,
    post: ListInvoice,
    price: u64,
    expiry: i64,
    now: i64,
    r: Result<InvoiceListed, FinvoiceError>,
)
    requires
        list_outcome(pre, post, price, expiry, now, r),
    ensures
        r is Ok <==> pre.invoice.status == InvoiceStatus::Created.spec_as_u8() && pre.issuer.is_signer && price > 0
            && expiry > now,
        r == Err::<InvoiceListed, FinvoiceError>(FinvoiceError::InvalidStatus) <==> pre.invoice.status
            != InvoiceStatus::Created.spec_as_u8(),
        r == Err::<InvoiceListed, FinvoiceError>(FinvoiceError::InvalidDueDate) <==> pre.invoice.status
            == InvoiceStatus::Created.spec_as_u8() && pre.issuer.is_signer && price > 0 && expiry <= now,
        r is Err ==> post == pre,
        r is Ok ==> {
            &&& post.listing == (Listing { invoice: pre.invoice_key, price, expiry, seller: pre.issuer.key })
            &&& post.listing.expiry > now
            &&& post.invoice == (Invoice { status: InvoiceStatus::Listed.spec_as_u8(), ..pre.invoice })
            &&& post.issuer == pre.issuer && post.invoice_key == pre.invoice_key
            &&& r->Ok_0 == (InvoiceListed { invoice: pre.invoice_key, seller: pre.issuer.key, price, expiry })
        },
{
}

/// A default at time `now` succeeds exactly when `now` is past the due
/// date, whatever the stage; it then marks the invoice defaulted and
/// changes nothing else. Before that it is refused as too early.
pub proof fn lemma_mark_default_effect(pre: MarkDefault, post: MarkDefault, now: i64, r: Result<(), FinvoiceError>)
    requires
        mark_default_outcome(pre, post, now, r),
    ensures
        r is Ok <==> now > pre.invoice.due_date,
        r is Err ==> r == Err::<(), FinvoiceError>(FinvoiceError::TooEarly) && post == pre,
        r is Ok ==> post.invoice == (Invoice { status: InvoiceStatus::Defaulted.spec_as_u8(), ..pre.invoice }),
{
}

/// A purchase succeeds exactly on a listed invoice (attested or not),
/// paying at least its price, by a buyer other than the issuer, where a
/// payment in tokens comes from a token account into an account of the
/// escrow vault for the same tokens, the NFT account holds a token of the
/// invoice's mint, and the buyer's NFT account is the buyer's account of
/// that mint. It then marks the invoice funded, pays `amount` into escrow,
/// and moves one token of the invoice's mint to the buyer's account.
pub proof fn lemma_buy_effect(pre: BuyInvoice, post: BuyInvoice, amount: u64, r: Result<BuyOutcome, FinvoiceError>)
    requires
        buy_outcome(pre, post, amount, r),
    ensures
        r is Ok <==> {
            &&& pre.invoice.status == InvoiceStatus::Listed.spec_as_u8()
            &&& amount >= pre.listing.price
            &&& pre.buyer.key != pre.invoice.issuer
            &&& pre.payment_mint is Some ==> {
                &&& pre.buyer_token_account is Some
                &&& pre.escrow_token_account is Some
                &&& pre.escrow_token_account.unwrap().owner == pre.escrow_vault
                &&& pre.escrow_token_account.unwrap().mint == pre.buyer_token_account.unwrap().mint
            }
            &&& pre.seller_nft_ata.mint == pre.invoice.mint_pubkey
            &&& pre.seller_nft_ata.amount > 0
            &&& pre.buyer_nft_ata.mint == pre.invoice.mint_pubkey
            &&& pre.buyer_nft_ata.owner == pre.buyer.key
        },
        r == Err::<BuyOutcome, FinvoiceError>(FinvoiceError::InvalidStatus) <==> pre.invoice.status
            != InvoiceStatus::Listed.spec_as_u8(),
        r is Err ==> post == pre,
        r is Ok ==> {
            &&& post.invoice == (Invoice { status: InvoiceStatus::Funded.spec_as_u8(), ..pre.invoice })
            &&& r->Ok_0.nft == (TokenTransfer {
                from: pre.seller_nft_ata.key,
                to: pre.buyer_nft_ata.key,
                authority: pre.issuer.key,
                amount: 1,
                signer: Some(PdaSigner::Invoice { issuer: pre.invoice.issuer, mint: pre.invoice.mint_pubkey, bump: pre.invoice_bump }),
            })
            &&& match r->Ok_0.payment {
                Transfer::Token(t) => {
                    &&& pre.payment_mint is Some
                    &&& t == (TokenTransfer {
                        from: pre.buyer_token_account.unwrap().key,
                        to: pre.escrow_token_account.unwrap().key,
                        authority: pre.buyer.key,
                        amount,
                        signer: None,
                    })
                },
                Transfer::System(st) => {
                    &&& pre.payment_mint is None
                    &&& st.signer is None
                    &&& is_system_transfer(st.instruction, pre.buyer.key, pre.escrow_vault, amount)
                },
            }
            &&& r->Ok_0.event.invoice == pre.invoice_key
            &&& r->Ok_0.event.buyer == pre.buyer.key
            &&& r->Ok_0.event.amount == amount
        },
{
}

/// A settlement succeeds exactly on a funded invoice whose NFT is held by
/// the recipient, where a payment in tokens goes from an account of the
/// escrow vault into the recipient's account for the same tokens. It then
/// marks the invoice settled and pays the whole escrow to the recipient,
/// signed by the escrow vault's address.
pub proof fn lemma_settle_effect(pre: SettleInvoice, post: SettleInvoice, r: Result<SettleOutcome, FinvoiceError>)
    requires
        settle_outcome(pre, post, r),
    ensures
        r is Ok <==> {
            &&& pre.invoice.status == InvoiceStatus::Funded.spec_as_u8()
            &&& pre.payment_mint is Some ==> {
                &&& pre.escrow_token_account is Some
                &&& pre.recipient_token_account is Some
                &&& pre.escrow_token_account.unwrap().owner == pre.escrow_vault.key
                &&& pre.recipient_token_account.unwrap().mint == pre.escrow_token_account.unwrap().mint
                &&& pre.recipient_token_account.unwrap().owner == pre.recipient
            }
            &&& pre.nft_holder.mint == pre.invoice.mint_pubkey
            &&& pre.nft_holder.amount > 0
            &&& pre.nft_holder.owner == pre.recipient
        },
        r == Err::<SettleOutcome, FinvoiceError>(FinvoiceError::InvalidStatus) <==> pre.invoice.status
            != InvoiceStatus::Funded.spec_as_u8(),
        r is Err ==> post == pre,
        r is Ok ==> {
            &&& post.invoice == (Invoice { status: InvoiceStatus::Settled.spec_as_u8(), ..pre.invoice })
            &&& match r->Ok_0.payout {
                Transfer::Token(t) => {
                    &&& pre.payment_mint is Some
                    &&& t == (TokenTransfer {
                        from: pre.escrow_token_account.unwrap().key,
                        to: pre.recipient_token_account.unwrap().key,
                        authority: pre.escrow_vault.key,
                        amount: pre.escrow_token_account.unwrap().amount,
                        signer: Some(PdaSigner::Escrow { invoice: pre.invoice_key, bump: pre.escrow_bump }),
                    })
                    &&& r->Ok_0.event.amount == pre.escrow_token_account.unwrap().amount
                },
                Transfer::System(st) => {
                    &&& pre.payment_mint is None
                    &&& st.signer == Some(PdaSigner::Escrow { invoice: pre.invoice_key, bump: pre.escrow_bump })
                    &&& is_system_transfer(st.instruction, pre.escrow_vault.key, pre.recipient, pre.escrow_vault.lamports)
                    &&& r->Ok_0.event.amount == pre.escrow_vault.lamports
                },
            }
            &&& r->Ok_0.event.invoice == pre.invoice_key
            &&& r->Ok_0.event.recipient == pre.recipient
        },
{
}

/// Creating an invoice with the clock: a success happened at the time the
/// clock gave, which is returned beside the result; the due date is after
/// that time, which becomes the creation time. A zero amount is refused
/// before the clock is read; nothing changes on any failure.
pub proof fn lemma_initialize_instruction_effect(
    pre: InitializeInvoice,
    post: InitializeInvoice,
    payer: Option<Pubkey>,
    invoice_amount: u64,
    currency: u16,
    due_date: i64,
    ipfs_cid: [u8; 46],
    r: Result<Timed<InitializeOutcome>, InstructionError>,
)
    requires
        initialize_instruction_outcome(pre, post, payer, invoice_amount, currency, due_date, ipfs_cid, r),
    ensures
        r is Ok ==> {
            &&& post.invoice.created_at == r->Ok_0.at@
            &&& due_date > r->Ok_0.at@
            &&& invoice_amount > 0 && pre.issuer.is_signer
            &&& post.invoice.due_date == due_date && post.invoice.invoice_amount == invoice_amount
            &&& post.invoice.status == InvoiceStatus::Created.spec_as_u8()
            &&& r->Ok_0.value.mint_nft.to == pre.issuer_nft_ata.key && r->Ok_0.value.mint_nft.amount == 1
        },
        invoice_amount == 0 ==> r == Err::<Timed<InitializeOutcome>, InstructionError>(
            InstructionError::Finvoice(FinvoiceError::InvalidAmount),
        ),
        r is Err ==> post == pre,
{
    match r {
        Ok(t) => {
            lemma_initialize_effect(pre, post, payer, invoice_amount, currency, due_date, ipfs_cid, t.at@, Ok(t.value));
        },
        Err(InstructionError::Finvoice(e)) => {
            let now = choose|now: i64|
                #[trigger] initialize_outcome(pre, post, payer, invoice_amount, currency, due_date, ipfs_cid, now, Err(e));
            lemma_initialize_effect(pre, post, payer, invoice_amount, currency, due_date, ipfs_cid, now, Err(e));
        },
        Err(InstructionError::Program(_)) => {},
    }
}

/// Listing with the clock: a success happened at the time the clock gave,
/// returned beside the result, and the listing's expiry is after that
/// time. The clock is read only once the invoice is created, the issuer
/// signed and the price is positive; nothing changes on any failure.
pub proof fn lemma_list_instruction_effect(
    pre: ListInvoice,
    post: ListInvoice,
    price: u64,
    expiry: i64,
    r: Result<Timed<InvoiceListed>, InstructionError>,
)
    requires
        list_instruction_outcome(pre, post, price, expiry, r),
    ensures
        r is Ok ==> {
            &&& expiry > r->Ok_0.at@
            &&& post.listing.expiry > r->Ok_0.at@
            &&& post.listing == (Listing { invoice: pre.invoice_key, price, expiry, seller: pre.issuer.key })
            &&& pre.invoice.status == InvoiceStatus::Created.spec_as_u8() && pre.issuer.is_signer && price > 0
            &&& post.invoice == (Invoice { status: InvoiceStatus::Listed.spec_as_u8(), ..pre.invoice })
        },
        r matches Err(InstructionError::Program(_)) ==> pre.invoice.status == InvoiceStatus::Created.spec_as_u8()
            && pre.issuer.is_signer && price > 0,
        pre.invoice.status != InvoiceStatus::Created.spec_as_u8() ==> r == Err::<Timed<InvoiceListed>, InstructionError>(
            InstructionError::Finvoice(FinvoiceError::InvalidStatus),
        ),
        r is Err ==> post == pre,
{
    match r {
        Ok(t) => {
            lemma_list_effect(pre, post, price, expiry, t.at@, Ok(t.value));
        },
        Err(InstructionError::Finvoice(e)) => {
            let now = choose|now: i64| #[trigger] list_outcome(pre, post, price, expiry, now, Err(e));
            lemma_list_effect(pre, post, price, expiry, now, Err(e));
        },
        Err(InstructionError::Program(_)) => {},
    }
}

/// Defaulting with the clock: a success happened at the time the clock
/// gave, returned beside the result, which is past the due date; nothing
/// changes on a failure.
pub proof fn lemma_mark_default_instruction_effect(pre: MarkDefault, post: MarkDefault, r: Result<Timed<()>, InstructionError>)
    requires
        mark_default_instruction_outcome(pre, post, r),
    ensures
        r is Ok ==> r->Ok_0.at@ > pre.invoice.due_date && post.invoice == (Invoice {
            status: InvoiceStatus::Defaulted.spec_as_u8(),
            ..pre.invoice
        }),
        r matches Err(InstructionError::Finvoice(e)) ==> e == FinvoiceError::TooEarly,
        r is Err ==> post == pre,
{
    match r {
        Ok(t) => {
            lemma_mark_default_effect(pre, post, t.at@, Ok(()));
        },
        Err(InstructionError::Finvoice(e)) => {
            let now = choose|now: i64| #[trigger] mark_default_outcome(pre, post, now, Err(e));
            lemma_mark_default_effect(pre, post, now, Err(e));
        },
        Err(InstructionError::Program(_)) => {},
    }
}

} // verus!
