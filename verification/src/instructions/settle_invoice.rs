use vstd::prelude::*;

use crate::accounts::{is_token_account_of, token_account_of, LamportAccount, TokenAccountInfo};
use crate::cpi::{is_system_transfer, system_transfer, PdaSigner, SystemTransfer, TokenTransfer, Transfer};
use crate::error::FinvoiceError;
use crate::pubkey::Pubkey;
use crate::state::{has_status, with_status, Invoice, InvoiceStatus};

verus! {

/// Reported when an invoice's escrow is paid out.
#[derive(Clone, Copy, Debug, PartialEq, Eq)]
pub struct InvoiceSettled {
    pub invoice: Pubkey,
    pub recipient: Pubkey,
    pub amount: u64,
}

/// The accounts of a settlement.
#[derive(Clone, Copy, Debug, PartialEq, Eq)]
pub struct SettleInvoice {
    pub invoice: Invoice,
    /// The address of the invoice account.
    pub invoice_key: Pubkey,
    /// The escrow vault, which holds a payment in lamports.
    pub escrow_vault: LamportAccount,
    /// The bump of the escrow vault's program-derived address.
    pub escrow_bump: u8,
    /// The mint of the payment token, for a payment in tokens.
    pub payment_mint: Option<Pubkey>,
    /// The escrow's token account, for a payment in tokens.
    pub escrow_token_account: Option<TokenAccountInfo>,
    /// The recipient's token account, for a payment in tokens.
    pub recipient_token_account: Option<TokenAccountInfo>,
    /// The recipient: the owner of the invoice's NFT.
    pub recipient: Pubkey,
    /// The token account that holds the invoice's NFT.
    pub nft_holder: TokenAccountInfo,
}

/// The transfer of a settlement and the event that reports it.
#[derive(Clone, Debug, PartialEq, Eq)]
pub struct SettleOutcome {
    /// The whole escrow, to the recipient.
    pub payout: Transfer,
    pub event: InvoiceSettled,
}

/// The check of a settlement: the invoice is funded, a payment in tokens
/// names both token accounts, the NFT account holds the invoice's NFT, the
/// recipient owns it, and a payment in tokens goes from the escrow vault's
/// account to the recipient's account for the same tokens; the first that
/// fails gives the error.
pub open spec fn settle_check(ctx: SettleInvoice) -> Result<(), FinvoiceError> {
    if !has_status(ctx.invoice, InvoiceStatus::Funded) {
        Err(FinvoiceError::InvalidStatus)
    } else if ctx.payment_mint is Some && ctx.escrow_token_account is None {
        Err(FinvoiceError::MissingPaymentAccount)
    } else if ctx.payment_mint is Some && ctx.recipient_token_account is None {
        Err(FinvoiceError::MissingPaymentAccount)
    } else if !(ctx.nft_holder.mint == ctx.invoice.mint_pubkey && ctx.nft_holder.amount > 0) {
        Err(FinvoiceError::InvalidNftAccount)
    } else if ctx.recipient != ctx.nft_holder.owner {
        Err(FinvoiceError::InvalidRecipient)
    } else if ctx.payment_mint is Some && ctx.escrow_token_account.unwrap().owner != ctx.escrow_vault.key {
        Err(FinvoiceError::InvalidEscrowAccount)
    } else if ctx.payment_mint is Some && !is_token_account_of(
        ctx.recipient_token_account.unwrap(),
        ctx.escrow_token_account.unwrap().mint,
        ctx.recipient,
    ) {
        Err(FinvoiceError::InvalidPaymentAccount)
    } else {
        Ok(())
    }
}

/// The recipient holds the invoice's NFT: its token account of the
/// invoice's mint has a token.
pub open spec fn recipient_holds_nft(ctx: SettleInvoice) -> bool {
    &&& ctx.nft_holder.mint == ctx.invoice.mint_pubkey
    &&& ctx.nft_holder.amount > 0
    &&& ctx.nft_holder.owner == ctx.recipient
}

/// The amount in escrow: the tokens of the escrow token account, or else
/// the lamports of the escrow vault.
pub open spec fn escrow_balance(ctx: SettleInvoice) -> u64 {
    if ctx.payment_mint is Some {
        ctx.escrow_token_account.unwrap().amount
    } else {
        ctx.escrow_vault.lamports
    }
}

/// The escrow vault's address, as the signer of a payout.
pub open spec fn escrow_signer(ctx: SettleInvoice) -> PdaSigner {
    PdaSigner::Escrow { invoice: ctx.invoice_key, bump: ctx.escrow_bump }
}

/// The payout of the whole escrow, signed by the escrow vault's address: in
/// tokens, to the recipient's token account; or else in lamports, to the
/// recipient.
pub open spec fn settle_payout(ctx: SettleInvoice, payout: Transfer) -> bool {
    if ctx.payment_mint is Some {
        payout == Transfer::Token(
            TokenTransfer {
                from: ctx.escrow_token_account.unwrap().key,
                to: ctx.recipient_token_account.unwrap().key,
                authority: ctx.escrow_vault.key,
                amount: escrow_balance(ctx),
                signer: Some(escrow_signer(ctx)),
            },
        )
    } else {
        &&& payout matches Transfer::System(st)
        &&& st.signer == Some(escrow_signer(ctx))
        &&& is_system_transfer(st.instruction, ctx.escrow_vault.key, ctx.recipient, escrow_balance(ctx))
    }
}

/// What a settlement does: on success the invoice is settled and the payout
/// of the whole escrow is returned; on refusal nothing changes.
pub open spec fn settle_outcome(pre: SettleInvoice, post: SettleInvoice, r: Result<SettleOutcome, FinvoiceError>) -> bool {
    match r {
        Ok(out) => {
            &&& settle_check(pre) == Ok::<(), FinvoiceError>(())
            &&& post == (SettleInvoice { invoice: with_status(pre.invoice, InvoiceStatus::Settled), ..pre })
            &&& recipient_holds_nft(pre)
            &&& pre.payment_mint is Some ==> {
                &&& pre.escrow_token_account.unwrap().owner == pre.escrow_vault.key
                &&& is_token_account_of(pre.recipient_token_account.unwrap(), pre.escrow_token_account.unwrap().mint, pre.recipient)
            }
            &&& settle_payout(pre, out.payout)
            &&& out.event == (InvoiceSettled { invoice: pre.invoice_key, recipient: pre.recipient, amount: escrow_balance(pre) })
        },
        Err(e) => {
            &&& settle_check(pre) == Err::<(), FinvoiceError>(e)
            &&& post == pre
        },
    }
}

/// Pays the whole escrow of a funded invoice out to the holder of its NFT
/// and marks the invoice settled. If the payout fails, the transaction fails and the
/// invoice's change is not kept.
pub fn settle_invoice_fn(ctx: &mut SettleInvoice) -> (r: Result<SettleOutcome, FinvoiceError>)
    ensures
        settle_outcome(*old(ctx), *final(ctx), r),
{
    if !(ctx.invoice.status == InvoiceStatus::Funded.as_u8()) {
        return Err(FinvoiceError::InvalidStatus);
    }
    let signer = PdaSigner::Escrow { invoice: ctx.invoice_key, bump: ctx.escrow_bump };
    let accounts = match ctx.payment_mint {
        Some(_) => {
            let escrow_token_account = match ctx.escrow_token_account {
                Some(a) => a,
                None => return Err(FinvoiceError::MissingPaymentAccount),
            };
            let recipient_token_account = match ctx.recipient_token_account {
                Some(a) => a,
                None => return Err(FinvoiceError::MissingPaymentAccount),
            };
            Some((escrow_token_account, recipient_token_account))
        },
        None => None,
    };
    if !(ctx.nft_holder.mint.equals(&ctx.invoice.mint_pubkey) && ctx.nft_holder.amount > 0) {
        return Err(FinvoiceError::InvalidNftAccount);
    }
    if !ctx.recipient.equals(&ctx.nft_holder.owner) {
        return Err(FinvoiceError::InvalidRecipient);
    }
    let (payout, amount) = match accounts {
        Some((escrow_token_account, recipient_token_account)) => {
            if !escrow_token_account.owner.equals(&ctx.escrow_vault.key) {
                return Err(FinvoiceError::InvalidEscrowAccount);
            }
            if !token_account_of(&recipient_token_account, &escrow_token_account.mint, &ctx.recipient) {
                return Err(FinvoiceError::InvalidPaymentAccount);
            }
            let amount = escrow_token_account.amount;
            let payout = Transfer::Token(
                TokenTransfer {
                    from: escrow_token_account.key,
                    to: recipient_token_account.key,
                    authority: ctx.escrow_vault.key,
                    amount,
                    signer: Some(signer),
                },
            );
            (payout, amount)
        },
        None => {
            let amount = ctx.escrow_vault.lamports;
            let instruction = system_transfer(&ctx.escrow_vault.key, &ctx.recipient, amount);
            (Transfer::System(SystemTransfer { instruction, signer: Some(signer) }), amount)
        },
    };
    ctx.invoice.status = InvoiceStatus::Settled.as_u8();
    Ok(SettleOutcome { payout, event: InvoiceSettled { invoice: ctx.invoice_key, recipient: ctx.recipient, amount } })
}

} // verus!
