use vstd::prelude::*;

use crate::accounts::{is_token_account_of, token_account_of, SignerInfo, TokenAccountInfo};
use crate::cpi::{is_system_transfer, system_transfer, PdaSigner, SystemTransfer, TokenTransfer, Transfer};
use crate::error::FinvoiceError;
use crate::pubkey::Pubkey;
use crate::state::{has_status, with_status, Invoice, InvoiceStatus, Listing};

verus! {

/// Reported when an invoice is bought.
#[derive(Clone, Copy, Debug, PartialEq, Eq)]
pub struct InvoiceFunded {
    pub invoice: Pubkey,
    pub buyer: Pubkey,
    pub amount: u64,
}

/// The accounts of a purchase.
#[derive(Clone, Copy, Debug, PartialEq, Eq)]
pub struct BuyInvoice {
    pub buyer: SignerInfo,
    pub issuer: SignerInfo,
    pub invoice: Invoice,
    /// The address of the invoice account.
    pub invoice_key: Pubkey,
    /// The bump of the invoice account's program-derived address.
    pub invoice_bump: u8,
    pub listing: Listing,
    /// The escrow vault of the invoice: it receives a payment in lamports,
    /// and owns the escrow token account of a payment in tokens.
    pub escrow_vault: Pubkey,
    pub invoice_mint: Pubkey,
    /// The token account that holds the invoice's NFT.
    pub seller_nft_ata: TokenAccountInfo,
    /// The buyer's token account that receives the invoice's NFT.
    pub buyer_nft_ata: TokenAccountInfo,
    /// The mint of the payment token, for a payment in tokens.
    pub payment_mint: Option<Pubkey>,
    /// The buyer's token account that pays, for a payment in tokens.
    pub buyer_token_account: Option<TokenAccountInfo>,
    /// The escrow's token account that is paid, for a payment in tokens.
    pub escrow_token_account: Option<TokenAccountInfo>,
}

/// The transfers of a purchase, in the order they are to be made, and the
/// event that reports it.
#[derive(Clone, Debug, PartialEq, Eq)]
pub struct BuyOutcome {
    /// The buyer's payment into escrow.
    pub payment: Transfer,
    /// The invoice's NFT, from the seller to the buyer.
    pub nft: TokenTransfer,
    pub event: InvoiceFunded,
}

/// The check of a purchase: the invoice is listed, `amount` covers the
/// price, the buyer is not the issuer, a payment in tokens names both token
/// accounts, pays into an account of the escrow vault for the tokens of
/// the paying account, and the NFT goes from an account that holds it to the
/// buyer's account of the invoice's mint; the first that fails gives the
/// error.
pub open spec fn buy_check(ctx: BuyInvoice, amount: u64) -> Result<(), FinvoiceError> {
    if !has_status(ctx.invoice, InvoiceStatus::Listed) {
        Err(FinvoiceError::InvalidStatus)
    } else if amount < ctx.listing.price {
        Err(FinvoiceError::InsufficientPayment)
    } else if ctx.buyer.key == ctx.invoice.issuer {
        Err(FinvoiceError::InvalidBuyer)
    } else if ctx.payment_mint is Some && ctx.buyer_token_account is None {
        Err(FinvoiceError::MissingPaymentAccount)
    } else if ctx.payment_mint is Some && ctx.escrow_token_account is None {
        Err(FinvoiceError::MissingPaymentAccount)
    } else if ctx.payment_mint is Some && ctx.escrow_token_account.unwrap().owner != ctx.escrow_vault {
        Err(FinvoiceError::InvalidEscrowAccount)
    } else if ctx.payment_mint is Some && ctx.escrow_token_account.unwrap().mint != ctx.buyer_token_account.unwrap().mint {
        Err(FinvoiceError::InvalidPaymentAccount)
    } else if !(ctx.seller_nft_ata.mint == ctx.invoice.mint_pubkey && ctx.seller_nft_ata.amount > 0) {
        Err(FinvoiceError::InvalidNftAccount)
    } else if !is_token_account_of(ctx.buyer_nft_ata, ctx.invoice.mint_pubkey, ctx.buyer.key) {
        Err(FinvoiceError::InvalidNftAccount)
    } else {
        Ok(())
    }
}

/// The buyer's payment of `amount` into escrow: in tokens, from the buyer's
/// token account to the escrow token account; or else in lamports, from the
/// buyer to the escrow vault.
pub open spec fn buy_payment(ctx: BuyInvoice, amount: u64, payment: Transfer) -> bool {
    if ctx.payment_mint is Some {
        payment == Transfer::Token(
            TokenTransfer {
                from: ctx.buyer_token_account.unwrap().key,
                to: ctx.escrow_token_account.unwrap().key,
                authority: ctx.buyer.key,
                amount,
                signer: None,
            },
        )
    } else {
        &&& payment matches Transfer::System(st)
        &&& st.signer is None
        &&& is_system_transfer(st.instruction, ctx.buyer.key, ctx.escrow_vault, amount)
    }
}

/// The transfer of the invoice's NFT to the buyer, signed by the issuer and
/// by the invoice account's address.
pub open spec fn buy_nft_transfer(ctx: BuyInvoice) -> TokenTransfer {
    TokenTransfer {
        from: ctx.seller_nft_ata.key,
        to: ctx.buyer_nft_ata.key,
        authority: ctx.issuer.key,
        amount: 1,
        signer: Some(PdaSigner::Invoice { issuer: ctx.invoice.issuer, mint: ctx.invoice.mint_pubkey, bump: ctx.invoice_bump }),
    }
}

/// What a purchase does: on success the invoice is funded and the payment
/// and NFT transfers are returned; on refusal nothing changes.
pub open spec fn buy_outcome(pre: BuyInvoice, post: BuyInvoice, amount: u64, r: Result<BuyOutcome, FinvoiceError>) -> bool {
    match r {
        Ok(out) => {
            &&& buy_check(pre, amount) == Ok::<(), FinvoiceError>(())
            &&& post == (BuyInvoice { invoice: with_status(pre.invoice, InvoiceStatus::Funded), ..pre })
            &&& buy_payment(pre, amount, out.payment)
            &&& pre.payment_mint is Some ==> is_token_account_of(
                pre.escrow_token_account.unwrap(),
                pre.buyer_token_account.unwrap().mint,
                pre.escrow_vault,
            )
            &&& out.nft == buy_nft_transfer(pre)
            &&& pre.seller_nft_ata.mint == pre.invoice.mint_pubkey
            &&& pre.seller_nft_ata.amount > 0
            &&& is_token_account_of(pre.buyer_nft_ata, pre.invoice.mint_pubkey, pre.buyer.key)
            &&& out.event == (InvoiceFunded { invoice: pre.invoice_key, buyer: pre.buyer.key, amount })
        },
        Err(e) => {
            &&& buy_check(pre, amount) == Err::<(), FinvoiceError>(e)
            &&& post == pre
        },
    }
}

/// Buys a listed invoice for `amount`, at least its price. On success the
/// invoice is marked funded and the result holds the transfers to make: the
/// payment into the invoice's escrow, then the NFT from the account that
/// holds it to the buyer's. If either transfer
/// fails, the transaction fails and the invoice's change is not kept.
pub fn buy_invoice_fn(ctx: &mut BuyInvoice, amount: u64) -> (r: Result<BuyOutcome, FinvoiceError>)
    ensures
        buy_outcome(*old(ctx), *final(ctx), amount, r),
{
    if !(ctx.invoice.status == InvoiceStatus::Listed.as_u8()) {
        return Err(FinvoiceError::InvalidStatus);
    }
    if !(amount >= ctx.listing.price) {
        return Err(FinvoiceError::InsufficientPayment);
    }
    if ctx.buyer.key.equals(&ctx.invoice.issuer) {
        return Err(FinvoiceError::InvalidBuyer);
    }
    let payment = match ctx.payment_mint {
        Some(_) => {
            let buyer_token_account = match ctx.buyer_token_account {
                Some(a) => a,
                None => return Err(FinvoiceError::MissingPaymentAccount),
            };
            let escrow_token_account = match ctx.escrow_token_account {
                Some(a) => a,
                None => return Err(FinvoiceError::MissingPaymentAccount),
            };
            if !escrow_token_account.owner.equals(&ctx.escrow_vault) {
                return Err(FinvoiceError::InvalidEscrowAccount);
            }
            if !escrow_token_account.mint.equals(&buyer_token_account.mint) {
                return Err(FinvoiceError::InvalidPaymentAccount);
            }
            Transfer::Token(
                TokenTransfer {
                    from: buyer_token_account.key,
                    to: escrow_token_account.key,
                    authority: ctx.buyer.key,
                    amount,
                    signer: None,
                },
            )
        },
        None => Transfer::System(
            SystemTransfer { instruction: system_transfer(&ctx.buyer.key, &ctx.escrow_vault, amount), signer: None },
        ),
    };
    if !(ctx.seller_nft_ata.mint.equals(&ctx.invoice.mint_pubkey) && ctx.seller_nft_ata.amount > 0) {
        return Err(FinvoiceError::InvalidNftAccount);
    }
    if !token_account_of(&ctx.buyer_nft_ata, &ctx.invoice.mint_pubkey, &ctx.buyer.key) {
        return Err(FinvoiceError::InvalidNftAccount);
    }
    let nft = TokenTransfer {
        from: ctx.seller_nft_ata.key,
        to: ctx.buyer_nft_ata.key,
        authority: ctx.issuer.key,
        amount: 1,
        signer: Some(PdaSigner::Invoice { issuer: ctx.invoice.issuer, mint: ctx.invoice.mint_pubkey, bump: ctx.invoice_bump }),
    };
    ctx.invoice.status = InvoiceStatus::Funded.as_u8();
    Ok(BuyOutcome { payment, nft, event: InvoiceFunded { invoice: ctx.invoice_key, buyer: ctx.buyer.key, amount } })
}

} // verus!
