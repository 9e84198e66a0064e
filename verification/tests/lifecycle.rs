use finvoice::accounts::{LamportAccount, SignerInfo, TokenAccountInfo};
use finvoice::cpi::{AccountMeta, PdaSigner, TokenTransfer, Transfer};
use anchor_lang::prelude::ProgramError;
use finvoice::error::{FinvoiceError, InstructionError};
use finvoice::finvoice as program;
use finvoice::instructions::attest_invoice::{attest_invoice, AttestInvoice, InvoiceAttested};
use finvoice::instructions::buy_invoice::{buy_invoice_fn, BuyInvoice, InvoiceFunded};
use finvoice::instructions::initialize_invoice::{initialize_invoice, initialize_invoice_at, InitializeInvoice, InvoiceCreated};
use finvoice::cpi::TokenMint;
use finvoice::instructions::list_invoice::{list_invoice_at, list_invoice_fn, InvoiceListed, ListInvoice};
use finvoice::instructions::mark_default::{mark_default, mark_default_at, MarkDefault};
use finvoice::instructions::settle_invoice::{settle_invoice_fn, InvoiceSettled, SettleInvoice};
use finvoice::pubkey::Pubkey;
use finvoice::state::{Invoice, InvoiceStatus, Listing};

fn key(b: u8) -> Pubkey {
    Pubkey([b; 32])
}

fn tok(k: u8, mint: u8, owner: u8, amount: u64) -> TokenAccountInfo {
    TokenAccountInfo { key: key(k), mint: key(mint), owner: key(owner), amount }
}

fn signer(b: u8) -> SignerInfo {
    SignerInfo { key: key(b), is_signer: true }
}

const NOW: i64 = 1_700_000_000;
const DUE: i64 = NOW + 86_400;

fn blank_invoice() -> Invoice {
    Invoice {
        issuer: key(0),
        payer: None,
        invoice_amount: 0,
        currency: 0,
        due_date: 0,
        status: 0,
        mint_pubkey: key(0),
        ipfs_cid: [0u8; 46],
        attestor_pubkey: key(0),
        attestor_sig: [0u8; 64],
        created_at: 0,
    }
}

fn blank_listing() -> Listing {
    Listing { invoice: key(0), price: 0, expiry: 0, seller: key(0) }
}

fn init_ctx() -> InitializeInvoice {
    InitializeInvoice {
        issuer: signer(1),
        invoice_mint: key(2),
        invoice: blank_invoice(),
        invoice_key: key(3),
        escrow_vault: key(4),
        issuer_nft_ata: tok(21, 2, 1, 0),
    }
}

fn created_invoice() -> Invoice {
    let mut ctx = init_ctx();
    initialize_invoice_at(&mut ctx, Some(key(9)), 1_000, 840, DUE, [7u8; 46], NOW).unwrap();
    ctx.invoice
}

fn with_status(mut inv: Invoice, s: InvoiceStatus) -> Invoice {
    inv.status = s.as_u8();
    inv
}

fn buy_ctx(invoice: Invoice, payment_mint: Option<Pubkey>) -> BuyInvoice {
    BuyInvoice {
        buyer: signer(20),
        issuer: signer(1),
        invoice,
        invoice_key: key(3),
        invoice_bump: 254,
        listing: Listing { invoice: key(3), price: 500, expiry: DUE, seller: key(1) },
        escrow_vault: key(4),
        invoice_mint: key(2),
        seller_nft_ata: tok(21, 2, 1, 1),
        buyer_nft_ata: tok(22, 2, 20, 0),
        payment_mint,
        buyer_token_account: Some(tok(23, 40, 20, 10_000)),
        escrow_token_account: Some(tok(24, 40, 4, 0)),
    }
}

fn settle_ctx(invoice: Invoice, payment_mint: Option<Pubkey>) -> SettleInvoice {
    SettleInvoice {
        invoice,
        invoice_key: key(3),
        escrow_vault: LamportAccount { key: key(4), lamports: 5_000_000 },
        escrow_bump: 253,
        payment_mint,
        escrow_token_account: Some(tok(24, 40, 4, 750)),
        recipient_token_account: Some(tok(25, 40, 26, 3)),
        recipient: key(26),
        nft_holder: tok(27, 2, 26, 1),
    }
}

fn transfer_data(lamports: u64) -> Vec<u8> {
    let mut d = vec![2u8, 0, 0, 0];
    d.extend_from_slice(&lamports.to_le_bytes());
    d
}

#[test]
fn status_bytes_are_distinct_and_ordered() {
    assert_eq!(InvoiceStatus::Created.as_u8(), 0);
    assert_eq!(InvoiceStatus::Listed.as_u8(), 1);
    assert_eq!(InvoiceStatus::Funded.as_u8(), 2);
    assert_eq!(InvoiceStatus::Settled.as_u8(), 3);
    assert_eq!(InvoiceStatus::Defaulted.as_u8(), 4);
}

#[test]
fn account_sizes() {
    assert_eq!(Invoice::SIZE, 266);
    assert_eq!(Listing::SIZE, 80);
}

#[test]
fn pubkey_equality_and_default() {
    assert!(key(5).equals(&key(5)));
    assert!(!key(5).equals(&key(6)));
    let mut almost = [5u8; 32];
    almost[31] = 6;
    assert!(!key(5).equals(&Pubkey(almost)));
    assert_eq!(Pubkey::default(), Pubkey([0u8; 32]));
}

#[test]
fn error_messages() {
    assert_eq!(FinvoiceError::InvalidStatus.message(), "Invalid status for operation");
    assert_eq!(FinvoiceError::InsufficientPayment.message(), "Insufficient payment amount");
    assert_eq!(FinvoiceError::TooEarly.message(), "Too early to mark default");
    assert_eq!(FinvoiceError::InvalidAmount.message(), "The invoice amount must be greater than zero.");
    assert_eq!(FinvoiceError::InvalidDueDate.message(), "The due date must be in the future.");
    assert_eq!(FinvoiceError::MissingIssuerSignature.message(), "Issuer signature is required.");
    assert_eq!(FinvoiceError::InvalidBuyer.message(), "Buyer cannot be the same as the issuer.");
    assert_eq!(FinvoiceError::MissingPaymentAccount.message(), "Missing payment token account.");
    assert_eq!(FinvoiceError::InvalidNftAccount.message(), "The NFT token account does not match the invoice.");
    assert_eq!(FinvoiceError::InvalidEscrowAccount.message(), "The escrow token account is not the invoice's escrow.");
    assert_eq!(FinvoiceError::InvalidPaymentAccount.message(), "The payment token account does not match the payment.");
    assert_eq!(FinvoiceError::InvalidRecipient.message(), "The recipient does not hold the invoice NFT.");
}

#[test]
fn initialize_fills_the_invoice() {
    let mut ctx = init_ctx();
    ctx.invoice.attestor_pubkey = key(77);
    ctx.invoice.attestor_sig = [9u8; 64];
    let out = initialize_invoice_at(&mut ctx, Some(key(9)), 1_000, 840, DUE, [7u8; 46], NOW).unwrap();
    assert_eq!(out.event, InvoiceCreated { invoice: key(3), issuer: key(1), amount: 1_000, due_date: DUE });
    assert_eq!(out.mint_nft, TokenMint { mint: key(2), to: key(21), authority: key(1), amount: 1 });
    assert_eq!(
        ctx.invoice,
        Invoice {
            issuer: key(1),
            payer: Some(key(9)),
            invoice_amount: 1_000,
            currency: 840,
            due_date: DUE,
            status: 0,
            mint_pubkey: key(2),
            ipfs_cid: [7u8; 46],
            attestor_pubkey: key(0),
            attestor_sig: [0u8; 64],
            created_at: NOW,
        }
    );
}

#[test]
fn initialize_refusals() {
    let mut ctx = init_ctx();
    assert_eq!(initialize_invoice_at(&mut ctx, None, 0, 1, DUE, [0u8; 46], NOW), Err(FinvoiceError::InvalidAmount));
    assert_eq!(initialize_invoice_at(&mut ctx, None, 5, 1, NOW, [0u8; 46], NOW), Err(FinvoiceError::InvalidDueDate));
    assert_eq!(initialize_invoice_at(&mut ctx, None, 0, 1, NOW, [0u8; 46], NOW), Err(FinvoiceError::InvalidAmount));
    ctx.issuer.is_signer = false;
    assert_eq!(
        initialize_invoice_at(&mut ctx, None, 5, 1, DUE, [0u8; 46], NOW),
        Err(FinvoiceError::MissingIssuerSignature)
    );
    assert_eq!(ctx, InitializeInvoice { issuer: SignerInfo { key: key(1), is_signer: false }, ..init_ctx() });
    // the NFT goes to an account of the issuer for the invoice's mint
    for bad in [tok(21, 9, 1, 0), tok(21, 2, 9, 0)] {
        let mut ctx = InitializeInvoice { issuer_nft_ata: bad, ..init_ctx() };
        assert_eq!(
            initialize_invoice_at(&mut ctx, None, 5, 1, DUE, [0u8; 46], NOW).unwrap_err(),
            FinvoiceError::InvalidNftAccount
        );
        assert_eq!(ctx.invoice, blank_invoice());
    }
}

#[test]
fn attest_records_attestor() {
    let invoice = created_invoice();
    let mut ctx = AttestInvoice { attestor: signer(30), invoice, invoice_key: key(3) };
    let ev = attest_invoice(&mut ctx, [4u8; 64]).unwrap();
    assert_eq!(ev, InvoiceAttested { invoice: key(3), attestor: key(30) });
    assert_eq!(ctx.invoice, Invoice { attestor_pubkey: key(30), attestor_sig: [4u8; 64], ..invoice });
    // a listed invoice can be attested too
    let mut ctx = AttestInvoice { attestor: signer(31), invoice: with_status(invoice, InvoiceStatus::Listed), invoice_key: key(3) };
    assert!(attest_invoice(&mut ctx, [5u8; 64]).is_ok());
    assert_eq!(ctx.invoice.status, 1);
}

#[test]
fn attest_refusals() {
    let invoice = created_invoice();
    for s in [InvoiceStatus::Funded, InvoiceStatus::Settled, InvoiceStatus::Defaulted] {
        let mut ctx = AttestInvoice { attestor: signer(30), invoice: with_status(invoice, s), invoice_key: key(3) };
        let before = ctx;
        assert_eq!(attest_invoice(&mut ctx, [4u8; 64]), Err(FinvoiceError::InvalidStatus));
        assert_eq!(ctx, before);
    }
    let mut ctx = AttestInvoice { attestor: SignerInfo { key: key(30), is_signer: false }, invoice, invoice_key: key(3) };
    assert_eq!(attest_invoice(&mut ctx, [4u8; 64]), Err(FinvoiceError::MissingIssuerSignature));
    assert_eq!(ctx.invoice, invoice);
}

#[test]
fn list_fills_the_listing() {
    let invoice = created_invoice();
    let mut ctx = ListInvoice { issuer: signer(1), invoice, invoice_key: key(3), listing: blank_listing() };
    let ev = list_invoice_at(&mut ctx, 500, DUE, NOW).unwrap();
    assert_eq!(ev, InvoiceListed { invoice: key(3), seller: key(1), price: 500, expiry: DUE });
    assert_eq!(ctx.listing, Listing { invoice: key(3), price: 500, expiry: DUE, seller: key(1) });
    assert_eq!(ctx.invoice, with_status(invoice, InvoiceStatus::Listed));
}

#[test]
fn list_refusals() {
    let invoice = created_invoice();
    let fresh = ListInvoice { issuer: signer(1), invoice, invoice_key: key(3), listing: blank_listing() };
    let mut ctx = ListInvoice { invoice: with_status(invoice, InvoiceStatus::Listed), ..fresh };
    assert_eq!(list_invoice_at(&mut ctx, 500, DUE, NOW), Err(FinvoiceError::InvalidStatus));
    let mut ctx = ListInvoice { issuer: SignerInfo { key: key(1), is_signer: false }, ..fresh };
    assert_eq!(list_invoice_at(&mut ctx, 500, DUE, NOW), Err(FinvoiceError::MissingIssuerSignature));
    let mut ctx = fresh;
    assert_eq!(list_invoice_at(&mut ctx, 0, DUE, NOW), Err(FinvoiceError::InsufficientPayment));
    assert_eq!(list_invoice_at(&mut ctx, 500, NOW, NOW), Err(FinvoiceError::InvalidDueDate));
    assert_eq!(ctx, fresh);
}

#[test]
fn buy_in_lamports() {
    let invoice = with_status(created_invoice(), InvoiceStatus::Listed);
    let mut ctx = buy_ctx(invoice, None);
    let out = buy_invoice_fn(&mut ctx, 600).unwrap();
    assert_eq!(ctx.invoice, with_status(invoice, InvoiceStatus::Funded));
    assert_eq!(out.event, InvoiceFunded { invoice: key(3), buyer: key(20), amount: 600 });
    match &out.payment {
        Transfer::System(st) => {
            assert_eq!(st.signer, None);
            assert_eq!(st.instruction.program_id, Pubkey([0u8; 32]));
            assert_eq!(
                st.instruction.accounts,
                vec![
                    AccountMeta { pubkey: key(20), is_signer: true, is_writable: true },
                    AccountMeta { pubkey: key(4), is_signer: false, is_writable: true },
                ]
            );
            assert_eq!(st.instruction.data, transfer_data(600));
        },
        Transfer::Token(_) => panic!("expected a lamport payment"),
    }
    assert_eq!(
        out.nft,
        TokenTransfer {
            from: key(21),
            to: key(22),
            authority: key(1),
            amount: 1,
            signer: Some(PdaSigner::Invoice { issuer: key(1), mint: key(2), bump: 254 }),
        }
    );
}

#[test]
fn buy_in_tokens() {
    let invoice = with_status(created_invoice(), InvoiceStatus::Listed);
    let mut ctx = buy_ctx(invoice, Some(key(40)));
    let out = buy_invoice_fn(&mut ctx, 500).unwrap();
    assert_eq!(
        out.payment,
        Transfer::Token(TokenTransfer { from: key(23), to: key(24), authority: key(20), amount: 500, signer: None })
    );
    assert_eq!(ctx.invoice.status, 2);
}

#[test]
fn buy_refusals() {
    let invoice = with_status(created_invoice(), InvoiceStatus::Listed);
    let mut ctx = buy_ctx(created_invoice(), None);
    assert_eq!(buy_invoice_fn(&mut ctx, 600).unwrap_err(), FinvoiceError::InvalidStatus);
    let mut ctx = buy_ctx(invoice, None);
    assert_eq!(buy_invoice_fn(&mut ctx, 499).unwrap_err(), FinvoiceError::InsufficientPayment);
    let mut ctx = BuyInvoice { buyer: signer(1), ..buy_ctx(invoice, None) };
    assert_eq!(buy_invoice_fn(&mut ctx, 600).unwrap_err(), FinvoiceError::InvalidBuyer);
    let mut ctx = BuyInvoice { buyer_token_account: None, ..buy_ctx(invoice, Some(key(40))) };
    assert_eq!(buy_invoice_fn(&mut ctx, 600).unwrap_err(), FinvoiceError::MissingPaymentAccount);
    let mut ctx = BuyInvoice { escrow_token_account: None, ..buy_ctx(invoice, Some(key(40))) };
    assert_eq!(buy_invoice_fn(&mut ctx, 600).unwrap_err(), FinvoiceError::MissingPaymentAccount);
    assert_eq!(ctx.invoice, invoice);
    // without a payment mint the token accounts are not needed
    let mut ctx = BuyInvoice { buyer_token_account: None, escrow_token_account: None, ..buy_ctx(invoice, None) };
    assert!(buy_invoice_fn(&mut ctx, 600).is_ok());
}

#[test]
fn settle_in_lamports_pays_the_whole_vault() {
    let invoice = with_status(created_invoice(), InvoiceStatus::Funded);
    let mut ctx = settle_ctx(invoice, None);
    let out = settle_invoice_fn(&mut ctx).unwrap();
    assert_eq!(ctx.invoice, with_status(invoice, InvoiceStatus::Settled));
    assert_eq!(out.event, InvoiceSettled { invoice: key(3), recipient: key(26), amount: 5_000_000 });
    match &out.payout {
        Transfer::System(st) => {
            assert_eq!(st.signer, Some(PdaSigner::Escrow { invoice: key(3), bump: 253 }));
            assert_eq!(
                st.instruction.accounts,
                vec![
                    AccountMeta { pubkey: key(4), is_signer: true, is_writable: true },
                    AccountMeta { pubkey: key(26), is_signer: false, is_writable: true },
                ]
            );
            assert_eq!(st.instruction.data, transfer_data(5_000_000));
        },
        Transfer::Token(_) => panic!("expected a lamport payout"),
    }
}

#[test]
fn settle_in_tokens_pays_the_whole_escrow_account() {
    let invoice = with_status(created_invoice(), InvoiceStatus::Funded);
    let mut ctx = settle_ctx(invoice, Some(key(40)));
    let out = settle_invoice_fn(&mut ctx).unwrap();
    assert_eq!(
        out.payout,
        Transfer::Token(TokenTransfer {
            from: key(24),
            to: key(25),
            authority: key(4),
            amount: 750,
            signer: Some(PdaSigner::Escrow { invoice: key(3), bump: 253 }),
        })
    );
    assert_eq!(out.event, InvoiceSettled { invoice: key(3), recipient: key(26), amount: 750 });
}

#[test]
fn settle_refusals() {
    let invoice = with_status(created_invoice(), InvoiceStatus::Funded);
    for s in [InvoiceStatus::Created, InvoiceStatus::Listed, InvoiceStatus::Settled, InvoiceStatus::Defaulted] {
        let mut ctx = settle_ctx(with_status(invoice, s), None);
        assert_eq!(settle_invoice_fn(&mut ctx).unwrap_err(), FinvoiceError::InvalidStatus);
    }
    let mut ctx = SettleInvoice { escrow_token_account: None, ..settle_ctx(invoice, Some(key(40))) };
    assert_eq!(settle_invoice_fn(&mut ctx).unwrap_err(), FinvoiceError::MissingPaymentAccount);
    let mut ctx = SettleInvoice { recipient_token_account: None, ..settle_ctx(invoice, Some(key(40))) };
    assert_eq!(settle_invoice_fn(&mut ctx).unwrap_err(), FinvoiceError::MissingPaymentAccount);
    assert_eq!(ctx.invoice, invoice);
}

#[test]
fn mark_default_after_due_date_only() {
    let invoice = created_invoice();
    let mut ctx = MarkDefault { invoice };
    assert_eq!(mark_default_at(&mut ctx, DUE), Err(FinvoiceError::TooEarly));
    assert_eq!(ctx.invoice, invoice);
    assert_eq!(mark_default_at(&mut ctx, DUE + 1), Ok(()));
    assert_eq!(ctx.invoice, with_status(invoice, InvoiceStatus::Defaulted));
    // whatever the stage: a settled invoice can be marked too
    let mut ctx = MarkDefault { invoice: with_status(invoice, InvoiceStatus::Settled) };
    assert_eq!(mark_default_at(&mut ctx, DUE + 1), Ok(()));
    assert_eq!(ctx.invoice.status, 4);
}

#[test]
fn seeds_of_program_derived_addresses() {
    let s = PdaSigner::Invoice { issuer: key(1), mint: key(2), bump: 254 }.seeds();
    assert_eq!(s, vec![b"invoice".to_vec(), vec![1u8; 32], vec![2u8; 32], vec![254u8]]);
    let s = PdaSigner::Escrow { invoice: key(3), bump: 7 }.seeds();
    assert_eq!(s, vec![b"escrow".to_vec(), vec![3u8; 32], vec![7u8]]);
}

#[test]
fn whole_lifecycle_through_the_program() {
    let mut init = init_ctx();
    initialize_invoice_at(&mut init, None, 1_000, 840, DUE, [7u8; 46], NOW).unwrap();
    let mut attest = AttestInvoice { attestor: signer(30), invoice: init.invoice, invoice_key: key(3) };
    program::attest_invoice(&mut attest, [4u8; 64]).unwrap();
    let mut list = ListInvoice { issuer: signer(1), invoice: attest.invoice, invoice_key: key(3), listing: blank_listing() };
    list_invoice_at(&mut list, 500, DUE, NOW).unwrap();
    let mut buy = BuyInvoice { listing: list.listing, ..buy_ctx(list.invoice, None) };
    buy_invoice_fn(&mut buy, 500).unwrap();
    let mut settle = settle_ctx(buy.invoice, None);
    settle_invoice_fn(&mut settle).unwrap();
    let end = settle.invoice;
    let statuses = [init.invoice.status, attest.invoice.status, list.invoice.status, buy.invoice.status, end.status];
    assert_eq!(statuses, [0, 0, 1, 2, 3]);
    assert!(statuses.windows(2).all(|w| w[0] <= w[1]));
    assert_eq!(end.status, InvoiceStatus::Settled.as_u8());
    assert_eq!(end.attestor_pubkey, key(30));
    assert_eq!(Invoice { status: 0, attestor_pubkey: key(0), attestor_sig: [0u8; 64], ..end }, init.invoice);
    // a settled invoice is closed to trade, but can still be defaulted
    let mut again = settle_ctx(end, None);
    assert_eq!(settle_invoice_fn(&mut again).unwrap_err(), FinvoiceError::InvalidStatus);
    let mut relist = ListInvoice { invoice: end, ..list };
    assert_eq!(list_invoice_at(&mut relist, 500, DUE, NOW), Err(FinvoiceError::InvalidStatus));
    let mut default = MarkDefault { invoice: end };
    assert_eq!(mark_default_at(&mut default, DUE + 1), Ok(()));
}

#[test]
fn instructions_that_read_the_clock_off_chain() {
    // checks made before the clock is read still give their errors
    let mut ctx = init_ctx();
    assert_eq!(
        initialize_invoice(&mut ctx, None, 0, 1, DUE, [0u8; 46]),
        Err(InstructionError::Finvoice(FinvoiceError::InvalidAmount))
    );
    // off-chain the Clock sysvar cannot be read, and nothing changes
    assert_eq!(
        program::initialize_invoice(&mut ctx, None, 5, 1, DUE, [0u8; 46]),
        Err(InstructionError::Program(ProgramError::UnsupportedSysvar))
    );
    assert_eq!(ctx, init_ctx());

    let invoice = created_invoice();
    let fresh = ListInvoice { issuer: signer(1), invoice, invoice_key: key(3), listing: blank_listing() };
    let mut ctx = ListInvoice { invoice: with_status(invoice, InvoiceStatus::Funded), ..fresh };
    assert_eq!(list_invoice_fn(&mut ctx, 500, DUE), Err(InstructionError::Finvoice(FinvoiceError::InvalidStatus)));
    let mut ctx = fresh;
    assert_eq!(list_invoice_fn(&mut ctx, 0, DUE), Err(InstructionError::Finvoice(FinvoiceError::InsufficientPayment)));
    assert_eq!(
        program::list_invoice(&mut ctx, 500, DUE),
        Err(InstructionError::Program(ProgramError::UnsupportedSysvar))
    );
    assert_eq!(ctx, fresh);

    let mut ctx = MarkDefault { invoice };
    assert_eq!(mark_default(&mut ctx), Err(InstructionError::Program(ProgramError::UnsupportedSysvar)));
    assert_eq!(program::mark_default(&mut ctx), Err(InstructionError::Program(ProgramError::UnsupportedSysvar)));
    assert_eq!(ctx.invoice, invoice);

    let mut ctx = AttestInvoice { attestor: signer(30), invoice, invoice_key: key(3) };
    assert!(program::attest_invoice(&mut ctx, [1u8; 64]).is_ok());
}

#[test]
fn buy_refuses_accounts_that_are_not_the_parties() {
    let invoice = with_status(created_invoice(), InvoiceStatus::Listed);
    let spl = buy_ctx(invoice, Some(key(40)));
    let cases = [
        (BuyInvoice { buyer_token_account: Some(tok(23, 41, 20, 10_000)), ..spl }, FinvoiceError::InvalidPaymentAccount),
        (BuyInvoice { escrow_token_account: Some(tok(24, 41, 4, 0)), ..spl }, FinvoiceError::InvalidPaymentAccount),
        (BuyInvoice { escrow_token_account: Some(tok(24, 40, 20, 0)), ..spl }, FinvoiceError::InvalidEscrowAccount),
        (BuyInvoice { seller_nft_ata: tok(21, 2, 1, 0), ..spl }, FinvoiceError::InvalidNftAccount),
        (BuyInvoice { seller_nft_ata: tok(21, 9, 1, 1), ..spl }, FinvoiceError::InvalidNftAccount),
        (BuyInvoice { buyer_nft_ata: tok(22, 2, 30, 0), ..spl }, FinvoiceError::InvalidNftAccount),
        (BuyInvoice { buyer_nft_ata: tok(22, 9, 20, 0), ..buy_ctx(invoice, None) }, FinvoiceError::InvalidNftAccount),
    ];
    for (ctx, err) in cases {
        let mut c = ctx;
        assert_eq!(buy_invoice_fn(&mut c, 600).unwrap_err(), err);
        assert_eq!(c, ctx);
    }
    // accepted: tokens of another mint than the payment mint account, when
    // both accounts hold them; a paying account or an NFT account of which
    // the signer is only a delegate
    let accepted = [
        BuyInvoice { buyer_token_account: Some(tok(23, 41, 20, 10_000)), escrow_token_account: Some(tok(24, 41, 4, 0)), ..spl },
        BuyInvoice { buyer_token_account: Some(tok(23, 40, 21, 10_000)), ..spl },
        BuyInvoice { seller_nft_ata: tok(21, 2, 30, 1), ..spl },
    ];
    for ctx in accepted {
        let mut c = ctx;
        let out = buy_invoice_fn(&mut c, 600).unwrap();
        assert_eq!(out.nft.to, key(22));
        assert_eq!(c.invoice.status, 2);
    }
}

#[test]
fn settle_pays_only_the_nft_holder() {
    let invoice = with_status(created_invoice(), InvoiceStatus::Funded);
    let sol = settle_ctx(invoice, None);
    let spl = settle_ctx(invoice, Some(key(40)));
    let cases = [
        (SettleInvoice { recipient: key(30), ..sol }, FinvoiceError::InvalidRecipient),
        (SettleInvoice { recipient: key(30), ..spl }, FinvoiceError::InvalidRecipient),
        (SettleInvoice { nft_holder: tok(27, 2, 26, 0), ..sol }, FinvoiceError::InvalidNftAccount),
        (SettleInvoice { nft_holder: tok(27, 9, 26, 1), ..sol }, FinvoiceError::InvalidNftAccount),
        (SettleInvoice { escrow_token_account: Some(tok(24, 40, 30, 750)), ..spl }, FinvoiceError::InvalidEscrowAccount),
        (SettleInvoice { escrow_token_account: Some(tok(24, 41, 4, 750)), ..spl }, FinvoiceError::InvalidPaymentAccount),
        (SettleInvoice { recipient_token_account: Some(tok(25, 40, 30, 3)), ..spl }, FinvoiceError::InvalidPaymentAccount),
        (SettleInvoice { recipient_token_account: Some(tok(25, 41, 26, 3)), ..spl }, FinvoiceError::InvalidPaymentAccount),
    ];
    for (ctx, err) in cases {
        let mut c = ctx;
        assert_eq!(settle_invoice_fn(&mut c).unwrap_err(), err);
        assert_eq!(c, ctx);
    }
    // accepted: tokens of another mint than the payment mint account
    let mut c = SettleInvoice {
        escrow_token_account: Some(tok(24, 41, 4, 750)),
        recipient_token_account: Some(tok(25, 41, 26, 3)),
        ..spl
    };
    assert_eq!(settle_invoice_fn(&mut c).unwrap().event.amount, 750);
    // a new holder of the NFT is paid
    let mut c = SettleInvoice { recipient: key(31), nft_holder: tok(28, 2, 31, 1), ..sol };
    let out = settle_invoice_fn(&mut c).unwrap();
    assert_eq!(out.event.recipient, key(31));
}
