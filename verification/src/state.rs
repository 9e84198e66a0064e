use vstd::prelude::*;

use crate::pubkey::Pubkey;

verus! {

/// The data held by an invoice account.
#[derive(Clone, Copy, Debug, PartialEq, Eq)]
pub struct Invoice {
    pub issuer: Pubkey,
    pub payer: Option<Pubkey>,
    pub invoice_amount: u64,
    pub currency: u16,
    pub due_date: i64,
    /// The lifecycle stage, as the byte of an [`InvoiceStatus`].
    pub status: u8,
    pub mint_pubkey: Pubkey,
    pub ipfs_cid: [u8; 46],
    pub attestor_pubkey: Pubkey,
    pub attestor_sig: [u8; 64],
    pub created_at: i64,
}

impl Invoice {
    /// Bytes taken by the fields of an invoice account, after its
    /// 8-byte account discriminator.
    pub const SIZE: usize = 32 + 33 + 8 + 2 + 8 + 1 + 32 + 46 + 32 + 64 + 8;
}

/// The data held by a listing account: an offer to sell an invoice's NFT.
#[derive(Clone, Copy, Debug, PartialEq, Eq)]
pub struct Listing {
    pub invoice: Pubkey,
    pub price: u64,
    pub expiry: i64,
    pub seller: Pubkey,
}

impl Listing {
    /// Bytes taken by the fields of a listing account, after its
    /// 8-byte account discriminator.
    pub const SIZE: usize = 32 + 8 + 8 + 32;
}

/// The lifecycle stages of an invoice.
#[derive(Clone, Copy, Debug, PartialEq, Eq, Structural)]
pub enum InvoiceStatus {
    Created,
    Listed,
    Funded,
    Settled,
    Defaulted,
}

impl InvoiceStatus {
    /// The byte that stands for this stage in an invoice account.
    pub open spec fn spec_as_u8(self) -> u8 {
        match self {
            InvoiceStatus::Created => 0,
            InvoiceStatus::Listed => 1,
            InvoiceStatus::Funded => 2,
            InvoiceStatus::Settled => 3,
            InvoiceStatus::Defaulted => 4,
        }
    }

    /// The byte that stands for this stage in an invoice account.
    #[verifier::when_used_as_spec(spec_as_u8)]
    pub fn as_u8(self) -> (b: u8)
        ensures
            b == self.spec_as_u8(),
    {
        match self {
            InvoiceStatus::Created => 0,
            InvoiceStatus::Listed => 1,
            InvoiceStatus::Funded => 2,
            InvoiceStatus::Settled => 3,
            InvoiceStatus::Defaulted => 4,
        }
    }

    /// The stage that a status byte stands for, if any.
    pub open spec fn from_byte(b: u8) -> Option<InvoiceStatus> {
        if b == 0 {
            Some(InvoiceStatus::Created)
        } else if b == 1 {
            Some(InvoiceStatus::Listed)
        } else if b == 2 {
            Some(InvoiceStatus::Funded)
        } else if b == 3 {
            Some(InvoiceStatus::Settled)
        } else if b == 4 {
            Some(InvoiceStatus::Defaulted)
        } else {
            None
        }
    }
}

/// An invoice whose status byte stands for one of the lifecycle stages.
pub open spec fn status_is_valid(invoice: Invoice) -> bool {
    InvoiceStatus::from_byte(invoice.status) is Some
}

/// `invoice` is at the lifecycle stage `s`.
pub open spec fn has_status(invoice: Invoice, s: InvoiceStatus) -> bool {
    invoice.status == s.spec_as_u8()
}

/// The terms of an invoice: everything but its status and its attestation.
pub open spec fn same_terms(a: Invoice, b: Invoice) -> bool {
    &&& a.issuer == b.issuer
    &&& a.payer == b.payer
    &&& a.invoice_amount == b.invoice_amount
    &&& a.currency == b.currency
    &&& a.due_date == b.due_date
    &&& a.mint_pubkey == b.mint_pubkey
    &&& a.ipfs_cid == b.ipfs_cid
    &&& a.created_at == b.created_at
}

/// `b` is `a` with its status set to the byte of `s`.
pub open spec fn with_status(a: Invoice, s: InvoiceStatus) -> Invoice {
    Invoice { status: s.spec_as_u8(), ..a }
}

} // verus!
