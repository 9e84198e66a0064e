use vstd::prelude::*;

use crate::accounts::SignerInfo;
use crate::error::FinvoiceError;
use crate::pubkey::Pubkey;
use crate::state::{has_status, Invoice, InvoiceStatus};

verus! {

/// Reported when an attestation is recorded.
#[derive(Clone, Copy, Debug, PartialEq, Eq)]
pub struct InvoiceAttested {
    pub invoice: Pubkey,
    pub attestor: Pubkey,
}

/// The accounts of an attestation.
#[derive(Clone, Copy, Debug, PartialEq, Eq)]
pub struct AttestInvoice {
    pub attestor: SignerInfo,
    pub invoice: Invoice,
    /// The address of the invoice account.
    pub invoice_key: Pubkey,
}

/// The check of an attestation: the invoice is created or listed, and the
/// attestor signed; the first that fails gives the error.
pub open spec fn attest_check(invoice: Invoice, attestor: SignerInfo) -> Result<(), FinvoiceError> {
    if !(has_status(invoice, InvoiceStatus::Created) || has_status(invoice, InvoiceStatus::Listed)) {
        Err(FinvoiceError::InvalidStatus)
    } else if !attestor.is_signer {
        Err(FinvoiceError::MissingIssuerSignature)
    } else {
        Ok(())
    }
}

/// The invoice with the attestor's address and signature recorded.
pub open spec fn attested(invoice: Invoice, attestor: Pubkey, attestor_sig: [u8; 64]) -> Invoice {
    Invoice { attestor_pubkey: attestor, attestor_sig, ..invoice }
}

/// What an attestation does: on success it records the attestor and the
/// signature and reports them; on refusal it changes nothing.
pub open spec fn attest_outcome(
    pre: AttestInvoice,
    post: AttestInvoice,
    attestor_sig: [u8; 64],
    r: Result<InvoiceAttested, FinvoiceError>,
) -> bool {
    match r {
        Ok(event) => {
            &&& attest_check(pre.invoice, pre.attestor) == Ok::<(), FinvoiceError>(())
            &&& post == (AttestInvoice { invoice: attested(pre.invoice, pre.attestor.key, attestor_sig), ..pre })
            &&& event == (InvoiceAttested { invoice: pre.invoice_key, attestor: pre.attestor.key })
        },
        Err(e) => {
            &&& attest_check(pre.invoice, pre.attestor) == Err::<(), FinvoiceError>(e)
            &&& post == pre
        },
    }
}

/// Records an attestor's address and signature on a created or listed
/// invoice.
pub fn attest_invoice(ctx: &mut AttestInvoice, attestor_sig: [u8; 64]) -> (r: Result<InvoiceAttested, FinvoiceError>)
    ensures
        attest_outcome(*old(ctx), *final(ctx), attestor_sig, r),
{
    if !(ctx.invoice.status == InvoiceStatus::Created.as_u8() || ctx.invoice.status == InvoiceStatus::Listed.as_u8()) {
        return Err(FinvoiceError::InvalidStatus);
    }
    if !ctx.attestor.is_signer {
        return Err(FinvoiceError::MissingIssuerSignature);
    }
    ctx.invoice.attestor_pubkey = ctx.attestor.key;
    ctx.invoice.attestor_sig = attestor_sig;
    Ok(InvoiceAttested { invoice: ctx.invoice_key, attestor: ctx.invoice.attestor_pubkey })
}

} // verus!
