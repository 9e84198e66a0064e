use vstd::prelude::*;

verus! {

/// The reasons for which an instruction refuses a request.
#[derive(Clone, Copy, Debug, PartialEq, Eq, Structural)]
pub enum FinvoiceError {
    InvalidStatus,
    InsufficientPayment,
    TooEarly,
    InvalidAmount,
    InvalidDueDate,
    MissingIssuerSignature,
    InvalidBuyer,
    MissingPaymentAccount,
    InvalidNftAccount,
    InvalidEscrowAccount,
    InvalidPaymentAccount,
    InvalidRecipient,
}

impl FinvoiceError {
    /// The message that goes with the error.
    pub fn message(&self) -> (m: &'static str)
        ensures
            m@ == (match self {
                FinvoiceError::InvalidStatus => "Invalid status for operation"@,
                FinvoiceError::InsufficientPayment => "Insufficient payment amount"@,
                FinvoiceError::TooEarly => "Too early to mark default"@,
                FinvoiceError::InvalidAmount => "The invoice amount must be greater than zero."@,
                FinvoiceError::InvalidDueDate => "The due date must be in the future."@,
                FinvoiceError::MissingIssuerSignature => "Issuer signature is required."@,
                FinvoiceError::InvalidBuyer => "Buyer cannot be the same as the issuer."@,
                FinvoiceError::MissingPaymentAccount => "Missing payment token account."@,
                FinvoiceError::InvalidNftAccount => "The NFT token account does not match the invoice."@,
                FinvoiceError::InvalidEscrowAccount => "The escrow token account is not the invoice's escrow."@,
                FinvoiceError::InvalidPaymentAccount => "The payment token account does not match the payment."@,
                FinvoiceError::InvalidRecipient => "The recipient does not hold the invoice NFT."@,
            }),
    {
        match self {
            FinvoiceError::InvalidStatus => "Invalid status for operation",
            FinvoiceError::InsufficientPayment => "Insufficient payment amount",
            FinvoiceError::TooEarly => "Too early to mark default",
            FinvoiceError::InvalidAmount => "The invoice amount must be greater than zero.",
            FinvoiceError::InvalidDueDate => "The due date must be in the future.",
            FinvoiceError::MissingIssuerSignature => "Issuer signature is required.",
            FinvoiceError::InvalidBuyer => "Buyer cannot be the same as the issuer.",
            FinvoiceError::MissingPaymentAccount => "Missing payment token account.",
            FinvoiceError::InvalidNftAccount => "The NFT token account does not match the invoice.",
            FinvoiceError::InvalidEscrowAccount => "The escrow token account is not the invoice's escrow.",
            FinvoiceError::InvalidPaymentAccount => "The payment token account does not match the payment.",
            FinvoiceError::InvalidRecipient => "The recipient does not hold the invoice NFT.",
        }
    }
}

/// The reasons for which an instruction fails: a refusal of the program,
/// or a failed request to the runtime.
#[derive(Debug, PartialEq, Eq)]
pub enum InstructionError {
    Finvoice(FinvoiceError),
    Program(anchor_lang::prelude::ProgramError),
}

} // verus!
