//! Invoice-as-NFT marketplace logic: the state of an invoice account, the
//! checks each instruction makes, the state each one leaves behind, and the
//! token and lamport transfers it asks the runtime to perform.

pub mod pubkey;
pub mod error;
pub mod state;
pub mod clock;
pub mod cpi;
pub mod accounts;
pub mod instructions;
pub mod finvoice;
pub mod lifecycle;
pub mod instruction_laws;
