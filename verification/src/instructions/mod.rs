//! One module per instruction: the accounts it reads, the checks it makes,
//! the state it leaves and the event it reports.

pub mod attest_invoice;
pub mod initialize_invoice;
pub mod list_invoice;
pub mod mark_default;
pub mod buy_invoice;
pub mod settle_invoice;
