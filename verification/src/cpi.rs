//! The transfers that instructions ask the runtime to perform, as plain
//! values: token transfers through the token program, lamport transfers
//! through the system program, and the program-derived addresses that sign
//! for them.

use vstd::prelude::*;

use crate::pubkey::Pubkey;

verus! {

/// An account as an instruction lists it.
#[derive(Clone, Copy, Debug, PartialEq, Eq)]
pub struct AccountMeta {
    pub pubkey: Pubkey,
    pub is_signer: bool,
    pub is_writable: bool,
}

/// An instruction for another program.
#[derive(Clone, Debug, PartialEq, Eq)]
pub struct Instruction {
    pub program_id: Pubkey,
    pub accounts: Vec<AccountMeta>,
    pub data: Vec<u8>,
}

/// The address of the system program: 32 zero bytes.
pub open spec fn system_program_id() -> Pubkey {
    Pubkey::spec_zero()
}

/// The 8 little-endian bytes of `n`.
pub open spec fn u64_le_bytes(n: u64) -> Seq<u8> {
    Seq::new(8, |i: int| ((n as int / vstd::arithmetic::power2::pow2((8 * i) as nat) as int) % 256) as u8)
}

/// The data of the system program's transfer instruction for `lamports`:
/// the variant `SystemInstruction::Transfer` (index 2) as a little-endian
/// `u32`, then `lamports` as a little-endian `u64`, as bincode encodes it.
pub open spec fn system_transfer_data(lamports: u64) -> Seq<u8> {
    seq![2u8, 0u8, 0u8, 0u8] + u64_le_bytes(lamports)
}

/// `ix` is the system program's instruction to move `lamports` from `from`
/// (which signs) to `to`.
pub open spec fn is_system_transfer(ix: Instruction, from: Pubkey, to: Pubkey, lamports: u64) -> bool {
    &&& ix.program_id == system_program_id()
    &&& ix.accounts@ == seq![
        AccountMeta { pubkey: from, is_signer: true, is_writable: true },
        AccountMeta { pubkey: to, is_signer: false, is_writable: true },
    ]
    &&& ix.data@ == system_transfer_data(lamports)
}

/// Builds the system program's transfer instruction by calling
/// `anchor_lang::solana_program::system_instruction::transfer` (that is,
/// `solana_system_interface::instruction::transfer`). Its source gives the
/// instruction the system program's id (declared as
/// "11111111111111111111111111111111", 32 zero bytes), lists `from` as a
/// writable signer and `to` as a writable non-signer, and serializes
/// `SystemInstruction::Transfer { lamports }` with bincode as the data
/// (`Instruction::new_with_bincode`): the contract states all three.
#[verifier::external_body]
pub(crate) fn system_transfer(from: &Pubkey, to: &Pubkey, lamports: u64) -> (ix: Instruction)
    ensures
        ix.program_id == system_program_id(),
        ix.accounts@ == seq![
            AccountMeta { pubkey: *from, is_signer: true, is_writable: true },
            AccountMeta { pubkey: *to, is_signer: false, is_writable: true },
        ],
        ix.data@ == system_transfer_data(lamports),
{
    let ix = anchor_lang::solana_program::system_instruction::transfer(
        &anchor_lang::prelude::Pubkey::new_from_array(from.0),
        &anchor_lang::prelude::Pubkey::new_from_array(to.0),
        lamports,
    );
    let accounts = ix.accounts.iter().map(
        |m| AccountMeta { pubkey: Pubkey(m.pubkey.to_bytes()), is_signer: m.is_signer, is_writable: m.is_writable },
    ).collect();
    Instruction { program_id: Pubkey(ix.program_id.to_bytes()), accounts, data: ix.data }
}

/// A program-derived address that signs a transfer, with the seeds it is
/// derived from.
#[derive(Clone, Copy, Debug, PartialEq, Eq)]
pub enum PdaSigner {
    /// The invoice account: seeds `["invoice", issuer, mint, bump]`.
    Invoice { issuer: Pubkey, mint: Pubkey, bump: u8 },
    /// The escrow vault of an invoice: seeds `["escrow", invoice, bump]`.
    Escrow { invoice: Pubkey, bump: u8 },
}

/// The bytes of "invoice".
pub open spec fn invoice_seed() -> Seq<u8> {
    seq![105u8, 110u8, 118u8, 111u8, 105u8, 99u8, 101u8]
}

/// The bytes of "escrow".
pub open spec fn escrow_seed() -> Seq<u8> {
    seq![101u8, 115u8, 99u8, 114u8, 111u8, 119u8]
}

impl PdaSigner {
    /// The seeds, bump included, that the address is derived from.
    pub open spec fn spec_seeds(self) -> Seq<Seq<u8>> {
        match self {
            PdaSigner::Invoice { issuer, mint, bump } => seq![invoice_seed(), issuer.0@, mint.0@, seq![bump]],
            PdaSigner::Escrow { invoice, bump } => seq![escrow_seed(), invoice.0@, seq![bump]],
        }
    }

    /// The seeds, bump included, that the address is derived from.
    pub fn seeds(&self) -> (s: Vec<Vec<u8>>)
        ensures
            s.deep_view() == self.spec_seeds(),
    {
        let mut s: Vec<Vec<u8>> = Vec::new();
        match self {
            PdaSigner::Invoice { issuer, mint, bump } => {
                s.push(vec![105u8, 110u8, 118u8, 111u8, 105u8, 99u8, 101u8]);
                s.push(key_bytes(issuer));
                s.push(key_bytes(mint));
                s.push(vec![*bump]);
                assert(s@[0]@ =~= invoice_seed());
                assert(s@[3]@ =~= seq![*bump]);
            },
            PdaSigner::Escrow { invoice, bump } => {
                s.push(vec![101u8, 115u8, 99u8, 114u8, 111u8, 119u8]);
                s.push(key_bytes(invoice));
                s.push(vec![*bump]);
                assert(s@[0]@ =~= escrow_seed());
                assert(s@[2]@ =~= seq![*bump]);
            },
        }
        assert forall|i: int| 0 <= i < s.len() implies #[trigger] s@[i].deep_view() == s@[i]@ by {
            assert(s@[i].deep_view() =~= s@[i]@);
        }
        assert(s.deep_view() =~= self.spec_seeds());
        s
    }
}

/// The bytes of an address, as a vector.
fn key_bytes(k: &Pubkey) -> (v: Vec<u8>)
    ensures
        v@ == k.0@,
{
    vstd::slice::slice_to_vec(k.0.as_slice())
}

/// A transfer of tokens through the token program, signed by `authority`
/// (and, where `signer` is given, by that program-derived address).
#[derive(Clone, Copy, Debug, PartialEq, Eq)]
pub struct TokenTransfer {
    pub from: Pubkey,
    pub to: Pubkey,
    pub authority: Pubkey,
    pub amount: u64,
    pub signer: Option<PdaSigner>,
}

/// A mint of new tokens through the token program, signed by `authority`,
/// the mint's authority.
#[derive(Clone, Copy, Debug, PartialEq, Eq)]
pub struct TokenMint {
    pub mint: Pubkey,
    pub to: Pubkey,
    pub authority: Pubkey,
    pub amount: u64,
}

/// A system program instruction to invoke (signed, where `signer` is given,
/// by that program-derived address).
#[derive(Clone, Debug, PartialEq, Eq)]
pub struct SystemTransfer {
    pub instruction: Instruction,
    pub signer: Option<PdaSigner>,
}

/// A payment: in tokens of a mint, or in lamports.
#[derive(Clone, Debug, PartialEq, Eq)]
pub enum Transfer {
    Token(TokenTransfer),
    System(SystemTransfer),
}

} // verus!
