use vstd::prelude::*;

use crate::address::Address;
use solana_program::pubkey::Pubkey;

verus! {

/// The address of the host's built-in transfer program: 32 zero bytes.
pub open spec fn system_program_id() -> Seq<u8> {
    Seq::new(32, |i: int| 0u8)
}

/// An account that an instruction may touch, with the privileges it asks for.
#[derive(Debug, Clone, Copy, PartialEq, Eq)]
pub struct AccountMeta {
    pub key: Address,
    pub is_signer: bool,
    pub is_writable: bool,
}

/// An instruction for the host: the program that runs it, the accounts it
/// may touch, and its argument bytes.
#[derive(Debug, Clone)]
pub struct HostInstruction {
    pub program_id: Address,
    pub accounts: Vec<AccountMeta>,
    pub data: Vec<u8>,
}

/// The eight little-endian bytes of `n`.
pub open spec fn le_bytes(n: u64) -> Seq<u8> {
    seq![
        (n % 0x100) as u8,
        ((n / 0x100) % 0x100) as u8,
        ((n / 0x1_0000) % 0x100) as u8,
        ((n / 0x100_0000) % 0x100) as u8,
        ((n / 0x1_0000_0000) % 0x100) as u8,
        ((n / 0x100_0000_0000) % 0x100) as u8,
        ((n / 0x1_0000_0000_0000) % 0x100) as u8,
        ((n / 0x100_0000_0000_0000) % 0x100) as u8,
    ]
}

/// The argument bytes of a transfer: the variant tag 2 as a little-endian
/// `u32`, then the amount as a little-endian `u64`.
pub open spec fn transfer_data(lamports: u64) -> Seq<u8> {
    seq![2u8, 0u8, 0u8, 0u8] + le_bytes(lamports)
}

/// What a transfer of `lamports` from `from` to `to` looks like as an instruction.
pub open spec fn is_transfer_instruction(
    ix: HostInstruction,
    from: Seq<u8>,
    to: Seq<u8>,
    lamports: u64,
) -> bool {
    &&& ix.program_id@ == system_program_id()
    &&& ix.accounts@.len() == 2
    &&& ix.accounts@[0].key@ == from
    &&& ix.accounts@[0].is_signer
    &&& ix.accounts@[0].is_writable
    &&& ix.accounts@[1].key@ == to
    &&& !ix.accounts@[1].is_signer
    &&& ix.accounts@[1].is_writable
    &&& ix.data@ == transfer_data(lamports)
}

/// Relies on solana_program's `system_instruction::transfer`: the system
/// program's id, the payer as a writable signer, the recipient as writable,
/// and the bincode encoding of `SystemInstruction::Transfer { lamports }`.
#[allow(deprecated)]
#[verifier::external_body]
pub(crate) fn system_transfer(from: &Address, to: &Address, lamports: u64) -> (r: HostInstruction)
    ensures
        is_transfer_instruction(r, from@, to@, lamports),
{
    let ix = solana_program::system_instruction::transfer(
        &Pubkey::new_from_array(*from),
        &Pubkey::new_from_array(*to),
        lamports,
    );
    let accounts = ix.accounts.iter().map(
        |m| AccountMeta { key: m.pubkey.to_bytes(), is_signer: m.is_signer, is_writable: m.is_writable },
    ).collect();
    HostInstruction { program_id: ix.program_id.to_bytes(), accounts, data: ix.data }
}

} // verus!
