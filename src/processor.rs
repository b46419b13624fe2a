use vstd::prelude::*;

use crate::address::{base58_address, parse_address, Address};
use crate::error::FeeError;
use crate::instruction::TokenCreationInstruction;
use crate::ledger::Ledger;
use crate::system::{is_transfer_instruction, system_transfer, HostInstruction};

verus! {

/// Smallest units of the native currency in one whole unit.
pub const UNITS_PER_WHOLE: u64 = 10_000_000_000;

/// The fee: one thousandth of a whole unit, in smallest units.
pub const FEE_LAMPORTS: u64 = UNITS_PER_WHOLE / 1000;

/// Position of the payer in the supplied accounts.
pub const PAYER_INDEX: usize = 0;

/// Position of the creator in the supplied accounts.
pub const CREATOR_INDEX: usize = 1;

/// Number of accounts the positional contract requires.
pub const REQUIRED_ACCOUNTS: usize = 2;

/// The base-58 text of the address that receives every fee.
pub const RECIPIENT_ADDRESS: &'static str = "6zkf4DviZZkpWVEh53MrcQV6vGXGpESnNXgAvU6KpBUH";

/// An account handed to the handler by the transaction.
#[derive(Debug, Clone, Copy, PartialEq, Eq)]
pub struct AccountRef {
    pub key: Address,
    pub is_signer: bool,
    pub is_writable: bool,
}

/// The one transfer the handler asks the host to run, with the accounts
/// it hands to the host alongside.
#[derive(Debug, Clone)]
pub struct FeeTransfer {
    pub from: Address,
    pub to: Address,
    pub lamports: u64,
    pub instruction: HostInstruction,
    pub accounts: Vec<AccountRef>,
}

/// The recipient address, when its text parses.
pub open spec fn recipient() -> Option<Seq<u8>> {
    base58_address(RECIPIENT_ADDRESS@)
}

/// The error that stops an invocation before the host is asked to do
/// anything, checked in order: payload, account count, signature, recipient.
pub open spec fn fee_gate(data: Seq<u8>, accounts: Seq<AccountRef>) -> Option<FeeError> {
    if data.len() != 0 {
        Some(FeeError::DeserializationError)
    } else if accounts.len() < REQUIRED_ACCOUNTS {
        Some(FeeError::MissingAccount)
    } else if !accounts[PAYER_INDEX as int].is_signer {
        Some(FeeError::MissingRequiredSignature)
    } else if recipient() is None {
        Some(FeeError::InvalidArgument)
    } else {
        None
    }
}

/// `t` moves the fixed fee from the payer of `accounts` to the fixed recipient.
pub open spec fn is_fee_transfer(t: FeeTransfer, accounts: Seq<AccountRef>) -> bool {
    &&& recipient() is Some
    &&& accounts.len() >= REQUIRED_ACCOUNTS
    &&& t.from@ == accounts[PAYER_INDEX as int].key@
    &&& t.to@ == recipient()->0
    &&& t.lamports == FEE_LAMPORTS
    &&& is_transfer_instruction(t.instruction, t.from@, t.to@, t.lamports)
    &&& t.accounts@ == seq![accounts[PAYER_INDEX as int], accounts[CREATOR_INDEX as int]]
}

/// What the invocation returns once the host has reported on the transfer.
pub open spec fn host_result(outcome: Result<(), u64>) -> Result<(), FeeError> {
    match outcome {
        Ok(()) => Ok(()),
        Err(code) => Err(FeeError::LedgerExecutionError(code)),
    }
}

/// Decodes the payload, binds the payer and creator by position, checks the
/// payer's signature, and builds the fee transfer for the host to run.
pub fn prepare_fee_transfer(
    program_id: &Address,
    accounts: &[AccountRef],
    data: &[u8],
) -> (r: Result<FeeTransfer, FeeError>)
    ensures
        fee_gate(data@, accounts@) is Some ==> r == Err::<FeeTransfer, FeeError>(
            fee_gate(data@, accounts@)->0,
        ),
        fee_gate(data@, accounts@) is None ==> r is Ok && is_fee_transfer(r->Ok_0, accounts@),
{
    let _payload = TokenCreationInstruction::try_from_slice(data)?;
    if accounts.len() < REQUIRED_ACCOUNTS {
        return Err(FeeError::MissingAccount);
    }
    let payer = accounts[PAYER_INDEX];
    let creator = accounts[CREATOR_INDEX];
    if !payer.is_signer {
        return Err(FeeError::MissingRequiredSignature);
    }
    let to = match parse_address(RECIPIENT_ADDRESS) {
        Some(to) => to,
        None => return Err(FeeError::InvalidArgument),
    };
    let instruction = system_transfer(&payer.key, &to, FEE_LAMPORTS);
    Ok(FeeTransfer { from: payer.key, to, lamports: FEE_LAMPORTS, instruction, accounts: vec![payer, creator] })
}

/// Turns the host's report on the transfer into the invocation's result:
/// success stays success, and a host error is passed on with its code.
pub fn finish_fee_transfer(outcome: Result<(), u64>) -> (r: Result<(), FeeError>)
    ensures
        r == host_result(outcome),
{
    match outcome {
        Ok(()) => Ok(()),
        Err(code) => Err(FeeError::LedgerExecutionError(code)),
    }
}

/// The result of an invocation run against ledger `l`.
pub open spec fn process_outcome(l: Ledger, accounts: Seq<AccountRef>, data: Seq<u8>) -> Result<(), FeeError> {
    match fee_gate(data, accounts) {
        Some(e) => Err(e),
        None => host_result(
            l.transfer_outcome(accounts[PAYER_INDEX as int].key@, recipient()->0, FEE_LAMPORTS),
        ),
    }
}

/// The balance of `k` after an invocation run against ledger `l`.
pub open spec fn balance_after_process(
    l: Ledger,
    accounts: Seq<AccountRef>,
    data: Seq<u8>,
    k: Seq<u8>,
) -> int {
    match fee_gate(data, accounts) {
        Some(_) => l.balance(k) as int,
        None => l.balance_after_transfer(
            accounts[PAYER_INDEX as int].key@,
            recipient()->0,
            FEE_LAMPORTS,
            k,
        ),
    }
}

/// Runs one invocation of the handler against `ledger`, which plays the host:
/// it prepares the fee transfer, has the ledger execute it, and reports.
pub fn process_instruction(
    ledger: &mut Ledger,
    program_id: &Address,
    accounts: &[AccountRef],
    data: &[u8],
) -> (r: Result<(), FeeError>)
    requires
        old(ledger).wf(),
    ensures
        final(ledger).wf(),
        r == process_outcome(*old(ledger), accounts@, data@),
        forall|k: Seq<u8>|
            final(ledger).balance(k) as int == balance_after_process(*old(ledger), accounts@, data@, k),
        r is Err ==> *final(ledger) == *old(ledger),
{
    let t = prepare_fee_transfer(program_id, accounts, data)?;
    let outcome = ledger.transfer(&t.from, &t.to, t.lamports);
    finish_fee_transfer(outcome)
}

} // verus!
