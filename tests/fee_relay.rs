use std::str::FromStr;

use fee_relay::address::{same_address, Address};
use fee_relay::error::FeeError;
use fee_relay::instruction::TokenCreationInstruction;
use fee_relay::ledger::{Ledger, ARITHMETIC_OVERFLOW, INSUFFICIENT_FUNDS};
use fee_relay::processor::{
    finish_fee_transfer, prepare_fee_transfer, process_instruction, AccountRef, FEE_LAMPORTS,
    RECIPIENT_ADDRESS, UNITS_PER_WHOLE,
};
use fee_relay::system::AccountMeta;
use solana_program::pubkey::Pubkey;

const PROGRAM: Address = [9u8; 32];
const PAYER: Address = [1u8; 32];
const CREATOR: Address = [2u8; 32];
const STRANGER: Address = [3u8; 32];

fn recipient() -> Address {
    Pubkey::from_str(RECIPIENT_ADDRESS).unwrap().to_bytes()
}

fn account(key: Address, is_signer: bool) -> AccountRef {
    AccountRef { key, is_signer, is_writable: true }
}

fn ledger_with(payer_lamports: u64) -> Ledger {
    let mut l = Ledger::new();
    l.set_balance(&PAYER, payer_lamports);
    l.set_balance(&CREATOR, 500);
    l
}

#[test]
fn scenario_success_moves_exactly_the_fee() {
    let mut l = ledger_with(1_000_000_000);
    let accounts = [account(PAYER, true), account(CREATOR, false)];
    let r = process_instruction(&mut l, &PROGRAM, &accounts, &[]);
    assert_eq!(r, Ok(()));
    assert_eq!(l.balance_of(&PAYER), 1_000_000_000 - 10_000_000);
    assert_eq!(l.balance_of(&recipient()), 10_000_000);
    assert_eq!(l.balance_of(&CREATOR), 500);
}

#[test]
fn scenario_unsigned_payer_is_refused() {
    let mut l = ledger_with(1_000_000_000);
    let accounts = [account(PAYER, false), account(CREATOR, true)];
    let r = process_instruction(&mut l, &PROGRAM, &accounts, &[]);
    assert_eq!(r, Err(FeeError::MissingRequiredSignature));
    assert_eq!(l.balance_of(&PAYER), 1_000_000_000);
    assert_eq!(l.balance_of(&recipient()), 0);
    assert_eq!(l.balance_of(&CREATOR), 500);
}

#[test]
fn scenario_poor_payer_gets_host_error() {
    let mut l = ledger_with(FEE_LAMPORTS - 1);
    let accounts = [account(PAYER, true), account(CREATOR, false)];
    let r = process_instruction(&mut l, &PROGRAM, &accounts, &[]);
    assert_eq!(r, Err(FeeError::LedgerExecutionError(INSUFFICIENT_FUNDS)));
    assert_eq!(l.balance_of(&PAYER), FEE_LAMPORTS - 1);
    assert_eq!(l.balance_of(&recipient()), 0);
}

#[test]
fn scenario_trailing_bytes_fail_before_accounts() {
    let mut l = ledger_with(1_000_000_000);
    let r = process_instruction(&mut l, &PROGRAM, &[], &[0]);
    assert_eq!(r, Err(FeeError::DeserializationError));
    let accounts = [account(PAYER, true), account(CREATOR, false)];
    let r = process_instruction(&mut l, &PROGRAM, &accounts, &[1, 2, 3]);
    assert_eq!(r, Err(FeeError::DeserializationError));
    assert_eq!(l.balance_of(&PAYER), 1_000_000_000);
}

#[test]
fn too_few_accounts_fail() {
    let mut l = ledger_with(1_000_000_000);
    let r = process_instruction(&mut l, &PROGRAM, &[account(PAYER, true)], &[]);
    assert_eq!(r, Err(FeeError::MissingAccount));
    let r = process_instruction(&mut l, &PROGRAM, &[], &[]);
    assert_eq!(r, Err(FeeError::MissingAccount));
    assert_eq!(l.balance_of(&PAYER), 1_000_000_000);
}

#[test]
fn fee_matches_scaled_thousandth() {
    assert_eq!(FEE_LAMPORTS, 10_000_000);
    assert_eq!(FEE_LAMPORTS * 1000, UNITS_PER_WHOLE);
    assert_eq!((0.001f64 * 10_000_000_000.0f64) as u64, FEE_LAMPORTS);
    let a = [account(PAYER, true), account(CREATOR, false)];
    let b = [account(STRANGER, true), account(PAYER, true)];
    let ta = prepare_fee_transfer(&PROGRAM, &a, &[]).unwrap();
    let tb = prepare_fee_transfer(&PROGRAM, &b, &[]).unwrap();
    assert_eq!(ta.lamports, FEE_LAMPORTS);
    assert_eq!(tb.lamports, FEE_LAMPORTS);
}

#[test]
fn destination_ignores_caller_accounts() {
    let accounts = [account(PAYER, true), account(CREATOR, false), account(STRANGER, true)];
    let t = prepare_fee_transfer(&PROGRAM, &accounts, &[]).unwrap();
    assert_eq!(t.from, PAYER);
    assert_eq!(t.to, recipient());
    assert_ne!(t.to, STRANGER);
    assert_eq!(t.accounts, vec![accounts[0], accounts[1]]);

    let mut l = ledger_with(1_000_000_000);
    l.set_balance(&STRANGER, 7);
    assert_eq!(process_instruction(&mut l, &PROGRAM, &accounts, &[]), Ok(()));
    assert_eq!(l.balance_of(&STRANGER), 7);
    assert_eq!(l.balance_of(&recipient()), FEE_LAMPORTS);
}

#[test]
fn recipient_text_decodes() {
    let t = prepare_fee_transfer(&PROGRAM, &[account(PAYER, true), account(CREATOR, false)], &[]).unwrap();
    let text_bytes = RECIPIENT_ADDRESS.as_bytes();
    assert_ne!(&t.to[..], &text_bytes[..32]);
    assert_eq!(t.to[0], recipient()[0]);
    assert_eq!(t.to, recipient());
}

#[test]
fn transfer_instruction_is_system_transfer() {
    let t = prepare_fee_transfer(&PROGRAM, &[account(PAYER, true), account(CREATOR, false)], &[]).unwrap();
    assert_eq!(t.instruction.program_id, [0u8; 32]);
    assert_eq!(
        t.instruction.accounts,
        vec![
            AccountMeta { key: PAYER, is_signer: true, is_writable: true },
            AccountMeta { key: recipient(), is_signer: false, is_writable: true },
        ]
    );
    assert_eq!(t.instruction.data, vec![2, 0, 0, 0, 0x80, 0x96, 0x98, 0, 0, 0, 0, 0]);
}

#[test]
fn payload_decodes_only_when_empty() {
    assert_eq!(TokenCreationInstruction::try_from_slice(&[]), Ok(TokenCreationInstruction {}));
    assert_eq!(TokenCreationInstruction::try_from_slice(&[0]), Err(FeeError::DeserializationError));
}

#[test]
fn host_errors_pass_through() {
    assert_eq!(finish_fee_transfer(Ok(())), Ok(()));
    assert_eq!(finish_fee_transfer(Err(42)), Err(FeeError::LedgerExecutionError(42)));
}

#[test]
fn addresses_compare_bytewise() {
    assert!(same_address(&PAYER, &PAYER));
    assert!(!same_address(&PAYER, &CREATOR));
    let mut last = PAYER;
    last[31] = 0;
    assert!(!same_address(&PAYER, &last));
}

#[test]
fn ledger_transfer_rules() {
    let mut l = Ledger::new();
    assert_eq!(l.balance_of(&PAYER), 0);
    l.set_balance(&PAYER, 100);
    l.set_balance(&PAYER, 60);
    assert_eq!(l.balance_of(&PAYER), 60);
    assert_eq!(l.transfer(&PAYER, &CREATOR, 61), Err(INSUFFICIENT_FUNDS));
    assert_eq!(l.transfer(&PAYER, &PAYER, 60), Ok(()));
    assert_eq!(l.balance_of(&PAYER), 60);
    assert_eq!(l.transfer(&PAYER, &CREATOR, 60), Ok(()));
    assert_eq!(l.balance_of(&PAYER), 0);
    assert_eq!(l.balance_of(&CREATOR), 60);
    l.set_balance(&STRANGER, u64::MAX);
    assert_eq!(l.transfer(&CREATOR, &STRANGER, 1), Err(ARITHMETIC_OVERFLOW));
    assert_eq!(l.balance_of(&CREATOR), 60);
    assert_eq!(l.balance_of(&STRANGER), u64::MAX);
}

#[test]
fn payer_as_recipient_keeps_balance() {
    let mut l = Ledger::new();
    l.set_balance(&recipient(), FEE_LAMPORTS);
    let accounts = [account(recipient(), true), account(CREATOR, false)];
    assert_eq!(process_instruction(&mut l, &PROGRAM, &accounts, &[]), Ok(()));
    assert_eq!(l.balance_of(&recipient()), FEE_LAMPORTS);
}
