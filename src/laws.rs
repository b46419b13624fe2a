use vstd::prelude::*;

use crate::error::FeeError;
use crate::ledger::{Ledger, INSUFFICIENT_FUNDS};
use crate::processor::{
    balance_after_process, fee_gate, process_outcome, recipient, AccountRef, FEE_LAMPORTS,
    UNITS_PER_WHOLE,
};

verus! {

/// An invocation whose payer did not sign fails with
/// `MissingRequiredSignature` and changes no balance.
pub proof fn lemma_unsigned_payer_is_refused(l: Ledger, accounts: Seq<AccountRef>, data: Seq<u8>)
    requires
        data.len() == 0,
        accounts.len() >= 2,
        !accounts[0].is_signer,
    ensures
        process_outcome(l, accounts, data) == Err::<(), FeeError>(FeeError::MissingRequiredSignature),
        forall|k: Seq<u8>| balance_after_process(l, accounts, data, k) == l.balance(k) as int,
{
}

/// The fee is one thousandth of a whole unit, exactly ten million smallest
/// units with no remainder dropped, and every successful invocation moves
/// exactly that amount from the payer to the recipient.
pub proof fn lemma_fee_is_fixed(l: Ledger, accounts: Seq<AccountRef>, data: Seq<u8>)
    requires
        process_outcome(l, accounts, data) is Ok,
    ensures
        UNITS_PER_WHOLE % 1000 == 0,
        FEE_LAMPORTS * 1000 == UNITS_PER_WHOLE,
        FEE_LAMPORTS == 10_000_000,
        accounts[0].key@ != recipient()->0 ==> {
            &&& balance_after_process(l, accounts, data, accounts[0].key@)
                == l.balance(accounts[0].key@) - FEE_LAMPORTS
            &&& balance_after_process(l, accounts, data, recipient()->0)
                == l.balance(recipient()->0) + FEE_LAMPORTS
        },
{
}

/// Only the payer and the fixed recipient can see their balance change;
/// every other address, whatever the caller supplied, keeps its balance.
pub proof fn lemma_only_payer_and_recipient_change(
    l: Ledger,
    accounts: Seq<AccountRef>,
    data: Seq<u8>,
    k: Seq<u8>,
)
    requires
        accounts.len() >= 2,
        k != accounts[0].key@,
        k != recipient()->0,
    ensures
        balance_after_process(l, accounts, data, k) == l.balance(k) as int,
{
}

/// Accounts supplied beyond the payer and the creator change nothing: the
/// destination never comes from the caller.
pub proof fn lemma_extra_accounts_ignored(
    l: Ledger,
    accounts: Seq<AccountRef>,
    extra: Seq<AccountRef>,
    data: Seq<u8>,
)
    requires
        accounts.len() >= 2,
    ensures
        process_outcome(l, accounts + extra, data) == process_outcome(l, accounts, data),
        forall|k: Seq<u8>|
            balance_after_process(l, accounts + extra, data, k) == balance_after_process(
                l,
                accounts,
                data,
                k,
            ),
{
    assert((accounts + extra)[0] == accounts[0]);
    assert(fee_gate(data, accounts + extra) == fee_gate(data, accounts));
}

/// An invocation with fewer than two accounts fails with `MissingAccount`
/// and changes no balance.
pub proof fn lemma_too_few_accounts(l: Ledger, accounts: Seq<AccountRef>, data: Seq<u8>)
    requires
        data.len() == 0,
        accounts.len() < 2,
    ensures
        process_outcome(l, accounts, data) == Err::<(), FeeError>(FeeError::MissingAccount),
        forall|k: Seq<u8>| balance_after_process(l, accounts, data, k) == l.balance(k) as int,
{
}

/// When the host refuses the transfer, the invocation fails with the host's
/// own error code and no balance changes: there is no partial debit.
pub proof fn lemma_host_failure_is_atomic(l: Ledger, accounts: Seq<AccountRef>, data: Seq<u8>)
    requires
        fee_gate(data, accounts) is None,
        l.transfer_outcome(accounts[0].key@, recipient()->0, FEE_LAMPORTS) is Err,
    ensures
        process_outcome(l, accounts, data) == Err::<(), FeeError>(
            FeeError::LedgerExecutionError(
                l.transfer_outcome(accounts[0].key@, recipient()->0, FEE_LAMPORTS)->Err_0,
            ),
        ),
        forall|k: Seq<u8>| balance_after_process(l, accounts, data, k) == l.balance(k) as int,
{
}

/// A payer holding less than the fee makes the invocation fail with the
/// host's insufficient-funds code, and no balance changes.
pub proof fn lemma_poor_payer_changes_nothing(l: Ledger, accounts: Seq<AccountRef>, data: Seq<u8>)
    requires
        fee_gate(data, accounts) is None,
        l.balance(accounts[0].key@) < FEE_LAMPORTS,
    ensures
        process_outcome(l, accounts, data) == Err::<(), FeeError>(
            FeeError::LedgerExecutionError(INSUFFICIENT_FUNDS),
        ),
        forall|k: Seq<u8>| balance_after_process(l, accounts, data, k) == l.balance(k) as int,
{
    lemma_host_failure_is_atomic(l, accounts, data);
}

} // verus!
