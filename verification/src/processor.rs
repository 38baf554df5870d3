//! The instruction processor: one invocation advances one counter by one.

use vstd::prelude::*;
use crate::account::{snapshot, Account, AccountView, Pubkey};
use crate::codec::{
    counter_value, lemma_read_then_write, lemma_write_then_read, successor, with_counter,
    CounterAccount,
};
use crate::error::CounterError;

verus! {

/// The buffer `data` after one increment of the counter at its start.
pub open spec fn incremented(data: Seq<u8>) -> Seq<u8>
    recommends
        data.len() >= 4,
{
    with_counter(data, successor(counter_value(data)) as u32)
}

/// Whether the program `program_id` accepts an invocation on `accounts`, and
/// if not, why not. Only the first account is consulted.
pub open spec fn verdict(program_id: Seq<u8>, accounts: Seq<AccountView>) -> Result<
    (),
    CounterError,
> {
    if accounts.len() == 0 {
        Err(CounterError::MissingAccount)
    } else if accounts[0].owner != program_id {
        Err(CounterError::IncorrectOwner)
    } else if accounts[0].data.len() < 4 {
        Err(CounterError::InvalidAccountData)
    } else {
        Ok(())
    }
}

/// The ledger that an invocation of `program_id` on `accounts` leaves behind:
/// the first account's counter advanced if the invocation is accepted, and
/// nothing changed otherwise.
pub open spec fn ledger_after(program_id: Seq<u8>, accounts: Seq<AccountView>) -> Seq<
    AccountView,
> {
    if verdict(program_id, accounts) is Ok {
        accounts.update(
            0,
            AccountView { owner: accounts[0].owner, data: incremented(accounts[0].data) },
        )
    } else {
        accounts
    }
}

/// Runs the counter program `program_id` on `accounts`. The payload is
/// accepted whatever it holds and never inspected.
pub fn process_instruction(
    program_id: &Pubkey,
    accounts: &mut [Account],
    _instruction_data: &[u8],
) -> (result: Result<(), CounterError>)
    ensures
        result == verdict(program_id@, snapshot(old(accounts)@)),
        snapshot(final(accounts)@) == ledger_after(program_id@, snapshot(old(accounts)@)),
        final(accounts)@.len() == old(accounts)@.len(),
        forall|i: int|
            1 <= i < old(accounts)@.len() ==> final(accounts)@[i] == old(accounts)@[i],
        result is Err ==> final(accounts)@ == old(accounts)@,
        result is Ok ==> {
            &&& final(accounts)@[0].owner == old(accounts)@[0].owner
            &&& final(accounts)@[0].data@.len() == old(accounts)@[0].data@.len()
            &&& counter_value(final(accounts)@[0].data@) == successor(
                counter_value(old(accounts)@[0].data@),
            )
        },
{
    let account = match accounts.first_mut() {
        Some(account) => account,
        None => {
            return Err(CounterError::MissingAccount);
        },
    };
    if account.owner != *program_id {
        return Err(CounterError::IncorrectOwner);
    }
    let mut counter = match CounterAccount::unpack(account.data.as_slice()) {
        Ok(counter) => counter,
        Err(error) => {
            return Err(error);
        },
    };
    counter.increment();
    proof {
        lemma_increment_yields_successor(account.data@);
    }
    counter.pack(account.data.as_mut_slice());
    Ok(())
}

/// An increment moves the counter to its successor and touches nothing else:
/// the buffer keeps its length and every byte after the fourth.
pub proof fn lemma_increment_yields_successor(data: Seq<u8>)
    requires
        data.len() >= 4,
    ensures
        0 <= counter_value(data) <= u32::MAX,
        counter_value(incremented(data)) == successor(counter_value(data)),
        incremented(data).len() == data.len(),
        forall|i: int| 4 <= i < data.len() ==> incremented(data)[i] == data[i],
{
    lemma_read_then_write(data);
    lemma_write_then_read(data, successor(counter_value(data)) as u32);
}

/// One increment of a counter below the largest value yields exactly one
/// more, in a buffer of the same length whose later bytes are untouched.
pub proof fn lemma_increment_adds_one(data: Seq<u8>)
    requires
        data.len() >= 4,
        counter_value(data) < u32::MAX,
    ensures
        counter_value(incremented(data)) == counter_value(data) + 1,
        incremented(data).len() == data.len(),
        forall|i: int| 4 <= i < data.len() ==> incremented(data)[i] == data[i],
{
    lemma_increment_yields_successor(data);
}

/// At the largest value an increment changes nothing: the counter does not
/// wrap around, and the buffer stays byte for byte what it was.
pub proof fn lemma_increment_saturates(data: Seq<u8>)
    requires
        data.len() >= 4,
        counter_value(data) == u32::MAX,
    ensures
        counter_value(incremented(data)) == u32::MAX,
        incremented(data) == data,
{
    lemma_read_then_write(data);
}

/// The counter never decreases, and never moves by more than one.
pub proof fn lemma_increment_is_monotonic(data: Seq<u8>)
    requires
        data.len() >= 4,
    ensures
        counter_value(data) <= counter_value(incremented(data)) <= counter_value(data) + 1,
        counter_value(incremented(data)) <= u32::MAX,
        incremented(data).len() == data.len(),
{
    lemma_increment_yields_successor(data);
}

/// Increments do not collapse: two of them advance the counter by two, as
/// long as there is room for both below the largest value.
pub proof fn lemma_increment_twice(data: Seq<u8>)
    requires
        data.len() >= 4,
        counter_value(data) + 2 <= u32::MAX,
    ensures
        counter_value(incremented(incremented(data))) == counter_value(data) + 2,
        counter_value(incremented(incremented(data))) != counter_value(incremented(data)),
{
    lemma_increment_adds_one(data);
    lemma_increment_adds_one(incremented(data));
}

/// The buffer `data` after `times` increments in a row.
pub open spec fn incremented_times(data: Seq<u8>, times: nat) -> Seq<u8>
    decreases times,
{
    if times == 0 {
        data
    } else {
        incremented(incremented_times(data, (times - 1) as nat))
    }
}

/// After `times` increments the counter has advanced by `times`, or has
/// reached the largest value and stopped there.
pub proof fn lemma_repeated_increments(data: Seq<u8>, times: nat)
    requires
        data.len() >= 4,
    ensures
        incremented_times(data, times).len() == data.len(),
        counter_value(incremented_times(data, times)) == if counter_value(data) + times
            <= u32::MAX {
            counter_value(data) + times
        } else {
            u32::MAX as int
        },
    decreases times,
{
    if times == 0 {
        lemma_read_then_write(data);
    } else {
        let previous = incremented_times(data, (times - 1) as nat);
        lemma_repeated_increments(data, (times - 1) as nat);
        lemma_increment_yields_successor(previous);
        assert(incremented_times(data, times) == incremented(previous));
    }
}

/// An accepted invocation leaves the account as acceptable as it found it:
/// same owner, same buffer length, so the next invocation is accepted too.
pub proof fn lemma_acceptance_is_stable(program_id: Seq<u8>, accounts: Seq<AccountView>)
    requires
        verdict(program_id, accounts) is Ok,
    ensures
        ledger_after(program_id, accounts).len() == accounts.len(),
        ledger_after(program_id, accounts)[0].owner == accounts[0].owner,
        ledger_after(program_id, accounts)[0].data.len() == accounts[0].data.len(),
        verdict(program_id, ledger_after(program_id, accounts)) is Ok,
{
    lemma_increment_is_monotonic(accounts[0].data);
}

/// A refused invocation changes nothing on the ledger.
pub proof fn lemma_refusal_changes_nothing(program_id: Seq<u8>, accounts: Seq<AccountView>)
    requires
        verdict(program_id, accounts) is Err,
    ensures
        ledger_after(program_id, accounts) == accounts,
{
}

/// Two accepted invocations on the same account are two separate effects:
/// the counter ends two above where it began.
pub proof fn lemma_two_invocations(program_id: Seq<u8>, accounts: Seq<AccountView>)
    requires
        verdict(program_id, accounts) is Ok,
        counter_value(accounts[0].data) + 2 <= u32::MAX,
    ensures
        verdict(program_id, ledger_after(program_id, accounts)) is Ok,
        counter_value(ledger_after(program_id, ledger_after(program_id, accounts))[0].data)
            == counter_value(accounts[0].data) + 2,
{
    lemma_acceptance_is_stable(program_id, accounts);
    lemma_increment_twice(accounts[0].data);
}

} // verus!
