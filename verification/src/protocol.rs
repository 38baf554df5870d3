//! What holds of every decision the driver can take: the protocol runs
//! forward, one stage at a time, and ends where it fails.

use vstd::prelude::*;
use crate::account::Pubkey;
use crate::codec::{counter_value, lemma_read_then_write};
use crate::driver::{
    abandoned, advance, DriverAction, DriverError, DriverEvent, DriverState, Notice,
    AIRDROP_LAMPORTS, MIN_PAYER_BALANCE,
};

verus! {

/// How far along the protocol a state is. Reading the balance again and
/// pausing between two readings are one stage: the driver alternates between
/// them for as long as the grant has not landed.
pub open spec fn stage(state: DriverState) -> nat {
    match state {
        DriverState::CheckingBalance => 0,
        DriverState::RequestingAirdrop { .. } => 1,
        DriverState::AwaitingFunds { .. } => 2,
        DriverState::Pausing { .. } => 2,
        DriverState::QueryingRent => 3,
        DriverState::PreparingCreate { .. } => 4,
        DriverState::CreatingAccount { .. } => 5,
        DriverState::PreparingIncrement { .. } => 6,
        DriverState::Incrementing => 7,
        DriverState::ReadingCounter => 8,
        DriverState::Finished { .. } => 9,
        DriverState::Failed { .. } => 9,
    }
}

/// Whether the protocol is over in `state`.
pub open spec fn is_terminal(state: DriverState) -> bool {
    state is Finished || state is Failed
}

/// The state reached from `state` by hearing `events` in order, where there
/// is one: every event must be one that the state before it was waiting for.
pub open spec fn run(state: DriverState, events: Seq<DriverEvent>, program_id: Option<Pubkey>)
    -> Option<DriverState>
    decreases events.len(),
{
    if events.len() == 0 {
        Some(state)
    } else {
        match advance(state, events[0], program_id) {
            Some(step) => run(step.state, events.drop_first(), program_id),
            None => None,
        }
    }
}

/// Once finished or failed, the driver takes no further event.
pub proof fn lemma_terminal_states_are_final(
    state: DriverState,
    event: DriverEvent,
    program_id: Option<Pubkey>,
)
    requires
        is_terminal(state),
    ensures
        advance(state, event, program_id) is None,
{
}

/// The driver asks for nothing more exactly when the protocol is over.
pub proof fn lemma_halts_exactly_at_the_end(
    state: DriverState,
    event: DriverEvent,
    program_id: Option<Pubkey>,
)
    requires
        advance(state, event, program_id) is Some,
    ensures
        advance(state, event, program_id)->Some_0.action is Halt <==> is_terminal(
            advance(state, event, program_id)->Some_0.state,
        ),
{
}

/// A failed request ends the protocol at once, with the failure that was
/// reported: nothing is retried and nothing further is asked of the ledger.
pub proof fn lemma_failure_abandons(
    state: DriverState,
    error: DriverError,
    program_id: Option<Pubkey>,
)
    requires
        !is_terminal(state),
        !(state is Pausing),
    ensures
        advance(state, DriverEvent::Failed(error), program_id) == Some(abandoned(error)),
{
}

/// The protocol is strictly sequential. A decision that does not abandon it
/// moves to the next stage, with two exceptions: a payer that is already
/// funded skips the grant, and a driver waiting for the grant stays in that
/// stage, alternating between pausing and looking again.
pub proof fn lemma_steps_are_sequential(
    state: DriverState,
    event: DriverEvent,
    program_id: Option<Pubkey>,
)
    requires
        advance(state, event, program_id) is Some,
    ensures
        ({
            let next = advance(state, event, program_id)->Some_0.state;
            ||| next is Failed
            ||| stage(next) == stage(state) + 1
            ||| state is CheckingBalance && next is QueryingRent
            ||| state is AwaitingFunds && next is Pausing
            ||| state is Pausing && next is AwaitingFunds
        }),
        stage(advance(state, event, program_id)->Some_0.state) >= stage(state),
{
}

/// Nothing is created before the payer is funded. The driver turns to the
/// rent, and from there to the account, only on seeing a balance that meets
/// the threshold at the first look, or one strictly above what the payer held
/// before the grant; and it asks for a grant only when the first look found
/// the payer short.
pub proof fn lemma_funding_comes_first(
    state: DriverState,
    event: DriverEvent,
    program_id: Option<Pubkey>,
)
    requires
        advance(state, event, program_id) is Some,
    ensures
        ({
            let next = advance(state, event, program_id)->Some_0;
            &&& next.state is QueryingRent ==> {
                &&& event is Balance
                &&& state is CheckingBalance ==> event->Balance_0 >= MIN_PAYER_BALANCE
                &&& state is AwaitingFunds ==> event->Balance_0 > state->AwaitingFunds_before
                &&& state is CheckingBalance || state is AwaitingFunds
            }
            &&& next.action is RequestAirdrop ==> {
                &&& state is CheckingBalance
                &&& event is Balance
                &&& event->Balance_0 < MIN_PAYER_BALANCE
                &&& next.action == (DriverAction::RequestAirdrop { lamports: AIRDROP_LAMPORTS })
                &&& next.state == (DriverState::RequestingAirdrop { before: event->Balance_0 })
            }
        }),
{
}

/// The account is created for the counter and for the program: four bytes,
/// the balance that the ledger named as rent-exempt, and as owner the
/// identity that the program's name decoded to.
pub proof fn lemma_account_is_made_for_the_counter(
    lamports: u64,
    program_id: Option<Pubkey>,
)
    ensures
        program_id is None ==> advance(
            DriverState::QueryingRent,
            DriverEvent::RentExemption(lamports),
            program_id,
        ) == Some(abandoned(DriverError::InvalidProgramId)),
        program_id matches Some(owner) ==> {
            &&& run(
                DriverState::QueryingRent,
                seq![DriverEvent::RentExemption(lamports), DriverEvent::Blockhash],
                program_id,
            ) == Some(DriverState::CreatingAccount { program_id: owner })
            &&& advance(
                DriverState::PreparingCreate { lamports, owner },
                DriverEvent::Blockhash,
                program_id,
            )->Some_0.action == (DriverAction::CreateAccount { lamports, space: 4, owner })
        },
{
    if let Some(owner) = program_id {
        let events = seq![DriverEvent::RentExemption(lamports), DriverEvent::Blockhash];
        let prepared = DriverState::PreparingCreate { lamports, owner };
        let created = DriverState::CreatingAccount { program_id: owner };
        assert(events.drop_first() =~= seq![DriverEvent::Blockhash]);
        assert(events.drop_first().drop_first() =~= Seq::<DriverEvent>::empty());
        assert(run(created, events.drop_first().drop_first(), program_id) == Some(created));
        assert(run(prepared, events.drop_first(), program_id) == Some(created));
    }
}

/// The value that the driver reports is the one it read back: it finishes
/// only on seeing the account's buffer, and with the counter that the
/// buffer's first four bytes spell.
pub proof fn lemma_reported_count_is_read_back(
    state: DriverState,
    event: DriverEvent,
    program_id: Option<Pubkey>,
)
    requires
        advance(state, event, program_id) is Some,
        advance(state, event, program_id)->Some_0.state is Finished,
    ensures
        state is ReadingCounter,
        event is AccountData,
        event->AccountData_0@.len() >= 4,
        advance(state, event, program_id)->Some_0.state->Finished_count == counter_value(
            event->AccountData_0@,
        ),
        advance(state, event, program_id)->Some_0.notice == Some(
            Notice::CounterValue(advance(state, event, program_id)->Some_0.state->Finished_count),
        ),
{
    lemma_read_then_write(event->AccountData_0@);
}

/// However long the driver runs, it never returns to an earlier stage.
pub proof fn lemma_runs_never_go_back(
    state: DriverState,
    events: Seq<DriverEvent>,
    program_id: Option<Pubkey>,
)
    requires
        run(state, events, program_id) is Some,
    ensures
        stage(run(state, events, program_id)->Some_0) >= stage(state),
    decreases events.len(),
{
    if events.len() > 0 {
        let next = advance(state, events[0], program_id)->Some_0;
        lemma_steps_are_sequential(state, events[0], program_id);
        lemma_runs_never_go_back(next.state, events.drop_first(), program_id);
    }
}

/// From a funded payer there is one way to the end. A run that finishes has
/// heard, in this order and nothing else: the rent, a blockhash, the
/// confirmation that the account was created, a second blockhash, the
/// confirmation that the counter was incremented, and the account's buffer.
/// So the account is never read before the increment is confirmed, and the
/// increment never submitted before the account is confirmed to exist.
pub proof fn lemma_one_way_to_the_end(
    events: Seq<DriverEvent>,
    program_id: Option<Pubkey>,
    count: u32,
)
    requires
        run(DriverState::QueryingRent, events, program_id) == Some(
            DriverState::Finished { count },
        ),
    ensures
        program_id is Some,
        events.len() == 6,
        events[0] is RentExemption,
        events[1] is Blockhash,
        events[2] is Confirmed,
        events[3] is Blockhash,
        events[4] is Confirmed,
        events[5] is AccountData,
        events[5]->AccountData_0@.len() >= 4,
        count == counter_value(events[5]->AccountData_0@),
{
    let rest1 = events.drop_first();
    let rest2 = rest1.drop_first();
    let rest3 = rest2.drop_first();
    let rest4 = rest3.drop_first();
    let rest5 = rest4.drop_first();
    let rest6 = rest5.drop_first();
    let s0 = DriverState::QueryingRent;
    assert(events.len() > 0);
    let s1 = advance(s0, events[0], program_id)->Some_0.state;
    lemma_abandoned_runs_do_not_finish(s1, rest1, program_id, count);
    assert(rest1.len() > 0);
    let s2 = advance(s1, rest1[0], program_id)->Some_0.state;
    lemma_abandoned_runs_do_not_finish(s2, rest2, program_id, count);
    assert(rest2.len() > 0);
    let s3 = advance(s2, rest2[0], program_id)->Some_0.state;
    lemma_abandoned_runs_do_not_finish(s3, rest3, program_id, count);
    assert(rest3.len() > 0);
    let s4 = advance(s3, rest3[0], program_id)->Some_0.state;
    lemma_abandoned_runs_do_not_finish(s4, rest4, program_id, count);
    assert(rest4.len() > 0);
    let s5 = advance(s4, rest4[0], program_id)->Some_0.state;
    lemma_abandoned_runs_do_not_finish(s5, rest5, program_id, count);
    assert(rest5.len() > 0);
    let s6 = advance(s5, rest5[0], program_id)->Some_0.state;
    lemma_abandoned_runs_do_not_finish(s6, rest6, program_id, count);
    assert(s6 is Finished);
    if rest6.len() > 0 {
        lemma_terminal_states_are_final(s6, rest6[0], program_id);
    }
    lemma_reported_count_is_read_back(s5, rest5[0], program_id);
}

/// A run that passes through failure does not end in success.
proof fn lemma_abandoned_runs_do_not_finish(
    state: DriverState,
    events: Seq<DriverEvent>,
    program_id: Option<Pubkey>,
    count: u32,
)
    requires
        run(state, events, program_id) == Some(DriverState::Finished { count }),
    ensures
        !(state is Failed),
{
    if state is Failed && events.len() > 0 {
        lemma_terminal_states_are_final(state, events[0], program_id);
    }
}

} // verus!
