//! The account lifecycle driver, as a machine that decides and never acts.
//!
//! Provisioning a counter is a fixed protocol against the ledger: make sure
//! the payer is funded, create an account sized for a counter, invoke the
//! program on it once, read the value back. Every round-trip to the ledger is
//! a [`DriverAction`] that the machine hands out and a [`DriverEvent`] that
//! it takes back; whoever owns the connection performs the one and reports
//! the other. What to do next is decided here, by [`step`].

use std::str::FromStr;
use vstd::prelude::*;
use crate::account::Pubkey;
use crate::codec::{counter_value, read_counter, COUNTER_LEN};

verus! {

/// A payer holding fewer base units than this is topped up before anything
/// is created.
pub const MIN_PAYER_BALANCE: u64 = 100_000_000;

/// Base units asked of the faucet when the payer is short.
pub const AIRDROP_LAMPORTS: u64 = 100_000_000;

/// Seconds between two looks at the payer's balance while a grant is awaited.
pub const POLL_INTERVAL_SECS: u64 = 1;

/// The identity of the counter program, in base58.
pub const PROGRAM_ID: &'static str = "DzrwGUTH6ZsQcCMYTayJ1b5rorTPdXvcxeTzfTavMqm2";

/// Why the driver gave up.
#[derive(Clone, Copy, Debug, PartialEq, Eq, Structural)]
pub enum DriverError {
    /// The ledger could not be reached, or did not answer.
    TransportFailure,
    /// The ledger refused a transaction, or failed to execute it.
    TransactionRejected,
    /// The program's identity does not spell 32 bytes in base58.
    InvalidProgramId,
}

/// Where the driver stands in the protocol: what it has asked for and is
/// waiting to hear about.
#[derive(Clone, Copy, Debug, PartialEq, Eq)]
pub enum DriverState {
    /// The payer's balance has been asked for.
    CheckingBalance,
    /// A grant has been asked of the faucet; the payer held `before`.
    RequestingAirdrop { before: u64 },
    /// The balance is being read again, to see it rise above `before`.
    AwaitingFunds { before: u64 },
    /// The balance had not risen; the poll interval is running.
    Pausing { before: u64 },
    /// The rent-exempt minimum for a counter account has been asked for.
    QueryingRent,
    /// A blockhash is being fetched for the transaction that creates the
    /// account with `lamports`, owned by `owner`.
    PreparingCreate { lamports: u64, owner: Pubkey },
    /// The creating transaction has been submitted.
    CreatingAccount { program_id: Pubkey },
    /// A blockhash is being fetched for the incrementing transaction.
    PreparingIncrement { program_id: Pubkey },
    /// The incrementing transaction has been submitted.
    Incrementing,
    /// The account has been asked for, to read the counter back.
    ReadingCounter,
    /// The protocol ran to its end and the account showed `count`.
    Finished { count: u32 },
    /// The protocol was abandoned.
    Failed { error: DriverError },
}

/// What the ledger, or the clock, answered.
#[derive(Clone, Debug, PartialEq, Eq)]
pub enum DriverEvent {
    /// The payer holds this many base units.
    Balance(u64),
    /// The faucet took the request for a grant.
    AirdropRequested,
    /// The poll interval has passed.
    Paused,
    /// An account of the size asked about is rent-exempt from this balance.
    RentExemption(u64),
    /// A recent blockhash is at hand.
    Blockhash,
    /// The submitted transaction was executed and confirmed.
    Confirmed,
    /// The buffer of the counter account.
    AccountData(Vec<u8>),
    /// The request failed.
    Failed(DriverError),
}

/// What the driver wants done next.
#[derive(Clone, Copy, Debug, PartialEq, Eq)]
pub enum DriverAction {
    /// Ask for the payer's balance.
    QueryBalance,
    /// Ask the faucet to grant the payer `lamports`.
    RequestAirdrop { lamports: u64 },
    /// Let `seconds` pass.
    Pause { seconds: u64 },
    /// Ask for the rent-exempt minimum of an account of `data_len` bytes.
    QueryRentExemption { data_len: usize },
    /// Fetch a recent blockhash.
    FetchBlockhash,
    /// Submit the creation of the counter account: `space` bytes, funded by
    /// the payer with `lamports`, owned by `owner`.
    CreateAccount { lamports: u64, space: u64, owner: Pubkey },
    /// Submit the instruction that has `program_id` increment the counter
    /// account.
    Increment { program_id: Pubkey },
    /// Fetch the counter account.
    FetchAccount,
    /// Nothing: the driver has finished or failed.
    Halt,
}

/// Whose signatures a transaction carries.
#[derive(Clone, Copy, Debug, PartialEq, Eq, Structural)]
pub enum Signers {
    /// The payer alone.
    Payer,
    /// The payer and the counter account: an account is created only with
    /// proof of control of its address.
    PayerAndAccount,
}

/// Who signs the transaction that `action` submits; `None` where it submits
/// none.
pub open spec fn required_signers(action: DriverAction) -> Option<Signers> {
    match action {
        DriverAction::CreateAccount { .. } => Some(Signers::PayerAndAccount),
        DriverAction::Increment { .. } => Some(Signers::Payer),
        _ => None,
    }
}

impl DriverAction {
    /// Who signs the transaction that this action submits.
    pub fn signers(&self) -> (who: Option<Signers>)
        ensures
            who == required_signers(*self),
    {
        match self {
            DriverAction::CreateAccount { .. } => Some(Signers::PayerAndAccount),
            DriverAction::Increment { .. } => Some(Signers::Payer),
            _ => None,
        }
    }
}

/// Something worth telling the operator.
#[derive(Clone, Copy, Debug, PartialEq, Eq, Structural)]
pub enum Notice {
    /// The payer's balance when the driver started.
    PayerBalance(u64),
    /// The counter account now exists.
    AccountCreated,
    /// The counter account holds this value.
    CounterValue(u32),
}

/// One decision of the driver.
#[derive(Clone, Copy, Debug, PartialEq, Eq)]
pub struct Step {
    /// Where the driver stands now.
    pub state: DriverState,
    /// What it wants done.
    pub action: DriverAction,
    /// What it has to tell, if anything.
    pub notice: Option<Notice>,
}

/// The decision that ends the protocol with `error`.
pub open spec fn abandoned(error: DriverError) -> Step {
    Step { state: DriverState::Failed { error }, action: DriverAction::Halt, notice: None }
}

/// The decision that opens the protocol: ask what the payer holds.
pub open spec fn opening() -> Step {
    Step { state: DriverState::CheckingBalance, action: DriverAction::QueryBalance, notice: None }
}

/// The decision that follows funding: size up the rent for a counter account.
pub open spec fn funded(notice: Option<Notice>) -> Step {
    Step {
        state: DriverState::QueryingRent,
        action: DriverAction::QueryRentExemption { data_len: COUNTER_LEN },
        notice,
    }
}

/// The driver's decision in `state` on hearing `event`, where `program_id` is
/// what the program's identity decodes to; `None` where `state` was not
/// waiting for such an event.
pub open spec fn advance(state: DriverState, event: DriverEvent, program_id: Option<Pubkey>)
    -> Option<Step> {
    match (state, event) {
        (DriverState::Finished { .. }, _) => None,
        (DriverState::Failed { .. }, _) => None,
        (DriverState::Pausing { before }, DriverEvent::Paused) => Some(
            Step {
                state: DriverState::AwaitingFunds { before },
                action: DriverAction::QueryBalance,
                notice: None,
            },
        ),
        (DriverState::Pausing { .. }, _) => None,
        (_, DriverEvent::Failed(error)) => Some(abandoned(error)),
        (DriverState::CheckingBalance, DriverEvent::Balance(balance)) => {
            let notice = Some(Notice::PayerBalance(balance));
            if balance < MIN_PAYER_BALANCE {
                Some(
                    Step {
                        state: DriverState::RequestingAirdrop { before: balance },
                        action: DriverAction::RequestAirdrop { lamports: AIRDROP_LAMPORTS },
                        notice,
                    },
                )
            } else {
                Some(funded(notice))
            }
        },
        (DriverState::RequestingAirdrop { before }, DriverEvent::AirdropRequested) => Some(
            Step {
                state: DriverState::AwaitingFunds { before },
                action: DriverAction::QueryBalance,
                notice: None,
            },
        ),
        (DriverState::AwaitingFunds { before }, DriverEvent::Balance(balance)) => {
            if balance > before {
                Some(funded(None))
            } else {
                Some(
                    Step {
                        state: DriverState::Pausing { before },
                        action: DriverAction::Pause { seconds: POLL_INTERVAL_SECS },
                        notice: None,
                    },
                )
            }
        },
        (DriverState::QueryingRent, DriverEvent::RentExemption(lamports)) => match program_id {
            Some(owner) => Some(
                Step {
                    state: DriverState::PreparingCreate { lamports, owner },
                    action: DriverAction::FetchBlockhash,
                    notice: None,
                },
            ),
            None => Some(abandoned(DriverError::InvalidProgramId)),
        },
        (DriverState::PreparingCreate { lamports, owner }, DriverEvent::Blockhash) => Some(
            Step {
                state: DriverState::CreatingAccount { program_id: owner },
                action: DriverAction::CreateAccount { lamports, space: COUNTER_LEN as u64, owner },
                notice: None,
            },
        ),
        (DriverState::CreatingAccount { program_id }, DriverEvent::Confirmed) => Some(
            Step {
                state: DriverState::PreparingIncrement { program_id },
                action: DriverAction::FetchBlockhash,
                notice: Some(Notice::AccountCreated),
            },
        ),
        (DriverState::PreparingIncrement { program_id }, DriverEvent::Blockhash) => Some(
            Step {
                state: DriverState::Incrementing,
                action: DriverAction::Increment { program_id },
                notice: None,
            },
        ),
        (DriverState::Incrementing, DriverEvent::Confirmed) => Some(
            Step {
                state: DriverState::ReadingCounter,
                action: DriverAction::FetchAccount,
                notice: None,
            },
        ),
        (DriverState::ReadingCounter, DriverEvent::AccountData(data)) => {
            if data@.len() >= 4 {
                let count = counter_value(data@) as u32;
                Some(
                    Step {
                        state: DriverState::Finished { count },
                        action: DriverAction::Halt,
                        notice: Some(Notice::CounterValue(count)),
                    },
                )
            } else {
                None
            }
        },
        _ => None,
    }
}

/// Opens the protocol.
pub fn begin() -> (first: Step)
    ensures
        first == opening(),
{
    Step { state: DriverState::CheckingBalance, action: DriverAction::QueryBalance, notice: None }
}

/// Decides what follows `event` in `state`, given what the program's identity
/// decodes to.
pub fn decide(state: DriverState, event: DriverEvent, program_id: Option<Pubkey>) -> (next:
    Option<Step>)
    ensures
        next == advance(state, event, program_id),
{
    match (state, event) {
        (DriverState::Finished { .. }, _) => None,
        (DriverState::Failed { .. }, _) => None,
        (DriverState::Pausing { before }, DriverEvent::Paused) => Some(
            Step {
                state: DriverState::AwaitingFunds { before },
                action: DriverAction::QueryBalance,
                notice: None,
            },
        ),
        (DriverState::Pausing { .. }, _) => None,
        (_, DriverEvent::Failed(error)) => Some(
            Step { state: DriverState::Failed { error }, action: DriverAction::Halt, notice: None },
        ),
        (DriverState::CheckingBalance, DriverEvent::Balance(balance)) => {
            let notice = Some(Notice::PayerBalance(balance));
            if balance < MIN_PAYER_BALANCE {
                Some(
                    Step {
                        state: DriverState::RequestingAirdrop { before: balance },
                        action: DriverAction::RequestAirdrop { lamports: AIRDROP_LAMPORTS },
                        notice,
                    },
                )
            } else {
                Some(
                    Step {
                        state: DriverState::QueryingRent,
                        action: DriverAction::QueryRentExemption { data_len: COUNTER_LEN },
                        notice,
                    },
                )
            }
        },
        (DriverState::RequestingAirdrop { before }, DriverEvent::AirdropRequested) => Some(
            Step {
                state: DriverState::AwaitingFunds { before },
                action: DriverAction::QueryBalance,
                notice: None,
            },
        ),
        (DriverState::AwaitingFunds { before }, DriverEvent::Balance(balance)) => {
            if balance > before {
                Some(
                    Step {
                        state: DriverState::QueryingRent,
                        action: DriverAction::QueryRentExemption { data_len: COUNTER_LEN },
                        notice: None,
                    },
                )
            } else {
                Some(
                    Step {
                        state: DriverState::Pausing { before },
                        action: DriverAction::Pause { seconds: POLL_INTERVAL_SECS },
                        notice: None,
                    },
                )
            }
        },
        (DriverState::QueryingRent, DriverEvent::RentExemption(lamports)) => match program_id {
            Some(owner) => Some(
                Step {
                    state: DriverState::PreparingCreate { lamports, owner },
                    action: DriverAction::FetchBlockhash,
                    notice: None,
                },
            ),
            None => Some(
                Step {
                    state: DriverState::Failed { error: DriverError::InvalidProgramId },
                    action: DriverAction::Halt,
                    notice: None,
                },
            ),
        },
        (DriverState::PreparingCreate { lamports, owner }, DriverEvent::Blockhash) => Some(
            Step {
                state: DriverState::CreatingAccount { program_id: owner },
                action: DriverAction::CreateAccount { lamports, space: COUNTER_LEN as u64, owner },
                notice: None,
            },
        ),
        (DriverState::CreatingAccount { program_id }, DriverEvent::Confirmed) => Some(
            Step {
                state: DriverState::PreparingIncrement { program_id },
                action: DriverAction::FetchBlockhash,
                notice: Some(Notice::AccountCreated),
            },
        ),
        (DriverState::PreparingIncrement { program_id }, DriverEvent::Blockhash) => Some(
            Step {
                state: DriverState::Incrementing,
                action: DriverAction::Increment { program_id },
                notice: None,
            },
        ),
        (DriverState::Incrementing, DriverEvent::Confirmed) => Some(
            Step {
                state: DriverState::ReadingCounter,
                action: DriverAction::FetchAccount,
                notice: None,
            },
        ),
        (DriverState::ReadingCounter, DriverEvent::AccountData(data)) => {
            if data.len() >= COUNTER_LEN {
                let count = read_counter(data.as_slice());
                Some(
                    Step {
                        state: DriverState::Finished { count },
                        action: DriverAction::Halt,
                        notice: Some(Notice::CounterValue(count)),
                    },
                )
            } else {
                None
            }
        },
        _ => None,
    }
}

/// What the base58 text `text` decodes to as a 32-byte identity, if it is
/// one: the result of `Pubkey::from_str` in `solana_program::pubkey`.
pub uninterp spec fn base58_identity(text: Seq<char>) -> Option<Pubkey>;

/// Decodes a base58 identity with `solana_program::pubkey::Pubkey::from_str`.
///
/// Trusted: the result is taken to depend on `text` alone. Nothing is claimed
/// about which texts decode, nor to what.
#[verifier::external_body]
fn parse_identity(text: &str) -> (key: Option<Pubkey>)
    ensures
        key == base58_identity(text@),
{
    match solana_program::pubkey::Pubkey::from_str(text) {
        Ok(key) => Some(Pubkey { bytes: key.to_bytes() }),
        Err(_) => None,
    }
}

/// Decides what follows `event` in `state`. The program's identity is
/// decoded at the one point where the protocol needs it: when the rent is
/// known and the account is about to be created.
pub fn step(state: DriverState, event: DriverEvent) -> (next: Option<Step>)
    ensures
        next == advance(state, event, base58_identity(PROGRAM_ID@)),
{
    let program_id = match state {
        DriverState::QueryingRent => parse_identity(PROGRAM_ID),
        _ => None,
    };
    decide(state, event, program_id)
}

} // verus!
