//! An on-chain counter: one account holds a little-endian `u32` that each
//! invocation advances by one, together with the decisions of the off-chain
//! driver that provisions and exercises such an account.

pub mod account;
pub mod codec;
pub mod driver;
pub mod error;
pub mod instruction;
pub mod processor;
pub mod protocol;

pub use account::{Account, AccountView, Pubkey};
pub use codec::CounterAccount;
pub use error::CounterError;
pub use processor::process_instruction;
