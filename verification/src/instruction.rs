//! The increment instruction as it goes over the wire: which program it is
//! for, which accounts it names and how, and what payload it carries.

use vstd::prelude::*;
use crate::account::Pubkey;

verus! {

/// How an instruction refers to one account.
#[derive(Clone, Copy, Debug, PartialEq, Eq)]
pub struct AccountMeta {
    /// The account referred to.
    pub pubkey: Pubkey,
    /// Whether the transaction must carry this account's signature.
    pub is_signer: bool,
    /// Whether the program may change the account.
    pub is_writable: bool,
}

/// An instruction for a program on the ledger.
#[derive(Clone, Debug, PartialEq, Eq)]
pub struct Instruction {
    /// The program that executes the instruction.
    pub program_id: Pubkey,
    /// The accounts handed to the program, in this order.
    pub accounts: Vec<AccountMeta>,
    /// The payload, which is the program's to interpret.
    pub data: Vec<u8>,
}

/// Whether `instruction` is the increment of the account `counter` by the
/// program `program_id`: the counter account stands first and alone among
/// the accounts, writable and not signing, and the payload is empty.
pub open spec fn is_increment(instruction: Instruction, program_id: Pubkey, counter: Pubkey)
    -> bool {
    &&& instruction.program_id == program_id
    &&& instruction.accounts@ == seq![
        AccountMeta { pubkey: counter, is_signer: false, is_writable: true },
    ]
    &&& instruction.data@ == Seq::<u8>::empty()
}

/// The instruction that has `program_id` increment the account `counter`.
pub fn increment_instruction(program_id: Pubkey, counter: Pubkey) -> (instruction: Instruction)
    ensures
        is_increment(instruction, program_id, counter),
{
    let mut accounts: Vec<AccountMeta> = Vec::new();
    accounts.push(AccountMeta { pubkey: counter, is_signer: false, is_writable: true });
    Instruction { program_id, accounts, data: Vec::new() }
}

} // verus!
