use pinocchio_counter::{process_instruction, Account, CounterError, Pubkey};

fn program() -> Pubkey {
    Pubkey::new([7u8; 32])
}

fn stranger() -> Pubkey {
    let mut bytes = [7u8; 32];
    bytes[31] = 8;
    Pubkey::new(bytes)
}

fn counter_account(count: u32) -> Account {
    Account::new(program(), count.to_le_bytes().to_vec())
}

fn decode(account: &Account) -> u32 {
    u32::from_le_bytes(account.data[..4].try_into().unwrap())
}

#[test]
fn test_counter() {
    let program_id = program();
    // A fresh account: four bytes, all zero, owned by the program.
    let mut accounts = vec![Account::new(program_id, vec![0u8; 4])];

    let count = u32::from_le_bytes(accounts[0].data[..4].try_into().unwrap());
    assert_eq!(count, 0);

    process_instruction(&program_id, &mut accounts, &[]).unwrap();

    let count = u32::from_le_bytes(accounts[0].data[..4].try_into().unwrap());
    assert_eq!(count, 1);
}

#[test]
fn fresh_account_counts_zero_one_two() {
    let program_id = program();
    let mut accounts = vec![Account::new(program_id, vec![0u8; 4])];
    assert_eq!(decode(&accounts[0]), 0);
    assert_eq!(process_instruction(&program_id, &mut accounts, &[]), Ok(()));
    assert_eq!(decode(&accounts[0]), 1);
    assert_eq!(process_instruction(&program_id, &mut accounts, &[]), Ok(()));
    assert_eq!(decode(&accounts[0]), 2);
    assert_eq!(accounts[0].data, vec![2u8, 0, 0, 0]);
    assert_eq!(accounts[0].owner, program_id);
}

#[test]
fn increment_adds_exactly_one() {
    let program_id = program();
    let starts: [u32; 9] =
        [0, 1, 41, 255, 256, 65_535, 0x00FF_FFFF, 0x7FFF_FFFF, 0xFFFF_FFFE];
    for start in starts {
        let mut accounts = vec![counter_account(start)];
        assert_eq!(process_instruction(&program_id, &mut accounts, &[]), Ok(()));
        assert_eq!(decode(&accounts[0]), start + 1);
        assert_eq!(accounts[0].data.len(), 4);
        assert_eq!(accounts[0].data, (start + 1).to_le_bytes().to_vec());
    }
}

#[test]
fn increment_carries_across_bytes() {
    let program_id = program();
    let mut accounts = vec![Account::new(program_id, vec![0xFF, 0xFF, 0x00, 0x00])];
    assert_eq!(process_instruction(&program_id, &mut accounts, &[]), Ok(()));
    assert_eq!(accounts[0].data, vec![0x00, 0x00, 0x01, 0x00]);

    let mut accounts = vec![Account::new(program_id, vec![0xFF, 0xFF, 0xFF, 0x00])];
    assert_eq!(process_instruction(&program_id, &mut accounts, &[]), Ok(()));
    assert_eq!(accounts[0].data, vec![0x00, 0x00, 0x00, 0x01]);
}

#[test]
fn increment_saturates_at_the_maximum() {
    let program_id = program();
    let mut accounts = vec![counter_account(0xFFFF_FFFF)];
    assert_eq!(process_instruction(&program_id, &mut accounts, &[]), Ok(()));
    assert_eq!(decode(&accounts[0]), 0xFFFF_FFFF);
    assert_eq!(accounts[0].data, vec![0xFF, 0xFF, 0xFF, 0xFF]);
    assert_eq!(process_instruction(&program_id, &mut accounts, &[]), Ok(()));
    assert_eq!(decode(&accounts[0]), 0xFFFF_FFFF);
}

#[test]
fn no_account_is_missing_account() {
    let program_id = program();
    let mut accounts: Vec<Account> = Vec::new();
    assert_eq!(
        process_instruction(&program_id, &mut accounts, &[]),
        Err(CounterError::MissingAccount)
    );
    assert!(accounts.is_empty());
}

#[test]
fn foreign_account_is_incorrect_owner_and_untouched() {
    let program_id = program();
    let before = vec![Account::new(stranger(), vec![5u8, 0, 0, 0]), counter_account(9)];
    let mut accounts = before.clone();
    assert_eq!(
        process_instruction(&program_id, &mut accounts, &[]),
        Err(CounterError::IncorrectOwner)
    );
    assert_eq!(accounts, before);
}

#[test]
fn owner_is_checked_before_length() {
    let program_id = program();
    let before = vec![Account::new(stranger(), vec![1u8, 2])];
    let mut accounts = before.clone();
    assert_eq!(
        process_instruction(&program_id, &mut accounts, &[]),
        Err(CounterError::IncorrectOwner)
    );
    assert_eq!(accounts, before);
}

#[test]
fn short_buffer_is_invalid_account_data() {
    let program_id = program();
    for len in 0..4usize {
        let before = vec![Account::new(program_id, vec![0xAB; len])];
        let mut accounts = before.clone();
        assert_eq!(
            process_instruction(&program_id, &mut accounts, &[]),
            Err(CounterError::InvalidAccountData)
        );
        assert_eq!(accounts, before);
    }
}

#[test]
fn bytes_after_the_counter_are_kept() {
    let program_id = program();
    let mut accounts = vec![Account::new(program_id, vec![0xFF, 0, 0, 0, 0xDE, 0xAD, 0xBE])];
    assert_eq!(process_instruction(&program_id, &mut accounts, &[]), Ok(()));
    assert_eq!(accounts[0].data, vec![0x00, 0x01, 0, 0, 0xDE, 0xAD, 0xBE]);
}

#[test]
fn only_the_first_account_is_consulted() {
    let program_id = program();
    let bystander = Account::new(stranger(), vec![1u8]);
    let second = counter_account(100);
    let mut accounts = vec![counter_account(3), bystander.clone(), second.clone()];
    assert_eq!(process_instruction(&program_id, &mut accounts, &[]), Ok(()));
    assert_eq!(decode(&accounts[0]), 4);
    assert_eq!(accounts[1], bystander);
    assert_eq!(accounts[2], second);
    assert_eq!(accounts.len(), 3);
}

#[test]
fn payload_is_ignored() {
    let program_id = program();
    let payloads: [&[u8]; 4] = [&[], &[0], &[1, 2, 3, 4, 5], &[0xFF; 64]];
    for payload in payloads {
        let mut accounts = vec![counter_account(10)];
        assert_eq!(process_instruction(&program_id, &mut accounts, payload), Ok(()));
        assert_eq!(decode(&accounts[0]), 11);
    }
}

#[test]
fn two_submissions_are_two_increments() {
    let program_id = program();
    let payload = [1u8, 2, 3];
    let mut accounts = vec![counter_account(40)];
    assert_eq!(process_instruction(&program_id, &mut accounts, &payload), Ok(()));
    let after_one = accounts.clone();
    assert_eq!(process_instruction(&program_id, &mut accounts, &payload), Ok(()));
    assert_ne!(accounts, after_one);
    assert_eq!(decode(&after_one[0]), 41);
    assert_eq!(decode(&accounts[0]), 42);
}

#[test]
fn owners_differing_in_one_byte_differ() {
    for at in 0..32usize {
        let mut bytes = [0u8; 32];
        bytes[at] = 1;
        let owner = Pubkey::new(bytes);
        let program_id = Pubkey::new([0u8; 32]);
        assert_ne!(owner, program_id);
        let mut accounts = vec![Account::new(owner, vec![0u8; 4])];
        assert_eq!(
            process_instruction(&program_id, &mut accounts, &[]),
            Err(CounterError::IncorrectOwner)
        );
        assert_eq!(process_instruction(&owner, &mut accounts, &[]), Ok(()));
        assert_eq!(decode(&accounts[0]), 1);
    }
}
