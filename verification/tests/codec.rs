use pinocchio_counter::codec::{read_counter, write_counter, COUNTER_LEN};
use pinocchio_counter::{CounterAccount, CounterError};

const SAMPLES: [u32; 12] = [
    0,
    1,
    0xFF,
    0x100,
    0xFFFF,
    0x1_0000,
    0xFF_FFFF,
    0x100_0000,
    0x1234_5678,
    0x7FFF_FFFF,
    0xFFFF_FFFE,
    0xFFFF_FFFF,
];

#[test]
fn counter_is_four_bytes() {
    assert_eq!(COUNTER_LEN, 4);
}

#[test]
fn read_counter_is_little_endian() {
    assert_eq!(read_counter(&[0x78, 0x56, 0x34, 0x12]), 0x1234_5678);
    assert_eq!(read_counter(&[1, 0, 0, 0]), 1);
    assert_eq!(read_counter(&[0, 1, 0, 0]), 256);
    assert_eq!(read_counter(&[0, 0, 1, 0]), 65_536);
    assert_eq!(read_counter(&[0, 0, 0, 1]), 16_777_216);
    assert_eq!(read_counter(&[0xFF, 0xFF, 0xFF, 0xFF]), u32::MAX);
}

#[test]
fn read_counter_looks_at_four_bytes_only() {
    assert_eq!(read_counter(&[2, 0, 0, 0, 0xFF, 0xFF]), 2);
}

#[test]
fn read_counter_agrees_with_std() {
    for value in SAMPLES {
        assert_eq!(read_counter(&value.to_le_bytes()), value);
    }
}

#[test]
fn write_counter_is_little_endian() {
    let mut data = [0u8; 4];
    write_counter(&mut data, 0x1234_5678);
    assert_eq!(data, [0x78, 0x56, 0x34, 0x12]);
}

#[test]
fn write_counter_agrees_with_std() {
    for value in SAMPLES {
        let mut data = [0xAAu8; 4];
        write_counter(&mut data, value);
        assert_eq!(data, value.to_le_bytes());
    }
}

#[test]
fn write_counter_keeps_the_tail() {
    let mut data = vec![9u8, 9, 9, 9, 1, 2, 3];
    write_counter(&mut data, 5);
    assert_eq!(data, vec![5u8, 0, 0, 0, 1, 2, 3]);
}

#[test]
fn write_then_read_round_trips() {
    for value in SAMPLES {
        let mut data = vec![0u8; 6];
        write_counter(&mut data, value);
        assert_eq!(read_counter(&data), value);
    }
}

#[test]
fn default_counter_is_zero() {
    assert_eq!(CounterAccount::default().count, 0);
    assert_eq!(CounterAccount::default(), CounterAccount { count: 0 });
}

#[test]
fn unpack_decodes_the_first_four_bytes() {
    assert_eq!(CounterAccount::unpack(&[3, 0, 0, 0]), Ok(CounterAccount { count: 3 }));
    assert_eq!(
        CounterAccount::unpack(&[0xEF, 0xBE, 0xAD, 0xDE, 7]),
        Ok(CounterAccount { count: 0xDEAD_BEEF })
    );
}

#[test]
fn unpack_refuses_short_buffers() {
    let buffers: [&[u8]; 4] = [&[], &[1], &[1, 2], &[1, 2, 3]];
    for data in buffers {
        assert_eq!(CounterAccount::unpack(data), Err(CounterError::InvalidAccountData));
    }
}

#[test]
fn pack_encodes_over_the_first_four_bytes() {
    let mut data = vec![0u8; 5];
    CounterAccount { count: 0x0102_0304 }.pack(&mut data);
    assert_eq!(data, vec![4u8, 3, 2, 1, 0]);
}

#[test]
fn increment_adds_one_and_saturates() {
    let mut counter = CounterAccount::default();
    counter.increment();
    assert_eq!(counter.count, 1);
    counter.increment();
    assert_eq!(counter.count, 2);

    let mut counter = CounterAccount { count: u32::MAX - 1 };
    counter.increment();
    assert_eq!(counter.count, u32::MAX);
    counter.increment();
    assert_eq!(counter.count, u32::MAX);
}
