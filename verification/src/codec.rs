//! The wire format of a counter account: four bytes, little-endian, no header.

use vstd::prelude::*;
use vstd::arithmetic::div_mod::lemma_fundamental_div_mod_converse;
use crate::error::CounterError;

verus! {

/// Number of bytes a counter occupies at the start of an account buffer.
pub const COUNTER_LEN: usize = 4;

/// The number that the first four bytes of `data` spell in little-endian order.
pub open spec fn counter_value(data: Seq<u8>) -> int
    recommends
        data.len() >= 4,
{
    data[0] as int + 0x100 * (data[1] as int) + 0x1_0000 * (data[2] as int) + 0x100_0000 * (
    data[3] as int)
}

/// The four bytes that spell `count` in little-endian order.
pub open spec fn encoded(count: u32) -> Seq<u8> {
    seq![
        (count % 0x100) as u8,
        (count / 0x100 % 0x100) as u8,
        (count / 0x1_0000 % 0x100) as u8,
        (count / 0x100_0000) as u8,
    ]
}

/// `data` with its first four bytes replaced by the encoding of `count`.
pub open spec fn with_counter(data: Seq<u8>, count: u32) -> Seq<u8>
    recommends
        data.len() >= 4,
{
    encoded(count) + data.skip(4)
}

/// The counter that follows `count`: one more, except that the largest value
/// stays where it is.
pub open spec fn successor(count: int) -> int {
    if count < u32::MAX {
        count + 1
    } else {
        u32::MAX as int
    }
}

/// Writing a counter into a buffer keeps the buffer's length and every byte
/// after the fourth, and the counter read back is the one written.
pub proof fn lemma_write_then_read(data: Seq<u8>, count: u32)
    requires
        data.len() >= 4,
    ensures
        with_counter(data, count).len() == data.len(),
        counter_value(with_counter(data, count)) == count,
        forall|i: int| 4 <= i < data.len() ==> with_counter(data, count)[i] == data[i],
{
    let written = with_counter(data, count);
    assert(written[0] == encoded(count)[0]);
    assert(written[1] == encoded(count)[1]);
    assert(written[2] == encoded(count)[2]);
    assert(written[3] == encoded(count)[3]);
}

/// Writing back the counter that a buffer already holds changes nothing.
pub proof fn lemma_read_then_write(data: Seq<u8>)
    requires
        data.len() >= 4,
    ensures
        0 <= counter_value(data) <= u32::MAX,
        with_counter(data, counter_value(data) as u32) == data,
{
    let b0 = data[0] as int;
    let b1 = data[1] as int;
    let b2 = data[2] as int;
    let b3 = data[3] as int;
    let value = counter_value(data);
    let count = value as u32;
    lemma_fundamental_div_mod_converse(value, 0x100, b1 + 0x100 * b2 + 0x1_0000 * b3, b0);
    lemma_fundamental_div_mod_converse(value / 0x100, 0x100, b2 + 0x100 * b3, b1);
    lemma_fundamental_div_mod_converse(value, 0x1_0000, b2 + 0x100 * b3, b0 + 0x100 * b1);
    lemma_fundamental_div_mod_converse(value / 0x1_0000, 0x100, b3, b2);
    lemma_fundamental_div_mod_converse(value, 0x100_0000, b3, b0 + 0x100 * b1 + 0x1_0000 * b2);
    assert(encoded(count)[0] == data[0]);
    assert(encoded(count)[1] == data[1]);
    assert(encoded(count)[2] == data[2]);
    assert(encoded(count)[3] == data[3]);
    assert(with_counter(data, count) =~= data);
}

/// Reads the counter stored at the start of `data`.
pub fn read_counter(data: &[u8]) -> (count: u32)
    requires
        data@.len() >= 4,
    ensures
        count as int == counter_value(data@),
{
    let b0: u32 = data[0] as u32;
    let b1: u32 = data[1] as u32;
    let b2: u32 = data[2] as u32;
    let b3: u32 = data[3] as u32;
    b0 + 0x100 * b1 + 0x1_0000 * b2 + 0x100_0000 * b3
}

/// Stores `count` at the start of `data`, leaving every later byte as it was.
pub fn write_counter(data: &mut [u8], count: u32)
    requires
        old(data)@.len() >= 4,
    ensures
        final(data)@ == with_counter(old(data)@, count),
{
    data[0] = (count % 0x100) as u8;
    data[1] = (count / 0x100 % 0x100) as u8;
    data[2] = (count / 0x1_0000 % 0x100) as u8;
    data[3] = (count / 0x100_0000) as u8;
}

/// The state held by a counter account.
#[derive(Clone, Copy, Debug, PartialEq, Eq, Structural)]
pub struct CounterAccount {
    pub count: u32,
}

impl Default for CounterAccount {
    fn default() -> (account: CounterAccount)
        ensures
            account.count == 0,
    {
        CounterAccount { count: 0 }
    }
}

impl CounterAccount {
    /// Decodes the counter at the start of `data`; a buffer of fewer than
    /// four bytes holds none.
    pub fn unpack(data: &[u8]) -> (result: Result<CounterAccount, CounterError>)
        ensures
            data@.len() < 4 ==> result == Err::<CounterAccount, CounterError>(
                CounterError::InvalidAccountData,
            ),
            data@.len() >= 4 ==> result is Ok && result->Ok_0.count == counter_value(data@),
    {
        if data.len() < COUNTER_LEN {
            Err(CounterError::InvalidAccountData)
        } else {
            Ok(CounterAccount { count: read_counter(data) })
        }
    }

    /// Encodes this counter over the first four bytes of `data`.
    pub fn pack(&self, data: &mut [u8])
        requires
            old(data)@.len() >= 4,
        ensures
            final(data)@ == with_counter(old(data)@, self.count),
    {
        write_counter(data, self.count);
    }

    /// Advances the counter by one; at the largest value it stays put.
    pub fn increment(&mut self)
        ensures
            final(self).count == successor(old(self).count as int),
    {
        self.count = self.count.saturating_add(1);
    }
}

} // verus!
