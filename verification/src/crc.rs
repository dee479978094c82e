//! 16-bit cyclic redundancy check over arbitrary byte sequences.
//!
//! The checksum is the table-driven Modbus variant: a 16-bit accumulator
//! starts at `0xFFFF` and is updated once per input byte by a lookup on
//! `(accumulator high byte XOR input byte)`. The returned value carries the
//! accumulator's high byte first, so a frame stores it as
//! `[crc >> 8, crc & 0xFF]`.

use vstd::prelude::*;

verus! {

/// One shift round of the table construction: shift the working value right
/// and fold in the generator polynomial when a one bit falls out.
pub open spec fn crc_round(c: u16) -> u16 {
    if c & 1 == 1 {
        (c >> 1) ^ 0xA001
    } else {
        c >> 1
    }
}

/// `n` shift rounds applied to `c`.
pub open spec fn crc_rounds(c: u16, n: nat) -> u16
    decreases n,
{
    if n == 0 {
        c
    } else {
        crc_round(crc_rounds(c, (n - 1) as nat))
    }
}

/// The lookup-table entry for an index byte: eight shift rounds, one per bit.
pub open spec fn crc_entry(i: u8) -> u16 {
    crc_rounds(i as u16, 8)
}

/// One byte of input folded into the running accumulator. The accumulator's
/// high byte picks the table entry; the entry's low byte is XORed into the
/// old low byte to form the new high byte, and the entry's high byte becomes
/// the new low byte.
pub open spec fn crc_step(state: u16, b: u8) -> u16 {
    let e = crc_entry(((state >> 8) as u8) ^ b);
    (((((state & 0xFF) as u8) ^ ((e & 0xFF) as u8)) as u16) << 8) | (e >> 8)
}

/// The checksum of a byte sequence: the accumulator after every byte of `s`,
/// in order, has been folded into the seed `0xFFFF`.
pub open spec fn crc16_spec(s: Seq<u8>) -> u16
    decreases s.len(),
{
    if s.len() == 0 {
        0xFFFF
    } else {
        crc_step(crc16_spec(s.drop_last()), s.last())
    }
}

/// The checksum is a function of the byte sequence alone: results computed
/// over equal inputs are equal, so repeated calls of [`crc16`] on the same
/// bytes return the same value.
pub proof fn lemma_crc16_deterministic(b1: Seq<u8>, b2: Seq<u8>)
    requires
        b1 == b2,
    ensures
        crc16_spec(b1) == crc16_spec(b2),
{
}

/// The 256-entry lookup table, built once and reused for every frame, so
/// that each input byte costs one lookup and two XORs instead of eight
/// shift rounds.
#[derive(Debug)]
pub struct CrcTable {
    entries: Vec<u16>,
}

impl CrcTable {
    /// The table holds exactly the entry for every index byte.
    pub closed spec fn wf(self) -> bool {
        &&& self.entries@.len() == 256
        &&& forall|i: int| 0 <= i < 256 ==> self.entries@[i] == crc_entry(i as u8)
    }

    /// Build the table by running the eight shift rounds for each of the
    /// 256 possible index bytes.
    pub fn new() -> (r: CrcTable)
        ensures
            r.wf(),
    {
        let mut entries: Vec<u16> = Vec::new();
        for i in 0..256usize
            invariant
                entries@.len() == i,
                forall|k: int| 0 <= k < i ==> entries@[k] == crc_entry(k as u8),
        {
            let mut c: u16 = i as u16;
            for j in 0..8usize
                invariant
                    i < 256,
                    c == crc_rounds(i as u16, j as nat),
            {
                c = if c & 1 == 1 {
                    (c >> 1) ^ 0xA001
                } else {
                    c >> 1
                };
            }
            entries.push(c);
        }
        CrcTable { entries }
    }

    /// The checksum of `data[start..end]`.
    pub fn checksum_range(&self, data: &[u8], start: usize, end: usize) -> (r: u16)
        requires
            self.wf(),
            start <= end <= data@.len(),
        ensures
            r == crc16_spec(data@.subrange(start as int, end as int)),
    {
        let mut state: u16 = 0xFFFF;
        assert(data@.subrange(start as int, start as int) =~= Seq::<u8>::empty());
        for k in start..end
            invariant
                self.wf(),
                start <= k <= end <= data@.len(),
                state == crc16_spec(data@.subrange(start as int, k as int)),
        {
            let b: u8 = data[k];
            assert((state >> 8) < 256 && (state & 0xFF) < 256) by (bit_vector);
            let idx: u8 = ((state >> 8) as u8) ^ b;
            let e: u16 = self.entries[idx as usize];
            assert((e & 0xFF) < 256) by (bit_vector);
            let hi: u8 = ((state & 0xFF) as u8) ^ ((e & 0xFF) as u8);
            let next: u16 = ((hi as u16) << 8) | (e >> 8);
            proof {
                assert(next == crc_step(state, b));
                let sub1 = data@.subrange(start as int, k + 1);
                assert(sub1.drop_last() =~= data@.subrange(start as int, k as int));
                assert(sub1.last() == data@[k as int]);
            }
            state = next;
        }
        state
    }

    /// The checksum of the whole of `data`.
    pub fn checksum(&self, data: &[u8]) -> (r: u16)
        requires
            self.wf(),
        ensures
            r == crc16_spec(data@),
    {
        let r = self.checksum_range(data, 0, data.len());
        proof {
            assert(data@.subrange(0, data@.len() as int) =~= data@);
        }
        r
    }
}

/// The checksum of a byte sequence, building the lookup table on the spot.
/// Callers that checksum many frames should build one [`CrcTable`] and call
/// [`CrcTable::checksum`] instead.
pub fn crc16(data: &[u8]) -> (r: u16)
    ensures
        r == crc16_spec(data@),
{
    let table = CrcTable::new();
    table.checksum(data)
}

} // verus!
