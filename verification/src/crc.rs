//! The CRC-16 checksum used by Nintendo DS ROM headers.

use vstd::prelude::*;

verus! {

/// One shift round of the checksum: shift the accumulator right by one bit
/// and, if the bit shifted out was set, fold in the polynomial 0xa001.
pub open spec fn spec_crc_round(crc: u16) -> u16 {
    if crc & 1 == 1 {
        (crc >> 1u16) ^ 0xa001
    } else {
        crc >> 1u16
    }
}

/// `n` successive shift rounds.
pub open spec fn spec_crc_rounds(crc: u16, n: nat) -> u16
    decreases n,
{
    if n == 0 {
        crc
    } else {
        spec_crc_rounds(spec_crc_round(crc), (n - 1) as nat)
    }
}

/// Folds one byte into the accumulator: XOR it into the low eight bits,
/// then perform eight shift rounds.
pub open spec fn spec_crc_update(crc: u16, byte: u8) -> u16 {
    spec_crc_rounds(crc ^ (byte as u16), 8)
}

/// The checksum of `data` starting from accumulator value `crc`.
pub open spec fn spec_checksum_from(crc: u16, data: Seq<u8>) -> u16
    decreases data.len(),
{
    if data.len() == 0 {
        crc
    } else {
        spec_checksum_from(spec_crc_update(crc, data[0]), data.subrange(1, data.len() as int))
    }
}

/// The CRC-16 of `data`: every byte folded into an accumulator that
/// starts at 0xffff.
pub open spec fn spec_checksum(data: Seq<u8>) -> u16 {
    spec_checksum_from(0xffff, data)
}

/// Computes the CRC-16 of `data`.
pub fn checksum(data: &[u8]) -> (r: u16)
    ensures
        r == spec_checksum(data@),
{
    let mut crc: u16 = 0xffff;
    let mut i: usize = 0;
    proof {
        assert(data@.subrange(0, data@.len() as int) =~= data@);
    }
    while i < data.len()
        invariant
            i <= data@.len(),
            spec_checksum_from(crc, data@.subrange(i as int, data@.len() as int))
                == spec_checksum(data@),
        decreases data@.len() - i,
    {
        let byte: u8 = *vstd::slice::slice_index_get(data, i);
        crc = crc ^ (byte as u16);
        let ghost start: u16 = crc;
        let mut j: usize = 0;
        while j < 8
            invariant
                j <= 8,
                spec_crc_rounds(crc, (8 - j) as nat) == spec_crc_rounds(start, 8),
            decreases 8 - j,
        {
            let carry = crc & 1 == 1;
            crc = crc >> 1u16;
            if carry {
                crc = crc ^ 0xa001;
            }
            j = j + 1;
        }
        proof {
            assert(data@.subrange(i as int, data@.len() as int).subrange(
                1,
                data@.len() - i as int,
            ) =~= data@.subrange(i as int + 1, data@.len() as int));
        }
        i = i + 1;
    }
    proof {
        assert(data@.subrange(data@.len() as int, data@.len() as int) =~= Seq::<u8>::empty());
    }
    crc
}

/// The checksum is a function of the byte sequence alone: equal inputs
/// yield equal checksums, so computing it twice gives the same value.
pub proof fn lemma_checksum_deterministic(b1: Seq<u8>, b2: Seq<u8>)
    requires
        b1 == b2,
    ensures
        spec_checksum(b1) == spec_checksum(b2),
{
}

} // verus!
