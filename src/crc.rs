use vstd::prelude::*;

verus! {

/// Initial value of the checksum register.
pub const CRC8_SEED: u8 = 0x77;

/// Reflected form of the polynomial x^8 + x^5 + x^4 + 1.
pub const CRC8_POLY: u8 = 0x8c;

/// One shift of the checksum register.
pub open spec fn crc8_shift(c: u8) -> u8 {
    if c & 1u8 == 1u8 {
        (c >> 1u8) ^ CRC8_POLY
    } else {
        c >> 1u8
    }
}

/// `n` shifts of the checksum register.
pub open spec fn crc8_shifts(c: u8, n: nat) -> u8
    decreases n,
{
    if n == 0 {
        c
    } else {
        crc8_shifts(crc8_shift(c), (n - 1) as nat)
    }
}

/// The register after taking in byte `b`.
pub open spec fn crc8_step(c: u8, b: u8) -> u8 {
    crc8_shifts(c ^ b, 8)
}

/// The 8-bit checksum of `s`.
pub open spec fn crc8(s: Seq<u8>) -> u8
    decreases s.len(),
{
    if s.len() == 0 {
        CRC8_SEED
    } else {
        crc8_step(crc8(s.drop_last()), s.last())
    }
}

/// Computes the 8-bit checksum of `data`.
pub fn get_crc8(data: &[u8]) -> (r: u8)
    ensures
        r == crc8(data@),
{
    let mut c: u8 = CRC8_SEED;
    let mut i: usize = 0;
    while i < data.len()
        invariant
            i <= data@.len(),
            c == crc8(data@.take(i as int)),
        decreases data@.len() - i,
    {
        assert(data@.take(i as int + 1).drop_last() =~= data@.take(i as int));
        let ghost start = c ^ data@[i as int];
        c = c ^ data[i];
        let mut k: u32 = 0;
        while k < 8
            invariant
                k <= 8,
                crc8_shifts(c, (8 - k) as nat) == crc8_shifts(start, 8),
            decreases 8 - k,
        {
            if c & 1u8 == 1u8 {
                c = (c >> 1u8) ^ CRC8_POLY;
            } else {
                c = c >> 1u8;
            }
            k = k + 1;
        }
        i = i + 1;
    }
    assert(data@.take(data@.len() as int) =~= data@);
    c
}

} // verus!
