use vstd::prelude::*;

verus! {

/// `;`, which ends each field of a telemetry message.
pub const SEMICOLON: u8 = 0x3b;

/// `:`, which stands between a field's name and its value.
pub const COLON: u8 = 0x3a;

/// `+`.
pub const PLUS: u8 = 0x2b;

/// `-`.
pub const MINUS: u8 = 0x2d;

/// `0`.
pub const DIGIT_ZERO: u8 = 0x30;

/// `9`.
pub const DIGIT_NINE: u8 = 0x39;

/// ` `, which stands between a command and its arguments.
pub const SPACE: u8 = 0x20;

/// The unsigned value of the two bytes `lo`, `hi` read in little-endian order.
pub open spec fn le_u16(lo: u8, hi: u8) -> u16 {
    (lo as u16 | ((hi as u16) << 8u16)) as u16
}

/// Reads the first two bytes of `data` as a little-endian `u16`.
pub fn as_u16(data: &[u8]) -> (r: u16)
    requires
        data@.len() >= 2,
    ensures
        r == le_u16(data@[0], data@[1]),
        r as int == data@[0] as int + 256 * data@[1] as int,
{
    let lo = data[0];
    let hi = data[1];
    let r = lo as u16 | ((hi as u16) << 8u16);
    assert(r as int == lo as int + 256 * hi as int) by (bit_vector)
        requires r == (lo as u16 | ((hi as u16) << 8u16));
    r
}

/// Reads the first two bytes of `data` as a little-endian two's-complement `i16`.
pub fn as_i16(data: &[u8]) -> (r: i16)
    requires
        data@.len() >= 2,
    ensures
        r == le_u16(data@[0], data@[1]) as i16,
{
    as_u16(data) as i16
}

/// The bytes of the ASCII text `s`.
pub open spec fn ascii(s: Seq<char>) -> Seq<u8> {
    Seq::new(s.len(), |i: int| s[i] as u8)
}

/// The bytes of the ASCII text `k`.
pub fn key_bytes(k: &str) -> (r: &[u8])
    requires
        vstd::string::is_ascii(k),
    ensures
        r@ == ascii(k@),
{
    broadcast use vstd::string::is_ascii_spec_bytes;

    k.as_bytes()
}

/// Appends the bytes `s` to `out`.
pub fn push_bytes(out: &mut Vec<u8>, s: &[u8])
    ensures
        final(out)@ == old(out)@ + s@,
{
    let mut i: usize = 0;
    while i < s.len()
        invariant
            i <= s@.len(),
            out@ == old(out)@ + s@.take(i as int),
        decreases s@.len() - i,
    {
        out.push(s[i]);
        i = i + 1;
        assert(out@ =~= old(out)@ + s@.take(i as int));
    }
    assert(s@.take(s@.len() as int) =~= s@);
}

} // verus!
