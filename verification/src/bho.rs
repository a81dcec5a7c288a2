use vstd::prelude::*;

verus! {

/// The battery health optimizer state as a controller byte: the top bit tells
/// whether the optimizer is on, the low seven bits hold the threshold.
pub open spec fn spec_bho_to_byte(is_on: bool, threshold: u8) -> u8 {
    if is_on {
        threshold | 0x80
    } else {
        threshold
    }
}

/// The optimizer state a controller byte stands for.
pub open spec fn spec_byte_to_bho(u: u8) -> (bool, u8) {
    ((u & 0x80) != 0, u & 0x7f)
}

/// Splits a controller byte into the optimizer flag (top bit) and the
/// threshold (low seven bits).
pub fn byte_to_bho(u: u8) -> (r: (bool, u8))
    ensures
        r == spec_byte_to_bho(u),
        r.0 <==> u >= 128,
        r.1 == u % 128,
{
    assert(((u & (1u8 << 7u8)) != 0) == ((u & 0x80) != 0) && ((u & 0x80) != 0) == (u >= 128)
        && (u & 0x7f) == u % 128) by (bit_vector);
    (u & (1u8 << 7u8) != 0, (u & 0b0111_1111))
}

/// Encodes the optimizer flag in the top bit of the threshold byte.
pub fn bho_to_byte(is_on: bool, threshold: u8) -> (r: u8)
    ensures
        r == spec_bho_to_byte(is_on, threshold),
        is_on ==> r == (if threshold >= 128 { threshold } else { (threshold + 128) as u8 }),
        !is_on ==> r == threshold,
{
    if is_on {
        assert((threshold | 0x80) == (if threshold >= 128 { threshold } else { (threshold + 128) as u8 })) by (bit_vector);
        return threshold | 0b1000_0000;
    }
    threshold
}

/// Decoding an encoded optimizer state gives it back, for every threshold
/// that fits in the seven low bits.
pub proof fn lemma_bho_decode_encode(is_on: bool, threshold: u8)
    requires
        threshold < 128,
    ensures
        spec_byte_to_bho(spec_bho_to_byte(is_on, threshold)) == (is_on, threshold),
{
    assert(threshold < 128 ==> ((threshold | 0x80) & 0x80) != 0 && ((threshold | 0x80) & 0x7f) == threshold
        && (threshold & 0x80) == 0 && (threshold & 0x7f) == threshold) by (bit_vector);
}

/// Encoding the state read from any controller byte gives that byte back.
pub proof fn lemma_bho_encode_decode(u: u8)
    ensures
        ({
            let (on, t) = spec_byte_to_bho(u);
            spec_bho_to_byte(on, t) == u
        }),
{
    assert((((u & 0x80) != 0) ==> ((u & 0x7f) | 0x80) == u) && (((u & 0x80) == 0) ==> (u & 0x7f) == u)) by (bit_vector);
}

} // verus!
