use vstd::prelude::*;
use vstd::string::StringSliceAdditionalSpecFns;

verus! {

/// The byte-at-a-time debug channel is the only output left after firmware
/// shutdown.  These functions compute the exact bytes to emit; pushing each
/// byte to the architecture's fixed port or address is the caller's raw
/// write.

/// The lower-case hex digit for a value below 16.
pub open spec fn hex_digit(n: int) -> u8 {
    if n < 10 {
        (0x30 + n) as u8
    } else {
        (0x57 + n) as u8
    }
}

/// Bytes of `s`, ready for the byte-at-a-time debug channel.
pub fn serial_str(s: &str) -> (r: Vec<u8>)
    ensures
        r@ == s.spec_bytes(),
{
    s.as_bytes_vec()
}

/// The eighteen bytes that print `val` as a full-width lower-case
/// hexadecimal number: a `0x` prefix, then the sixteen digits from most to
/// least significant.
pub fn serial_hex(val: u64) -> (r: Vec<u8>)
    ensures
        r@.len() == 18,
        r@[0] == 0x30u8,
        r@[1] == 0x78u8,
        forall|i: int|
            0 <= i < 16 ==> #[trigger] r@[2 + i] == hex_digit(
                ((val as int) / vstd::arithmetic::power::pow(16, (15 - i) as nat)) % 16,
            ),
{
    let mut out: Vec<u8> = Vec::new();
    out.push(0x30);
    out.push(0x78);
    let mut i: usize = 0;
    while i < 16
        invariant
            i <= 16,
            out@.len() == 2 + i,
            out@[0] == 0x30u8,
            out@[1] == 0x78u8,
            forall|j: int|
                0 <= j < i ==> #[trigger] out@[2 + j] == hex_digit(
                    ((val as int) / vstd::arithmetic::power::pow(16, (15 - j) as nat)) % 16,
                ),
        decreases 16 - i,
    {
        let shift: u64 = ((15 - i) * 4) as u64;
        let nib: u64 = (val >> shift) & 0xF;
        proof {
            lemma_shift_is_pow_div(val, (15 - i) as nat);
            assert(nib == ((val as int) / vstd::arithmetic::power::pow(
                16,
                (15 - i) as nat,
            )) % 16);
        }
        let d: u8 = if nib < 10 {
            (0x30 + nib) as u8
        } else {
            (0x57 + nib) as u8
        };
        out.push(d);
        i = i + 1;
    }
    out
}

/// Shifting right by four bits at a time divides by the matching power of
/// sixteen, and masking the low four bits takes the remainder.
proof fn lemma_shift_is_pow_div(val: u64, k: nat)
    requires
        k < 16,
    ensures
        ((val >> ((k * 4) as u64)) & 0xF) as int == ((val as int) / vstd::arithmetic::power::pow(
            16,
            k,
        )) % 16,
{
    let s = (k * 4) as u64;
    assert(((val >> s) & 0xF) == (val >> s) % 16) by (bit_vector);
    vstd::bits::lemma_u64_shr_is_div(val, s);
    vstd::arithmetic::power2::lemma_pow2(k * 4);
    assert(vstd::arithmetic::power::pow(2, 4 * k) == vstd::arithmetic::power::pow(16, k)) by {
        vstd::arithmetic::power::lemma_pow_multiplies(2, 4, k);
        reveal_with_fuel(vstd::arithmetic::power::pow, 5);
        assert(vstd::arithmetic::power::pow(2, 4) == 16);
    }
    assert(vstd::arithmetic::power2::pow2(k * 4) as int == vstd::arithmetic::power::pow(16, k));
}

} // verus!
