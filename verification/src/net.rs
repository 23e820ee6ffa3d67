use vstd::prelude::*;

verus! {

/// Whether `c` is a hexadecimal digit.
pub open spec fn is_hex_digit(c: char) -> bool {
    ('0' <= c && c <= '9') || ('a' <= c && c <= 'f') || ('A' <= c && c <= 'F')
}

/// Value of a hexadecimal digit.
pub open spec fn hex_val(c: char) -> int {
    if '0' <= c && c <= '9' {
        c as int - 48
    } else if 'a' <= c && c <= 'f' {
        c as int - 87
    } else {
        c as int - 55
    }
}

/// Whether `s` spells a hardware address: six two-digit hexadecimal
/// groups separated by colons or dashes.
pub open spec fn valid_mac_str(s: Seq<char>) -> bool {
    &&& s.len() == 17
    &&& forall|i: int| 0 <= i < 6 ==> is_hex_digit(#[trigger] s[3 * i])
    &&& forall|i: int| 0 <= i < 6 ==> is_hex_digit(#[trigger] s[3 * i + 1])
    &&& forall|i: int| 0 <= i < 5 ==> (#[trigger] s[3 * i + 2] == ':' || s[3 * i + 2] == '-')
}

/// The `i`th byte a valid hardware-address string spells.
pub open spec fn mac_byte(s: Seq<char>, i: int) -> int {
    16 * hex_val(s[3 * i]) + hex_val(s[3 * i + 1])
}

/// Decide whether `c` is a hexadecimal digit, and give its value.
fn hex_digit_val(c: char) -> (r: Option<u8>)
    ensures
        r is Some <==> is_hex_digit(c),
        r matches Some(v) ==> v as int == hex_val(c),
{
    if '0' <= c && c <= '9' {
        Some((c as u8) - 48)
    } else if 'a' <= c && c <= 'f' {
        Some((c as u8) - 87)
    } else if 'A' <= c && c <= 'F' {
        Some((c as u8) - 55)
    } else {
        None
    }
}

/// Parse a hardware-address string into its six bytes.  Succeeds exactly
/// on strings of six two-digit hexadecimal groups separated by colons or
/// dashes.
pub fn parse_mac(s: &str) -> (r: Option<Vec<u8>>)
    ensures
        r is Some <==> valid_mac_str(s@),
        r matches Some(m) ==> {
            &&& m@.len() == 6
            &&& forall|i: int| 0 <= i < 6 ==> (#[trigger] m@[i]) as int == mac_byte(s@, i)
        },
{
    let n = s.unicode_len();
    if n != 17 {
        return None;
    }
    let mut out: Vec<u8> = Vec::new();
    let mut i: usize = 0;
    while i < 6
        invariant
            s@.len() == 17,
            i <= 6,
            out@.len() == i,
            forall|j: int| 0 <= j < i ==> is_hex_digit(#[trigger] s@[3 * j]),
            forall|j: int| 0 <= j < i ==> is_hex_digit(#[trigger] s@[3 * j + 1]),
            forall|j: int|
                0 <= j < i && j < 5 ==> (#[trigger] s@[3 * j + 2] == ':' || s@[3 * j + 2] == '-'),
            forall|j: int| 0 <= j < i ==> (#[trigger] out@[j]) as int == mac_byte(s@, j),
        decreases 6 - i,
    {
        let hi = match hex_digit_val(s.get_char(3 * i)) {
            Some(v) => v,
            None => {
                return None;
            },
        };
        let lo = match hex_digit_val(s.get_char(3 * i + 1)) {
            Some(v) => v,
            None => {
                return None;
            },
        };
        if i < 5 {
            let sep = s.get_char(3 * i + 2);
            if !(sep == ':' || sep == '-') {
                return None;
            }
        }
        out.push(16 * hi + lo);
        i = i + 1;
    }
    Some(out)
}

/// Whether two byte strings are equal.
pub fn bytes_equal(a: &Vec<u8>, b: &Vec<u8>) -> (r: bool)
    ensures
        r <==> a@ == b@,
{
    if a.len() != b.len() {
        return false;
    }
    let n = a.len();
    let mut i: usize = 0;
    while i < n
        invariant
            n == a@.len(),
            a@.len() == b@.len(),
            i <= n,
            forall|j: int| 0 <= j < i ==> a@[j] == b@[j],
        decreases n - i,
    {
        if a[i] != b[i] {
            return false;
        }
        i = i + 1;
    }
    proof {
        assert(a@ =~= b@);
    }
    true
}

/// Index of the first hardware address among the first `i` that equals
/// `want`, if any.
pub open spec fn spec_first_mac_match(macs: Seq<Seq<u8>>, want: Seq<u8>, i: int) -> Option<int>
    decreases i,
{
    if i <= 0 {
        None
    } else if spec_first_mac_match(macs, want, i - 1) is Some {
        spec_first_mac_match(macs, want, i - 1)
    } else if macs[i - 1] == want {
        Some(i - 1)
    } else {
        None
    }
}

/// The views of a list of byte strings.
pub open spec fn byte_views(macs: Seq<Vec<u8>>) -> Seq<Seq<u8>> {
    macs.map_values(|m: Vec<u8>| m@)
}

/// Once a match exists among a prefix, every longer prefix reports the
/// same first match.
proof fn lemma_first_match_stable(macs: Seq<Seq<u8>>, want: Seq<u8>, i: int, m: int)
    requires
        spec_first_mac_match(macs, want, i) is Some,
        i <= m,
    ensures
        spec_first_mac_match(macs, want, m) == spec_first_mac_match(macs, want, i),
    decreases m - i,
{
    if m > i {
        lemma_first_match_stable(macs, want, i, m - 1);
    }
}

/// Pick the network interface to use: the first whose hardware address is
/// the wanted one, or the first interface when none matches or none is
/// wanted.
pub fn pick_nic(macs: &Vec<Vec<u8>>, want: &Option<Vec<u8>>) -> (r: usize)
    requires
        macs@.len() >= 1,
    ensures
        r < macs@.len(),
        want.is_none() ==> r == 0,
        want matches Some(w) ==> match spec_first_mac_match(
            byte_views(macs@),
            w@,
            macs@.len() as int,
        ) {
            Some(i) => r == i,
            None => r == 0,
        },
{
    if want.is_none() {
        return 0;
    }
    let w = want.as_ref().unwrap();
    let n = macs.len();
    let mut i: usize = 0;
    while i < n
        invariant
            n == macs@.len(),
            want is Some,
            w == want->0,
            spec_first_mac_match(byte_views(macs@), w@, i as int) is None,
            i <= n,
        decreases n - i,
    {
        if bytes_equal(&macs[i], w) {
            proof {
                assert(byte_views(macs@)[i as int] == macs@[i as int]@);
                assert(spec_first_mac_match(byte_views(macs@), w@, i + 1) == Some(i as int));
                lemma_first_match_stable(byte_views(macs@), w@, i + 1, macs@.len() as int);
            }
            return i;
        }
        proof {
            assert(byte_views(macs@)[i as int] == macs@[i as int]@);
        }
        i = i + 1;
    }
    0
}

} // verus!
