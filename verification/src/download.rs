use vstd::prelude::*;
use vstd::string::StrSliceExecFns;
use vstd::string::StringExecFns;

verus! {

/// The CPU architectures the loader can be built for.
#[derive(Clone, Copy, Debug, PartialEq, Eq, Structural)]
pub enum Arch {
    /// 64-bit x86.
    X86_64,
    /// 64-bit Arm.
    Aarch64,
    /// 64-bit RISC-V.
    Riscv64,
    /// 64-bit LoongArch.
    Loongarch64,
}

/// The characters of an architecture's name.
pub open spec fn arch_chars(a: Arch) -> Seq<char> {
    match a {
        Arch::X86_64 => seq!['x', '8', '6', '_', '6', '4'],
        Arch::Aarch64 => seq!['a', 'a', 'r', 'c', 'h', '6', '4'],
        Arch::Riscv64 => seq!['r', 'i', 's', 'c', 'v', '6', '4'],
        Arch::Loongarch64 => seq!['l', 'o', 'o', 'n', 'g', 'a', 'r', 'c', 'h', '6', '4'],
    }
}

/// The architecture's name, as it appears in file paths and URLs.
pub fn arch_name(arch: Arch) -> (r: &'static str)
    ensures
        r@ == arch_chars(arch),
{
    match arch {
        Arch::X86_64 => {
            proof {
                reveal_strlit("x86_64");
                assert("x86_64"@ =~= arch_chars(Arch::X86_64));
            }
            "x86_64"
        },
        Arch::Aarch64 => {
            proof {
                reveal_strlit("aarch64");
                assert("aarch64"@ =~= arch_chars(Arch::Aarch64));
            }
            "aarch64"
        },
        Arch::Riscv64 => {
            proof {
                reveal_strlit("riscv64");
                assert("riscv64"@ =~= arch_chars(Arch::Riscv64));
            }
            "riscv64"
        },
        Arch::Loongarch64 => {
            proof {
                reveal_strlit("loongarch64");
                assert("loongarch64"@ =~= arch_chars(Arch::Loongarch64));
            }
            "loongarch64"
        },
    }
}

/// Whether the architecture variable starts at position `i` of `s`.
pub open spec fn is_var_at(s: Seq<char>, i: int) -> bool {
    &&& i + 7 <= s.len()
    &&& s[i] == '$'
    &&& s[i + 1] == '{'
    &&& s[i + 2] == 'a'
    &&& s[i + 3] == 'r'
    &&& s[i + 4] == 'c'
    &&& s[i + 5] == 'h'
    &&& s[i + 6] == '}'
}

/// `s` with every occurrence of the architecture variable replaced by
/// `rep`, scanning left to right.
pub open spec fn spec_expand(s: Seq<char>, rep: Seq<char>) -> Seq<char>
    decreases s.len(),
{
    if s.len() == 0 {
        Seq::empty()
    } else if is_var_at(s, 0) {
        rep + spec_expand(s.subrange(7, s.len() as int), rep)
    } else {
        seq![s[0]] + spec_expand(s.subrange(1, s.len() as int), rep)
    }
}

/// Replace every occurrence of the architecture variable in a configured
/// path or URL with the architecture's name.
pub fn expand_vars(s: &str, arch: Arch) -> (r: String)
    ensures
        r@ == spec_expand(s@, arch_chars(arch)),
{
    let n = s.unicode_len();
    let rep = arch_name(arch);
    let mut out = String::new();
    proof {
        assert(s@.subrange(0, n as int) =~= s@);
        assert(out@ =~= Seq::<char>::empty());
        assert(out@ + spec_expand(s@, arch_chars(arch)) =~= spec_expand(s@, arch_chars(arch)));
    }
    let mut i: usize = 0;
    while i < n
        invariant
            n == s@.len(),
            i <= n,
            rep@ == arch_chars(arch),
            spec_expand(s@, arch_chars(arch)) == out@ + spec_expand(
                s@.subrange(i as int, n as int),
                arch_chars(arch),
            ),
        decreases n - i,
    {
        let ghost pre = out@;
        let ghost rest = s@.subrange(i as int, n as int);
        if n - i >= 7 && s.get_char(i) == '$' && s.get_char(i + 1) == '{' && s.get_char(i + 2)
            == 'a' && s.get_char(i + 3) == 'r' && s.get_char(i + 4) == 'c' && s.get_char(i + 5)
            == 'h' && s.get_char(i + 6) == '}' {
            out.append(rep);
            proof {
                assert(is_var_at(rest, 0));
                assert(rest.subrange(7, rest.len() as int) =~= s@.subrange(
                    i + 7,
                    n as int,
                ));
                assert(pre + (arch_chars(arch) + spec_expand(
                    s@.subrange(i + 7, n as int),
                    arch_chars(arch),
                )) =~= out@ + spec_expand(s@.subrange(i + 7, n as int), arch_chars(arch)));
            }
            i = i + 7;
        } else {
            let piece = s.substring_char(i, i + 1);
            out.append(piece);
            proof {
                assert(!is_var_at(rest, 0));
                assert(rest[0] == s@[i as int]);
                assert(rest.subrange(1, rest.len() as int) =~= s@.subrange(
                    i + 1,
                    n as int,
                ));
                assert(piece@ =~= seq![rest[0]]);
                assert(pre + (seq![rest[0]] + spec_expand(
                    s@.subrange(i + 1, n as int),
                    arch_chars(arch),
                )) =~= out@ + spec_expand(s@.subrange(i + 1, n as int), arch_chars(arch)));
            }
            i = i + 1;
        }
    }
    proof {
        assert(s@.subrange(n as int, n as int) =~= Seq::<char>::empty());
        assert(out@ + Seq::<char>::empty() =~= out@);
    }
    out
}

/// All resolved boot data for a single entry.
pub struct ResolvedFiles {
    /// The kernel image, when one was found.
    pub kernel: Option<Vec<u8>>,
    /// The combined initial ramdisk, when any part was found.
    pub initrd: Option<Vec<u8>>,
    /// The kernel command line, when one was found.
    pub cmdline: Option<String>,
}

/// The concatenation of the first `upto` byte strings.
pub open spec fn spec_concat(parts: Seq<Seq<u8>>, upto: int) -> Seq<u8>
    decreases upto,
{
    if upto <= 0 {
        Seq::empty()
    } else {
        spec_concat(parts, upto - 1) + parts[upto - 1]
    }
}

/// The views of a list of byte strings.
pub open spec fn part_views(parts: Seq<Vec<u8>>) -> Seq<Seq<u8>> {
    parts.map_values(|p: Vec<u8>| p@)
}

/// Combine the collected ramdisk parts into the single image the kernel
/// receives: none when there are no parts, else their concatenation in
/// order.
pub fn combine_initrd_parts(parts: &Vec<Vec<u8>>) -> (r: Option<Vec<u8>>)
    ensures
        r is Some <==> parts@.len() > 0,
        r matches Some(v) ==> v@ == spec_concat(part_views(parts@), parts@.len() as int),
{
    if parts.len() == 0 {
        return None;
    }
    let mut combined: Vec<u8> = Vec::new();
    let n = parts.len();
    let mut i: usize = 0;
    while i < n
        invariant
            n == parts@.len(),
            i <= n,
            combined@ == spec_concat(part_views(parts@), i as int),
        decreases n - i,
    {
        let ghost before = combined@;
        let part_len = parts[i].len();
        let mut j: usize = 0;
        while j < part_len
            invariant
                n == parts@.len(),
                i < n,
                part_len == parts@[i as int]@.len(),
                j <= part_len,
                combined@ == before + parts@[i as int]@.subrange(0, j as int),
                before == spec_concat(part_views(parts@), i as int),
            decreases part_len - j,
        {
            combined.push(parts[i][j]);
            proof {
                assert(parts@[i as int]@.subrange(0, j + 1) =~= parts@[i as int]@.subrange(
                    0,
                    j as int,
                ).push(parts@[i as int]@[j as int]));
            }
            j = j + 1;
        }
        proof {
            assert(parts@[i as int]@.subrange(0, part_len as int) =~= parts@[i as int]@);
            assert(part_views(parts@)[i as int] == parts@[i as int]@);
        }
        i = i + 1;
    }
    Some(combined)
}

/// Length of `s` with every trailing newline byte removed.
pub open spec fn spec_trimmed_len(s: Seq<u8>) -> int
    decreases s.len(),
{
    if s.len() == 0 {
        0
    } else if s[s.len() - 1] == 10 {
        spec_trimmed_len(s.subrange(0, s.len() - 1))
    } else {
        s.len() as int
    }
}

/// A command line's bytes with every trailing newline removed, as the
/// kernel should receive it.
pub fn trim_trailing_newlines(v: &Vec<u8>) -> (r: Vec<u8>)
    ensures
        r@ == v@.subrange(0, spec_trimmed_len(v@)),
{
    let mut k = v.len();
    proof {
        assert(v@.subrange(0, k as int) =~= v@);
    }
    while k > 0 && v[k - 1] == 10
        invariant
            k <= v@.len(),
            spec_trimmed_len(v@) == spec_trimmed_len(v@.subrange(0, k as int)),
        decreases k,
    {
        proof {
            assert(v@.subrange(0, k as int).subrange(0, k - 1) =~= v@.subrange(0, k - 1));
        }
        k = k - 1;
    }
    proof {
        if k > 0 {
            assert(v@.subrange(0, k as int)[k - 1] == v@[k - 1]);
        }
        assert(spec_trimmed_len(v@.subrange(0, k as int)) == k);
    }
    let mut out: Vec<u8> = Vec::new();
    let mut i: usize = 0;
    while i < k
        invariant
            k <= v@.len(),
            i <= k,
            out@ == v@.subrange(0, i as int),
        decreases k - i,
    {
        proof {
            assert(v@.subrange(0, i + 1) =~= v@.subrange(0, i as int).push(v@[i as int]));
        }
        out.push(v[i]);
        i = i + 1;
    }
    out
}

} // verus!
