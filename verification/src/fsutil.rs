use vstd::prelude::*;
use vstd::string::StrSliceExecFns;
use vstd::string::StringExecFns;

verus! {

/// Join a directory path and a file name with the volume's separator,
/// unless the directory already ends with one.
pub fn path_join(dir: &str, file: &str) -> (r: String)
    ensures
        dir@.len() > 0 && dir@.last() == '\\' ==> r@ == dir@ + file@,
        !(dir@.len() > 0 && dir@.last() == '\\') ==> r@ == dir@ + "\\"@ + file@,
{
    let n = dir.unicode_len();
    let mut out = String::from_str(dir);
    if !(n > 0 && dir.get_char(n - 1) == '\\') {
        out.append("\\");
    }
    out.append(file);
    out
}

/// Whether a directory entry's name is one the driver loader should try:
/// anything whose name ends in the driver-image suffix `.efi`, in either
/// case.
pub open spec fn spec_is_driver_file_name(s: Seq<char>) -> bool {
    &&& s.len() >= 4
    &&& s[s.len() - 4] == '.'
    &&& (s[s.len() - 3] == 'e' || s[s.len() - 3] == 'E')
    &&& (s[s.len() - 2] == 'f' || s[s.len() - 2] == 'F')
    &&& (s[s.len() - 1] == 'i' || s[s.len() - 1] == 'I')
}

/// Decide whether a directory entry's name ends in the driver-image
/// suffix.
pub fn is_driver_file_name(name: &str) -> (r: bool)
    ensures
        r == spec_is_driver_file_name(name@),
{
    let n = name.unicode_len();
    if n < 4 {
        return false;
    }
    let c3 = name.get_char(n - 4);
    let c2 = name.get_char(n - 3);
    let c1 = name.get_char(n - 2);
    let c0 = name.get_char(n - 1);
    c3 == '.' && (c2 == 'e' || c2 == 'E') && (c1 == 'f' || c1 == 'F') && (c0 == 'i' || c0 == 'I')
}

} // verus!
