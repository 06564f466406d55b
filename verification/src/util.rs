//! Small helpers on strings, lists and C truth values.
use vstd::prelude::*;
use vstd::string::StringSliceAdditionalSpecFns;

verus! {

/// The C truth value of `b`.
pub fn to_c_bool(b: bool) -> (r: i32)
    ensures
        r == (if b { 1i32 } else { 0i32 }),
{
    if b {
        1
    } else {
        0
    }
}

/// Whether `s` holds a NUL byte, which no C string can carry.
pub fn contains_nul(s: &str) -> (r: bool)
    ensures
        r == s.spec_bytes().contains(0u8),
{
    let bytes = s.as_bytes();
    let mut i: usize = 0;
    while i < bytes.len()
        invariant
            i <= bytes@.len(),
            bytes@ == s.spec_bytes(),
            forall|j: int| 0 <= j < i ==> bytes@[j] != 0u8,
        decreases bytes@.len() - i,
    {
        if bytes[i] == 0 {
            assert(bytes@[i as int] == 0u8);
            return true;
        }
        i = i + 1;
    }
    false
}

/// The bytes of `s`.
pub fn str_bytes(s: &str) -> (v: Vec<u8>)
    ensures
        v@ == s.spec_bytes(),
{
    vstd::slice::slice_to_vec(s.as_bytes())
}

/// The bytes of the C string made of `s`: its bytes and a closing NUL.
pub fn c_string_bytes(s: &str) -> (v: Vec<u8>)
    ensures
        v@ == s.spec_bytes().push(0u8),
{
    let mut v = str_bytes(s);
    v.push(0u8);
    v
}

/// Whether `w` is one of `windows`.
pub fn contains_window(windows: &Vec<u64>, w: u64) -> (r: bool)
    ensures
        r == windows@.contains(w),
{
    let mut i: usize = 0;
    while i < windows.len()
        invariant
            i <= windows@.len(),
            forall|j: int| 0 <= j < i ==> windows@[j] != w,
        decreases windows@.len() - i,
    {
        if windows[i] == w {
            assert(windows@[i as int] == w);
            return true;
        }
        i = i + 1;
    }
    false
}

} // verus!
