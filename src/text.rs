use vstd::prelude::*;
use vstd::utf8::encode_utf8;

verus! {

/// Length of a string in UTF-8 bytes, the unit in which stored strings are bounded.
pub open spec fn byte_len(s: Seq<char>) -> nat {
    encode_utf8(s).len()
}

/// The UTF-8 length of `s`, in bytes.
pub fn utf8_len(s: &String) -> (r: usize)
    ensures
        r == byte_len(s@),
{
    s.as_str().as_bytes().len()
}

} // verus!
