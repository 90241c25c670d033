//! Small verified string utilities: equality of string slices, proved
//! through their UTF-8 encodings.

use vstd::prelude::*;

verus! {

/// Whether two string slices hold the same characters.
#[verifier::loop_isolation(false)]
pub fn str_eq(a: &str, b: &str) -> (r: bool)
    ensures
        r == (a@ == b@),
{
    let va = a.as_bytes_vec();
    let vb = b.as_bytes_vec();
    if va.len() != vb.len() {
        proof {
            assert(a@ != b@);
        }
        return false;
    }
    let mut i: usize = 0;
    while i < va.len()
        invariant
            i <= va@.len(),
            forall|j: int| 0 <= j < i ==> va@[j] == vb@[j],
        decreases va@.len() - i,
    {
        if va[i] != vb[i] {
            proof {
                assert(a@ != b@);
            }
            return false;
        }
        i = i + 1;
    }
    proof {
        assert(va@ =~= vb@);
        vstd::utf8::encode_utf8_decode_utf8(a@);
        vstd::utf8::encode_utf8_decode_utf8(b@);
    }
    true
}

/// Whether an optional string holds exactly the given characters.
pub fn opt_string_is(s: &Option<String>, lit: &str) -> (r: bool)
    ensures
        r == (s matches Some(v) && v@ == lit@),
{
    match s {
        Some(v) => str_eq(v.as_str(), lit),
        None => false,
    }
}

} // verus!
