//! Text functions.
use vstd::prelude::*;
use vstd::utf8::encode_utf8;

use crate::expr::BinaryExprFunc;
use crate::primitive_array::BoolArray;
use crate::string_array::StringArray;

verus! {

/// `n` occurs in `h` starting at byte `k`.
pub open spec fn occurs_at(h: Seq<u8>, n: Seq<u8>, k: int) -> bool {
    0 <= k && k + n.len() <= h.len() && h.subrange(k, k + n.len()) == n
}

/// `n` occurs somewhere in `h`.
pub open spec fn bytes_contain(h: Seq<u8>, n: Seq<u8>) -> bool {
    exists|k: int| occurs_at(h, n, k)
}

/// Text `b` occurs in text `a`: as a run of bytes of their UTF-8 encodings.
pub open spec fn text_contains(a: Seq<char>, b: Seq<char>) -> bool {
    bytes_contain(encode_utf8(a), encode_utf8(b))
}

/// Whether `n` occurs in `h` starting at byte `k`.
fn occurs_at_exec(h: &[u8], n: &[u8], k: usize) -> (r: bool)
    requires
        k + n@.len() <= h@.len(),
    ensures
        r == occurs_at(h@, n@, k as int),
{
    let h_len = h.len();
    let mut j: usize = 0;
    while j < n.len()
        invariant
            k + n@.len() <= h@.len() == h_len,
            j <= n@.len(),
            forall|m: int| 0 <= m < j ==> h@[k + m] == n@[m],
        decreases n@.len() - j,
    {
        if h[k + j] != n[j] {
            assert(h@.subrange(k as int, k + n@.len())[j as int] != n@[j as int]);
            return false;
        }
        j += 1;
    }
    assert(h@.subrange(k as int, k + n@.len()) =~= n@);
    true
}

/// Whether `n` occurs somewhere in `h`.
pub fn contains_bytes(h: &[u8], n: &[u8]) -> (r: bool)
    ensures
        r == bytes_contain(h@, n@),
{
    if n.len() > h.len() {
        return false;
    }
    let last = h.len() - n.len();
    let mut k: usize = 0;
    while k < last
        invariant
            last + n@.len() == h@.len(),
            k <= last,
            forall|m: int| 0 <= m < k ==> !occurs_at(h@, n@, m),
        decreases last - k,
    {
        if occurs_at_exec(h, n, k) {
            return true;
        }
        k += 1;
    }
    if occurs_at_exec(h, n, last) {
        return true;
    }
    assert forall|m: int| !occurs_at(h@, n@, m) by {
        if 0 <= m < k {
        }
    }
    false
}

/// Whether the first text contains the second.
#[derive(Debug, Clone, Copy, PartialEq, Eq, Structural)]
pub struct ExprStrContains;

impl BinaryExprFunc<StringArray, StringArray, BoolArray> for ExprStrContains {
    open spec fn spec_apply(&self, a: Seq<char>, b: Seq<char>) -> bool {
        text_contains(a, b)
    }

    fn eval(&self, i1: &str, i2: &str) -> (r: bool) {
        contains_bytes(i1.as_bytes(), i2.as_bytes())
    }
}

} // verus!
