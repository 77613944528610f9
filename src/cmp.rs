//! Comparison functions over integers, booleans and text.
use vstd::prelude::*;
use vstd::utf8::encode_utf8;

use crate::expr::BinaryExprFunc;
use crate::primitive_array::{BoolArray, I32Array, I64Array};
use crate::string_array::StringArray;

verus! {

/// A comparison operator.
#[derive(Debug, Clone, Copy, PartialEq, Eq, Structural)]
pub enum CmpOp {
    Lt,
    Le,
    Gt,
    Ge,
    Eq,
    Ne,
}

/// The sign of `a - b`: -1, 0 or 1.
pub open spec fn sign_of(a: int, b: int) -> int {
    if a < b {
        -1
    } else if a == b {
        0
    } else {
        1
    }
}

/// Lexicographic comparison of two byte strings: -1, 0 or 1. A proper
/// prefix comes first.
pub open spec fn lex_cmp(a: Seq<u8>, b: Seq<u8>) -> int
    decreases a.len(),
{
    if a.len() == 0 {
        if b.len() == 0 {
            0
        } else {
            -1
        }
    } else if b.len() == 0 {
        1
    } else if a[0] != b[0] {
        sign_of(a[0] as int, b[0] as int)
    } else {
        lex_cmp(a.drop_first(), b.drop_first())
    }
}

/// The order of two texts: the order of their UTF-8 encodings.
pub open spec fn text_cmp(a: Seq<char>, b: Seq<char>) -> int {
    lex_cmp(encode_utf8(a), encode_utf8(b))
}

impl CmpOp {
    /// Whether the operator holds of two operands that compare as `c`.
    pub open spec fn holds(self, c: int) -> bool {
        match self {
            CmpOp::Lt => c < 0,
            CmpOp::Le => c <= 0,
            CmpOp::Gt => c > 0,
            CmpOp::Ge => c >= 0,
            CmpOp::Eq => c == 0,
            CmpOp::Ne => c != 0,
        }
    }

    /// Whether the operator holds of two operands that compare as `c`.
    pub fn check(self, c: i8) -> (r: bool)
        ensures
            r == self.holds(c as int),
    {
        match self {
            CmpOp::Lt => c < 0,
            CmpOp::Le => c <= 0,
            CmpOp::Gt => c > 0,
            CmpOp::Ge => c >= 0,
            CmpOp::Eq => c == 0,
            CmpOp::Ne => c != 0,
        }
    }
}

/// Compares two integers: -1, 0 or 1.
fn compare_i64(a: i64, b: i64) -> (r: i8)
    ensures
        r as int == sign_of(a as int, b as int),
{
    if a < b {
        -1
    } else if a == b {
        0
    } else {
        1
    }
}

/// Compares two byte strings lexicographically: -1, 0 or 1.
pub fn compare_bytes(a: &[u8], b: &[u8]) -> (r: i8)
    ensures
        r as int == lex_cmp(a@, b@),
{
    let mut i: usize = 0;
    assert(a@.subrange(0, a@.len() as int) =~= a@);
    assert(b@.subrange(0, b@.len() as int) =~= b@);
    while i < a.len() && i < b.len()
        invariant
            i <= a@.len(),
            i <= b@.len(),
            lex_cmp(a@, b@) == lex_cmp(
                a@.subrange(i as int, a@.len() as int),
                b@.subrange(i as int, b@.len() as int),
            ),
        decreases a@.len() - i,
    {
        let ghost ra = a@.subrange(i as int, a@.len() as int);
        let ghost rb = b@.subrange(i as int, b@.len() as int);
        if a[i] != b[i] {
            return compare_i64(a[i] as i64, b[i] as i64);
        }
        i += 1;
        assert(ra.drop_first() =~= a@.subrange(i as int, a@.len() as int));
        assert(rb.drop_first() =~= b@.subrange(i as int, b@.len() as int));
    }
    if i < a.len() {
        1
    } else if i < b.len() {
        -1
    } else {
        0
    }
}

/// A comparison of two operands of one type, giving a boolean.
#[derive(Debug, Clone, Copy, PartialEq, Eq, Structural)]
pub struct ExprCmp {
    pub op: CmpOp,
}

impl BinaryExprFunc<I32Array, I32Array, BoolArray> for ExprCmp {
    open spec fn spec_apply(&self, a: i32, b: i32) -> bool {
        self.op.holds(sign_of(a as int, b as int))
    }

    fn eval(&self, a: i32, b: i32) -> (r: bool) {
        self.op.check(compare_i64(a as i64, b as i64))
    }
}

impl BinaryExprFunc<I64Array, I64Array, BoolArray> for ExprCmp {
    open spec fn spec_apply(&self, a: i64, b: i64) -> bool {
        self.op.holds(sign_of(a as int, b as int))
    }

    fn eval(&self, a: i64, b: i64) -> (r: bool) {
        self.op.check(compare_i64(a, b))
    }
}

impl BinaryExprFunc<BoolArray, BoolArray, BoolArray> for ExprCmp {
    open spec fn spec_apply(&self, a: bool, b: bool) -> bool {
        self.op.holds(sign_of(a as int, b as int))
    }

    fn eval(&self, a: bool, b: bool) -> (r: bool) {
        self.op.check(compare_i64(a as i64, b as i64))
    }
}

impl BinaryExprFunc<StringArray, StringArray, BoolArray> for ExprCmp {
    open spec fn spec_apply(&self, a: Seq<char>, b: Seq<char>) -> bool {
        self.op.holds(text_cmp(a, b))
    }

    fn eval(&self, a: &str, b: &str) -> (r: bool) {
        self.op.check(compare_bytes(a.as_bytes(), b.as_bytes()))
    }
}

} // verus!
