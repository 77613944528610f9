//! Expressions selected at run time by a tag.
use vstd::prelude::*;

use crate::any::ArrayImpl;
use crate::cmp::{sign_of, text_cmp, CmpOp, ExprCmp};
use crate::error::TypeMismatch;
use crate::expr::{lift, BinaryExpression};
use crate::primitive_array::{BoolArray, BoolArrayBuilder, I32Array, I64Array};
use crate::string::{text_contains, ExprStrContains};
use crate::string_array::StringArray;

verus! {

/// An operation that a caller can pick at run time.
#[derive(Debug, Clone, Copy, PartialEq, Eq, Structural)]
pub enum ExprKind {
    /// A comparison of two columns of one type.
    Cmp(CmpOp),
    /// Whether each text of the first column contains that of the second.
    StrContains,
}

/// The boolean column, or the error, that `kind` gives on `x` and `y`.
/// A comparison takes its operand type from `x`.
pub open spec fn spec_evaluate(kind: ExprKind, x: ArrayImpl, y: ArrayImpl) -> Result<
    Seq<Option<bool>>,
    TypeMismatch,
> {
    match kind {
        ExprKind::StrContains => match (x, y) {
            (ArrayImpl::String(a), ArrayImpl::String(b)) => Ok(
                lift(|p: Seq<char>, q: Seq<char>| text_contains(p, q), a.contents(), b.contents()),
            ),
            (ArrayImpl::String(_), _) => Err(TypeMismatch("String", y.kind_name())),
            _ => Err(TypeMismatch("String", x.kind_name())),
        },
        ExprKind::Cmp(op) => match (x, y) {
            (ArrayImpl::Int32(a), ArrayImpl::Int32(b)) => Ok(
                lift(|p: i32, q: i32| op.holds(sign_of(p as int, q as int)), a.contents(), b.contents()),
            ),
            (ArrayImpl::Int64(a), ArrayImpl::Int64(b)) => Ok(
                lift(|p: i64, q: i64| op.holds(sign_of(p as int, q as int)), a.contents(), b.contents()),
            ),
            (ArrayImpl::Bool(a), ArrayImpl::Bool(b)) => Ok(
                lift(|p: bool, q: bool| op.holds(sign_of(p as int, q as int)), a.contents(), b.contents()),
            ),
            (ArrayImpl::String(a), ArrayImpl::String(b)) => Ok(
                lift(|p: Seq<char>, q: Seq<char>| op.holds(text_cmp(p, q)), a.contents(), b.contents()),
            ),
            _ => Err(TypeMismatch(x.kind_name(), y.kind_name())),
        },
    }
}

/// A result agrees with what `spec_evaluate` gives.
pub open spec fn agrees(r: Result<ArrayImpl, TypeMismatch>, expected: Result<Seq<Option<bool>>, TypeMismatch>) -> bool {
    match (r, expected) {
        (Ok(ArrayImpl::Bool(o)), Ok(v)) => o.contents() == v,
        (Err(e), Err(f)) => e == f,
        _ => false,
    }
}

/// An expression picked by its tag, applied to a run-time list of columns.
#[derive(Debug, Clone, Copy, PartialEq, Eq, Structural)]
pub struct AnyExpression {
    pub kind: ExprKind,
}

/// The expression named by `kind`.
pub fn build_binary_expression(kind: ExprKind) -> (r: AnyExpression)
    ensures
        r.kind == kind,
{
    AnyExpression { kind }
}

impl AnyExpression {
    /// Evaluates the expression on two columns of equal length.
    pub fn eval_expr(&self, inputs: &[ArrayImpl]) -> (r: Result<ArrayImpl, TypeMismatch>)
        requires
            inputs@.len() == 2,
            inputs@[0].spec_len() == inputs@[1].spec_len(),
        ensures
            agrees(r, spec_evaluate(self.kind, inputs@[0], inputs@[1])),
    {
        let x = &inputs[0];
        let y = &inputs[1];
        proof {
            crate::any::lemma_names_distinct();
        }
        match self.kind {
            ExprKind::StrContains => {
                let e = BinaryExpression::<StringArray, StringArray, BoolArrayBuilder, ExprStrContains>::new(ExprStrContains);
                let r = e.eval(x, y);
                proof {
                    if x is String && y is String {
                        let (a, b) = (x->String_0, y->String_0);
                        assert(e.spec_eval(a.contents(), b.contents()) =~= lift(|p: Seq<char>, q: Seq<char>| text_contains(p, q), a.contents(), b.contents()));
                    }
                }
                r
            },
            ExprKind::Cmp(op) => {
                match x {
                    ArrayImpl::Int32(_) => {
                        let e = BinaryExpression::<I32Array, I32Array, BoolArrayBuilder, ExprCmp>::new(ExprCmp { op });
                        let r = e.eval(x, y);
                        proof {
                            if x is Int32 && y is Int32 {
                                let (a, b) = (x->Int32_0, y->Int32_0);
                                assert(e.spec_eval(a.contents(), b.contents()) =~= lift(|p: i32, q: i32| op.holds(sign_of(p as int, q as int)), a.contents(), b.contents()));
                            }
                        }
                        r
                    },
                    ArrayImpl::Int64(_) => {
                        let e = BinaryExpression::<I64Array, I64Array, BoolArrayBuilder, ExprCmp>::new(ExprCmp { op });
                        let r = e.eval(x, y);
                        proof {
                            if x is Int64 && y is Int64 {
                                let (a, b) = (x->Int64_0, y->Int64_0);
                                assert(e.spec_eval(a.contents(), b.contents()) =~= lift(|p: i64, q: i64| op.holds(sign_of(p as int, q as int)), a.contents(), b.contents()));
                            }
                        }
                        r
                    },
                    ArrayImpl::Bool(_) => {
                        let e = BinaryExpression::<BoolArray, BoolArray, BoolArrayBuilder, ExprCmp>::new(ExprCmp { op });
                        let r = e.eval(x, y);
                        proof {
                            if x is Bool && y is Bool {
                                let (a, b) = (x->Bool_0, y->Bool_0);
                                assert(e.spec_eval(a.contents(), b.contents()) =~= lift(|p: bool, q: bool| op.holds(sign_of(p as int, q as int)), a.contents(), b.contents()));
                            }
                        }
                        r
                    },
                    ArrayImpl::String(_) => {
                        let e = BinaryExpression::<StringArray, StringArray, BoolArrayBuilder, ExprCmp>::new(ExprCmp { op });
                        let r = e.eval(x, y);
                        proof {
                            if x is String && y is String {
                                let (a, b) = (x->String_0, y->String_0);
                                assert(e.spec_eval(a.contents(), b.contents()) =~= lift(|p: Seq<char>, q: Seq<char>| op.holds(text_cmp(p, q)), a.contents(), b.contents()));
                            }
                        }
                        r
                    },
                }
            },
        }
    }
}

} // verus!
