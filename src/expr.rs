//! Binary expressions: a scalar function of two arguments lifted to columns,
//! with null propagation.
use std::marker::PhantomData;
use vstd::prelude::*;

use crate::any::ArrayImpl;
use crate::array::{Array, ArrayBuilder, MAX_LEN};
use crate::error::TypeMismatch;
use crate::scalar::Scalar;

verus! {

/// The logical value of an element of column type `A`.
pub type ElemOf<A> = <<A as Array>::OwnedItem as View>::V;

/// A scalar function from one element of `I1` and one of `I2` to an owned
/// element of `O`.
pub trait BinaryExprFunc<I1: Array, I2: Array, O: Array> {
    /// The value the function returns on `a` and `b`.
    spec fn spec_apply(&self, a: ElemOf<I1>, b: ElemOf<I2>) -> ElemOf<O>;

    /// Applies the function.
    fn eval(&self, a: I1::RefItem<'_>, b: I2::RefItem<'_>) -> (r: O::OwnedItem)
        ensures
            r@ == self.spec_apply(a@, b@),
    ;
}

/// Slot `i` of the result is `f` of slot `i` of `x` and of `y`, and null
/// where either of them is null.
pub open spec fn lift<A, B, C>(f: spec_fn(A, B) -> C, x: Seq<Option<A>>, y: Seq<Option<B>>) -> Seq<
    Option<C>,
> {
    Seq::new(
        x.len(),
        |i: int|
            match (x[i], y[i]) {
                (Some(a), Some(b)) => Some(f(a, b)),
                _ => None,
            },
    )
}

/// Null propagation: a slot of a lifted result is null exactly where a slot
/// of either input is null, and holds `f` of the two inputs elsewhere.
pub proof fn lemma_null_propagation<A, B, C>(
    f: spec_fn(A, B) -> C,
    x: Seq<Option<A>>,
    y: Seq<Option<B>>,
    i: int,
)
    requires
        x.len() == y.len(),
        0 <= i < x.len(),
    ensures
        lift(f, x, y).len() == x.len(),
        lift(f, x, y)[i] is None <==> (x[i] is None || y[i] is None),
        x[i] is Some && y[i] is Some ==> lift(f, x, y)[i] == Some(f(x[i].unwrap(), y[i].unwrap())),
{
}

/// A column-level expression built from the scalar function `F`: it takes
/// columns of type `I1` and `I2` and builds its result with the builder `B`.
pub struct BinaryExpression<I1, I2, B, F> {
    func: F,
    _phantom: PhantomData<(I1, I2, B)>,
}

impl<I1: Array, I2: Array, B: ArrayBuilder, F: BinaryExprFunc<I1, I2, B::Array>> BinaryExpression<
    I1,
    I2,
    B,
    F,
> where <B::Array as Array>::OwnedItem: Scalar<ArrayType = B::Array> {
    /// The scalar function lifted.
    pub closed spec fn func(&self) -> F {
        self.func
    }

    /// The result of the expression on the logical contents of two columns.
    pub open spec fn spec_eval(&self, x: Seq<Option<ElemOf<I1>>>, y: Seq<Option<ElemOf<I2>>>) -> Seq<
        Option<ElemOf<B::Array>>,
    > {
        lift(|a: ElemOf<I1>, b: ElemOf<I2>| self.func().spec_apply(a, b), x, y)
    }

    /// The expression that lifts `func`.
    pub fn new(func: F) -> (r: Self)
        ensures
            r.func() == func,
    {
        BinaryExpression { func, _phantom: PhantomData }
    }

    /// Evaluates the expression on two columns of equal length: narrows them
    /// to `I1` and `I2` (failing on the first that does not narrow), then
    /// applies the function slot by slot, with a null wherever an input is null.
    pub fn eval(&self, i1: &ArrayImpl, i2: &ArrayImpl) -> (r: Result<ArrayImpl, TypeMismatch>)
        requires
            i1.spec_len() == i2.spec_len(),
        ensures
            r is Ok <==> (I1::from_any(*i1) is Some && I2::from_any(*i2) is Some),
            I1::from_any(*i1) is None ==> r == Err::<ArrayImpl, TypeMismatch>(
                TypeMismatch(I1::variant_name(), i1.kind_name()),
            ),
            I1::from_any(*i1) is Some && I2::from_any(*i2) is None ==> r == Err::<
                ArrayImpl,
                TypeMismatch,
            >(TypeMismatch(I2::variant_name(), i2.kind_name())),
            r matches Ok(out) ==> B::Array::from_any(out) matches Some(o) && o.values()
                == self.spec_eval(
                I1::from_any(*i1).unwrap().values(),
                I2::from_any(*i2).unwrap().values(),
            ),
    {
        let a1: &I1 = match I1::try_from_any(i1) {
            Ok(a) => a,
            Err(e) => {
                return Err(e);
            },
        };
        let a2: &I2 = match I2::try_from_any(i2) {
            Ok(a) => a,
            Err(e) => {
                return Err(e);
            },
        };
        proof {
            I1::lemma_any(*i1, *a1);
            I2::lemma_any(*i2, *a2);
        }
        let n = a1.len();
        let mut builder = B::with_capacity(n);
        let mut i: usize = 0;
        while i < n
            invariant
                n == a1.values().len() == a2.values().len(),
                n <= MAX_LEN,
                i <= n,
                builder.wf(),
                builder.values() == self.spec_eval(a1.values(), a2.values()).subrange(0, i as int),
            decreases n - i,
        {
            let ghost before = builder.values();
            match (a1.get(i), a2.get(i)) {
                (Some(x), Some(y)) => {
                    let out = self.func.eval(x, y);
                    builder.push(Some(out.as_scalar_ref()));
                },
                _ => {
                    builder.push(None);
                },
            }
            i += 1;
            assert(builder.values() =~= self.spec_eval(a1.values(), a2.values()).subrange(
                0,
                i as int,
            ));
        }
        let out = builder.finish();
        proof {
            assert(self.spec_eval(a1.values(), a2.values()).subrange(0, n as int) =~= self.spec_eval(
                a1.values(),
                a2.values(),
            ));
            B::Array::lemma_any(B::Array::to_any(out), out);
        }
        Ok(out.into_any())
    }
}

} // verus!
