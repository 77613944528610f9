//! Owned scalars and borrowed scalar references.
use vstd::prelude::*;

use crate::any::{lemma_names_distinct, ScalarImpl};
use crate::array::Array;
use crate::error::TypeMismatch;
use crate::primitive_array::{BoolArray, I32Array, I64Array};
use crate::string_array::StringArray;

verus! {

/// An owned single value, such as an `i32` or a `String`.
pub trait Scalar: Sized + View {
    /// The column type that stores values of this type.
    type ArrayType: Array<OwnedItem = Self>;

    /// A borrowed view of this value, denoting the same logical value.
    fn as_scalar_ref(&self) -> (r: <Self::ArrayType as Array>::RefItem<'_>)
        ensures
            r@ == self@,
    ;

    /// The name of the `ScalarImpl` variant that holds this type.
    spec fn variant_name() -> &'static str;

    /// The value held by `s`, where `s` holds this type.
    spec fn from_any(s: ScalarImpl) -> Option<Self>;

    /// The type-erased form of `v`.
    spec fn to_any(v: Self) -> ScalarImpl;

    /// Narrowing succeeds exactly on this type's variant, and undoes widening.
    proof fn lemma_any(s: ScalarImpl, v: Self)
        ensures
            Self::from_any(s) is Some <==> s.kind_name() == Self::variant_name(),
            Self::from_any(Self::to_any(v)) == Some(v),
            Self::to_any(v).kind_name() == Self::variant_name(),
    ;

    /// Narrows `s` to this type.
    fn try_from_any(s: ScalarImpl) -> (r: Result<Self, TypeMismatch>)
        ensures
            match r {
                Ok(x) => Self::from_any(s) == Some(x),
                Err(e) => Self::from_any(s) is None && e == TypeMismatch(
                    Self::variant_name(),
                    s.kind_name(),
                ),
            },
    ;

    /// Widens this value to its type-erased form.
    fn into_any(self) -> (r: ScalarImpl)
        ensures
            r == Self::to_any(self),
    ;
}

/// A borrowed value, such as an `i32` or a `&str`.
pub trait ScalarRef: Sized + Copy + View {
    /// The owned counterpart of this reference.
    type ScalarType: View<V = Self::V>;

    /// An owned copy of the value this reference denotes.
    fn to_owned_scalar(&self) -> (r: Self::ScalarType)
        ensures
            r@ == self@,
    ;
}

/// Widening a scalar and narrowing it back to its own type gives the value
/// back; the widened form names the value's type.
pub proof fn lemma_scalar_widen_then_narrow<S: Scalar>(v: S)
    ensures
        S::from_any(S::to_any(v)) == Some(v),
        S::to_any(v).kind_name() == S::variant_name(),
{
    S::lemma_any(S::to_any(v), v);
}

/// Narrowing a widened scalar to a type with another name fails; the widened
/// form names the value's own type, which the mismatch reports as actual.
pub proof fn lemma_scalar_widen_then_narrow_other<S: Scalar, T: Scalar>(v: S)
    requires
        S::variant_name() != T::variant_name(),
    ensures
        T::from_any(S::to_any(v)) is None,
        S::to_any(v).kind_name() == S::variant_name(),
{
    S::lemma_any(S::to_any(v), v);
    T::lemma_any(S::to_any(v), arbitrary());
}

impl ScalarRef for i32 {
    type ScalarType = i32;

    fn to_owned_scalar(&self) -> (r: i32) {
        *self
    }
}

impl ScalarRef for i64 {
    type ScalarType = i64;

    fn to_owned_scalar(&self) -> (r: i64) {
        *self
    }
}

impl ScalarRef for bool {
    type ScalarType = bool;

    fn to_owned_scalar(&self) -> (r: bool) {
        *self
    }
}

impl<'a> ScalarRef for &'a str {
    type ScalarType = String;

    fn to_owned_scalar(&self) -> (r: String) {
        (*self).to_owned()
    }
}

impl Scalar for String {
    type ArrayType = StringArray;

    fn as_scalar_ref(&self) -> (r: &str) {
        self.as_str()
    }

    open spec fn variant_name() -> &'static str {
        "String"
    }

    open spec fn from_any(s: ScalarImpl) -> Option<String> {
        match s {
            ScalarImpl::String(v) => Some(v),
            _ => None,
        }
    }

    open spec fn to_any(v: String) -> ScalarImpl {
        ScalarImpl::String(v)
    }

    proof fn lemma_any(s: ScalarImpl, v: String) {
        lemma_names_distinct();
    }

    fn try_from_any(s: ScalarImpl) -> (r: Result<String, TypeMismatch>) {
        match s {
            ScalarImpl::String(v) => Ok(v),
            other => Err(TypeMismatch("String", other.identifier())),
        }
    }

    fn into_any(self) -> (r: ScalarImpl) {
        ScalarImpl::String(self)
    }
}

impl Scalar for i32 {
    type ArrayType = I32Array;

    fn as_scalar_ref(&self) -> (r: i32) {
        *self
    }

    open spec fn variant_name() -> &'static str {
        "Int32"
    }

    open spec fn from_any(s: ScalarImpl) -> Option<i32> {
        match s {
            ScalarImpl::Int32(v) => Some(v),
            _ => None,
        }
    }

    open spec fn to_any(v: i32) -> ScalarImpl {
        ScalarImpl::Int32(v)
    }

    proof fn lemma_any(s: ScalarImpl, v: i32) {
        lemma_names_distinct();
    }

    fn try_from_any(s: ScalarImpl) -> (r: Result<i32, TypeMismatch>) {
        match s {
            ScalarImpl::Int32(v) => Ok(v),
            other => Err(TypeMismatch("Int32", other.identifier())),
        }
    }

    fn into_any(self) -> (r: ScalarImpl) {
        ScalarImpl::Int32(self)
    }
}

impl Scalar for i64 {
    type ArrayType = I64Array;

    fn as_scalar_ref(&self) -> (r: i64) {
        *self
    }

    open spec fn variant_name() -> &'static str {
        "Int64"
    }

    open spec fn from_any(s: ScalarImpl) -> Option<i64> {
        match s {
            ScalarImpl::Int64(v) => Some(v),
            _ => None,
        }
    }

    open spec fn to_any(v: i64) -> ScalarImpl {
        ScalarImpl::Int64(v)
    }

    proof fn lemma_any(s: ScalarImpl, v: i64) {
        lemma_names_distinct();
    }

    fn try_from_any(s: ScalarImpl) -> (r: Result<i64, TypeMismatch>) {
        match s {
            ScalarImpl::Int64(v) => Ok(v),
            other => Err(TypeMismatch("Int64", other.identifier())),
        }
    }

    fn into_any(self) -> (r: ScalarImpl) {
        ScalarImpl::Int64(self)
    }
}

impl Scalar for bool {
    type ArrayType = BoolArray;

    fn as_scalar_ref(&self) -> (r: bool) {
        *self
    }

    open spec fn variant_name() -> &'static str {
        "Bool"
    }

    open spec fn from_any(s: ScalarImpl) -> Option<bool> {
        match s {
            ScalarImpl::Bool(v) => Some(v),
            _ => None,
        }
    }

    open spec fn to_any(v: bool) -> ScalarImpl {
        ScalarImpl::Bool(v)
    }

    proof fn lemma_any(s: ScalarImpl, v: bool) {
        lemma_names_distinct();
    }

    fn try_from_any(s: ScalarImpl) -> (r: Result<bool, TypeMismatch>) {
        match s {
            ScalarImpl::Bool(v) => Ok(v),
            other => Err(TypeMismatch("Bool", other.identifier())),
        }
    }

    fn into_any(self) -> (r: ScalarImpl) {
        ScalarImpl::Bool(self)
    }
}

} // verus!
