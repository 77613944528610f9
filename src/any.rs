//! Type-erased columns and scalars: one variant per supported concrete type.
use vstd::prelude::*;

use crate::array::Array;
use crate::primitive_array::{BoolArray, I32Array, I64Array};
use crate::string_array::StringArray;

verus! {

/// The names of the variants are pairwise distinct.
pub proof fn lemma_names_distinct()
    ensures
        "Int32" != "Int64",
        "Int32" != "Bool",
        "Int32" != "String",
        "Int64" != "Bool",
        "Int64" != "String",
        "Bool" != "String",
{
    reveal_strlit("Int32");
    reveal_strlit("Int64");
    reveal_strlit("Bool");
    reveal_strlit("String");
}

/// A column of any supported type.
pub enum ArrayImpl {
    Int32(I32Array),
    Int64(I64Array),
    Bool(BoolArray),
    String(StringArray),
}

impl ArrayImpl {
    /// The name of the variant held.
    pub open spec fn kind_name(&self) -> &'static str {
        match self {
            ArrayImpl::Int32(_) => "Int32",
            ArrayImpl::Int64(_) => "Int64",
            ArrayImpl::Bool(_) => "Bool",
            ArrayImpl::String(_) => "String",
        }
    }

    /// The number of elements of the column held.
    pub open spec fn spec_len(&self) -> nat {
        match self {
            ArrayImpl::Int32(a) => a.contents().len(),
            ArrayImpl::Int64(a) => a.contents().len(),
            ArrayImpl::Bool(a) => a.contents().len(),
            ArrayImpl::String(a) => a.contents().len(),
        }
    }

    /// The name of the variant held, for diagnostics.
    pub fn identifier(&self) -> (r: &'static str)
        ensures
            r == self.kind_name(),
    {
        match self {
            ArrayImpl::Int32(_) => "Int32",
            ArrayImpl::Int64(_) => "Int64",
            ArrayImpl::Bool(_) => "Bool",
            ArrayImpl::String(_) => "String",
        }
    }

    /// The number of elements of the column held.
    pub fn len(&self) -> (r: usize)
        ensures
            r == self.spec_len(),
    {
        match self {
            ArrayImpl::Int32(a) => a.len(),
            ArrayImpl::Int64(a) => a.len(),
            ArrayImpl::Bool(a) => a.len(),
            ArrayImpl::String(a) => a.len(),
        }
    }

    /// Whether the column held has no element.
    pub fn is_empty(&self) -> (r: bool)
        ensures
            r == (self.spec_len() == 0),
    {
        self.len() == 0
    }
}

/// A scalar of any supported type.
#[derive(Debug, PartialEq, Eq)]
pub enum ScalarImpl {
    Int32(i32),
    Int64(i64),
    Bool(bool),
    String(String),
}

impl ScalarImpl {
    /// The name of the variant held.
    pub open spec fn kind_name(&self) -> &'static str {
        match self {
            ScalarImpl::Int32(_) => "Int32",
            ScalarImpl::Int64(_) => "Int64",
            ScalarImpl::Bool(_) => "Bool",
            ScalarImpl::String(_) => "String",
        }
    }

    /// The name of the variant held, for diagnostics.
    pub fn identifier(&self) -> (r: &'static str)
        ensures
            r == self.kind_name(),
    {
        match self {
            ScalarImpl::Int32(_) => "Int32",
            ScalarImpl::Int64(_) => "Int64",
            ScalarImpl::Bool(_) => "Bool",
            ScalarImpl::String(_) => "String",
        }
    }
}

/// A borrowed scalar of any supported type.
#[derive(Debug, Clone, Copy)]
pub enum ScalarRefImpl<'a> {
    Int32(i32),
    Int64(i64),
    Bool(bool),
    String(&'a str),
}

/// `s` and `r` hold the same variant and denote the same value.
pub open spec fn same_value(s: ScalarImpl, r: ScalarRefImpl<'_>) -> bool {
    match (s, r) {
        (ScalarImpl::Int32(a), ScalarRefImpl::Int32(b)) => a == b,
        (ScalarImpl::Int64(a), ScalarRefImpl::Int64(b)) => a == b,
        (ScalarImpl::Bool(a), ScalarRefImpl::Bool(b)) => a == b,
        (ScalarImpl::String(a), ScalarRefImpl::String(b)) => a@ == b@,
        _ => false,
    }
}

impl ScalarImpl {
    /// A borrowed view of the value held.
    pub fn as_scalar_ref(&self) -> (r: ScalarRefImpl<'_>)
        ensures
            same_value(*self, r),
    {
        match self {
            ScalarImpl::Int32(v) => ScalarRefImpl::Int32(*v),
            ScalarImpl::Int64(v) => ScalarRefImpl::Int64(*v),
            ScalarImpl::Bool(v) => ScalarRefImpl::Bool(*v),
            ScalarImpl::String(v) => ScalarRefImpl::String(v.as_str()),
        }
    }
}

impl<'a> ScalarRefImpl<'a> {
    /// The name of the variant held.
    pub open spec fn kind_name(&self) -> &'static str {
        match self {
            ScalarRefImpl::Int32(_) => "Int32",
            ScalarRefImpl::Int64(_) => "Int64",
            ScalarRefImpl::Bool(_) => "Bool",
            ScalarRefImpl::String(_) => "String",
        }
    }

    /// The name of the variant held, for diagnostics.
    pub fn identifier(&self) -> (r: &'static str)
        ensures
            r == self.kind_name(),
    {
        match self {
            ScalarRefImpl::Int32(_) => "Int32",
            ScalarRefImpl::Int64(_) => "Int64",
            ScalarRefImpl::Bool(_) => "Bool",
            ScalarRefImpl::String(_) => "String",
        }
    }

    /// An owned copy of the value held.
    pub fn to_owned_scalar(&self) -> (r: ScalarImpl)
        ensures
            same_value(r, *self),
    {
        match self {
            ScalarRefImpl::Int32(v) => ScalarImpl::Int32(*v),
            ScalarRefImpl::Int64(v) => ScalarImpl::Int64(*v),
            ScalarRefImpl::Bool(v) => ScalarImpl::Bool(*v),
            ScalarRefImpl::String(v) => ScalarImpl::String((*v).to_owned()),
        }
    }
}

} // verus!
