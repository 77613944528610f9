//! Fixed-width columns: one data slot and one validity bit per element.
use vstd::prelude::*;

use crate::any::{lemma_names_distinct, ArrayImpl};
use crate::array::{build_array, opt_view, Array, ArrayBuilder, ArrayIterator, MAX_LEN};
use crate::bitmap::{bitmap_get, bitmap_push, bitmap_with_capacity, bits_of, Bitmap};
use crate::error::TypeMismatch;
use crate::scalar::ScalarRef;

verus! {

broadcast use crate::array::lemma_max_len;

/// A fixed-width element type that is its own borrowed form.
pub trait PrimitiveType: Copy + View<V = Self> + ScalarRef<ScalarType = Self> + 'static {
    /// The value stored in the data slot of a null element.
    fn default_value() -> Self;

    /// The name of the `ArrayImpl` variant that holds a column of this type.
    spec fn variant_name() -> &'static str;

    /// The column held by `a`, where `a` holds a column of this type.
    spec fn from_any(a: ArrayImpl) -> Option<PrimitiveArray<Self>>;

    /// The type-erased form of `c`.
    spec fn to_any(c: PrimitiveArray<Self>) -> ArrayImpl;

    /// Narrowing succeeds exactly on this type's variant, and undoes widening.
    proof fn lemma_any(a: ArrayImpl, c: PrimitiveArray<Self>)
        ensures
            Self::from_any(a) is Some <==> a.kind_name() == Self::variant_name(),
            Self::from_any(Self::to_any(c)) == Some(c),
            Self::to_any(c).kind_name() == Self::variant_name(),
            Self::to_any(c).spec_len() == c.contents().len(),
            Self::from_any(a) matches Some(x) ==> a.spec_len() == x.contents().len(),
    ;

    /// The name of the `ArrayImpl` variant that holds a column of this type.
    fn identifier() -> (r: &'static str)
        ensures
            r == Self::variant_name(),
    ;

    /// Narrows `a` to a column of this type.
    fn try_from_any(a: &ArrayImpl) -> (r: Result<&PrimitiveArray<Self>, TypeMismatch>)
        ensures
            match r {
                Ok(x) => Self::from_any(*a) == Some(*x),
                Err(e) => Self::from_any(*a) is None && e == TypeMismatch(
                    Self::variant_name(),
                    a.kind_name(),
                ),
            },
    ;

    /// Widens a column of this type to its type-erased form.
    fn into_any(c: PrimitiveArray<Self>) -> (r: ArrayImpl)
        ensures
            r == Self::to_any(c),
    ;
}

impl PrimitiveType for i32 {
    fn default_value() -> Self {
        0
    }

    open spec fn variant_name() -> &'static str {
        "Int32"
    }

    open spec fn from_any(a: ArrayImpl) -> Option<PrimitiveArray<i32>> {
        match a {
            ArrayImpl::Int32(c) => Some(c),
            _ => None,
        }
    }

    open spec fn to_any(c: PrimitiveArray<i32>) -> ArrayImpl {
        ArrayImpl::Int32(c)
    }

    proof fn lemma_any(a: ArrayImpl, c: PrimitiveArray<i32>) {
        lemma_names_distinct();
    }

    fn identifier() -> (r: &'static str) {
        "Int32"
    }

    fn try_from_any(a: &ArrayImpl) -> (r: Result<&PrimitiveArray<i32>, TypeMismatch>) {
        match a {
            ArrayImpl::Int32(c) => Ok(c),
            other => Err(TypeMismatch("Int32", other.identifier())),
        }
    }

    fn into_any(c: PrimitiveArray<i32>) -> (r: ArrayImpl) {
        ArrayImpl::Int32(c)
    }
}

impl PrimitiveType for i64 {
    fn default_value() -> Self {
        0
    }

    open spec fn variant_name() -> &'static str {
        "Int64"
    }

    open spec fn from_any(a: ArrayImpl) -> Option<PrimitiveArray<i64>> {
        match a {
            ArrayImpl::Int64(c) => Some(c),
            _ => None,
        }
    }

    open spec fn to_any(c: PrimitiveArray<i64>) -> ArrayImpl {
        ArrayImpl::Int64(c)
    }

    proof fn lemma_any(a: ArrayImpl, c: PrimitiveArray<i64>) {
        lemma_names_distinct();
    }

    fn identifier() -> (r: &'static str) {
        "Int64"
    }

    fn try_from_any(a: &ArrayImpl) -> (r: Result<&PrimitiveArray<i64>, TypeMismatch>) {
        match a {
            ArrayImpl::Int64(c) => Ok(c),
            other => Err(TypeMismatch("Int64", other.identifier())),
        }
    }

    fn into_any(c: PrimitiveArray<i64>) -> (r: ArrayImpl) {
        ArrayImpl::Int64(c)
    }
}

impl PrimitiveType for bool {
    fn default_value() -> Self {
        false
    }

    open spec fn variant_name() -> &'static str {
        "Bool"
    }

    open spec fn from_any(a: ArrayImpl) -> Option<PrimitiveArray<bool>> {
        match a {
            ArrayImpl::Bool(c) => Some(c),
            _ => None,
        }
    }

    open spec fn to_any(c: PrimitiveArray<bool>) -> ArrayImpl {
        ArrayImpl::Bool(c)
    }

    proof fn lemma_any(a: ArrayImpl, c: PrimitiveArray<bool>) {
        lemma_names_distinct();
    }

    fn identifier() -> (r: &'static str) {
        "Bool"
    }

    fn try_from_any(a: &ArrayImpl) -> (r: Result<&PrimitiveArray<bool>, TypeMismatch>) {
        match a {
            ArrayImpl::Bool(c) => Ok(c),
            other => Err(TypeMismatch("Bool", other.identifier())),
        }
    }

    fn into_any(c: PrimitiveArray<bool>) -> (r: ArrayImpl) {
        ArrayImpl::Bool(c)
    }
}

/// The logical contents of a data vector under a validity bitmap.
pub open spec fn masked<T: View>(data: Seq<T>, bits: Seq<bool>) -> Seq<Option<T::V>> {
    Seq::new(data.len(), |i: int| if bits[i] { Some(data[i]@) } else { None })
}

/// A column of fixed-width values.
pub struct PrimitiveArray<T> {
    /// The values; a null slot holds `T::default_value()`.
    data: Vec<T>,
    /// The validity bitmap: `true` for a non-null slot.
    bitmap: Bitmap,
}

pub type I32Array = PrimitiveArray<i32>;

pub type I64Array = PrimitiveArray<i64>;

pub type BoolArray = PrimitiveArray<bool>;

impl<T> PrimitiveArray<T> {
    #[verifier::type_invariant]
    spec fn inv(&self) -> bool {
        self.data@.len() == bits_of(self.bitmap).len() <= MAX_LEN
    }
}

impl<T: View> PrimitiveArray<T> {
    /// The logical contents: `None` for a null slot.
    pub closed spec fn contents(&self) -> Seq<Option<T::V>> {
        masked(self.data@, bits_of(self.bitmap))
    }
}

impl<T: PrimitiveType> Array for PrimitiveArray<T> {
    type RefItem<'a> = T;

    type OwnedItem = T;

    open spec fn values(&self) -> Seq<Option<T>> {
        self.contents()
    }

    fn get(&self, idx: usize) -> (r: Option<T>) {
        proof {
            use_type_invariant(self);
        }
        if bitmap_get(&self.bitmap, idx) {
            Some(self.data[idx])
        } else {
            None
        }
    }

    fn len(&self) -> (r: usize) {
        proof {
            use_type_invariant(self);
        }
        self.data.len()
    }

    open spec fn variant_name() -> &'static str {
        T::variant_name()
    }

    open spec fn from_any(a: ArrayImpl) -> Option<Self> {
        T::from_any(a)
    }

    open spec fn to_any(c: Self) -> ArrayImpl {
        T::to_any(c)
    }

    proof fn lemma_any(a: ArrayImpl, c: Self) {
        T::lemma_any(a, c);
    }

    fn identifier() -> (r: &'static str) {
        T::identifier()
    }

    fn try_from_any(a: &ArrayImpl) -> (r: Result<&Self, TypeMismatch>) {
        T::try_from_any(a)
    }

    fn into_any(self) -> (r: ArrayImpl) {
        T::into_any(self)
    }
}

impl<T: PrimitiveType> PrimitiveArray<T> {
    /// A cursor over the slots of this column, from the first.
    pub fn iter(&self) -> (r: ArrayIterator<'_, Self>)
        ensures
            r.array() == self,
            r.pos() == 0,
    {
        ArrayIterator::new(self)
    }
    /// A column holding `items`, in order.
    pub fn from_slice(items: &[Option<T>]) -> (r: Self)
        requires
            items@.len() <= MAX_LEN,
        ensures
            r.values() == items@.map_values(|v: Option<T>| opt_view(v)),
    {
        build_array::<PrimitiveArrayBuilder<T>>(items)
    }
}

/// The builder of a `PrimitiveArray`.
pub struct PrimitiveArrayBuilder<T> {
    /// The values pushed so far; a null slot holds `T::default_value()`.
    data: Vec<T>,
    /// The validity bitmap: `true` for a non-null slot.
    bitmap: Bitmap,
}

pub type I32ArrayBuilder = PrimitiveArrayBuilder<i32>;

pub type I64ArrayBuilder = PrimitiveArrayBuilder<i64>;

pub type BoolArrayBuilder = PrimitiveArrayBuilder<bool>;

impl<T: PrimitiveType> ArrayBuilder for PrimitiveArrayBuilder<T> {
    type Array = PrimitiveArray<T>;

    closed spec fn wf(&self) -> bool {
        self.data@.len() == bits_of(self.bitmap).len() <= MAX_LEN
    }

    closed spec fn values(&self) -> Seq<Option<T>> {
        masked(self.data@, bits_of(self.bitmap))
    }

    fn with_capacity(capacity: usize) -> (r: Self) {
        let r = PrimitiveArrayBuilder { data: Vec::with_capacity(capacity), bitmap: bitmap_with_capacity(capacity) };
        assert(r.values() =~= Seq::<Option<T>>::empty());
        r
    }

    fn push(&mut self, value: Option<T>) {
        let ghost before = self.values();
        match value {
            Some(v) => {
                self.data.push(v);
                bitmap_push(&mut self.bitmap, true);
            },
            None => {
                self.data.push(T::default_value());
                bitmap_push(&mut self.bitmap, false);
            },
        }
        assert(self.values() =~= before.push(opt_view(value)));
    }

    fn finish(self) -> (r: PrimitiveArray<T>) {
        PrimitiveArray { data: self.data, bitmap: self.bitmap }
    }
}

} // verus!
