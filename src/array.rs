//! Null-aware columns and the builders that produce them.
use vstd::prelude::*;

use crate::any::ArrayImpl;
use crate::bitmap::MAX_BITS;
use crate::error::TypeMismatch;
use crate::scalar::ScalarRef;

verus! {

/// The most elements a column holds: storage for that many slots of up to
/// eight bytes stays within `isize::MAX` bytes, and the bitmap's limit is
/// above it.
pub const MAX_LEN: usize = usize::MAX >> 4;

/// `MAX_LEN` is at least 2^28 - 1 on every target, and below `MAX_BITS`.
pub broadcast proof fn lemma_max_len()
    ensures
        #[trigger] MAX_LEN >= 0x0fff_ffff,
        MAX_LEN < MAX_BITS,
{
    if usize::BITS == 32 {
        assert(0xffff_ffffu32 >> 4u32 == 0x0fff_ffffu32) by (bit_vector);
        assert(0xffff_ffffu32 >> 3u32 == 0x1fff_ffffu32) by (bit_vector);
    } else {
        assert(0xffff_ffff_ffff_ffffu64 >> 4u64 == 0x0fff_ffff_ffff_ffffu64) by (bit_vector);
        assert(0xffff_ffff_ffff_ffffu64 >> 3u64 == 0x1fff_ffff_ffff_ffffu64) by (bit_vector);
    }
}

/// A column: an immutable sequence of values of one type, each of which may be null.
pub trait Array: Sized {
    /// A borrowed element, as read from the column.
    type RefItem<'a>: ScalarRef<ScalarType = Self::OwnedItem> + View<
        V = <Self::OwnedItem as View>::V,
    > where Self: 'a;

    /// The owned element type.
    type OwnedItem: View;

    /// The logical contents: `None` for a null slot.
    spec fn values(&self) -> Seq<Option<<Self::OwnedItem as View>::V>>;

    /// The element at `idx`, or `None` where that slot is null.
    fn get(&self, idx: usize) -> (r: Option<Self::RefItem<'_>>)
        requires
            idx < self.values().len(),
        ensures
            r matches Some(v) ==> self.values()[idx as int] == Some(v@),
            r is None ==> self.values()[idx as int] is None,
    ;

    /// The number of elements.
    fn len(&self) -> (r: usize)
        ensures
            r == self.values().len(),
            r <= MAX_LEN,
    ;

    /// The name of the `ArrayImpl` variant that holds this column type.
    spec fn variant_name() -> &'static str;

    /// The column held by `a`, where `a` holds this column type.
    spec fn from_any(a: ArrayImpl) -> Option<Self>;

    /// The type-erased form of `c`.
    spec fn to_any(c: Self) -> ArrayImpl;

    /// Narrowing succeeds exactly on this type's variant, and undoes widening.
    proof fn lemma_any(a: ArrayImpl, c: Self)
        ensures
            Self::from_any(a) is Some <==> a.kind_name() == Self::variant_name(),
            Self::from_any(Self::to_any(c)) == Some(c),
            Self::to_any(c).kind_name() == Self::variant_name(),
            Self::to_any(c).spec_len() == c.values().len(),
            Self::from_any(a) matches Some(x) ==> a.spec_len() == x.values().len(),
    ;

    /// The name of the `ArrayImpl` variant that holds this column type.
    fn identifier() -> (r: &'static str)
        ensures
            r == Self::variant_name(),
    ;

    /// Narrows `a` to this column type.
    fn try_from_any(a: &ArrayImpl) -> (r: Result<&Self, TypeMismatch>)
        ensures
            match r {
                Ok(x) => Self::from_any(*a) == Some(*x),
                Err(e) => Self::from_any(*a) is None && e == TypeMismatch(
                    Self::variant_name(),
                    a.kind_name(),
                ),
            },
    ;

    /// Widens this column to its type-erased form.
    fn into_any(self) -> (r: ArrayImpl)
        ensures
            r == Self::to_any(self),
    ;

    /// Whether the column holds no element.
    fn is_empty(&self) -> (r: bool)
        ensures
            r == (self.values().len() == 0),
    {
        self.len() == 0
    }
}

/// A cursor over the slots of a column, in index order.
pub struct ArrayIterator<'a, A> {
    array: &'a A,
    pos: usize,
}

impl<'a, A: Array> ArrayIterator<'a, A> {
    /// The column walked.
    pub closed spec fn array(&self) -> &'a A {
        self.array
    }

    /// The index of the next slot.
    pub closed spec fn pos(&self) -> nat {
        self.pos as nat
    }

    /// A cursor at the first slot of `array`.
    pub fn new(array: &'a A) -> (r: Self)
        ensures
            r.array() == array,
            r.pos() == 0,
    {
        ArrayIterator { array, pos: 0 }
    }

    /// The next slot (`Some(None)` for a null one), or `None` past the end.
    pub fn next(&mut self) -> (r: Option<Option<A::RefItem<'a>>>)
        ensures
            final(self).array() == old(self).array(),
            old(self).pos() < old(self).array().values().len() ==> {
                &&& r matches Some(v)
                &&& opt_view(v) == old(self).array().values()[old(self).pos() as int]
                &&& final(self).pos() == old(self).pos() + 1
            },
            old(self).pos() >= old(self).array().values().len() ==> r is None && final(self).pos()
                == old(self).pos(),
    {
        if self.pos < self.array.len() {
            let v = self.array.get(self.pos);
            self.pos = self.pos + 1;
            Some(v)
        } else {
            None
        }
    }
}

/// The logical value of an optional borrowed element.
pub open spec fn opt_view<R: View>(v: Option<R>) -> Option<R::V> {
    match v {
        Some(x) => Some(x@),
        None => None,
    }
}

/// A single-use accumulator that produces an `Array`.
pub trait ArrayBuilder: Sized {
    /// The column this builder produces.
    type Array: Array;

    /// Whether the builder's storage is consistent.
    spec fn wf(&self) -> bool;

    /// The values pushed so far.
    spec fn values(&self) -> Seq<Option<<<Self::Array as Array>::OwnedItem as View>::V>>;

    /// An empty builder with room reserved for `capacity` elements.
    fn with_capacity(capacity: usize) -> (r: Self)
        requires
            capacity <= MAX_LEN,
        ensures
            r.wf(),
            r.values() == Seq::<Option<<<Self::Array as Array>::OwnedItem as View>::V>>::empty(),
    ;

    /// Appends a value, or a null for `None`.
    fn push(&mut self, value: Option<<Self::Array as Array>::RefItem<'_>>)
        requires
            old(self).wf(),
            old(self).values().len() < MAX_LEN,
        ensures
            final(self).wf(),
            final(self).values() == old(self).values().push(opt_view(value)),
    ;

    /// The finished column, holding exactly the values pushed.
    fn finish(self) -> (r: Self::Array)
        requires
            self.wf(),
        ensures
            r.values() == self.values(),
    ;
}

/// A column built by pushing `items` in order into a fresh builder: it holds
/// exactly `items`, whatever they are.
pub fn build_array<'a, B: ArrayBuilder>(items: &[Option<<B::Array as Array>::RefItem<'a>>]) -> (r:
    B::Array)
    requires
        items@.len() <= MAX_LEN,
    ensures
        r.values() == items@.map_values(|v: Option<<B::Array as Array>::RefItem<'a>>| opt_view(v)),
        r.values().len() == items@.len(),
{
    let mut builder = B::with_capacity(items.len());
    let mut i: usize = 0;
    while i < items.len()
        invariant
            i <= items@.len() <= MAX_LEN,
            builder.wf(),
            builder.values() == items@.subrange(0, i as int).map_values(
                |v: Option<<B::Array as Array>::RefItem<'a>>| opt_view(v),
            ),
        decreases items@.len() - i,
    {
        builder.push(items[i]);
        i += 1;
        assert(items@.subrange(0, i as int) == items@.subrange(0, i - 1).push(items@[i - 1]));
    }
    assert(items@.subrange(0, i as int) == items@);
    builder.finish()
}

/// Widening a column and narrowing it back to its own type gives the column
/// back; the widened form names the column's type.
pub proof fn lemma_widen_then_narrow<A: Array>(c: A)
    ensures
        A::from_any(A::to_any(c)) == Some(c),
        A::to_any(c).kind_name() == A::variant_name(),
{
    A::lemma_any(A::to_any(c), c);
}

/// Narrowing a widened column to a type with another name fails; the widened
/// form names the column's own type, which the mismatch reports as actual.
pub proof fn lemma_widen_then_narrow_other<A: Array, B: Array>(c: A)
    requires
        A::variant_name() != B::variant_name(),
    ensures
        B::from_any(A::to_any(c)) is None,
        A::to_any(c).kind_name() == A::variant_name(),
{
    A::lemma_any(A::to_any(c), c);
    B::lemma_any(A::to_any(c), arbitrary());
}

} // verus!
