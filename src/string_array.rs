//! Variable-length text columns: one flat buffer, an offsets index and a
//! validity bitmap.
use vstd::prelude::*;
use vstd::string::StringExecFns;
use vstd::utf8::encode_utf8;

use crate::any::{lemma_names_distinct, ArrayImpl};
use crate::array::{build_array, opt_view, Array, ArrayBuilder, ArrayIterator, MAX_LEN};
use crate::bitmap::{
    bitmap_get, bitmap_len, bitmap_push, bitmap_with_capacity, bits_of, Bitmap,
};
use crate::error::TypeMismatch;
use crate::utf8_lemmas::{lemma_concat_boundary, lemma_encode_concat, lemma_encode_injective};

verus! {

broadcast use {crate::array::lemma_max_len, vstd::seq_lib::group_seq_properties};

/// The storage of a text column is consistent: `texts` holds one text per
/// slot (empty for a null slot), `data` is their concatenation, and
/// `offsets[i]` is the byte length of the encoding of the first `i` texts.
pub open spec fn text_storage_wf(
    data: Seq<char>,
    offsets: Seq<usize>,
    bits: Seq<bool>,
    texts: Seq<Seq<char>>,
) -> bool {
    &&& texts.len() == bits.len() <= MAX_LEN
    &&& offsets.len() == texts.len() + 1
    &&& data == texts.flatten()
    &&& forall|i: int|
        0 <= i <= texts.len() ==> #[trigger] offsets[i] as int == encode_utf8(
            texts.subrange(0, i).flatten(),
        ).len()
    &&& forall|i: int| 0 <= i < texts.len() && !bits[i] ==> #[trigger] texts[i].len() == 0
}

/// The logical contents of a text column.
pub open spec fn text_values(bits: Seq<bool>, texts: Seq<Seq<char>>) -> Seq<Option<Seq<char>>> {
    Seq::new(bits.len(), |i: int| if bits[i] { Some(texts[i]) } else { None })
}

/// A column of text values.
pub struct StringArray {
    /// The concatenation of all non-null values.
    data: String,
    /// Byte offsets into `data`; element `i` spans `offsets[i]..offsets[i + 1]`.
    offsets: Vec<usize>,
    /// The validity bitmap: `true` for a non-null slot.
    bitmap: Bitmap,
    /// The text of each slot.
    texts: Ghost<Seq<Seq<char>>>,
}

impl StringArray {
    #[verifier::type_invariant]
    spec fn inv(&self) -> bool {
        text_storage_wf(self.data@, self.offsets@, bits_of(self.bitmap), self.texts@)
    }
}

/// The byte length of `s`, read from its bytes.
fn byte_len(s: &String) -> (r: usize)
    ensures
        r == encode_utf8(s@).len(),
{
    s.as_str().as_bytes().len()
}

/// Splits `texts` around slot `i`.
proof fn lemma_split_texts(texts: Seq<Seq<char>>, i: int)
    requires
        0 <= i < texts.len(),
    ensures
        texts.flatten() == texts.subrange(0, i).flatten() + (texts[i] + texts.subrange(
            i + 1,
            texts.len() as int,
        ).flatten()),
        texts.subrange(0, i + 1).flatten() == texts.subrange(0, i).flatten() + texts[i],
{
    let pre = texts.subrange(0, i);
    let post = texts.subrange(i + 1, texts.len() as int);
    assert(texts =~= pre + (seq![texts[i]] + post));
    vstd::seq_lib::lemma_flatten_concat(pre, seq![texts[i]] + post);
    vstd::seq_lib::lemma_flatten_concat(seq![texts[i]], post);
    seq![texts[i]].lemma_flatten_singleton();
    assert(texts.subrange(0, i + 1) =~= pre.push(texts[i]));
    pre.lemma_flatten_push(texts[i]);
}

impl StringArray {
    /// The logical contents: `None` for a null slot.
    pub closed spec fn contents(&self) -> Seq<Option<Seq<char>>> {
        text_values(bits_of(self.bitmap), self.texts@)
    }
}

impl Array for StringArray {
    type RefItem<'a> = &'a str;

    type OwnedItem = String;

    open spec fn values(&self) -> Seq<Option<Seq<char>>> {
        self.contents()
    }

    fn get(&self, idx: usize) -> (r: Option<&str>) {
        proof {
            use_type_invariant(self);
        }
        if bitmap_get(&self.bitmap, idx) {
            let ghost texts = self.texts@;
            let ghost pre = texts.subrange(0, idx as int).flatten();
            let ghost mid = texts[idx as int];
            let ghost post = texts.subrange(idx + 1, texts.len() as int).flatten();
            let start = self.offsets[idx];
            let end = self.offsets[idx + 1];
            proof {
                lemma_split_texts(texts, idx as int);
                lemma_concat_boundary(pre, mid + post);
                lemma_encode_concat(pre, mid + post);
                lemma_encode_concat(pre, mid);
                lemma_concat_boundary(mid, post);
                lemma_encode_concat(mid, post);
            }
            let s = self.data.as_str();
            let (_, rest) = s.split_at(start);
            proof {
                assert(encode_utf8(rest@) =~= encode_utf8(mid + post));
                lemma_encode_injective(rest@, mid + post);
            }
            let (v, _) = rest.split_at(end - start);
            proof {
                assert(encode_utf8(v@) =~= encode_utf8(mid));
                lemma_encode_injective(v@, mid);
            }
            Some(v)
        } else {
            None
        }
    }

    fn len(&self) -> (r: usize) {
        proof {
            use_type_invariant(self);
        }
        bitmap_len(&self.bitmap)
    }

    open spec fn variant_name() -> &'static str {
        "String"
    }

    open spec fn from_any(a: ArrayImpl) -> Option<StringArray> {
        match a {
            ArrayImpl::String(c) => Some(c),
            _ => None,
        }
    }

    open spec fn to_any(c: StringArray) -> ArrayImpl {
        ArrayImpl::String(c)
    }

    proof fn lemma_any(a: ArrayImpl, c: StringArray) {
        lemma_names_distinct();
    }

    fn identifier() -> (r: &'static str) {
        "String"
    }

    fn try_from_any(a: &ArrayImpl) -> (r: Result<&StringArray, TypeMismatch>) {
        match a {
            ArrayImpl::String(c) => Ok(c),
            other => Err(TypeMismatch("String", other.identifier())),
        }
    }

    fn into_any(self) -> (r: ArrayImpl) {
        ArrayImpl::String(self)
    }
}

impl StringArray {
    /// A cursor over the slots of this column, from the first.
    pub fn iter(&self) -> (r: ArrayIterator<'_, Self>)
        ensures
            r.array() == self,
            r.pos() == 0,
    {
        ArrayIterator::new(self)
    }

    /// A column holding `items`, in order.
    pub fn from_slice(items: &[Option<&str>]) -> (r: Self)
        requires
            items@.len() <= MAX_LEN,
        ensures
            r.values() == items@.map_values(|v: Option<&str>| opt_view(v)),
    {
        build_array::<StringArrayBuilder>(items)
    }
}

/// The builder of a `StringArray`.
pub struct StringArrayBuilder {
    /// The concatenation of the non-null values pushed so far.
    data: String,
    /// Byte offsets into `data`; element `i` spans `offsets[i]..offsets[i + 1]`.
    offsets: Vec<usize>,
    /// The validity bitmap: `true` for a non-null slot.
    bitmap: Bitmap,
    /// The text of each slot.
    texts: Ghost<Seq<Seq<char>>>,
}

impl ArrayBuilder for StringArrayBuilder {
    type Array = StringArray;

    closed spec fn wf(&self) -> bool {
        text_storage_wf(self.data@, self.offsets@, bits_of(self.bitmap), self.texts@)
    }

    closed spec fn values(&self) -> Seq<Option<Seq<char>>> {
        text_values(bits_of(self.bitmap), self.texts@)
    }

    fn with_capacity(capacity: usize) -> (r: Self) {
        let mut offsets: Vec<usize> = Vec::with_capacity(capacity);
        offsets.push(0);
        let r = StringArrayBuilder {
            data: String::new(),
            offsets,
            bitmap: bitmap_with_capacity(capacity),
            texts: Ghost(Seq::empty()),
        };
        assert(r.texts@.subrange(0, 0) =~= Seq::<Seq<char>>::empty());
        assert(r.values() =~= Seq::<Option<Seq<char>>>::empty());
        r
    }

    fn push(&mut self, value: Option<&str>) {
        let ghost before = self.values();
        let ghost old_texts = self.texts@;
        let ghost text = match value {
            Some(v) => v@,
            None => Seq::<char>::empty(),
        };
        match value {
            Some(v) => {
                self.data.append(v);
                let n = byte_len(&self.data);
                self.offsets.push(n);
                bitmap_push(&mut self.bitmap, true);
            },
            None => {
                let n = byte_len(&self.data);
                self.offsets.push(n);
                bitmap_push(&mut self.bitmap, false);
            },
        }
        self.texts = Ghost(old_texts.push(text));
        proof {
            let texts = self.texts@;
            old_texts.lemma_flatten_push(text);
            assert(text + Seq::<char>::empty() =~= text);
            assert(old_texts.flatten() + Seq::<char>::empty() =~= old_texts.flatten());
            assert(texts.subrange(0, texts.len() as int) =~= texts);
            assert forall|i: int| 0 <= i <= texts.len() implies #[trigger] self.offsets@[i] as int
                == encode_utf8(texts.subrange(0, i).flatten()).len() by {
                if i < texts.len() {
                    assert(texts.subrange(0, i) =~= old_texts.subrange(0, i));
                }
            }
        }
        assert(self.values() =~= before.push(opt_view(value)));
    }

    fn finish(self) -> (r: StringArray) {
        StringArray { data: self.data, offsets: self.offsets, bitmap: self.bitmap, texts: self.texts }
    }
}

} // verus!
