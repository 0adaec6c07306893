//! Enumerated strings and enumerated string lists, kept open to values that the library does not
//! know yet.

use vstd::prelude::*;
use vstd::string::StringSliceAdditionalSpecFns;
use vstd::utf8::*;
use vstd::slice::slice_subrange;
use core::marker::PhantomData;

use crate::error::UnrecognizedEnumerationError;
use crate::utils::{
    bytes_eq, find_byte, join_spec, lemma_join_push, lemma_join_split, lemma_join_valid_utf8,
    lemma_split_append, lemma_split_at_first, lemma_split_join, lemma_split_none,
    lemma_split_nonempty, lemma_split_pieces_lack_sep, lemma_split_valid_utf8,
    lemma_valid_utf8_split_at_ascii, push_bytes, split_spec, str_from_utf8,
};

verus! {

/// A value that has a fixed text.
///
/// An impl states the text of each value in `text` and says so in `obeys_text_spec`; `as_cow`
/// then gives that text. An impl that keeps the defaults is promised nothing by `as_cow`.
pub trait AsStaticCow: Sized {
    /// Whether `text` states the text that `as_cow` gives.
    open spec fn obeys_text_spec() -> bool {
        false
    }

    /// The text of the value, where `obeys_text_spec` holds.
    open spec fn text(&self) -> Seq<char> {
        Seq::empty()
    }

    /// The text of the value.
    fn as_cow(&self) -> (r: String)
        ensures
            Self::obeys_text_spec() ==> r@ == self.text(),
    ;
}

/// A value of an enumerated string: one of a fixed set of texts.
///
/// Where `obeys_text_spec` holds, `from_text` states which value each text reads as, and
/// `try_from_str` reads a text that way.
pub trait EnumeratedValue: AsStaticCow + Copy {
    /// The value whose text is `s`, if there is one, where `obeys_text_spec` holds.
    open spec fn from_text(s: Seq<char>) -> Option<Self> {
        None
    }

    /// The value whose text is `value`.
    fn try_from_str(value: &str) -> (r: Result<Self, UnrecognizedEnumerationError<'_>>)
        ensures
            Self::obeys_text_spec() ==> match Self::from_text(value@) {
                Some(t) => r == Ok::<Self, UnrecognizedEnumerationError<'_>>(t),
                None => r matches Err(e) && e.value == value,
            },
    ;
}

/// Provides a forward compatible wrapper for enumerated string values.
///
/// The intent is that all cases of an enumerated string are captured within `T`; however, in case
/// a new value is added to HLS and this library has not been updated to support it yet, this enum
/// also supports an `Unknown` case that contains a custom string. In this way, parsing won't break
/// as new cases are added to the specification.
#[derive(Debug, Clone, Copy, PartialEq)]
pub enum EnumeratedString<'a, T> {
    /// The value is known to the library and provided by `T`.
    Known(T),
    /// The value is unknown to the library but a reference to the original data is provided.
    Unknown(&'a str),
}

/// The text of an enumerated string.
pub open spec fn enumerated_text<T: AsStaticCow>(e: EnumeratedString<T>) -> Seq<char> {
    match e {
        EnumeratedString::Known(t) => t.text(),
        EnumeratedString::Unknown(s) => s@,
    }
}

/// Whether the text of `e` is stated: an unknown value is its own text, and a known value has the
/// text that its type states.
pub open spec fn text_is_stated<T: AsStaticCow>(e: EnumeratedString<T>) -> bool {
    e is Unknown || T::obeys_text_spec()
}

/// The enumerated string that `s` reads as: the known value with that text, if there is one.
pub open spec fn enumerated_from<'a, T: EnumeratedValue>(s: &'a str) -> EnumeratedString<'a, T> {
    match T::from_text(s@) {
        Some(t) => EnumeratedString::Known(t),
        None => EnumeratedString::Unknown(s),
    }
}

impl<'a, T: EnumeratedValue> EnumeratedString<'a, T> {
    /// Reads `value`: the known value with that text if there is one, else the text itself.
    pub fn from_str(value: &'a str) -> (r: Self)
        ensures
            T::obeys_text_spec() ==> r == enumerated_from::<T>(value),
    {
        match T::try_from_str(value) {
            Ok(known) => EnumeratedString::Known(known),
            Err(_) => EnumeratedString::Unknown(value),
        }
    }
}

impl<'a, T> EnumeratedString<'a, T> {
    /// The known value, if the value is known.
    pub fn known(&self) -> (r: Option<&T>)
        ensures
            match *self {
                EnumeratedString::Known(t) => r == Some(&t),
                EnumeratedString::Unknown(_) => r is None,
            },
    {
        match self {
            EnumeratedString::Known(t) => Some(t),
            EnumeratedString::Unknown(_) => None,
        }
    }
}

impl<'a, T: AsStaticCow> EnumeratedString<'a, T> {
    /// The text of the value.
    pub fn as_cow(&self) -> (r: String)
        ensures
            text_is_stated(*self) ==> r@ == enumerated_text(*self),
    {
        match self {
            EnumeratedString::Unknown(s) => String::from_str(s),
            EnumeratedString::Known(t) => t.as_cow(),
        }
    }
}

/// Giving the text of what a text reads as gives the text back, when the known value that the
/// text reads as, if any, has that text: an unknown value is its own text.
pub proof fn lemma_text_of_read_text<'a, T: EnumeratedValue>(s: &'a str)
    requires
        forall|t: T| T::from_text(s@) == Some(t) ==> t.text() == s@,
    ensures
        enumerated_text(enumerated_from::<T>(s)) == s@,
{
}

/// Used to provide a convenience accessor on `Option<EnumeratedString<T>>` for the `Known(T)`
/// case.
pub trait GetKnown<T> {
    /// A convenience method for getting the known value. This may be most helpful when chaining on
    /// an already optional attribute.
    fn known(self) -> Option<T>;
}

impl<'a, T> GetKnown<T> for Option<EnumeratedString<'a, T>> {
    fn known(self) -> (r: Option<T>)
        ensures
            r == match self {
                Some(EnumeratedString::Known(t)) => Some(t),
                _ => None::<T>,
            },
    {
        match self {
            Some(EnumeratedString::Known(t)) => Some(t),
            _ => None,
        }
    }
}

/// The items of an enumerated string list with text bytes `b`: the pieces between its commas.
pub open spec fn list_items(b: Seq<u8>) -> Seq<Seq<u8>> {
    split_spec(b, 44u8)
}

/// The items that iterating over a list with text bytes `b` gives: the pieces between its commas,
/// where a comma at the end ends the last item and an empty list has no items.
pub open spec fn iter_items(b: Seq<u8>) -> Seq<Seq<u8>> {
    if b.len() == 0 {
        Seq::empty()
    } else if b.last() == 44u8 {
        list_items(b.drop_last())
    } else {
        list_items(b)
    }
}

/// The text bytes of a list after inserting an item with text bytes `t`: unchanged when the item
/// is there already, else the item is added at the end.
pub open spec fn insert_spec(b: Seq<u8>, t: Seq<u8>) -> Seq<u8> {
    if list_items(b).contains(t) {
        b
    } else if b.len() == 0 {
        t
    } else {
        b + seq![44u8] + t
    }
}

/// The text bytes of a list after removing the item with text bytes `t`: unchanged when the item
/// is not there. When the first item is `t`, only that item is dropped; otherwise every later
/// item equal to `t` is dropped.
pub open spec fn remove_spec(b: Seq<u8>, t: Seq<u8>) -> Seq<u8> {
    let p = list_items(b);
    if !p.contains(t) {
        b
    } else if p[0] == t {
        join_spec(p.drop_first(), 44u8)
    } else {
        join_spec(seq![p[0]] + p.drop_first().filter(differs_from(t)), 44u8)
    }
}

/// After inserting an item whose text has no comma, the list contains the item.
pub proof fn lemma_insert_then_contains(b: Seq<u8>, t: Seq<u8>)
    requires
        !t.contains(44u8),
    ensures
        list_items(insert_spec(b, t)).contains(t),
{
    if !list_items(b).contains(t) {
        if b.len() == 0 {
            assert forall|j: int| 0 <= j < t.len() implies t[j] != 44u8 by {
                if t[j] == 44u8 {
                    assert(t.contains(44u8));
                }
            }
            lemma_split_none(t, 44u8);
            assert(list_items(t)[0] == t);
        } else {
            lemma_split_append(b, t, 44u8);
            assert(list_items(insert_spec(b, t))[list_items(b).len() as int] == t);
        }
    }
}

/// In a list that repeats no item, removing an item with a non-empty text leaves a list without
/// the item.
pub proof fn lemma_remove_then_not_contains(b: Seq<u8>, t: Seq<u8>)
    requires
        list_items(b).no_duplicates(),
        t.len() > 0,
    ensures
        !list_items(remove_spec(b, t)).contains(t),
{
    let p = list_items(b);
    lemma_split_pieces_lack_sep(b, 44u8);
    lemma_split_nonempty(b, 44u8);
    if p.contains(t) {
        let q = p.drop_first();
        assert forall|k: int| 0 <= k < q.len() implies !(#[trigger] q[k]).contains(44u8) by {
            assert(q[k] == p[k + 1]);
        }
        if p[0] == t {
            if q.len() == 0 {
                lemma_split_none(Seq::<u8>::empty(), 44u8);
                assert(list_items(Seq::<u8>::empty())[0].len() == 0);
            } else {
                lemma_split_join(q, 44u8);
                if q.contains(t) {
                    let k = choose|k: int| 0 <= k < q.len() && q[k] == t;
                    assert(p[k + 1] == p[0]);
                }
            }
        } else {
            let pred = differs_from(t);
            let f = q.filter(pred);
            let kept = seq![p[0]] + f;
            assert forall|k: int| 0 <= k < kept.len() implies !(#[trigger] kept[k]).contains(44u8) by {
                if k > 0 {
                    assert(kept[k] == f[k - 1]);
                    q.lemma_filter_contains_rev(pred, f[k - 1]);
                    assert(f.contains(f[k - 1]));
                }
            }
            lemma_split_join(kept, 44u8);
            if kept.contains(t) {
                let k = choose|k: int| 0 <= k < kept.len() && kept[k] == t;
                if k > 0 {
                    q.lemma_filter_pred(pred, k - 1);
                }
            }
        }
    }
}

/// Removing an item right after inserting it finds the item and gives back the list, when the
/// item was not in the list and its text holds no comma.
pub proof fn lemma_remove_undoes_insert(b: Seq<u8>, t: Seq<u8>)
    requires
        !list_items(b).contains(t),
        !t.contains(44u8),
    ensures
        list_items(insert_spec(b, t)).contains(t),
        remove_spec(insert_spec(b, t), t) == b,
{
    lemma_insert_then_contains(b, t);
    let w = insert_spec(b, t);
    if b.len() == 0 {
        lemma_split_none(b, 44u8);
        assert(list_items(b)[0] == b);
        assert(t.len() > 0) by {
            if t.len() == 0 {
                assert(t =~= b);
                assert(list_items(b).contains(t));
            }
        }
        assert forall|j: int| 0 <= j < t.len() implies t[j] != 44u8 by {
            if t[j] == 44u8 {
                assert(t.contains(44u8));
            }
        }
        lemma_split_none(t, 44u8);
        assert(list_items(w) =~= seq![t]);
        assert(list_items(w).drop_first() =~= Seq::<Seq<u8>>::empty());
    } else {
        let p = list_items(b);
        lemma_split_append(b, t, 44u8);
        lemma_split_nonempty(b, 44u8);
        let pw = list_items(w);
        assert(pw =~= p + seq![t]);
        assert(pw[0] == p[0]);
        assert(p[0] != t) by {
            assert(p.contains(p[0]));
        }
        let pred = differs_from(t);
        let q = p.drop_first();
        assert(pw.drop_first() =~= q.push(t));
        q.lemma_filter_push(t, pred);
        assert(q.filter(pred) =~= q) by {
            assert forall|k: int| 0 <= k < q.len() implies pred(#[trigger] q[k]) by {
                assert(p[k + 1] == q[k]);
                assert(p.contains(p[k + 1]));
            }
            lemma_filter_all(q, pred);
        }
        assert(seq![p[0]] + q =~= p);
        lemma_join_split(b, 44u8);
    }
}

/// Removing a value right after inserting it finds the value and gives back the list, when the
/// list did not hold the value and the value's text holds no comma.
pub proof fn lemma_remove_value_undoes_insert<T: AsStaticCow>(
    b: Seq<u8>,
    value: EnumeratedString<T>,
)
    requires
        !list_items(b).contains(encode_utf8(enumerated_text(value))),
        !enumerated_text(value).contains(','),
    ensures
        list_items(insert_spec(b, encode_utf8(enumerated_text(value)))).contains(
            encode_utf8(enumerated_text(value)),
        ),
        remove_spec(
            insert_spec(b, encode_utf8(enumerated_text(value))),
            encode_utf8(enumerated_text(value)),
        ) == b,
{
    let chars = enumerated_text(value);
    lemma_encode_without_comma(chars);
    lemma_remove_undoes_insert(b, encode_utf8(chars));
}

/// A byte with its top bit set is not an ASCII byte.
proof fn lemma_top_bit_set(y: u8)
    by (bit_vector)
    ensures
        (0x80u8 | y) >= 0x80u8,
        (0xC0u8 | y) >= 0x80u8,
        (0xE0u8 | y) >= 0x80u8,
        (0xF0u8 | y) >= 0x80u8,
{
}

/// The UTF-8 bytes of a text that holds no comma hold no comma.
proof fn lemma_encode_without_comma(chars: Seq<char>)
    requires
        !chars.contains(','),
    ensures
        !encode_utf8(chars).contains(44u8),
    decreases chars.len(),
{
    if chars.len() > 0 {
        let rest = chars.drop_first();
        assert(!rest.contains(',')) by {
            if rest.contains(',') {
                let j = choose|j: int| 0 <= j < rest.len() && rest[j] == ',';
                assert(chars[j + 1] == ',');
            }
        }
        lemma_encode_without_comma(rest);
        let c = chars[0] as u32;
        assert(chars[0] != ',') by {
            assert(chars.contains(chars[0]));
        }
        let e = encode_scalar(c);
        assert(!e.contains(44u8)) by {
            if has_width_1_encoding(c) {
                assert(((c & 0x7F) as u8) == (c as u8)) by (bit_vector)
                    requires
                        c <= 0x7F,
                ;
                if c == 44 {
                    assert((',' as u32) == 44);
                    char_u32_cast(chars[0], c);
                    char_u32_cast(',', 44u32);
                }
            } else {
                lemma_top_bit_set(((c >> 6) & 0x1F) as u8);
                lemma_top_bit_set(((c >> 12) & 0x0F) as u8);
                lemma_top_bit_set(((c >> 18) & 0x7) as u8);
                lemma_top_bit_set((c & 0x3F) as u8);
                lemma_top_bit_set(((c >> 6) & 0x3F) as u8);
                lemma_top_bit_set(((c >> 12) & 0x3F) as u8);
            }
            if e.contains(44u8) {
                let j = choose|j: int| 0 <= j < e.len() && e[j] == 44u8;
            }
        }
        let r = encode_utf8(rest);
        assert(encode_utf8(chars) == e + r);
        if (e + r).contains(44u8) {
            let j = choose|j: int| 0 <= j < (e + r).len() && (e + r)[j] == 44u8;
            if j < e.len() {
                assert(e[j] == 44u8);
            } else {
                assert(r[j - e.len()] == 44u8);
            }
        }
    }
}

/// Filtering with a test that every element passes keeps every element.
proof fn lemma_filter_all(s: Seq<Seq<u8>>, pred: spec_fn(Seq<u8>) -> bool)
    requires
        forall|k: int| 0 <= k < s.len() ==> pred(#[trigger] s[k]),
    ensures
        s.filter(pred) == s,
    decreases s.len(),
{
    if s.len() > 0 {
        let d = s.drop_last();
        assert forall|k: int| 0 <= k < d.len() implies pred(#[trigger] d[k]) by {
            assert(d[k] == s[k]);
        }
        lemma_filter_all(d, pred);
        d.lemma_filter_push(s.last(), pred);
        assert(d.push(s.last()) =~= s);
    } else {
        assert(s.filter(pred) =~= s) by {
            reveal(Seq::filter);
        }
    }
}

/// A list is empty exactly when iterating over it gives no items.
pub proof fn lemma_is_empty_iff_no_items(b: Seq<u8>)
    ensures
        (b.len() == 0) == (iter_items(b).len() == 0),
{
    if b.len() > 0 {
        lemma_split_nonempty(b, 44u8);
        lemma_split_nonempty(b.drop_last(), 44u8);
    }
}

/// Provides a forward compatible wrapper for enumerated string lists: a comma-separated list of
/// enumerated strings, with a set-like API.
#[derive(Debug)]
pub struct EnumeratedStringList<T> {
    inner: Vec<u8>,
    t: PhantomData<T>,
}

impl<T> EnumeratedStringList<T> {
    #[verifier::type_invariant]
    spec fn inner_is_text(self) -> bool {
        valid_utf8(self.inner@)
    }

    /// The bytes of the text of the list.
    pub closed spec fn view(&self) -> Seq<u8> {
        self.inner@
    }

    /// A list with the text `value`.
    pub fn from_str(value: &str) -> (r: Self)
        ensures
            r.view() == value.spec_bytes(),
    {
        let mut inner: Vec<u8> = Vec::new();
        push_bytes(&mut inner, value.as_bytes());
        proof {
            encode_utf8_valid_utf8(value@);
        }
        EnumeratedStringList { inner, t: PhantomData }
    }

    /// The text of the list.
    pub fn as_ref(&self) -> (r: &str)
        ensures
            r.spec_bytes() == self.view(),
    {
        proof {
            use_type_invariant(self);
        }
        match str_from_utf8(self.inner.as_slice()) {
            Ok(s) => s,
            Err(_) => {
                proof {
                    assert(false);
                }
                ""
            },
        }
    }

    /// The text of the list.
    pub fn to_string(&self) -> (r: String)
        ensures
            encode_utf8(r@) == self.view(),
    {
        let s = self.as_ref();
        String::from_str(s)
    }

    /// Indicates whether the list is empty (its text is empty).
    pub fn is_empty(&self) -> (r: bool)
        ensures
            r == (self.view().len() == 0),
    {
        self.inner.len() == 0
    }

    /// An owned copy of the list.
    pub fn to_owned(&self) -> (r: Self)
        ensures
            r.view() == self.view(),
    {
        proof {
            use_type_invariant(self);
        }
        let mut inner: Vec<u8> = Vec::new();
        push_bytes(&mut inner, self.inner.as_slice());
        EnumeratedStringList { inner, t: PhantomData }
    }

    /// Whether one of the items has the text bytes `t`.
    fn contains_bytes(&self, t: &[u8]) -> (r: bool)
        ensures
            r == list_items(self.view()).contains(t@),
    {
        let s = self.inner.as_slice();
        let len = s.len();
        let mut pos: usize = 0;
        proof {
            assert(s@.subrange(0, len as int) =~= s@);
        }
        loop
            invariant
                pos <= len == s@.len(),
                s@ == self.view(),
                list_items(s@).contains(t@) == list_items(s@.subrange(pos as int, len as int))
                    .contains(t@),
            decreases len - pos,
        {
            let cur = slice_subrange(s, pos, len);
            match find_byte(44u8, cur) {
                None => {
                    proof {
                        lemma_split_none(cur@, 44u8);
                        assert(list_items(cur@)[0] == cur@);
                    }
                    return bytes_eq(cur, t);
                },
                Some(j) => {
                    let piece = slice_subrange(cur, 0, j);
                    proof {
                        lemma_split_at_first(cur@, 44u8, j as int);
                        let rest = cur@.subrange(j + 1, cur@.len() as int);
                        assert(rest =~= s@.subrange(pos + j + 1, len as int));
                        let whole = seq![piece@] + list_items(rest);
                        assert(whole[0] == piece@);
                        assert(whole.contains(t@) == (piece@ == t@ || list_items(rest).contains(
                            t@,
                        ))) by {
                            if list_items(rest).contains(t@) {
                                let k = choose|k: int|
                                    0 <= k < list_items(rest).len() && list_items(rest)[k] == t@;
                                assert(whole[k + 1] == t@);
                            }
                            if whole.contains(t@) {
                                let k = choose|k: int| 0 <= k < whole.len() && whole[k] == t@;
                                if k > 0 {
                                    assert(list_items(rest)[k - 1] == t@);
                                }
                            }
                        }
                    }
                    if bytes_eq(piece, t) {
                        return true;
                    }
                    pos = pos + j + 1;
                },
            }
        }
    }
}

impl<T: AsStaticCow> EnumeratedStringList<T> {
    /// Indicates whether a value is one of the items of the list.
    pub fn contains(&self, value: EnumeratedString<'_, T>) -> (r: bool)
        ensures
            text_is_stated(value) ==> r == list_items(self.view()).contains(
                encode_utf8(enumerated_text(value)),
            ),
    {
        let text = value.as_cow();
        self.contains_bytes(text.as_str().as_bytes())
    }

    /// Inserts an item at the end of the list, unless it is in the list already. Returns whether
    /// the item was inserted.
    pub fn insert(&mut self, value: EnumeratedString<'_, T>) -> (r: bool)
        ensures
            text_is_stated(value) ==> {
                &&& r == !list_items(old(self).view()).contains(encode_utf8(enumerated_text(value)))
                &&& final(self).view() == insert_spec(
                    old(self).view(),
                    encode_utf8(enumerated_text(value)),
                )
            },
    {
        proof {
            use_type_invariant(&*self);
        }
        let text = value.as_cow();
        let t = text.as_str().as_bytes();
        if self.contains_bytes(t) {
            return false;
        }
        let mut new_inner: Vec<u8> = Vec::new();
        push_bytes(&mut new_inner, self.inner.as_slice());
        if self.inner.len() != 0 {
            new_inner.push(44u8);
        }
        push_bytes(&mut new_inner, t);
        proof {
            encode_utf8_valid_utf8(text@);
            let one = seq![44u8];
            assert(valid_utf8(one)) by {
                reveal_with_fuel(valid_utf8, 2);
                assert(pop_first_scalar(one) =~= Seq::<u8>::empty());
            }
            if self.inner@.len() != 0 {
                valid_utf8_concat(self.inner@, one);
                valid_utf8_concat(self.inner@ + one, t@);
                assert(new_inner@ =~= self.inner@ + one + t@);
            } else {
                assert(new_inner@ =~= t@);
            }
        }
        self.inner = new_inner;
        true
    }

    /// Removes an item from the list. Returns whether the item was in the list.
    pub fn remove(&mut self, value: EnumeratedString<'_, T>) -> (r: bool)
        ensures
            text_is_stated(value) ==> {
                &&& r == list_items(old(self).view()).contains(encode_utf8(enumerated_text(value)))
                &&& final(self).view() == remove_spec(
                    old(self).view(),
                    encode_utf8(enumerated_text(value)),
                )
            },
    {
        proof {
            use_type_invariant(&*self);
        }
        let text = value.as_cow();
        let t = text.as_str().as_bytes();
        if !self.contains_bytes(t) {
            return false;
        }
        let p = split_pieces(self.inner.as_slice(), 44u8);
        let n = p.len();
        let ghost pv = slices_view(p@);
        let ghost pred = differs_from(t@);
        let drop_first = bytes_eq(p[0], t);
        let mut out: Vec<u8> = Vec::new();
        let ghost mut kept: Seq<Seq<u8>> = Seq::empty();
        if !drop_first {
            push_bytes(&mut out, p[0]);
            proof {
                kept = seq![pv[0]];
            }
        }
        let mut k: usize = 1;
        let mut has_kept = !drop_first;
        proof {
            assert(pv.subrange(1, 1) =~= Seq::<Seq<u8>>::empty());
            assert(pv.subrange(1, 1).filter(pred) =~= Seq::<Seq<u8>>::empty());
            assert(out@ =~= join_spec(kept, 44u8));
        }
        while k < n
            invariant
                1 <= k <= n == p@.len() == pv.len(),
                pv == slices_view(p@),
                drop_first == (pv[0] == t@),
                pred == differs_from(t@),
                out@ == join_spec(kept, 44u8),
                has_kept == (kept.len() > 0),
                drop_first ==> kept == pv.subrange(1, k as int),
                !drop_first ==> kept == seq![pv[0]] + pv.subrange(1, k as int).filter(pred),
            decreases n - k,
        {
            let piece = p[k];
            let keep = drop_first || !bytes_eq(piece, t);
            let ghost old_kept = kept;
            proof {
                assert(pv.subrange(1, k + 1) =~= pv.subrange(1, k as int).push(pv[k as int]));
                pv.subrange(1, k as int).lemma_filter_push(pv[k as int], pred);
            }
            if keep {
                if has_kept {
                    out.push(44u8);
                }
                push_bytes(&mut out, piece);
                has_kept = true;
                proof {
                    lemma_join_push(old_kept, piece@, 44u8);
                    kept = old_kept.push(piece@);
                    assert(seq![pv[0]] + pv.subrange(1, k + 1).filter(pred) =~= if drop_first {
                        seq![pv[0]] + pv.subrange(1, k + 1).filter(pred)
                    } else {
                        old_kept.push(piece@)
                    });
                }
            }
            k += 1;
        }
        proof {
            assert(pv.subrange(1, n as int) =~= pv.drop_first());
            lemma_split_valid_utf8(self.inner@, 44u8);
            assert forall|i: int| 0 <= i < kept.len() implies valid_utf8(#[trigger] kept[i]) by {
                if drop_first {
                    assert(kept[i] == pv[i + 1]);
                } else if i > 0 {
                    let f = pv.drop_first().filter(pred);
                    assert(kept[i] == f[i - 1]);
                    pv.drop_first().lemma_filter_contains_rev(pred, f[i - 1]);
                    assert(f.contains(f[i - 1]));
                }
            }
            lemma_join_valid_utf8(kept, 44u8);
        }
        self.inner = out;
        true
    }
}

/// The text bytes of a list after inserting, one after the other, items with the text bytes `ts`.
pub open spec fn insert_all(b: Seq<u8>, ts: Seq<Seq<u8>>) -> Seq<u8>
    decreases ts.len(),
{
    if ts.len() == 0 {
        b
    } else {
        insert_spec(insert_all(b, ts.drop_last()), ts.last())
    }
}

/// The text bytes of each of a sequence of enumerated strings.
pub open spec fn texts_of<'a, T: AsStaticCow>(v: Seq<EnumeratedString<'a, T>>) -> Seq<Seq<u8>> {
    v.map_values(|e: EnumeratedString<'a, T>| encode_utf8(enumerated_text(e)))
}

impl<T: AsStaticCow + Copy> EnumeratedStringList<T> {
    /// A list of the values, inserted one after the other (so a value that repeats an earlier one
    /// is left out).
    pub fn from_values(values: Vec<EnumeratedString<'_, T>>) -> (r: Self)
        ensures
            (forall|i: int| 0 <= i < values@.len() ==> text_is_stated(#[trigger] values@[i]))
                ==> r.view() == insert_all(Seq::empty(), texts_of(values@)),
    {
        let mut list = EnumeratedStringList::from_str("");
        let mut k: usize = 0;
        proof {
            reveal_strlit("");
            assert(texts_of(values@).subrange(0, 0) =~= Seq::<Seq<u8>>::empty());
        }
        while k < values.len()
            invariant
                k <= values@.len(),
                (forall|i: int| 0 <= i < values@.len() ==> text_is_stated(#[trigger] values@[i]))
                    ==> list.view() == insert_all(
                    Seq::empty(),
                    texts_of(values@).subrange(0, k as int),
                ),
            decreases values@.len() - k,
        {
            let ghost before = list.view();
            list.insert(values[k]);
            proof {
                let ts = texts_of(values@).subrange(0, k + 1);
                assert(ts.drop_last() =~= texts_of(values@).subrange(0, k as int));
                assert(ts.last() == encode_utf8(enumerated_text(values@[k as int])));
            }
            k += 1;
        }
        proof {
            assert(texts_of(values@).subrange(0, values@.len() as int) =~= texts_of(values@));
        }
        list
    }
}

/// Whether `e` is what the text `s` reads as: the known value with that text if there is one, else
/// the text itself.
pub open spec fn reads_as_text<'a, T: EnumeratedValue>(e: EnumeratedString<'a, T>, s: Seq<char>) -> bool {
    match T::from_text(s) {
        Some(t) => e == EnumeratedString::<'a, T>::Known(t),
        None => e matches EnumeratedString::Unknown(x) && x@ == s,
    }
}

/// Whether `e` is what the text bytes `b` read as: the known value with that text if there is
/// one, else the text itself.
pub open spec fn reads_as<'a, T: EnumeratedValue>(e: EnumeratedString<'a, T>, b: Seq<u8>) -> bool {
    match T::from_text(decode_utf8(b)) {
        Some(t) => e == EnumeratedString::<'a, T>::Known(t),
        None => e matches EnumeratedString::Unknown(s) && s.spec_bytes() == b,
    }
}

impl<T: EnumeratedValue> EnumeratedStringList<T> {
    /// The items of the list, each read as an enumerated string. A comma at the end of the list
    /// ends its last item, and an empty list has no items.
    pub fn iter(&self) -> (r: Vec<EnumeratedString<'_, T>>)
        ensures
            r@.len() == iter_items(self.view()).len(),
            T::obeys_text_spec() ==> forall|k: int|
                0 <= k < r@.len() ==> reads_as(#[trigger] r@[k], iter_items(self.view())[k]),
    {
        proof {
            use_type_invariant(self);
        }
        let mut out: Vec<EnumeratedString<'_, T>> = Vec::new();
        let len = self.inner.len();
        if len == 0 {
            return out;
        }
        let s = if self.inner[len - 1] == 44u8 {
            slice_subrange(self.inner.as_slice(), 0, len - 1)
        } else {
            self.inner.as_slice()
        };
        proof {
            if self.inner@.last() == 44u8 {
                lemma_valid_utf8_split_at_ascii(self.inner@, len - 1);
                assert(s@ == self.inner@.drop_last());
            }
            lemma_split_valid_utf8(s@, 44u8);
        }
        let p = split_pieces(s, 44u8);
        let n = p.len();
        let mut k: usize = 0;
        while k < n
            invariant
                k <= n == p@.len(),
                slices_view(p@) == list_items(s@),
                list_items(s@) == iter_items(self.view()),
                forall|i: int| 0 <= i < p@.len() ==> valid_utf8(#[trigger] list_items(s@)[i]),
                out@.len() == k,
                T::obeys_text_spec() ==> forall|i: int|
                    0 <= i < k ==> reads_as(#[trigger] out@[i], iter_items(self.view())[i]),
            decreases n - k,
        {
            let piece = p[k];
            assert(piece@ == list_items(s@)[k as int]);
            match str_from_utf8(piece) {
                Ok(text) => {
                    proof {
                        encode_utf8_decode_utf8(text@);
                    }
                    out.push(EnumeratedString::from_str(text));
                },
                Err(_) => {
                    proof {
                        assert(false);
                    }
                },
            }
            k += 1;
        }
        out
    }
}

/// The bytes of each slice.
pub open spec fn slices_view<'a>(v: Seq<&'a [u8]>) -> Seq<Seq<u8>> {
    v.map_values(|x: &'a [u8]| x@)
}

/// The test for an item other than `t`.
pub open spec fn differs_from(t: Seq<u8>) -> spec_fn(Seq<u8>) -> bool {
    |x: Seq<u8>| x != t
}

/// The pieces of `s` between the bytes `sep`.
pub(crate) fn split_pieces<'a>(s: &'a [u8], sep: u8) -> (r: Vec<&'a [u8]>)
    ensures
        slices_view(r@) == split_spec(s@, sep),
        r@.len() > 0,
{
    let len = s.len();
    let mut pos: usize = 0;
    let mut r: Vec<&'a [u8]> = Vec::new();
    proof {
        assert(s@.subrange(0, len as int) =~= s@);
        assert(split_spec(s@, sep) =~= slices_view(r@) + split_spec(s@.subrange(0, len as int), sep));
    }
    loop
        invariant
            pos <= len == s@.len(),
            split_spec(s@, sep) == slices_view(r@) + split_spec(s@.subrange(pos as int, len as int), sep),
        decreases len - pos,
    {
        let cur = slice_subrange(s, pos, len);
        let ghost before = r@;
        match find_byte(sep, cur) {
            None => {
                proof {
                    lemma_split_none(cur@, sep);
                }
                r.push(cur);
                proof {
                    assert(slices_view(r@) =~= slices_view(before) + seq![cur@]);
                }
                return r;
            },
            Some(j) => {
                let piece = slice_subrange(cur, 0, j);
                proof {
                    lemma_split_at_first(cur@, sep, j as int);
                    assert(cur@.subrange(j + 1, cur@.len() as int) =~= s@.subrange(
                        pos + j + 1,
                        len as int,
                    ));
                }
                r.push(piece);
                proof {
                    assert(slices_view(r@) =~= slices_view(before) + seq![piece@]);
                    assert(split_spec(s@, sep) =~= slices_view(r@) + split_spec(
                        s@.subrange(pos + j + 1, len as int),
                        sep,
                    ));
                }
                pos = pos + j + 1;
            },
        }
    }
}

} // verus!
