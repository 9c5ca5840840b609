//! Bounded text: the fixed-capacity strings that hold device names and
//! payloads, their UTF-8 length, and the splitting used by the parsers.

use vstd::prelude::*;
use vstd::utf8::*;

verus! {

/// Capacity, in UTF-8 bytes, of every bounded string of the device.
pub const STRING_SIZE: usize = 40;

#[verifier::external_type_specification]
#[verifier::external_body]
pub struct ExHeaplessString<const N: usize>(heapless::String<N>);

#[verifier::external_type_specification]
#[verifier::external_body]
#[verifier::reject_recursive_types(T)]
pub struct ExHeaplessVec<T, const N: usize>(heapless::Vec<T, N>);

/// The characters that a bounded string holds.
pub uninterp spec fn text_chars(s: heapless::String<STRING_SIZE>) -> Seq<char>;

/// Number of bytes of the UTF-8 encoding of `chars`.
pub open spec fn utf8_len(chars: Seq<char>) -> nat {
    encode_utf8(chars).len()
}

/// `chars` fits in a bounded string.
pub open spec fn fits(chars: Seq<char>) -> bool {
    utf8_len(chars) <= STRING_SIZE
}

/// The UTF-8 encoding of a concatenation is the concatenation of the encodings.
pub proof fn lemma_encode_utf8_concat(a: Seq<char>, b: Seq<char>)
    ensures
        encode_utf8(a + b) == encode_utf8(a) + encode_utf8(b),
    decreases a.len(),
{
    if a.len() == 0 {
        assert(a + b =~= b);
        assert(encode_utf8(a) + encode_utf8(b) =~= encode_utf8(b));
    } else {
        assert((a + b).drop_first() =~= a.drop_first() + b);
        lemma_encode_utf8_concat(a.drop_first(), b);
        assert(encode_utf8(a + b) =~= encode_scalar(a[0] as u32) + (encode_utf8(a.drop_first())
            + encode_utf8(b)));
    }
}

/// The UTF-8 length of a concatenation is the sum of the lengths.
pub proof fn lemma_utf8_len_concat(a: Seq<char>, b: Seq<char>)
    ensures
        utf8_len(a + b) == utf8_len(a) + utf8_len(b),
{
    lemma_encode_utf8_concat(a, b);
}

/// An ASCII text takes one byte per character.
pub proof fn lemma_utf8_len_ascii(a: Seq<char>)
    requires
        is_ascii_chars(a),
    ensures
        utf8_len(a) == a.len(),
{
    is_ascii_chars_encode_utf8(a);
}

/// `heapless::String::new`: an empty string.
#[verifier::external_body]
pub(crate) fn text_new() -> (s: heapless::String<STRING_SIZE>)
    ensures
        text_chars(s) == Seq::<char>::empty(),
{
    heapless::String::new()
}

/// `heapless::String::push_str`: appends `t` when the bytes of both fit in
/// the capacity, and otherwise fails and leaves the string as it was.
#[verifier::external_body]
pub(crate) fn text_push_str(s: &mut heapless::String<STRING_SIZE>, t: &str) -> (r: Result<(), ()>)
    ensures
        utf8_len(text_chars(*old(s))) + utf8_len(t@) <= STRING_SIZE ==> r is Ok && text_chars(
            *final(s),
        ) == text_chars(*old(s)) + t@,
        utf8_len(text_chars(*old(s))) + utf8_len(t@) > STRING_SIZE ==> r is Err && *final(s)
            == *old(s),
{
    s.push_str(t)
}

/// `heapless::String::as_str`: the characters held, as a string slice.
#[verifier::external_body]
pub(crate) fn text_as_str(s: &heapless::String<STRING_SIZE>) -> (r: &str)
    ensures
        r@ == text_chars(*s),
{
    s.as_str()
}

/// `Clone::clone` of `heapless::String`: a string with the same characters.
#[verifier::external_body]
pub(crate) fn text_clone(s: &heapless::String<STRING_SIZE>) -> (r: heapless::String<STRING_SIZE>)
    ensures
        text_chars(r) == text_chars(*s),
{
    s.clone()
}

/// `core::str::from_utf8`: the text that `bytes` encode, when they are
/// valid UTF-8.
#[verifier::external_body]
pub(crate) fn utf8_text(bytes: &[u8]) -> (r: Option<&str>)
    ensures
        r is Some <==> valid_utf8(bytes@),
        r matches Some(t) ==> t@ == decode_utf8(bytes@),
{
    core::str::from_utf8(bytes).ok()
}

/// The characters of `s`, one by one.
pub fn chars_of(s: &str) -> (r: Vec<char>)
    ensures
        r@ == s@,
{
    let n = s.unicode_len();
    let mut r: Vec<char> = Vec::new();
    let mut i: usize = 0;
    while i < n
        invariant
            n == s@.len(),
            i <= n,
            r@ == s@.take(i as int),
        decreases n - i,
    {
        let c = s.get_char(i);
        r.push(c);
        i = i + 1;
        assert(r@ =~= s@.take(i as int));
    }
    assert(r@ =~= s@);
    r
}

/// Whether two strings hold the same characters.
pub fn str_eq(a: &str, b: &str) -> (r: bool)
    ensures
        r == (a@ == b@),
{
    let ca = chars_of(a);
    let cb = chars_of(b);
    if ca.len() != cb.len() {
        return false;
    }
    let mut i: usize = 0;
    while i < ca.len()
        invariant
            ca@ == a@,
            cb@ == b@,
            ca.len() == cb.len(),
            i <= ca.len(),
            forall|j: int| 0 <= j < i ==> ca@[j] == cb@[j],
        decreases ca.len() - i,
    {
        if ca[i] != cb[i] {
            return false;
        }
        i = i + 1;
    }
    assert(a@ =~= b@);
    true
}

/// Position of the first `c` in `cs`.
pub fn find_first(cs: &Vec<char>, c: char) -> (r: Option<usize>)
    ensures
        r matches Some(i) ==> first_index(cs@, c) == Some(i as int),
        r is None ==> first_index(cs@, c) is None,
{
    let mut i: usize = 0;
    while i < cs.len()
        invariant
            i <= cs.len(),
            forall|j: int| 0 <= j < i ==> cs@[j] != c,
        decreases cs.len() - i,
    {
        if cs[i] == c {
            proof {
                lemma_first_index_at(cs@, c, i as int);
            }
            return Some(i);
        }
        i = i + 1;
    }
    proof {
        lemma_first_index(cs@, c);
        if let Some(k) = first_index(cs@, c) {
            assert(cs@[k] == c);
        }
    }
    None
}

/// `str::split_once` with a character pattern.
pub fn split_once_str<'a>(s: &'a str, sep: char) -> (r: Option<(&'a str, &'a str)>)
    ensures
        match r {
            Some((a, b)) => split_once(s@, sep) == Some((a@, b@)),
            None => split_once(s@, sep) is None,
        },
{
    let cs = chars_of(s);
    match find_first(&cs, sep) {
        None => None,
        Some(i) => {
            proof {
                lemma_first_index(s@, sep);
            }
            let a = s.substring_char(0, i);
            let b = s.substring_char(i + 1, cs.len());
            assert(a@ =~= s@.take(i as int));
            assert(b@ =~= s@.skip(i + 1));
            Some((a, b))
        },
    }
}

/// Position of the first `c` in `s`.
pub open spec fn first_index<A>(s: Seq<A>, c: A) -> Option<int>
    decreases s.len(),
{
    if s.len() == 0 {
        None
    } else if s[0] == c {
        Some(0)
    } else {
        match first_index(s.drop_first(), c) {
            Some(i) => Some(i + 1),
            None => None,
        }
    }
}

/// `first_index` finds the first occurrence, and finds none only where
/// there is none.
pub proof fn lemma_first_index<A>(s: Seq<A>, c: A)
    ensures
        first_index(s, c) matches Some(i) ==> 0 <= i < s.len() && s[i] == c && forall|j: int|
            0 <= j < i ==> s[j] != c,
        first_index(s, c) is None ==> forall|j: int| 0 <= j < s.len() ==> s[j] != c,
    decreases s.len(),
{
    if s.len() > 0 && s[0] != c {
        lemma_first_index(s.drop_first(), c);
        if let Some(i) = first_index(s.drop_first(), c) {
            assert forall|j: int| 0 <= j < i + 1 implies s[j] != c by {
                if j > 0 {
                    assert(s[j] == s.drop_first()[j - 1]);
                }
            }
        } else {
            assert forall|j: int| 0 <= j < s.len() implies s[j] != c by {
                if j > 0 {
                    assert(s[j] == s.drop_first()[j - 1]);
                }
            }
        }
    }
}

/// The first occurrence is unique: a position that holds `c` with no `c`
/// before it is the one `first_index` names.
pub proof fn lemma_first_index_at<A>(s: Seq<A>, c: A, i: int)
    requires
        0 <= i < s.len(),
        s[i] == c,
        forall|j: int| 0 <= j < i ==> s[j] != c,
    ensures
        first_index(s, c) == Some(i),
{
    lemma_first_index(s, c);
    if let Some(k) = first_index(s, c) {
        assert(k == i);
    }
}

/// `str::split_once` with a character pattern: the text before and after
/// the first `sep`.
pub open spec fn split_once(s: Seq<char>, sep: char) -> Option<(Seq<char>, Seq<char>)> {
    match first_index(s, sep) {
        Some(i) => Some((s.take(i), s.skip(i + 1))),
        None => None,
    }
}

/// `str::split` with a character pattern: the pieces between the `sep`s,
/// one more than there are `sep`s.
pub open spec fn split_all(s: Seq<char>, sep: char) -> Seq<Seq<char>>
    decreases s.len(),
{
    if s.len() == 0 {
        seq![Seq::<char>::empty()]
    } else {
        let init = split_all(s.drop_last(), sep);
        if s.last() == sep {
            init.push(Seq::<char>::empty())
        } else {
            init.update(init.len() - 1, init.last().push(s.last()))
        }
    }
}

/// There is always at least one piece.
pub proof fn lemma_split_all_len(s: Seq<char>, sep: char)
    ensures
        split_all(s, sep).len() >= 1,
    decreases s.len(),
{
    if s.len() > 0 {
        lemma_split_all_len(s.drop_last(), sep);
    }
}

/// Text without `sep` extends the last piece.
pub proof fn lemma_split_all_extend(p: Seq<char>, y: Seq<char>, sep: char)
    requires
        !y.contains(sep),
    ensures
        split_all(p + y, sep) == split_all(p, sep).update(
            split_all(p, sep).len() - 1,
            split_all(p, sep).last() + y,
        ),
    decreases y.len(),
{
    lemma_split_all_len(p, sep);
    if y.len() == 0 {
        assert(p + y =~= p);
        assert(split_all(p, sep).last() + y =~= split_all(p, sep).last());
        assert(split_all(p, sep).update(split_all(p, sep).len() - 1, split_all(p, sep).last())
            =~= split_all(p, sep));
    } else {
        let y0 = y.drop_last();
        assert(!y0.contains(sep)) by {
            if y0.contains(sep) {
                let k = choose|k: int| 0 <= k < y0.len() && y0[k] == sep;
                assert(y[k] == sep);
            }
        }
        lemma_split_all_extend(p, y0, sep);
        assert((p + y).drop_last() =~= p + y0);
        assert((p + y).last() == y.last());
        assert(y[y.len() - 1] != sep);
        assert(split_all(p, sep).last() + y0 + seq![y.last()] =~= split_all(p, sep).last() + y);
        assert((split_all(p, sep).last() + y0).push(y.last()) =~= split_all(p, sep).last() + y);
        assert(split_all(p + y, sep) =~= split_all(p, sep).update(
            split_all(p, sep).len() - 1,
            split_all(p, sep).last() + y,
        ));
    }
}

/// Text without `sep` is a single piece.
pub proof fn lemma_split_all_single(y: Seq<char>, sep: char)
    requires
        !y.contains(sep),
    ensures
        split_all(y, sep) == seq![y],
{
    lemma_split_all_extend(Seq::<char>::empty(), y, sep);
    assert(Seq::<char>::empty() + y =~= y);
    assert(Seq::<char>::empty() + y =~= y);
    assert(split_all(Seq::<char>::empty(), sep).update(0, Seq::<char>::empty() + y) =~= seq![y]);
}

/// A `sep` followed by text without `sep` adds that text as a new piece.
pub proof fn lemma_split_all_append_piece(p: Seq<char>, y: Seq<char>, sep: char)
    requires
        !y.contains(sep),
    ensures
        split_all(p.push(sep) + y, sep) == split_all(p, sep).push(y),
{
    lemma_split_all_extend(p.push(sep), y, sep);
    assert(p.push(sep).drop_last() =~= p);
    assert(p.push(sep).last() == sep);
    let q = split_all(p.push(sep), sep);
    assert(q == split_all(p, sep).push(Seq::<char>::empty()));
    assert(Seq::<char>::empty() + y =~= y);
    assert(q.update(q.len() - 1, q.last() + y) =~= split_all(p, sep).push(y));
}

} // verus!
