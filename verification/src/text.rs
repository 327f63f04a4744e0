//! Comparing strings: equality, and the order in which sorted keys stand.
//!
//! Strings are ordered as Rust orders them, by the bytes of their UTF-8
//! encoding.

use vstd::prelude::*;
use vstd::utf8::*;

verus! {

/// How one string stands to another in the order of their bytes.
#[derive(Clone, Copy, Debug, PartialEq, Eq, Structural)]
pub enum TextOrder {
    /// The first comes before the second.
    Before,
    /// Both hold the same text.
    Same,
    /// The first comes after the second.
    After,
}

/// The text of an optional string slice.
pub open spec fn slice_text(value: Option<&str>) -> Option<Seq<char>> {
    match value {
        Some(text) => Some(text@),
        None => None,
    }
}

/// The text of an optional string.
pub open spec fn text_of(value: Option<String>) -> Option<Seq<char>> {
    match value {
        Some(text) => Some(text@),
        None => None,
    }
}

/// The two byte sequences are equal on their first `k` places.
pub open spec fn agree_before(a: Seq<u8>, b: Seq<u8>, k: int) -> bool {
    &&& 0 <= k <= a.len()
    &&& k <= b.len()
    &&& forall|i: int| 0 <= i < k ==> a[i] == b[i]
}

/// `a` and `b` agree before place `k`, and there `a` has ended or holds the
/// smaller byte.
pub open spec fn before_at(a: Seq<u8>, b: Seq<u8>, k: int) -> bool {
    &&& agree_before(a, b, k)
    &&& k < b.len()
    &&& (k == a.len() || a[k] < b[k])
}

/// `a` comes strictly before `b` in lexicographic order.
pub open spec fn bytes_before(a: Seq<u8>, b: Seq<u8>) -> bool {
    exists|k: int| before_at(a, b, k)
}

/// `a` comes strictly before `b` in the order of their UTF-8 bytes.
pub open spec fn text_before(a: Seq<char>, b: Seq<char>) -> bool {
    bytes_before(encode_utf8(a), encode_utf8(b))
}

/// Of two byte sequences at most one comes before the other, and none comes
/// before itself.
pub proof fn lemma_bytes_before_asymmetric(a: Seq<u8>, b: Seq<u8>)
    requires
        bytes_before(a, b),
    ensures
        !bytes_before(b, a),
        a != b,
{
    let k = choose|k: int| before_at(a, b, k);
    if bytes_before(b, a) {
        let m = choose|m: int| before_at(b, a, m);
        assert(k == m);
    }
}

/// The order on byte sequences is transitive.
pub proof fn lemma_bytes_before_transitive(a: Seq<u8>, b: Seq<u8>, c: Seq<u8>)
    requires
        bytes_before(a, b),
        bytes_before(b, c),
    ensures
        bytes_before(a, c),
{
    let k = choose|k: int| before_at(a, b, k);
    let m = choose|m: int| before_at(b, c, m);
    if k <= m {
        assert(before_at(a, c, k));
    } else {
        assert(before_at(a, c, m));
    }
}

/// No text comes before itself, and of two texts at most one comes before
/// the other.
pub proof fn lemma_text_before_asymmetric(a: Seq<char>, b: Seq<char>)
    requires
        text_before(a, b),
    ensures
        !text_before(b, a),
        a != b,
{
    lemma_bytes_before_asymmetric(encode_utf8(a), encode_utf8(b));
}

/// The order on texts is transitive.
pub proof fn lemma_text_before_transitive(a: Seq<char>, b: Seq<char>, c: Seq<char>)
    requires
        text_before(a, b),
        text_before(b, c),
    ensures
        text_before(a, c),
{
    lemma_bytes_before_transitive(encode_utf8(a), encode_utf8(b), encode_utf8(c));
}

/// Compares two strings byte by byte, as `str`'s own order does. Exactly one
/// of the three answers holds of any two strings.
pub fn compare_text(a: &str, b: &str) -> (order: TextOrder)
    ensures
        order is Before <==> text_before(a@, b@),
        order is Same <==> a@ == b@,
        order is After <==> text_before(b@, a@),
{
    broadcast use encode_utf8_decode_utf8;

    let left = a.as_bytes();
    let right = b.as_bytes();
    let mut i: usize = 0;
    while i < left.len() && i < right.len() && left[i] == right[i]
        invariant
            agree_before(left@, right@, i as int),
        decreases left.len() - i,
    {
        i += 1;
    }
    let order = if i < left.len() && i < right.len() {
        if left[i] < right[i] {
            TextOrder::Before
        } else {
            TextOrder::After
        }
    } else if i < right.len() {
        TextOrder::Before
    } else if i < left.len() {
        TextOrder::After
    } else {
        TextOrder::Same
    };
    proof {
        let x = encode_utf8(a@);
        let y = encode_utf8(b@);
        assert(decode_utf8(x) == a@ && decode_utf8(y) == b@);
        match order {
            TextOrder::Before => {
                assert(before_at(x, y, i as int));
                lemma_bytes_before_asymmetric(x, y);
            },
            TextOrder::After => {
                assert(before_at(y, x, i as int));
                lemma_bytes_before_asymmetric(y, x);
            },
            TextOrder::Same => {
                assert(x =~= y);
                if bytes_before(x, y) {
                    lemma_bytes_before_asymmetric(x, y);
                }
            },
        }
    }
    order
}

/// Whether two strings hold the same text.
pub fn same_text(a: &str, b: &str) -> (same: bool)
    ensures
        same == (a@ == b@),
{
    match compare_text(a, b) {
        TextOrder::Same => true,
        _ => false,
    }
}

} // verus!
