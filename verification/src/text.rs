//! Text as sequences of characters: where one text occurs inside another,
//! and the order in which names are emitted.

use vstd::prelude::*;
use vstd::utf8::{encode_utf8, encode_utf8_decode_utf8};

verus! {

/// `pattern` stands in `text` at offset `start`.
pub open spec fn occurs_at(text: Seq<char>, pattern: Seq<char>, start: int) -> bool {
    &&& 0 <= start
    &&& start + pattern.len() <= text.len()
    &&& text.subrange(start, start + pattern.len()) == pattern
}

/// `pattern` stands somewhere in `text`, as one contiguous run.
pub open spec fn occurs_in(text: Seq<char>, pattern: Seq<char>) -> bool {
    exists|start: int| occurs_at(text, pattern, start)
}

/// A text occurs in itself.
pub proof fn lemma_occurs_in_itself(text: Seq<char>)
    ensures
        occurs_in(text, text),
{
    assert(text.subrange(0, text.len() as int) =~= text);
    assert(occurs_at(text, text, 0));
}

/// What occurs in a text still occurs in it when more text follows.
pub proof fn lemma_occurs_in_front(front: Seq<char>, back: Seq<char>, pattern: Seq<char>)
    requires
        occurs_in(front, pattern),
    ensures
        occurs_in(front + back, pattern),
{
    let start = choose|start: int| occurs_at(front, pattern, start);
    assert((front + back).subrange(start, start + pattern.len()) =~= front.subrange(
        start,
        start + pattern.len(),
    ));
    assert(occurs_at(front + back, pattern, start));
}

/// What occurs in a text still occurs in it when more text precedes.
pub proof fn lemma_occurs_in_back(front: Seq<char>, back: Seq<char>, pattern: Seq<char>)
    requires
        occurs_in(back, pattern),
    ensures
        occurs_in(front + back, pattern),
{
    let start = choose|start: int| occurs_at(back, pattern, start);
    let shifted = front.len() + start;
    assert((front + back).subrange(shifted, shifted + pattern.len()) =~= back.subrange(
        start,
        start + pattern.len(),
    ));
    assert(occurs_at(front + back, pattern, shifted));
}

/// `k` is the first position at which `a` and `b` part, and `a` comes first
/// there: either `a` ends at `k` and `b` goes on, or `a` holds the smaller
/// byte.
pub open spec fn parts_first_at(a: Seq<u8>, b: Seq<u8>, k: int) -> bool {
    &&& 0 <= k <= a.len()
    &&& k < b.len()
    &&& forall|j: int| 0 <= j < k ==> a[j] == b[j]
    &&& k < a.len() ==> a[k] < b[k]
}

/// The lexicographic order on byte strings, strict.
pub open spec fn bytes_precede(a: Seq<u8>, b: Seq<u8>) -> bool {
    exists|k: int| parts_first_at(a, b, k)
}

/// The order in which names are emitted: lexicographic by the bytes of their
/// UTF-8 encoding, strict.
pub open spec fn text_precedes(a: Seq<char>, b: Seq<char>) -> bool {
    bytes_precede(encode_utf8(a), encode_utf8(b))
}

/// No byte string precedes itself.
pub proof fn lemma_bytes_precede_irreflexive(a: Seq<u8>)
    ensures
        !bytes_precede(a, a),
{
}

/// The order on byte strings is transitive.
pub proof fn lemma_bytes_precede_transitive(a: Seq<u8>, b: Seq<u8>, c: Seq<u8>)
    requires
        bytes_precede(a, b),
        bytes_precede(b, c),
    ensures
        bytes_precede(a, c),
{
    let k1 = choose|k: int| parts_first_at(a, b, k);
    let k2 = choose|k: int| parts_first_at(b, c, k);
    let k = if k1 <= k2 {
        k1
    } else {
        k2
    };
    assert(parts_first_at(a, c, k));
}

/// Of two different byte strings one precedes the other.
pub proof fn lemma_bytes_precede_total(a: Seq<u8>, b: Seq<u8>)
    ensures
        a == b || bytes_precede(a, b) || bytes_precede(b, a),
{
    lemma_common_prefix(a, b, 0);
}

/// Given that `a` and `b` agree below `from`, they are equal or one of them
/// precedes the other.
proof fn lemma_common_prefix(a: Seq<u8>, b: Seq<u8>, from: int)
    requires
        0 <= from <= a.len(),
        from <= b.len(),
        forall|j: int| 0 <= j < from ==> a[j] == b[j],
    ensures
        a == b || bytes_precede(a, b) || bytes_precede(b, a),
    decreases a.len() - from,
{
    if from == a.len() {
        if from == b.len() {
            assert(a =~= b);
        } else {
            assert(parts_first_at(a, b, from));
        }
    } else if from == b.len() {
        assert(parts_first_at(b, a, from));
    } else if a[from] < b[from] {
        assert(parts_first_at(a, b, from));
    } else if b[from] < a[from] {
        assert(parts_first_at(b, a, from));
    } else {
        lemma_common_prefix(a, b, from + 1);
    }
}

/// No text precedes itself.
pub proof fn lemma_text_precedes_irreflexive(a: Seq<char>)
    ensures
        !text_precedes(a, a),
{
}

/// The order on texts is transitive.
pub proof fn lemma_text_precedes_transitive(a: Seq<char>, b: Seq<char>, c: Seq<char>)
    requires
        text_precedes(a, b),
        text_precedes(b, c),
    ensures
        text_precedes(a, c),
{
    lemma_bytes_precede_transitive(encode_utf8(a), encode_utf8(b), encode_utf8(c));
}

/// Of two different texts one precedes the other.
pub proof fn lemma_text_precedes_total(a: Seq<char>, b: Seq<char>)
    ensures
        a == b || text_precedes(a, b) || text_precedes(b, a),
{
    lemma_bytes_precede_total(encode_utf8(a), encode_utf8(b));
    lemma_same_encoding_same_text(a, b);
}

/// Two texts with the same UTF-8 encoding are the same text.
pub proof fn lemma_same_encoding_same_text(a: Seq<char>, b: Seq<char>)
    ensures
        encode_utf8(a) == encode_utf8(b) ==> a == b,
{
    encode_utf8_decode_utf8(a);
    encode_utf8_decode_utf8(b);
}

/// How one text stands to another in the emission order.
#[derive(Clone, Copy, Debug, PartialEq, Eq, Structural)]
pub enum TextOrder {
    Before,
    Same,
    After,
}

/// What [`text_order`] returns for two texts.
pub open spec fn text_order_of(a: Seq<char>, b: Seq<char>) -> TextOrder {
    if a == b {
        TextOrder::Same
    } else if text_precedes(a, b) {
        TextOrder::Before
    } else {
        TextOrder::After
    }
}

/// Compares two texts byte by byte.
pub fn text_order(a: &str, b: &str) -> (order: TextOrder)
    ensures
        order == text_order_of(a@, b@),
        order == TextOrder::Before ==> text_precedes(a@, b@),
        order == TextOrder::Same ==> a@ == b@,
        order == TextOrder::After ==> text_precedes(b@, a@),
{
    let x = a.as_bytes();
    let y = b.as_bytes();
    proof {
        lemma_same_encoding_same_text(a@, b@);
        lemma_text_precedes_irreflexive(a@);
        if text_precedes(a@, b@) && text_precedes(b@, a@) {
            lemma_text_precedes_transitive(a@, b@, a@);
        }
    }
    let mut i: usize = 0;
    while i < x.len() && i < y.len()
        invariant
            x@ == encode_utf8(a@),
            y@ == encode_utf8(b@),
            i <= x.len(),
            i <= y.len(),
            forall|j: int| 0 <= j < i ==> x@[j] == y@[j],
            !(text_precedes(a@, b@) && text_precedes(b@, a@)),
            !text_precedes(a@, a@),
            x@ == y@ ==> a@ == b@,
        decreases x.len() - i,
    {
        if x[i] < y[i] {
            assert(parts_first_at(x@, y@, i as int));
            return TextOrder::Before;
        }
        if y[i] < x[i] {
            assert(parts_first_at(y@, x@, i as int));
            return TextOrder::After;
        }
        i += 1;
    }
    if x.len() < y.len() {
        assert(parts_first_at(x@, y@, i as int));
        TextOrder::Before
    } else if y.len() < x.len() {
        assert(parts_first_at(y@, x@, i as int));
        TextOrder::After
    } else {
        assert(x@ =~= y@);
        TextOrder::Same
    }
}

} // verus!
