//! The order in which the segments of continued parameters are merged, and
//! why the order in which they were written does not matter.

use crate::parsers::fields::continuation::bytes_le;
use crate::parsers::fields::continuation::insert_at;
use crate::parsers::fields::continuation::merge_segments;
use crate::parsers::fields::continuation::segment_le;
use crate::parsers::fields::continuation::sort_segments;
use crate::parsers::fields::continuation::sorted_prefix;
use crate::parsers::fields::continuation::ContinuationView;
use vstd::prelude::*;
use vstd::relations::sorted_by;
use vstd::relations::total_ordering;
use vstd::utf8::encode_utf8;

verus! {

/// A byte string does not come after itself.
pub proof fn bytes_le_reflexive(a: Seq<u8>)
    ensures
        bytes_le(a, a),
    decreases a.len(),
{
    if a.len() > 0 {
        bytes_le_reflexive(a.drop_first());
    }
}

/// Two byte strings of which neither comes after the other are equal.
pub proof fn bytes_le_antisymmetric(a: Seq<u8>, b: Seq<u8>)
    requires
        bytes_le(a, b),
        bytes_le(b, a),
    ensures
        a == b,
    decreases a.len(),
{
    if a.len() > 0 && b.len() > 0 {
        bytes_le_antisymmetric(a.drop_first(), b.drop_first());
        assert(a =~= seq![a[0]] + a.drop_first());
        assert(b =~= seq![b[0]] + b.drop_first());
    } else {
        assert(a =~= b);
    }
}

/// The order of byte strings is transitive.
pub proof fn bytes_le_transitive(a: Seq<u8>, b: Seq<u8>, c: Seq<u8>)
    requires
        bytes_le(a, b),
        bytes_le(b, c),
    ensures
        bytes_le(a, c),
    decreases a.len(),
{
    if a.len() > 0 && b.len() > 0 && c.len() > 0 && a[0] == b[0] && b[0] == c[0] {
        bytes_le_transitive(a.drop_first(), b.drop_first(), c.drop_first());
    }
}

/// Of two byte strings, one does not come after the other.
pub proof fn bytes_le_total(a: Seq<u8>, b: Seq<u8>)
    ensures
        bytes_le(a, b) || bytes_le(b, a),
    decreases a.len(),
{
    if a.len() > 0 && b.len() > 0 && a[0] == b[0] {
        bytes_le_total(a.drop_first(), b.drop_first());
    }
}

/// The order of segments as a relation.
pub open spec fn segment_order() -> spec_fn(ContinuationView, ContinuationView) -> bool {
    |a: ContinuationView, b: ContinuationView| segment_le(a, b)
}

/// Texts with the same UTF-8 bytes are the same.
proof fn same_bytes_same_text(a: Seq<char>, b: Seq<char>)
    requires
        encode_utf8(a) == encode_utf8(b),
    ensures
        a == b,
{
    vstd::utf8::encode_utf8_decode_utf8(a);
    vstd::utf8::encode_utf8_decode_utf8(b);
}

/// The order of segments is a total order.
pub proof fn segment_order_is_total()
    ensures
        total_ordering(segment_order()),
{
    let leq = segment_order();
    assert forall|x: ContinuationView| #[trigger] leq(x, x) by {
        bytes_le_reflexive(encode_utf8(x.value));
    }
    assert forall|x: ContinuationView, y: ContinuationView| #[trigger]
        leq(x, y) && #[trigger] leq(y, x) implies x == y by {
        if encode_utf8(x.name) != encode_utf8(y.name) {
            bytes_le_antisymmetric(encode_utf8(x.name), encode_utf8(y.name));
        }
        same_bytes_same_text(x.name, y.name);
        bytes_le_antisymmetric(encode_utf8(x.value), encode_utf8(y.value));
        same_bytes_same_text(x.value, y.value);
    }
    assert forall|x: ContinuationView, y: ContinuationView, z: ContinuationView| #[trigger]
        leq(x, y) && #[trigger] leq(y, z) implies leq(x, z) by {
        let (xn, yn, zn) = (encode_utf8(x.name), encode_utf8(y.name), encode_utf8(z.name));
        if xn != yn && yn != zn {
            bytes_le_transitive(xn, yn, zn);
            if xn == zn {
                bytes_le_antisymmetric(xn, yn);
            }
        } else if xn == yn && yn == zn {
            if x.position == y.position && y.position == z.position {
                bytes_le_transitive(
                    encode_utf8(x.value),
                    encode_utf8(y.value),
                    encode_utf8(z.value),
                );
            }
        }
    }
    assert forall|x: ContinuationView, y: ContinuationView| #[trigger]
        leq(x, y) || #[trigger] leq(y, x) by {
        bytes_le_total(encode_utf8(x.name), encode_utf8(y.name));
        bytes_le_total(encode_utf8(x.value), encode_utf8(y.value));
    }
}

/// Where a segment goes into a sorted list: behind segments that do not come
/// after it, and before one that does.
proof fn insert_at_splits(sorted: Seq<ContinuationView>, c: ContinuationView)
    ensures
        0 <= insert_at(sorted, c) <= sorted.len(),
        forall|i: int| 0 <= i < insert_at(sorted, c) ==> segment_le(#[trigger] sorted[i], c),
        insert_at(sorted, c) < sorted.len() ==> !segment_le(sorted[insert_at(sorted, c)], c),
    decreases sorted.len(),
{
    if sorted.len() > 0 && segment_le(sorted[0], c) {
        let rest = sorted.drop_first();
        insert_at_splits(rest, c);
        assert forall|i: int| 0 <= i < insert_at(sorted, c) implies segment_le(
            #[trigger] sorted[i],
            c,
        ) by {
            if i > 0 {
                assert(sorted[i] == rest[i - 1]);
            }
        }
        if insert_at(sorted, c) < sorted.len() {
            assert(sorted[insert_at(sorted, c)] == rest[insert_at(rest, c)]);
        }
    }
}

/// Sorting by insertion gives a sorted list of the same segments.
proof fn sorted_prefix_is_sorted(s: Seq<ContinuationView>, n: int)
    requires
        0 <= n <= s.len(),
    ensures
        sorted_by(sorted_prefix(s, n), segment_order()),
        sorted_prefix(s, n).to_multiset() == s.take(n).to_multiset(),
        sorted_prefix(s, n).len() == n,
    decreases n,
{
    let leq = segment_order();
    if n > 0 {
        sorted_prefix_is_sorted(s, n - 1);
        segment_order_is_total();
        let prev = sorted_prefix(s, n - 1);
        let c = s[n - 1];
        let k = insert_at(prev, c);
        insert_at_splits(prev, c);
        let next = prev.insert(k, c);
        assert forall|i: int, j: int| 0 <= i < j < next.len() implies #[trigger] leq(
            next[i],
            next[j],
        ) by {
            if j < k {
                assert(leq(prev[i], prev[j]));
            } else if j == k {
                assert(segment_le(prev[i], c));
            } else if i == k {
                // c comes before what follows it
                assert(leq(prev[k], c) || leq(c, prev[k]));
                if j - 1 > k {
                    assert(leq(prev[k], prev[j - 1]));
                    assert(leq(c, prev[k]) && leq(prev[k], prev[j - 1]) ==> leq(c, prev[j - 1]));
                }
            } else if i < k {
                assert(leq(prev[i], prev[j - 1]));
            } else {
                assert(leq(prev[i - 1], prev[j - 1]));
            }
        }
        vstd::seq_lib::to_multiset_insert(prev, k, c);
        vstd::seq_lib::to_multiset_build(s.take(n - 1), c);
        assert(s.take(n) =~= s.take(n - 1).push(c));
    } else {
        assert(s.take(0) =~= Seq::<ContinuationView>::empty());
        assert(sorted_prefix(s, 0) =~= Seq::<ContinuationView>::empty());
    }
}

/// The order in which the segments were written does not matter to the
/// order in which they are merged: two lists of the same segments are sorted
/// alike.
pub proof fn sorting_ignores_the_order_of_segments(
    a: Seq<ContinuationView>,
    b: Seq<ContinuationView>,
)
    requires
        a.to_multiset() == b.to_multiset(),
    ensures
        sort_segments(a) == sort_segments(b),
        a.len() == b.len(),
{
    sorted_prefix_is_sorted(a, a.len() as int);
    sorted_prefix_is_sorted(b, b.len() as int);
    assert(a.take(a.len() as int) =~= a);
    assert(b.take(b.len() as int) =~= b);
    segment_order_is_total();
    vstd::seq_lib::lemma_sorted_unique(sort_segments(a), sort_segments(b), segment_order());
    vstd::seq_lib::to_multiset_len(a);
    vstd::seq_lib::to_multiset_len(b);
}

/// Writing the numbered segments of continued parameters in another order
/// gives the same parameters: merging two lists of the same segments into the
/// same parameters has the same result.
pub proof fn merging_ignores_the_order_of_segments(
    attrs: Seq<(Seq<char>, Seq<char>)>,
    a: Seq<ContinuationView>,
    b: Seq<ContinuationView>,
)
    requires
        a.to_multiset() == b.to_multiset(),
    ensures
        merge_segments(attrs, a) == merge_segments(attrs, b),
{
    sorting_ignores_the_order_of_segments(a, b);
}

} // verus!
