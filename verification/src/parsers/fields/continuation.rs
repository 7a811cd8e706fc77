//! Parameters that are given in numbered segments (RFC 2231).

use crate::pairs_view;
use vstd::prelude::*;
use vstd::string::StringExecFns;
use vstd::utf8::encode_utf8;

verus! {

/// One segment of a parameter that was given in numbered parts.
pub struct Continuation {
    pub name: String,
    pub position: u32,
    pub value: String,
}

/// The mathematical value of a [`Continuation`].
pub struct ContinuationView {
    pub name: Seq<char>,
    pub position: u32,
    pub value: Seq<char>,
}

impl View for Continuation {
    type V = ContinuationView;

    open spec fn view(&self) -> ContinuationView {
        ContinuationView { name: self.name@, position: self.position, value: self.value@ }
    }
}

/// The views of a list of continuations.
pub open spec fn continuations_view(v: Seq<Continuation>) -> Seq<ContinuationView> {
    Seq::new(v.len(), |i: int| v[i]@)
}

/// `continuations_view` of a list with one more segment.
pub proof fn continuations_view_push(v: Seq<Continuation>, x: Continuation)
    ensures
        continuations_view(v.push(x)) == continuations_view(v).push(x@),
{
    assert(continuations_view(v.push(x)) =~= continuations_view(v).push(x@));
}

/// `pairs_view` of a list with one more pair.
pub proof fn pairs_view_push(v: Seq<(String, String)>, x: (String, String))
    ensures
        pairs_view(v.push(x)) == pairs_view(v).push((x.0@, x.1@)),
{
    assert(pairs_view(v.push(x)) =~= pairs_view(v).push((x.0@, x.1@)));
}

/// Whether `a` comes before `b`, or is `b`, in the order of the dictionary.
pub open spec fn bytes_le(a: Seq<u8>, b: Seq<u8>) -> bool
    decreases a.len(),
{
    if a.len() == 0 {
        true
    } else if b.len() == 0 {
        false
    } else if a[0] != b[0] {
        a[0] < b[0]
    } else {
        bytes_le(a.drop_first(), b.drop_first())
    }
}

/// The order in which segments are merged: by name, then by number, then by
/// value; names and values by their UTF-8 bytes.
pub open spec fn segment_le(a: ContinuationView, b: ContinuationView) -> bool {
    if encode_utf8(a.name) != encode_utf8(b.name) {
        bytes_le(encode_utf8(a.name), encode_utf8(b.name))
    } else if a.position != b.position {
        a.position < b.position
    } else {
        bytes_le(encode_utf8(a.value), encode_utf8(b.value))
    }
}

/// Where `c` goes into the sorted list `sorted`: behind the leading segments
/// that do not come after it.
pub open spec fn insert_at(sorted: Seq<ContinuationView>, c: ContinuationView) -> int
    decreases sorted.len(),
{
    if sorted.len() > 0 && segment_le(sorted[0], c) {
        1 + insert_at(sorted.drop_first(), c)
    } else {
        0
    }
}

/// The first `n` segments of `s`, sorted by insertion.
pub open spec fn sorted_prefix(s: Seq<ContinuationView>, n: int) -> Seq<ContinuationView>
    decreases n,
{
    if n <= 0 {
        Seq::empty()
    } else {
        let prev = sorted_prefix(s, n - 1);
        prev.insert(insert_at(prev, s[n - 1]), s[n - 1])
    }
}

/// The segments in the order in which they are merged.
pub open spec fn sort_segments(s: Seq<ContinuationView>) -> Seq<ContinuationView> {
    sorted_prefix(s, s.len() as int)
}

/// The index of the first pair of `attrs` at or after `from` that is called
/// `name`, or the length of `attrs`.
pub open spec fn name_index(attrs: Seq<(Seq<char>, Seq<char>)>, name: Seq<char>, from: int) -> int
    decreases attrs.len() - from,
{
    if 0 <= from < attrs.len() && attrs[from].0 != name {
        name_index(attrs, name, from + 1)
    } else {
        from
    }
}

/// Merges one segment into the parameters: its value is appended to the
/// parameter of its name, or it becomes a new parameter.
pub open spec fn merge_one(attrs: Seq<(Seq<char>, Seq<char>)>, c: ContinuationView) -> Seq<
    (Seq<char>, Seq<char>),
> {
    let i = name_index(attrs, c.name, 0);
    if 0 <= i < attrs.len() {
        attrs.update(i, (attrs[i].0, attrs[i].1 + c.value))
    } else {
        attrs.push((c.name, c.value))
    }
}

/// Merges the first `n` of the segments `segments`, in their order.
pub open spec fn merged(
    attrs: Seq<(Seq<char>, Seq<char>)>,
    segments: Seq<ContinuationView>,
    n: int,
) -> Seq<(Seq<char>, Seq<char>)>
    decreases n,
{
    if n <= 0 {
        attrs
    } else {
        merge_one(merged(attrs, segments, n - 1), segments[n - 1])
    }
}

/// The parameters after all segments were merged into them, in the order of
/// [`segment_le`].
pub open spec fn merge_segments(
    attrs: Seq<(Seq<char>, Seq<char>)>,
    segments: Seq<ContinuationView>,
) -> Seq<(Seq<char>, Seq<char>)> {
    merged(attrs, sort_segments(segments), segments.len() as int)
}

/// Whether no two pairs of `attrs` have the same name.
pub open spec fn distinct_names(attrs: Seq<(Seq<char>, Seq<char>)>) -> bool {
    forall|i: int, j: int| 0 <= i < j < attrs.len() ==> attrs[i].0 != attrs[j].0
}

/// Where no pair is called `name`, the search for the name ends behind the
/// last pair; else it ends at a pair of that name.
pub proof fn name_index_finds(attrs: Seq<(Seq<char>, Seq<char>)>, name: Seq<char>, from: int)
    requires
        0 <= from <= attrs.len(),
    ensures
        from <= name_index(attrs, name, from) <= attrs.len(),
        name_index(attrs, name, from) < attrs.len() ==> attrs[name_index(attrs, name, from)].0
            == name,
        forall|k: int| from <= k < name_index(attrs, name, from) ==> attrs[k].0 != name,
    decreases attrs.len() - from,
{
    if from < attrs.len() && attrs[from].0 != name {
        name_index_finds(attrs, name, from + 1);
    }
}

/// Merging a segment leaves the names of the parameters distinct.
pub proof fn merge_one_keeps_names_distinct(
    attrs: Seq<(Seq<char>, Seq<char>)>,
    c: ContinuationView,
)
    requires
        distinct_names(attrs),
    ensures
        distinct_names(merge_one(attrs, c)),
        attrs.len() > 0 ==> merge_one(attrs, c).len() > 0,
        merge_one(attrs, c).len() >= attrs.len(),
{
    name_index_finds(attrs, c.name, 0);
    let i = name_index(attrs, c.name, 0);
    let after = merge_one(attrs, c);
    assert forall|a: int, b: int| 0 <= a < b < after.len() implies after[a].0 != after[b].0 by {
        if i < attrs.len() {
            assert(after[a].0 == attrs[a].0);
            assert(after[b].0 == attrs[b].0);
        } else if b < attrs.len() {
            assert(after[a] == attrs[a] && after[b] == attrs[b]);
        } else {
            assert(after[a] == attrs[a]);
            assert(after[b].0 == c.name);
        }
    }
}

/// Merging segments leaves the names of the parameters distinct.
pub proof fn merged_keeps_names_distinct(
    attrs: Seq<(Seq<char>, Seq<char>)>,
    segments: Seq<ContinuationView>,
    n: int,
)
    requires
        distinct_names(attrs),
    ensures
        distinct_names(merged(attrs, segments, n)),
        merged(attrs, segments, n).len() >= attrs.len(),
    decreases n,
{
    if n > 0 {
        merged_keeps_names_distinct(attrs, segments, n - 1);
        merge_one_keeps_names_distinct(merged(attrs, segments, n - 1), segments[n - 1]);
    }
}

/// Compares two byte strings in the order of the dictionary: 0 if they are
/// equal, 1 if `a` comes first, 2 if `b` does.
pub fn bytes_order(a: &[u8], b: &[u8]) -> (r: u8)
    ensures
        r <= 2,
        (r == 0) == (a@ == b@),
        (r != 2) == bytes_le(a@, b@),
{
    let mut i: usize = 0;
    assert(a@.skip(0) =~= a@ && b@.skip(0) =~= b@);
    while i < a.len() && i < b.len()
        invariant
            i <= a@.len(),
            i <= b@.len(),
            a@.take(i as int) == b@.take(i as int),
            bytes_le(a@, b@) == bytes_le(a@.skip(i as int), b@.skip(i as int)),
        decreases a@.len() - i,
    {
        let ghost x = a@.skip(i as int);
        let ghost y = b@.skip(i as int);
        assert(x[0] == a@[i as int] && y[0] == b@[i as int]);
        if a[i] != b[i] {
            assert(a@ != b@);
            return if a[i] < b[i] {
                1
            } else {
                2
            };
        }
        assert(x.drop_first() =~= a@.skip(i + 1));
        assert(y.drop_first() =~= b@.skip(i + 1));
        assert(a@.take(i + 1) =~= a@.take(i as int).push(a@[i as int]));
        assert(b@.take(i + 1) =~= b@.take(i as int).push(b@[i as int]));
        i += 1;
    }
    if a.len() == b.len() {
        assert(a@ =~= a@.take(i as int));
        assert(b@ =~= b@.take(i as int));
        0
    } else if a.len() < b.len() {
        assert(a@.len() != b@.len());
        1
    } else {
        assert(a@.len() != b@.len());
        2
    }
}

/// Whether `a` does not come after `b` in the order of merging.
pub fn segment_before(a: &Continuation, b: &Continuation) -> (r: bool)
    ensures
        r == segment_le(a@, b@),
{
    let names = bytes_order(a.name.as_str().as_bytes(), b.name.as_str().as_bytes());
    if names != 0 {
        names == 1
    } else if a.position != b.position {
        a.position < b.position
    } else {
        bytes_order(a.value.as_str().as_bytes(), b.value.as_str().as_bytes()) != 2
    }
}

/// The segments in the order in which they are merged.
pub fn sort_continuations(segments: Vec<Continuation>) -> (r: Vec<Continuation>)
    ensures
        continuations_view(r@) == sort_segments(continuations_view(segments@)),
{
    let mut sorted: Vec<Continuation> = Vec::new();
    let mut rest = segments;
    let ghost all = continuations_view(segments@);
    let mut n: usize = 0;
    let total: usize = rest.len();
    assert(continuations_view(sorted@) =~= sorted_prefix(all, 0));
    // The segments are taken from the end of `rest`, which is first reversed.
    let mut reversed: Vec<Continuation> = Vec::new();
    while rest.len() > 0
        invariant
            rest@.len() + reversed@.len() == total,
            total == all.len(),
            forall|k: int| 0 <= k < rest@.len() ==> rest@[k]@ == all[k],
            forall|k: int| 0 <= k < reversed@.len() ==> reversed@[k]@ == all[total - 1 - k],
        decreases rest@.len(),
    {
        let c = rest.pop().unwrap();
        reversed.push(c);
    }
    while reversed.len() > 0
        invariant
            n + reversed@.len() == total,
            total == all.len(),
            forall|k: int| 0 <= k < reversed@.len() ==> reversed@[k]@ == all[total - 1 - k],
            continuations_view(sorted@) == sorted_prefix(all, n as int),
        decreases reversed@.len(),
    {
        let c = reversed.pop().unwrap();
        assert(c@ == all[n as int]);
        let ghost prev = continuations_view(sorted@);
        let mut i: usize = 0;
        assert(prev.skip(0) =~= prev);
        while i < sorted.len() && segment_before(&sorted[i], &c)
            invariant
                i <= sorted@.len(),
                prev == continuations_view(sorted@),
                insert_at(prev, c@) == i + insert_at(prev.skip(i as int), c@),
            decreases sorted@.len() - i,
        {
            assert(prev.skip(i as int)[0] == prev[i as int]);
            assert(prev.skip(i as int).drop_first() =~= prev.skip(i + 1));
            i += 1;
        }
        assert(insert_at(prev, c@) == i) by {
            if i < sorted@.len() {
                assert(prev.skip(i as int)[0] == prev[i as int]);
            }
        }
        sorted.insert(i, c);
        assert(continuations_view(sorted@) =~= prev.insert(i as int, c@));
        n += 1;
    }
    sorted
}

/// Merges the numbered segments into the parameters.
pub fn merge_continuations(attributes: &mut Vec<(String, String)>, continuations: Vec<Continuation>)
    ensures
        pairs_view(final(attributes)@) == merge_segments(
            pairs_view(old(attributes)@),
            continuations_view(continuations@),
        ),
{
    let ghost segments = sort_segments(continuations_view(continuations@));
    let ghost start = pairs_view(attributes@);
    let ghost count = continuations@.len();
    let sorted = sort_continuations(continuations);
    proof {
        sorted_prefix_len(continuations_view(continuations@), count as int);
    }
    assert(sorted@.len() == continuations_view(sorted@).len());
    let mut k: usize = 0;
    while k < sorted.len()
        invariant
            k <= sorted@.len(),
            continuations_view(sorted@) == segments,
            pairs_view(attributes@) == merged(start, segments, k as int),
        decreases sorted@.len() - k,
    {
        merge_segment(attributes, &sorted[k]);
        assert(sorted@[k as int]@ == segments[k as int]);
        k += 1;
    }
}

/// Merges one segment into the parameters.
pub fn merge_segment(attributes: &mut Vec<(String, String)>, segment: &Continuation)
    ensures
        pairs_view(final(attributes)@) == merge_one(pairs_view(old(attributes)@), segment@),
{
    let ghost attrs = pairs_view(attributes@);
    let mut i: usize = 0;
    while i < attributes.len() && attributes[i].0 != segment.name
        invariant
            i <= attributes@.len(),
            attrs == pairs_view(attributes@),
            name_index(attrs, segment@.name, 0) == name_index(attrs, segment@.name, i as int),
        decreases attributes@.len() - i,
    {
        assert(attrs[i as int].0 == attributes@[i as int].0@);
        i += 1;
    }
    if i < attributes.len() {
        assert(attrs[i as int].0 == attributes@[i as int].0@);
        let name = attributes[i].0.clone();
        let mut value = attributes[i].1.clone();
        value.append(segment.value.as_str());
        attributes.set(i, (name, value));
        assert(pairs_view(attributes@) =~= merge_one(attrs, segment@));
    } else {
        let pair = (segment.name.clone(), segment.value.clone());
        proof {
            pairs_view_push(attributes@, pair);
        }
        attributes.push(pair);
    }
}

/// Sorting keeps the number of segments.
pub proof fn sorted_prefix_len(s: Seq<ContinuationView>, n: int)
    requires
        0 <= n <= s.len(),
    ensures
        sorted_prefix(s, n).len() == n,
    decreases n,
{
    if n > 0 {
        sorted_prefix_len(s, n - 1);
        insert_at_bounds(sorted_prefix(s, n - 1), s[n - 1]);
    }
}

/// A segment goes into a sorted list at one of its positions.
pub proof fn insert_at_bounds(sorted: Seq<ContinuationView>, c: ContinuationView)
    ensures
        0 <= insert_at(sorted, c) <= sorted.len(),
    decreases sorted.len(),
{
    if sorted.len() > 0 && segment_le(sorted[0], c) {
        insert_at_bounds(sorted.drop_first(), c);
    }
}

} // verus!
