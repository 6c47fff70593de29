//! Properties of the store that relate several operations.
use vstd::prelude::*;
use crate::protocol::{Layer, classification_of, frame_protocol, protocol_text};
use crate::store::{
    Record, add_spec, bump, frame_record, has_pair, ingest_spec, merge_into, merge_labels,
    pair_index, pairs_unique, same_pair, lemma_add_keeps_pairs_unique,
};

verus! {

/// Merging labels yields exactly the labels of both sides.
pub proof fn lemma_merge_labels_union(a: Seq<Seq<char>>, b: Seq<Seq<char>>)
    ensures
        merge_labels(a, b).to_set() == a.to_set().union(b.to_set()),
    decreases b.len(),
{
    if b.len() > 0 {
        let p = b.drop_last();
        lemma_merge_labels_union(a, p);
        let m = merge_labels(a, p);
        assert forall|x: Seq<char>| #[trigger] b.to_set().contains(x) <==> p.to_set().contains(x)
            || x == b.last() by {
            if b.to_set().contains(x) {
                let i = choose|i: int| 0 <= i < b.len() && b[i] == x;
                if i < b.len() - 1 {
                    assert(p[i] == x);
                }
            }
            if p.to_set().contains(x) {
                let i = choose|i: int| 0 <= i < p.len() && p[i] == x;
                assert(b[i] == x);
            }
            if x == b.last() {
                assert(b[b.len() - 1] == x);
            }
        }
        if !m.contains(b.last()) {
            let n = m.push(b.last());
            assert forall|x: Seq<char>| #[trigger] n.to_set().contains(x) <==> m.to_set().contains(
                x,
            ) || x == b.last() by {
                if n.to_set().contains(x) {
                    let i = choose|i: int| 0 <= i < n.len() && n[i] == x;
                    if i < m.len() {
                        assert(m[i] == x);
                    }
                }
                if m.to_set().contains(x) {
                    let i = choose|i: int| 0 <= i < m.len() && m[i] == x;
                    assert(n[i] == x);
                }
                if x == b.last() {
                    assert(n[m.len() as int] == x);
                }
            }
            assert(merge_labels(a, b).to_set() =~= a.to_set().union(b.to_set()));
        } else {
            assert(m.to_set().contains(b.last()));
            assert(merge_labels(a, b).to_set() =~= a.to_set().union(b.to_set()));
        }
    }
}

/// In a store without repeated pairs, the record of a pair is the one at
/// any position holding it.
pub proof fn lemma_pair_index_unique(s: Seq<Record>, c: Record, k: int)
    requires
        pairs_unique(s),
        0 <= k < s.len(),
        same_pair(s[k], c),
    ensures
        has_pair(s, c),
        pair_index(s, c) == k,
{
    assert(same_pair(s[k], c));
    let i = pair_index(s, c);
    assert(same_pair(s[i], s[k]));
}

/// After a merge-insert the pair of `c` has a record: the old one with `c`
/// merged in, or `c` itself.
pub proof fn lemma_add_places(s: Seq<Record>, c: Record)
    requires
        pairs_unique(s),
    ensures
        has_pair(add_spec(s, c), c),
        ({
            let r = add_spec(s, c);
            let i = pair_index(r, c);
            &&& 0 <= i < r.len()
            &&& has_pair(s, c) ==> i == pair_index(s, c) && r[i] == merge_into(s[i], c)
            &&& !has_pair(s, c) ==> i == s.len() && r[i] == c
        }),
{
    lemma_add_keeps_pairs_unique(s, c);
    let r = add_spec(s, c);
    if has_pair(s, c) {
        let k = pair_index(s, c);
        assert(same_pair(r[k], c));
        lemma_pair_index_unique(r, c, k);
    } else {
        assert(same_pair(r[s.len() as int], c));
        lemma_pair_index_unique(r, c, s.len() as int);
    }
}

/// Two frames of the same directed pair leave exactly one record for that
/// pair. Its labels are those it already had, if it existed, together with
/// the label of each frame; its count grew by one per frame, from the count
/// it had, or from zero for a pair not seen before.
pub proof fn lemma_same_pair_frames(s: Seq<Record>, f1: Seq<Layer>, f2: Seq<Layer>)
    requires
        pairs_unique(s),
        frame_record(classification_of(f1)) is Some,
        frame_record(classification_of(f2)) is Some,
        same_pair(
            frame_record(classification_of(f1))->Some_0,
            frame_record(classification_of(f2))->Some_0,
        ),
    ensures
        ({
            let c1 = frame_record(classification_of(f1))->Some_0;
            let c2 = frame_record(classification_of(f2))->Some_0;
            let r = add_spec(add_spec(s, c1), c2);
            let i = pair_index(r, c1);
            &&& pairs_unique(r)
            &&& 0 <= i < r.len() && same_pair(r[i], c1)
            &&& forall|j: int| 0 <= j < r.len() && same_pair(#[trigger] r[j], c1) ==> j == i
            &&& r[i].labels.to_set() == (if has_pair(s, c1) {
                s[pair_index(s, c1)].labels.to_set()
            } else {
                Set::empty()
            }).insert(protocol_text(frame_protocol(f1))).insert(protocol_text(frame_protocol(f2)))
            &&& r[i].value == if has_pair(s, c1) {
                bump(s[pair_index(s, c1)].value, 2)
            } else {
                2
            }
        }),
{
    let c1 = frame_record(classification_of(f1))->Some_0;
    let c2 = frame_record(classification_of(f2))->Some_0;
    let s1 = add_spec(s, c1);
    lemma_add_keeps_pairs_unique(s, c1);
    lemma_add_places(s, c1);
    let k = pair_index(s1, c1);
    assert(same_pair(s1[k], c2));
    lemma_pair_index_unique(s1, c2, k);
    lemma_add_keeps_pairs_unique(s1, c2);
    lemma_add_places(s1, c2);
    let r = add_spec(s1, c2);
    assert(same_pair(r[k], c1));
    lemma_pair_index_unique(r, c1, k);
    let i = pair_index(r, c1);
    assert(r[i] == merge_into(s1[k], c2));
    lemma_merge_labels_union(s1[k].labels, c2.labels);
    assert(c2.labels.to_set() =~= set![protocol_text(frame_protocol(f2))]) by {
        assert(c2.labels == seq![protocol_text(frame_protocol(f2))]);
        assert(c2.labels[0] == protocol_text(frame_protocol(f2)));
    }
    assert(c1.labels.to_set() =~= set![protocol_text(frame_protocol(f1))]) by {
        assert(c1.labels[0] == protocol_text(frame_protocol(f1)));
    }
    if has_pair(s, c1) {
        let h = pair_index(s, c1);
        lemma_merge_labels_union(s[h].labels, c1.labels);
        assert(r[i].labels.to_set() =~= s[h].labels.to_set().insert(
            protocol_text(frame_protocol(f1)),
        ).insert(protocol_text(frame_protocol(f2))));
    } else {
        assert(r[i].labels.to_set() =~= Set::<Seq<char>>::empty().insert(
            protocol_text(frame_protocol(f1)),
        ).insert(protocol_text(frame_protocol(f2))));
    }
    assert forall|j: int| 0 <= j < r.len() && same_pair(#[trigger] r[j], c1) implies j == i by {
        if j != i {
            assert(same_pair(r[j], r[i]));
        }
    }
}

/// A batch without repeated pairs, ingested by an empty collector, is
/// reproduced record for record, in order and with its counts.
pub proof fn lemma_ingest_into_empty(batch: Seq<Record>)
    requires
        pairs_unique(batch),
    ensures
        ingest_spec(Seq::empty(), batch) == batch,
    decreases batch.len(),
{
    if batch.len() > 0 {
        let p = batch.drop_last();
        assert(pairs_unique(p)) by {
            assert forall|i: int, j: int|
                0 <= i < p.len() && 0 <= j < p.len() && i != j implies !same_pair(
                    #[trigger] p[i],
                    #[trigger] p[j],
                ) by {
                assert(p[i] == batch[i] && p[j] == batch[j]);
            }
        }
        lemma_ingest_into_empty(p);
        if has_pair(p, batch.last()) {
            let k = pair_index(p, batch.last());
            assert(same_pair(batch[k], batch[batch.len() - 1]));
        }
        assert(p.push(batch.last()) =~= batch);
    }
}

} // verus!
