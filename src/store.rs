//! The aggregation store: one observation record per directed
//! (source, destination) pair, merged into as frames and batches arrive.
use vstd::prelude::*;
use crate::address::{IpAddress, Group, classify_address, group_name, group_spec, group_text};
use crate::protocol::{Classification, Layer, classification_of, classify_layers, frame_endpoints, protocol_text};
use crate::text::{address_string, address_text};

verus! {

/// One observation: who talked to whom, by which protocols, how often.
pub struct Communication {
    pub src: String,
    pub src_group: String,
    pub dst: String,
    pub dst_group: String,
    pub typ: Vec<String>,
    pub value: u32,
}

/// The mathematical value of a `Communication`.
pub struct Record {
    pub src: Seq<char>,
    pub src_group: Seq<char>,
    pub dst: Seq<char>,
    pub dst_group: Seq<char>,
    pub labels: Seq<Seq<char>>,
    pub value: u32,
}

pub open spec fn labels_view(v: Seq<String>) -> Seq<Seq<char>> {
    v.map_values(|t: String| t@)
}

impl View for Communication {
    type V = Record;

    open spec fn view(&self) -> Record {
        Record {
            src: self.src@,
            src_group: self.src_group@,
            dst: self.dst@,
            dst_group: self.dst_group@,
            labels: labels_view(self.typ@),
            value: self.value,
        }
    }
}

/// `b`'s labels appended to `a` in order, each only if not already there.
pub open spec fn merge_labels(a: Seq<Seq<char>>, b: Seq<Seq<char>>) -> Seq<Seq<char>>
    decreases b.len(),
{
    if b.len() == 0 {
        a
    } else {
        let m = merge_labels(a, b.drop_last());
        if m.contains(b.last()) {
            m
        } else {
            m.push(b.last())
        }
    }
}

/// `v + k`, held at `u32::MAX`.
pub open spec fn bump(v: u32, k: nat) -> u32 {
    if v + k > u32::MAX {
        u32::MAX
    } else {
        (v + k) as u32
    }
}

pub open spec fn same_pair(a: Record, b: Record) -> bool {
    a.src == b.src && a.dst == b.dst
}

pub open spec fn has_pair(s: Seq<Record>, c: Record) -> bool {
    exists|i: int| 0 <= i < s.len() && same_pair(#[trigger] s[i], c)
}

pub open spec fn pair_index(s: Seq<Record>, c: Record) -> int {
    choose|i: int| 0 <= i < s.len() && same_pair(#[trigger] s[i], c)
}

/// At most one record per directed pair.
pub open spec fn pairs_unique(s: Seq<Record>) -> bool {
    forall|i: int, j: int|
        0 <= i < s.len() && 0 <= j < s.len() && i != j ==> !same_pair(#[trigger] s[i], #[trigger] s[j])
}

/// `r` after merging `c` into it: labels unioned, the count raised by one
/// for each label of `c`.
pub open spec fn merge_into(r: Record, c: Record) -> Record {
    Record { labels: merge_labels(r.labels, c.labels), value: bump(r.value, c.labels.len()), ..r }
}

/// Merge-insert: the record of `c`'s pair absorbs `c`; without one, `c` is
/// appended as it is.
pub open spec fn add_spec(s: Seq<Record>, c: Record) -> Seq<Record> {
    if has_pair(s, c) {
        let i = pair_index(s, c);
        s.update(i, merge_into(s[i], c))
    } else {
        s.push(c)
    }
}

/// Every record of `batch` merged in, in order.
pub open spec fn ingest_spec(s: Seq<Record>, batch: Seq<Record>) -> Seq<Record>
    decreases batch.len(),
{
    if batch.len() == 0 {
        s
    } else {
        add_spec(ingest_spec(s, batch.drop_last()), batch.last())
    }
}

/// The self-referential record of a local address.
pub open spec fn seed_record(a: IpAddress) -> Record {
    Record {
        src: address_text(a),
        src_group: group_text(Group::Desktop),
        dst: address_text(a),
        dst_group: group_text(Group::Desktop),
        labels: seq![],
        value: 0,
    }
}

/// The store seeded with one self-referential record per local address.
pub open spec fn seed_spec(local: Seq<IpAddress>) -> Seq<Record>
    decreases local.len(),
{
    if local.len() == 0 {
        seq![]
    } else {
        add_spec(seed_spec(local.drop_last()), seed_record(local.last()))
    }
}

/// The record a classified frame contributes: none when it carries no
/// addresses or its source and destination are the same.
pub open spec fn frame_record(c: Classification) -> Option<Record> {
    match c.endpoints {
        None => None,
        Some(e) => if e.source == e.destination {
            None
        } else {
            Some(
                Record {
                    src: address_text(e.source),
                    src_group: group_text(group_spec(e.source)),
                    dst: address_text(e.destination),
                    dst_group: group_text(group_spec(e.destination)),
                    labels: seq![protocol_text(c.protocol)],
                    value: 1,
                },
            )
        },
    }
}

pub proof fn lemma_add_keeps_pairs_unique(s: Seq<Record>, c: Record)
    requires
        pairs_unique(s),
    ensures
        pairs_unique(add_spec(s, c)),
        add_spec(s, c).len() == if has_pair(s, c) { s.len() } else { s.len() + 1 },
{
    let r = add_spec(s, c);
    if has_pair(s, c) {
        let i = pair_index(s, c);
        assert forall|a: int, b: int|
            0 <= a < r.len() && 0 <= b < r.len() && a != b implies !same_pair(
                #[trigger] r[a],
                #[trigger] r[b],
            ) by {
            assert(same_pair(r[a], s[a]) && same_pair(r[b], s[b]));
        }
    } else {
        assert forall|a: int, b: int|
            0 <= a < r.len() && 0 <= b < r.len() && a != b implies !same_pair(
                #[trigger] r[a],
                #[trigger] r[b],
            ) by {
            if a < s.len() && b < s.len() {
                assert(r[a] == s[a] && r[b] == s[b]);
            } else if a < s.len() {
                assert(r[a] == s[a] && r[b] == c);
            } else {
                assert(r[b] == s[b] && r[a] == c);
            }
        }
    }
}

impl Communication {
    pub fn new(
        src: String,
        src_group: String,
        dst: String,
        dst_group: String,
        typ: Vec<String>,
        value: u32,
    ) -> (r: Communication)
        ensures
            r.src == src,
            r.src_group == src_group,
            r.dst == dst,
            r.dst_group == dst_group,
            r.typ == typ,
            r.value == value,
    {
        Communication { src, src_group, dst, dst_group, typ, value }
    }

    /// A copy with the same value.
    pub fn duplicate(&self) -> (r: Communication)
        ensures
            r@ == self@,
    {
        let mut typ: Vec<String> = Vec::new();
        let mut i: usize = 0;
        while i < self.typ.len()
            invariant
                i <= self.typ@.len(),
                labels_view(typ@) =~= labels_view(self.typ@).take(i as int),
            decreases self.typ@.len() - i,
        {
            let ghost prev = typ@;
            typ.push(self.typ[i].clone());
            assert(labels_view(typ@) =~= labels_view(prev).push(self.typ@[i as int]@));
            assert(labels_view(typ@) =~= labels_view(self.typ@).take(i + 1));
            i = i + 1;
        }
        assert(labels_view(self.typ@).take(i as int) =~= labels_view(self.typ@));
        Communication {
            src: self.src.clone(),
            src_group: self.src_group.clone(),
            dst: self.dst.clone(),
            dst_group: self.dst_group.clone(),
            typ,
            value: self.value,
        }
    }
}

fn has_label(labels: &Vec<String>, t: &String) -> (r: bool)
    ensures
        r == labels_view(labels@).contains(t@),
{
    let mut i: usize = 0;
    while i < labels.len()
        invariant
            i <= labels@.len(),
            forall|j: int| 0 <= j < i ==> labels@[j]@ != t@,
        decreases labels@.len() - i,
    {
        if labels[i] == *t {
            assert(labels_view(labels@)[i as int] == t@);
            return true;
        }
        i = i + 1;
    }
    assert(!labels_view(labels@).contains(t@)) by {
        if labels_view(labels@).contains(t@) {
            let j = choose|j: int| 0 <= j < labels@.len() && labels_view(labels@)[j] == t@;
            assert(labels@[j]@ == t@);
        }
    }
    false
}

/// `e` with the labels of `c` merged in and its count raised once per label.
fn merged(e: &Communication, c: &Communication) -> (r: Communication)
    ensures
        r@ == merge_into(e@, c@),
{
    let mut m = e.duplicate();
    let mut k: usize = 0;
    while k < c.typ.len()
        invariant
            k <= c.typ@.len(),
            m@ == (Record {
                labels: merge_labels(e@.labels, c@.labels.take(k as int)),
                value: bump(e.value, k as nat),
                ..e@
            }),
        decreases c.typ@.len() - k,
    {
        assert(c@.labels.take(k + 1).drop_last() =~= c@.labels.take(k as int));
        if !has_label(&m.typ, &c.typ[k]) {
            m.typ.push(c.typ[k].clone());
            assert(labels_view(m.typ@) =~= merge_labels(e@.labels, c@.labels.take(k + 1)));
        }
        m.value = m.value.saturating_add(1);
        k = k + 1;
    }
    assert(c@.labels.take(k as int) =~= c@.labels);
    m
}

/// Aggregated observations, in order of first appearance.
pub struct CommStore {
    pub data: Vec<Communication>,
}

impl View for CommStore {
    type V = Seq<Record>;

    open spec fn view(&self) -> Seq<Record> {
        self.data@.map_values(|c: Communication| c@)
    }
}

impl CommStore {
    pub open spec fn wf(&self) -> bool {
        pairs_unique(self@)
    }

    /// A store holding nothing.
    pub fn empty() -> (r: CommStore)
        ensures
            r@ == Seq::<Record>::empty(),
            r.wf(),
    {
        CommStore { data: Vec::new() }
    }

    /// A store seeded with one self-referential record per local address,
    /// in group `desktop`, with no labels and a count of zero.
    pub fn new(local: &Vec<IpAddress>) -> (r: CommStore)
        ensures
            r@ == seed_spec(local@),
            r.wf(),
    {
        let mut store = CommStore::empty();
        let mut i: usize = 0;
        while i < local.len()
            invariant
                i <= local@.len(),
                store@ == seed_spec(local@.take(i as int)),
                store.wf(),
            decreases local@.len() - i,
        {
            let text = address_string(local[i]);
            let seed = Communication {
                src: text.clone(),
                src_group: group_name(Group::Desktop),
                dst: text,
                dst_group: group_name(Group::Desktop),
                typ: Vec::new(),
                value: 0,
            };
            assert(seed@.labels =~= seq![]);
            assert(local@.take(i + 1).drop_last() =~= local@.take(i as int));
            store.add(seed);
            i = i + 1;
        }
        assert(local@.take(i as int) =~= local@);
        store
    }

    /// Merge-insert of one observation: when a record with the same source
    /// and destination exists, each label of `comm` not yet in it is
    /// appended and its count rises by one per label of `comm`; otherwise
    /// `comm` is appended unchanged.
    pub fn add(&mut self, comm: Communication)
        requires
            old(self).wf(),
        ensures
            final(self)@ == add_spec(old(self)@, comm@),
            final(self).wf(),
    {
        proof {
            lemma_add_keeps_pairs_unique(self@, comm@);
        }
        let mut i: usize = 0;
        while i < self.data.len()
            invariant
                i <= self.data@.len(),
                self@ == old(self)@,
                pairs_unique(self@),
                forall|j: int| 0 <= j < i ==> !same_pair(#[trigger] self@[j], comm@),
            decreases self.data@.len() - i,
        {
            if self.data[i].src == comm.src && self.data[i].dst == comm.dst {
                let m = merged(&self.data[i], &comm);
                proof {
                    assert(same_pair(self@[i as int], comm@));
                    let k = pair_index(self@, comm@);
                    assert(k == i);
                }
                self.data.set(i, m);
                assert(self@ =~= add_spec(old(self)@, comm@));
                return;
            }
            assert(!same_pair(self@[i as int], comm@));
            i = i + 1;
        }
        self.data.push(comm);
        assert(self@ =~= add_spec(old(self)@, comm@));
    }

    /// Merges every record of `batch` in turn, as a collector does with a
    /// batch that an agent sent.
    pub fn ingest(&mut self, batch: &CommStore)
        requires
            old(self).wf(),
        ensures
            final(self)@ == ingest_spec(old(self)@, batch@),
            final(self).wf(),
    {
        let mut i: usize = 0;
        while i < batch.data.len()
            invariant
                i <= batch.data@.len(),
                self@ == ingest_spec(old(self)@, batch@.take(i as int)),
                self.wf(),
            decreases batch.data@.len() - i,
        {
            let c = batch.data[i].duplicate();
            assert(batch@.take(i + 1).drop_last() =~= batch@.take(i as int));
            self.add(c);
            i = i + 1;
        }
        assert(batch@.take(i as int) =~= batch@);
    }

    /// Classifies one dissected frame and merges what it contributes; a
    /// frame without addresses, or whose source equals its destination, is
    /// left out. Returns whether the frame was merged.
    pub fn record_frame(&mut self, layers: &Vec<Layer>) -> (merged: bool)
        requires
            old(self).wf(),
        ensures
            final(self).wf(),
            merged == frame_record(classification_of(layers@)) is Some,
            merged ==> final(self)@ == add_spec(
                old(self)@,
                frame_record(classification_of(layers@))->Some_0,
            ),
            !merged ==> final(self)@ == old(self)@,
            (frame_endpoints(layers@) matches Some(e) && e.source == e.destination) ==> final(self)@
                == old(self)@,
    {
        let c = classify_layers(layers);
        match observation(&c) {
            Some(o) => {
                self.add(o);
                true
            },
            None => false,
        }
    }
}

/// The observation a classified frame contributes, if any.
pub fn observation(c: &Classification) -> (r: Option<Communication>)
    ensures
        r is Some == frame_record(*c) is Some,
        r is Some ==> r->Some_0@ == frame_record(*c)->Some_0,
{
    match c.endpoints {
        None => None,
        Some(e) => {
            if e.source == e.destination {
                None
            } else {
                let mut typ: Vec<String> = Vec::new();
                typ.push(c.protocol.name());
                assert(labels_view(typ@) =~= seq![protocol_text(c.protocol)]);
                Some(
                    Communication {
                        src: address_string(e.source),
                        src_group: group_name(classify_address(e.source)),
                        dst: address_string(e.destination),
                        dst_group: group_name(classify_address(e.destination)),
                        typ,
                        value: 1,
                    },
                )
            }
        },
    }
}

} // verus!
