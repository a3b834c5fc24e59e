//! The peer directory: the known nodes, listed by ascending node number.
//!
//! The listing is the model. It holds each node number at most once, so it
//! is also a mapping from node number to record, and its order does not
//! depend on the order in which the nodes were announced.

use vstd::prelude::*;
use crate::types::{PeerRecord, PeerView};

verus! {

/// The records of `v` as mathematical values.
pub open spec fn records_view(v: Seq<PeerRecord>) -> Seq<PeerView> {
    v.map_values(|r: PeerRecord| r@)
}

/// The listing is in strictly ascending order of node number.
pub open spec fn ascending(nodes: Seq<PeerView>) -> bool {
    forall|i: int, j: int| 0 <= i < j < nodes.len() ==> nodes[i].num < nodes[j].num
}

/// Whether the listing holds a record of the node `id`.
pub open spec fn contains_id(nodes: Seq<PeerView>, id: u32) -> bool {
    exists|i: int| 0 <= i < nodes.len() && #[trigger] nodes[i].num == id
}

/// Number of records in the listing whose node number is below `id`. In an
/// ascending listing this is the place of `id`: where its record stands, or
/// where it would be put.
pub open spec fn rank(nodes: Seq<PeerView>, id: u32) -> int
    decreases nodes.len(),
{
    if nodes.len() == 0 {
        0
    } else {
        rank(nodes.drop_last(), id) + if nodes.last().num < id {
            1int
        } else {
            0int
        }
    }
}

/// Whether the record at the place of `id` is that of `id`.
pub open spec fn present(nodes: Seq<PeerView>, id: u32) -> bool {
    rank(nodes, id) < nodes.len() && nodes[rank(nodes, id)].num == id
}

/// The listing after `record` was announced: it replaces the record of its
/// node if there is one, and else is put at its place.
pub open spec fn upsert(nodes: Seq<PeerView>, record: PeerView) -> Seq<PeerView> {
    let k = rank(nodes, record.num);
    if present(nodes, record.num) {
        nodes.update(k, record)
    } else {
        nodes.insert(k, record)
    }
}

/// The record of the node `id`, if the listing has one.
pub open spec fn record_of(nodes: Seq<PeerView>, id: u32) -> Option<PeerView> {
    if present(nodes, id) {
        Some(nodes[rank(nodes, id)])
    } else {
        None
    }
}

/// In an ascending listing, the records before the place of `id` have lower
/// numbers, and those from it on do not.
pub proof fn lemma_rank_splits(nodes: Seq<PeerView>, id: u32)
    requires
        ascending(nodes),
    ensures
        0 <= rank(nodes, id) <= nodes.len(),
        forall|i: int| 0 <= i < rank(nodes, id) ==> (#[trigger] nodes[i]).num < id,
        forall|i: int| rank(nodes, id) <= i < nodes.len() ==> (#[trigger] nodes[i]).num >= id,
    decreases nodes.len(),
{
    if nodes.len() > 0 {
        let front = nodes.drop_last();
        assert(ascending(front));
        lemma_rank_splits(front, id);
        if nodes.last().num < id {
            if rank(front, id) < front.len() {
                assert(front[rank(front, id)].num >= id);
                assert(nodes[rank(front, id)].num < nodes[nodes.len() - 1].num);
            }
        }
        assert forall|i: int| 0 <= i < rank(nodes, id) implies (#[trigger] nodes[i]).num < id by {
            if i < front.len() {
                assert(front[i] == nodes[i]);
            }
        }
        assert forall|i: int| rank(nodes, id) <= i < nodes.len() implies (#[trigger] nodes[i]).num
            >= id by {
            if i < front.len() {
                assert(front[i] == nodes[i]);
            }
        }
    }
}

/// The place of `id` in an ascending listing is the only index that splits
/// it into lower numbers and the rest.
pub proof fn lemma_rank_is(nodes: Seq<PeerView>, id: u32, k: int)
    requires
        ascending(nodes),
        0 <= k <= nodes.len(),
        forall|i: int| 0 <= i < k ==> (#[trigger] nodes[i]).num < id,
        forall|i: int| k <= i < nodes.len() ==> (#[trigger] nodes[i]).num >= id,
    ensures
        rank(nodes, id) == k,
{
    lemma_rank_splits(nodes, id);
    let r = rank(nodes, id);
    if r < k {
        assert(nodes[r].num < id);
    } else if k < r {
        assert(nodes[k].num >= id);
    }
}

/// In an ascending listing a node is listed exactly if its record stands at
/// its place.
pub proof fn lemma_present_iff_listed(nodes: Seq<PeerView>, id: u32)
    requires
        ascending(nodes),
    ensures
        present(nodes, id) <==> contains_id(nodes, id),
{
    lemma_rank_splits(nodes, id);
    if contains_id(nodes, id) {
        let i = choose|i: int| 0 <= i < nodes.len() && #[trigger] nodes[i].num == id;
        let r = rank(nodes, id);
        if i < r {
            assert(nodes[i].num < id);
        } else if r < i {
            assert(nodes[r].num >= id);
            assert(nodes[r].num < nodes[i].num);
        }
    }
}

/// An announcement keeps the listing ascending, and afterwards the record
/// stands at the place of its node.
pub proof fn lemma_upsert_ascending(nodes: Seq<PeerView>, record: PeerView)
    requires
        ascending(nodes),
    ensures
        ascending(upsert(nodes, record)),
        rank(upsert(nodes, record), record.num) == rank(nodes, record.num),
        present(upsert(nodes, record), record.num),
        upsert(nodes, record)[rank(nodes, record.num)] == record,
        upsert(nodes, record).len() == nodes.len() + if present(nodes, record.num) {
            0int
        } else {
            1int
        },
{
    lemma_rank_splits(nodes, record.num);
    let k = rank(nodes, record.num);
    let after = upsert(nodes, record);
    if present(nodes, record.num) {
        assert forall|i: int, j: int| 0 <= i < j < after.len() implies after[i].num
            < after[j].num by {
            assert(nodes[i].num < nodes[j].num);
        }
        assert forall|i: int| 0 <= i < k implies (#[trigger] after[i]).num < record.num by {
            assert(nodes[i].num < record.num);
        }
        assert forall|i: int| k <= i < after.len() implies (#[trigger] after[i]).num
            >= record.num by {
            assert(nodes[i].num >= record.num);
        }
    } else {
        assert forall|i: int, j: int| 0 <= i < j < after.len() implies after[i].num
            < after[j].num by {
            if j < k {
                assert(nodes[i].num < nodes[j].num);
            } else if j == k {
                assert(nodes[i].num < record.num);
            } else if i < k {
                assert(nodes[i].num < record.num);
                assert(nodes[j - 1].num >= record.num);
                assert(k < nodes.len());
                assert(nodes[k].num != record.num);
                assert(nodes[k].num <= nodes[j - 1].num) by {
                    if k < j - 1 {
                        assert(nodes[k].num < nodes[j - 1].num);
                    }
                }
            } else if i == k {
                assert(nodes[j - 1].num >= record.num);
                assert(nodes[k].num != record.num);
                assert(nodes[k].num <= nodes[j - 1].num) by {
                    if k < j - 1 {
                        assert(nodes[k].num < nodes[j - 1].num);
                    }
                }
            } else {
                assert(nodes[i - 1].num < nodes[j - 1].num);
            }
        }
        assert forall|i: int| 0 <= i < k implies (#[trigger] after[i]).num < record.num by {
            assert(nodes[i].num < record.num);
        }
        assert forall|i: int| k <= i < after.len() implies (#[trigger] after[i]).num
            >= record.num by {
            if i > k {
                assert(nodes[i - 1].num >= record.num);
            }
        }
    }
    lemma_rank_is(after, record.num, k);
}

/// Where the records of a listing stand after an announcement: those before
/// the place of the announced node stay, and those from it on move one down
/// if the node is new.
pub proof fn lemma_upsert_elements(nodes: Seq<PeerView>, record: PeerView, i: int)
    requires
        ascending(nodes),
        0 <= i < nodes.len(),
    ensures
        ({
            let k = rank(nodes, record.num);
            let after = upsert(nodes, record);
            let j = if !present(nodes, record.num) && k <= i {
                i + 1
            } else {
                i
            };
            &&& 0 <= j < after.len()
            &&& after[j].num == nodes[i].num
            &&& nodes[i].num != record.num ==> after[j] == nodes[i]
        }),
{
    lemma_rank_splits(nodes, record.num);
}

/// An announcement acts on the listing as an insertion acts on a mapping:
/// afterwards the announced node has the announced record, and every other
/// node has the record that it had, or none as before.
pub proof fn lemma_upsert_is_insert(nodes: Seq<PeerView>, record: PeerView, id: u32)
    requires
        ascending(nodes),
    ensures
        record_of(upsert(nodes, record), id) == if id == record.num {
            Some(record)
        } else {
            record_of(nodes, id)
        },
{
    let after = upsert(nodes, record);
    let k = rank(nodes, record.num);
    lemma_upsert_ascending(nodes, record);
    lemma_rank_splits(nodes, record.num);
    lemma_rank_splits(nodes, id);
    lemma_rank_splits(after, id);
    lemma_present_iff_listed(nodes, id);
    lemma_present_iff_listed(after, id);
    if id != record.num {
        if present(nodes, id) {
            let i = rank(nodes, id);
            lemma_upsert_elements(nodes, record, i);
            let j = if !present(nodes, record.num) && k <= i {
                i + 1
            } else {
                i
            };
            assert(after[j].num == id);
            let r = rank(after, id);
            if r < j {
                assert(after[r].num < after[j].num);
            } else if j < r {
                assert(after[j].num < after[r].num);
            }
        } else if present(after, id) {
            let r = rank(after, id);
            if present(nodes, record.num) {
                assert(nodes[r].num == id);
            } else if r < k {
                assert(nodes[r].num == id);
            } else {
                assert(nodes[r - 1].num == id);
            }
        }
    }
}

/// The listing that results when the records of `records` are announced in
/// order to an empty directory.
pub open spec fn listing_of(records: Seq<PeerView>) -> Seq<PeerView>
    decreases records.len(),
{
    if records.len() == 0 {
        Seq::empty()
    } else {
        upsert(listing_of(records.drop_last()), records.last())
    }
}

/// No two of the records are of the same node.
pub open spec fn distinct_ids(records: Seq<PeerView>) -> bool {
    forall|i: int, j: int| 0 <= i < j < records.len() ==> records[i].num != records[j].num
}

/// The two sequences hold the same records, in whatever order.
pub open spec fn same_records(a: Seq<PeerView>, b: Seq<PeerView>) -> bool {
    forall|r: PeerView| a.contains(r) <==> b.contains(r)
}

/// When records of different nodes are announced, the listing holds exactly
/// those records, by ascending node number.
pub proof fn lemma_listing_holds_what_was_announced(records: Seq<PeerView>)
    requires
        distinct_ids(records),
    ensures
        ascending(listing_of(records)),
        same_records(listing_of(records), records),
    decreases records.len(),
{
    if records.len() > 0 {
        let front = records.drop_last();
        let last = records.last();
        let listed = listing_of(front);
        lemma_listing_holds_what_was_announced(front);
        lemma_upsert_ascending(listed, last);
        lemma_rank_splits(listed, last.num);
        lemma_present_iff_listed(listed, last.num);
        let k = rank(listed, last.num);
        if contains_id(listed, last.num) {
            let i = choose|i: int| 0 <= i < listed.len() && #[trigger] listed[i].num == last.num;
            assert(listed.contains(listed[i]));
            assert(front.contains(listed[i]));
            let j = choose|j: int| 0 <= j < front.len() && front[j] == listed[i];
            assert(records[j].num == records[records.len() - 1].num);
        }
        let after = listing_of(records);
        assert(after == listed.insert(k, last));
        assert forall|r: PeerView| after.contains(r) <==> records.contains(r) by {
            if after.contains(r) {
                let i = choose|i: int| 0 <= i < after.len() && after[i] == r;
                if i < k {
                    assert(listed.contains(listed[i]));
                } else if i > k {
                    assert(listed.contains(listed[i - 1]));
                }
                if i != k {
                    assert(front.contains(r));
                    let j = choose|j: int| 0 <= j < front.len() && front[j] == r;
                    assert(records[j] == r);
                } else {
                    assert(records[records.len() - 1] == r);
                }
            }
            if records.contains(r) {
                let j = choose|j: int| 0 <= j < records.len() && records[j] == r;
                if j < front.len() {
                    assert(front[j] == r);
                    assert(front.contains(r));
                    assert(listed.contains(r));
                    let i = choose|i: int| 0 <= i < listed.len() && listed[i] == r;
                    if i < k {
                        assert(after[i] == r);
                    } else {
                        assert(after[i + 1] == r);
                    }
                } else {
                    assert(after[k] == r);
                }
            }
        }
    }
}

/// For any set of records there is at most one listing of them by ascending
/// node number.
pub proof fn lemma_ascending_listing_is_unique(a: Seq<PeerView>, b: Seq<PeerView>)
    requires
        ascending(a),
        ascending(b),
        same_records(a, b),
    ensures
        a == b,
    decreases a.len(),
{
    if a.len() == 0 {
        if b.len() > 0 {
            assert(b.contains(b[0]));
        }
        assert(a =~= b);
    } else {
        let top = a.last();
        assert(a.contains(a[a.len() - 1]));
        assert(b.contains(top));
        let j = choose|j: int| 0 <= j < b.len() && b[j] == top;
        assert(b.contains(b[b.len() - 1]));
        assert(a.contains(b.last()));
        let i = choose|i: int| 0 <= i < a.len() && a[i] == b.last();
        if i < a.len() - 1 {
            assert(a[i].num < a[a.len() - 1].num);
        }
        if j < b.len() - 1 {
            assert(b[j].num < b[b.len() - 1].num);
        }
        assert(b.last() == top);
        let af = a.drop_last();
        let bf = b.drop_last();
        assert forall|r: PeerView| af.contains(r) <==> bf.contains(r) by {
            if af.contains(r) {
                let x = choose|x: int| 0 <= x < af.len() && af[x] == r;
                assert(a[x].num < a[a.len() - 1].num);
                assert(a.contains(a[x]));
                let y = choose|y: int| 0 <= y < b.len() && b[y] == r;
                assert(bf[y] == r);
            }
            if bf.contains(r) {
                let y = choose|y: int| 0 <= y < bf.len() && bf[y] == r;
                assert(b[y].num < b[b.len() - 1].num);
                assert(b.contains(b[y]));
                let x = choose|x: int| 0 <= x < a.len() && a[x] == r;
                assert(af[x] == r);
            }
        }
        lemma_ascending_listing_is_unique(af, bf);
        assert(a =~= af.push(top));
        assert(b =~= bf.push(top));
    }
}

/// The listing does not depend on the order of arrival: when the same
/// records of different nodes are announced in two orders, the two listings
/// are the same, by ascending node number.
pub proof fn lemma_order_of_arrival_is_forgotten(a: Seq<PeerView>, b: Seq<PeerView>)
    requires
        distinct_ids(a),
        distinct_ids(b),
        same_records(a, b),
    ensures
        listing_of(a) == listing_of(b),
        ascending(listing_of(a)),
{
    lemma_listing_holds_what_was_announced(a);
    lemma_listing_holds_what_was_announced(b);
    lemma_ascending_listing_is_unique(listing_of(a), listing_of(b));
}

/// The place of `id` in the listing, found by bisection.
pub fn place(nodes: &Vec<PeerRecord>, id: u32) -> (k: usize)
    requires
        ascending(records_view(nodes@)),
    ensures
        k == rank(records_view(nodes@), id),
        k <= nodes.len(),
{
    let ghost listing = records_view(nodes@);
    let mut lo: usize = 0;
    let mut hi: usize = nodes.len();
    while lo < hi
        invariant
            lo <= hi <= nodes.len(),
            listing == records_view(nodes@),
            ascending(listing),
            forall|i: int| 0 <= i < lo ==> (#[trigger] listing[i]).num < id,
            forall|i: int| hi <= i < listing.len() ==> (#[trigger] listing[i]).num >= id,
        decreases hi - lo,
    {
        let mid: usize = lo + (hi - lo) / 2;
        if nodes[mid].num < id {
            proof {
                assert(listing[mid as int].num < id);
                assert forall|i: int| 0 <= i < mid + 1 implies (#[trigger] listing[i]).num
                    < id by {
                    if i < mid {
                        assert(listing[i].num < listing[mid as int].num);
                    }
                }
            }
            lo = mid + 1;
        } else {
            proof {
                assert(listing[mid as int].num >= id);
                assert forall|i: int| mid <= i < listing.len() implies (#[trigger] listing[i]).num
                    >= id by {
                    if mid < i {
                        assert(listing[mid as int].num < listing[i].num);
                    }
                }
            }
            hi = mid;
        }
    }
    proof {
        lemma_rank_is(listing, id, lo as int);
    }
    lo
}

/// Takes `record` into the listing. Returns the place of its node and
/// whether a record of that node was there before.
pub fn upsert_record(nodes: &mut Vec<PeerRecord>, record: PeerRecord) -> (at: (usize, bool))
    requires
        ascending(records_view(old(nodes)@)),
    ensures
        records_view(final(nodes)@) == upsert(records_view(old(nodes)@), record@),
        ascending(records_view(final(nodes)@)),
        at.0 == rank(records_view(old(nodes)@), record.num),
        at.1 == present(records_view(old(nodes)@), record.num),
{
    let ghost before = records_view(nodes@);
    let ghost value = record@;
    let k: usize = place(nodes, record.num);
    proof {
        lemma_upsert_ascending(before, value);
    }
    let known: bool = k < nodes.len() && nodes[k].num == record.num;
    if known {
        nodes.set(k, record);
        assert(records_view(nodes@) =~= before.update(k as int, value));
    } else {
        nodes.insert(k, record);
        assert(records_view(nodes@) =~= before.insert(k as int, value));
    }
    (k, known)
}

} // verus!
