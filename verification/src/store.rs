//! Stores of node records, keyed by node number.

use std::collections::HashMap;
use vstd::prelude::*;
use crate::types::{PeerRecord, PeerView};

verus! {

broadcast use vstd::std_specs::hash::group_hash_axioms;

/// The records of `m` as mathematical values.
pub open spec fn records_by_number(m: Map<u32, PeerRecord>) -> Map<u32, PeerView> {
    m.map_values(|r: PeerRecord| r@)
}

/// A place to keep what is known of the nodes.
pub trait Store {
    /// What the store holds: for each node number at most one record.
    spec fn nodes(&self) -> Map<u32, PeerView>;

    /// Takes `node_info` in: it replaces the record of its node if there is
    /// one, and else is added.
    fn upsert_node(&mut self, node_info: PeerRecord)
        ensures
            final(self).nodes() == old(self).nodes().insert(node_info.num, node_info@),
    ;

    /// A copy of what the store holds.
    fn get_nodes(&self) -> (nodes: HashMap<u32, PeerRecord>)
        ensures
            records_by_number(nodes@) == self.nodes(),
    ;
}

/// A store that lives in memory and ends with the process.
pub struct InMemoryStore {
    data: HashMap<u32, PeerRecord>,
}

impl InMemoryStore {
    /// An empty store.
    pub fn new() -> (store: InMemoryStore)
        ensures
            store.nodes() == Map::<u32, PeerView>::empty(),
    {
        let store = InMemoryStore { data: HashMap::new() };
        assert(records_by_number(store.data@) =~= Map::<u32, PeerView>::empty());
        store
    }
}

impl Store for InMemoryStore {
    closed spec fn nodes(&self) -> Map<u32, PeerView> {
        records_by_number(self.data@)
    }

    fn upsert_node(&mut self, node_info: PeerRecord) {
        let ghost record = node_info@;
        let num: u32 = node_info.num;
        let _ = self.data.insert(num, node_info);
        assert(records_by_number(self.data@) =~= records_by_number(old(self).data@).insert(
            num,
            record,
        ));
    }

    fn get_nodes(&self) -> (nodes: HashMap<u32, PeerRecord>) {
        self.data.clone()
    }
}

} // verus!
