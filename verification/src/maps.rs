//! Footprint accounting for ordered key-value maps.

use crate::size::{clamp_usize, lemma_clamp_sum, lemma_sum_push, sat_add, sum, Size};
use std::collections::BTreeMap;
use vstd::prelude::*;
use vstd::std_specs::btree::key_obeys_cmp_spec;

verus! {

/// `n` is an admissible cost for the entry `kv`: the full size of its key
/// plus the full size of its value. Both full sizes count because map
/// entries are owned nodes stored out of line; the node bookkeeping itself
/// is deliberately not modeled — optimistic but close enough.
pub open spec fn entry_size_ok<K: Size, V: Size>(kv: (K, V), n: nat) -> bool {
    exists|a: nat, b: nat|
        {
            &&& #[trigger] kv.0.is_indirect_size(a)
            &&& #[trigger] kv.1.is_indirect_size(b)
            &&& n == vstd::layout::size_of::<K>() + a + vstd::layout::size_of::<V>() + b
        }
}

/// `entries` lists every key-value pair of `m` exactly once.
pub open spec fn entries_of<K, V>(m: Map<K, V>, entries: Seq<(K, V)>) -> bool {
    &&& entries.len() == m.dom().len()
    &&& entries.to_set() == m.kv_pairs()
}

/// `ns` lists an admissible entry cost for each entry of `entries`.
pub open spec fn entry_sizes<K: Size, V: Size>(entries: Seq<(K, V)>, ns: Seq<nat>) -> bool {
    &&& ns.len() == entries.len()
    &&& forall|i: int| 0 <= i < entries.len() ==> entry_size_ok(entries[i], #[trigger] ns[i])
}

/// The dereferenced pairs behind a sequence of entry references.
pub open spec fn deref_entries<K, V>(refs: Seq<(&K, &V)>) -> Seq<(K, V)> {
    refs.map_values(|kv: (&K, &V)| (*kv.0, *kv.1))
}

/// Relies on `BTreeMap::iter`: it visits every entry of the map exactly
/// once. As in the rest of the map's specification, the listed entries are
/// tied to the map's view only when the key type's comparison obeys its
/// specification. The body only collects the visited references into a
/// vector.
#[verifier::external_body]
fn map_entry_refs<'a, K, V>(m: &'a BTreeMap<K, V>) -> (r: Vec<(&'a K, &'a V)>)
    ensures
        key_obeys_cmp_spec::<K>() ==> {
            &&& r@.len() == m@.dom().len()
            &&& deref_entries(r@).to_set() == m@.kv_pairs()
        },
{
    m.iter().collect()
}

impl<K: Size, V: Size> Size for BTreeMap<K, V> {
    /// The summed entry costs of all entries, stated when the key type's
    /// comparison obeys its specification (which every populated `BTreeMap`
    /// relies on); for a key type without that guarantee the count is
    /// unconstrained.
    open spec fn is_indirect_size(&self, n: nat) -> bool {
        if key_obeys_cmp_spec::<K>() {
            exists|entries: Seq<(K, V)>, ns: Seq<nat>|
                {
                    &&& #[trigger] entries_of(self@, entries)
                    &&& #[trigger] entry_sizes(entries, ns)
                    &&& n == sum(ns)
                }
        } else {
            true
        }
    }

    fn indirect_size(&self) -> (r: usize) {
        let refs = map_entry_refs(self);
        let mut total: usize = 0;
        let ghost mut ns: Seq<nat> = Seq::empty();
        let mut i: usize = 0;
        while i < refs.len()
            invariant
                i <= refs@.len(),
                ns.len() == i,
                entry_sizes(deref_entries(refs@.take(i as int)), ns),
                total as nat == clamp_usize(sum(ns)),
                key_obeys_cmp_spec::<K>() ==> {
                    &&& refs@.len() == self@.dom().len()
                    &&& deref_entries(refs@).to_set() == self@.kv_pairs()
                },
            decreases refs@.len() - i,
        {
            let kv = refs[i];
            let a = kv.0.full_size();
            let b = kv.1.full_size();
            let entry = sat_add(a, b);
            proof {
                let ka = choose|w: nat|
                    kv.0.is_indirect_size(w) && a as nat == clamp_usize(
                        (vstd::layout::size_of::<K>() + w) as nat,
                    );
                let kb = choose|w: nat|
                    kv.1.is_indirect_size(w) && b as nat == clamp_usize(
                        (vstd::layout::size_of::<V>() + w) as nat,
                    );
                let cost: nat = vstd::layout::size_of::<K>() + ka + vstd::layout::size_of::<V>()
                    + kb;
                lemma_clamp_sum(
                    (vstd::layout::size_of::<K>() + ka) as nat,
                    (vstd::layout::size_of::<V>() + kb) as nat,
                );
                assert(entry as nat == clamp_usize(cost));
                assert(entry_size_ok((*kv.0, *kv.1), cost));
                lemma_clamp_sum(sum(ns), cost);
                lemma_sum_push(ns, cost);
                ns = ns.push(cost);
                assert(deref_entries(refs@.take(i + 1)) =~= deref_entries(
                    refs@.take(i as int),
                ).push((*kv.0, *kv.1)));
            }
            total = sat_add(total, entry);
            i = i + 1;
        }
        proof {
            assert(refs@.take(refs@.len() as int) =~= refs@);
            if key_obeys_cmp_spec::<K>() {
                assert(entries_of(self@, deref_entries(refs@)));
                assert(entry_sizes(deref_entries(refs@), ns));
                assert(self.is_indirect_size(sum(ns)));
            } else {
                assert(self.is_indirect_size(total as nat));
            }
        }
        total
    }
}

} // verus!
