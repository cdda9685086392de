//! The process-wide descriptor cache: lazily populated, append-only, never
//! evicted.  Each slot is built at most once, and what a lookup returned once
//! it returns unchanged for the life of the registry.

use vstd::prelude::*;
use crate::descriptor::build_descriptor;
use crate::descriptor::descriptor_matches;
use crate::descriptor::meta_nul_free;
use crate::descriptor::Descriptor;
use crate::descriptor::DescriptorError;
use crate::meta::PluginDescriptor;

verus! {

/// The cache of flat descriptors, indexed by plugin index in the order they
/// were first described.
pub struct Registry {
    pub slots: Vec<Descriptor>,
}

impl Registry {
    /// A registry with nothing cached yet.
    pub fn new() -> (r: Registry)
        ensures
            r.slots@.len() == 0,
    {
        Registry { slots: Vec::new() }
    }

    /// How many descriptors are cached.
    pub fn descriptor_count(&self) -> (r: usize)
        ensures
            r == self.slots@.len(),
    {
        self.slots.len()
    }

    /// The cached descriptor at an index: repeated lookups return the same
    /// cached record, and nothing once the index exceeds what was cached.
    pub fn get(&self, index: usize) -> (r: Option<&Descriptor>)
        ensures
            index < self.slots@.len() ==> (r matches Some(d) && *d == self.slots@[index as int]),
            index >= self.slots@.len() ==> r is None,
    {
        if index < self.slots.len() {
            Some(&self.slots[index])
        } else {
            None
        }
    }

    /// Builds and caches the descriptor for freshly described metadata,
    /// appending it as the next slot.  Already-cached slots are never
    /// touched, so what `get` returned before the call it returns after it.
    /// Fails exactly when the metadata holds a string with an interior
    /// terminator byte, and then caches nothing.
    pub fn install(&mut self, meta: PluginDescriptor) -> (r: Result<usize, DescriptorError>)
        ensures
            r matches Ok(slot) ==> meta_nul_free(meta) && slot == old(self).slots@.len()
                && final(self).slots@.len() == old(self).slots@.len() + 1 && descriptor_matches(
                final(self).slots@[slot as int],
                meta,
            ) && old(self).slots@.is_prefix_of(final(self).slots@),
            r is Err <==> !meta_nul_free(meta),
            r is Err ==> final(self).slots == old(self).slots,
    {
        match build_descriptor(meta) {
            Ok(d) => {
                let slot = self.slots.len();
                self.slots.push(d);
                proof {
                    assert(old(self).slots@ =~= self.slots@.subrange(
                        0,
                        old(self).slots@.len() as int,
                    ));
                }
                Ok(slot)
            },
            Err(e) => Err(e),
        }
    }
}

/// Law: the registry is idempotent.  A cached slot never changes: any later
/// state the registry can reach extends the earlier contents, so the
/// descriptor a lookup returned for an index is the descriptor every later
/// lookup of that index returns.
pub proof fn lemma_cached_lookup_stable(pre: Seq<Descriptor>, post: Seq<Descriptor>, index: int)
    requires
        pre.is_prefix_of(post),
        0 <= index < pre.len(),
    ensures
        post[index] == pre[index],
{
    assert(pre =~= post.subrange(0, pre.len() as int));
}

} // verus!
