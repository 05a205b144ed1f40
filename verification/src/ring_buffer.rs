use vstd::prelude::*;
use crate::runtime::Buffer;
use crate::runtime::BufferProperties;
use crate::runtime::Runtime;

verus! {

/// A round-robin pool of fixed-size uniform buffers: `get` hands out
/// the next slot, growing the pool on demand, and `mark_all_available`
/// opens a new round. Within one round every buffer handed out is
/// distinct, so in-flight dispatches of one submission never share a
/// uniform buffer.
pub struct RingBuffer {
    pub buffers: Vec<Buffer>,
    pub num_used: usize,
    pub properties: BufferProperties,
}

impl RingBuffer {
    /// No more slots in use than exist, and every pooled buffer has
    /// the pool's properties.
    pub open spec fn wf(&self) -> bool {
        &&& self.num_used <= self.buffers@.len()
        &&& forall|i: int|
            0 <= i < self.buffers@.len() ==> (#[trigger] self.buffers@[i]).properties
                == self.properties
    }

    /// The pooled buffers are pairwise distinct, and all their uuids
    /// were handed out by a runtime that has moved past them.
    pub open spec fn uuids_distinct(&self, next_uuid: u64) -> bool {
        &&& forall|i: int|
            0 <= i < self.buffers@.len() ==> (#[trigger] self.buffers@[i]).uuid < next_uuid
        &&& forall|i: int, j: int|
            0 <= i < j < self.buffers@.len() ==> (#[trigger] self.buffers@[i]).uuid != (
            #[trigger] self.buffers@[j]).uuid
    }

    pub fn new(properties: BufferProperties) -> (r: Self)
        ensures
            r.properties == properties,
            r.num_used == 0,
            r.buffers@.len() == 0,
            r.wf(),
            forall|u: u64| r.uuids_distinct(u),
    {
        RingBuffer { buffers: Vec::new(), num_used: 0, properties }
    }

    /// Opens a new round: every slot becomes available again.
    pub fn mark_all_available(&mut self)
        ensures
            final(self).num_used == 0,
            final(self).buffers == old(self).buffers,
            final(self).properties == old(self).properties,
            old(self).wf() ==> final(self).wf(),
            forall|u: u64| old(self).uuids_distinct(u) ==> final(self).uuids_distinct(u),
    {
        self.num_used = 0;
    }

    /// Hands out the next buffer of the round; the pool grows when all
    /// slots are in use. As long as the pool's uuids are the ones the
    /// runtime gave it, the returned buffer differs from every buffer
    /// handed out since the round began.
    pub fn get(&mut self, runtime: &mut Runtime) -> (b: Buffer)
        requires
            old(self).wf(),
            old(runtime).next_uuid < u64::MAX,
        ensures
            final(self).wf(),
            b.properties == old(self).properties,
            final(self).properties == old(self).properties,
            final(self).num_used == old(self).num_used + 1,
            final(self).buffers@[old(self).num_used as int] == b,
            old(self).num_used < old(self).buffers@.len() ==> {
                &&& b == old(self).buffers@[old(self).num_used as int]
                &&& final(self).buffers == old(self).buffers
                &&& *final(runtime) == *old(runtime)
            },
            old(self).num_used >= old(self).buffers@.len() ==> {
                &&& b.uuid == old(runtime).next_uuid
                &&& final(self).buffers@ == old(self).buffers@.push(b)
                &&& final(runtime).next_uuid == old(runtime).next_uuid + 1
            },
            old(self).uuids_distinct(old(runtime).next_uuid) ==> {
                &&& final(self).uuids_distinct(final(runtime).next_uuid)
                &&& forall|i: int|
                    0 <= i < old(self).num_used ==> (#[trigger] old(self).buffers@[i]).uuid
                        != b.uuid
            },
            final(runtime).queue.writes == old(runtime).queue.writes,
            final(runtime).next_uuid >= old(runtime).next_uuid,
    {
        if self.num_used < self.buffers.len() {
            let b = self.buffers[self.num_used];
            self.num_used = self.num_used + 1;
            b
        } else {
            let b = runtime.create_buffer_of_properties(self.properties);
            self.buffers.push(b);
            self.num_used = self.buffers.len();
            b
        }
    }
}

} // verus!
