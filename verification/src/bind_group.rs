use vstd::prelude::*;
use crate::runtime::Buffer;
use crate::runtime::Image;
use crate::runtime::Runtime;

verus! {

/// One resource bound at a binding index. The model identifies a
/// resource by its kind and its uuid — exactly the content the cache
/// keys on.
#[derive(Clone, Copy, PartialEq, Eq, Structural)]
pub enum BindingResource {
    Texture(u64),
    TextureStorage(u64, u32),
    Buffer(u64),
    Sampler(u64),
}

impl BindingResource {
    pub fn texture(img: &Image) -> (r: BindingResource)
        ensures
            r == BindingResource::Texture(img.uuid),
    {
        BindingResource::Texture(img.uuid)
    }

    pub fn texture_storage(img: &Image, mip: u32) -> (r: BindingResource)
        ensures
            r == BindingResource::TextureStorage(img.uuid, mip),
    {
        BindingResource::TextureStorage(img.uuid, mip)
    }

    pub fn buffer(b: &Buffer) -> (r: BindingResource)
        ensures
            r == BindingResource::Buffer(b.uuid),
    {
        BindingResource::Buffer(b.uuid)
    }
}

#[derive(Clone, Copy, PartialEq, Eq, Structural)]
pub struct BindGroupEntry {
    pub binding: u32,
    pub resource: BindingResource,
}

/// An ordered list of (binding, resource) pairs; the cache key is this
/// content.
pub struct BindGroupDescriptor {
    pub entries: Vec<BindGroupEntry>,
}

/// Content-keyed cache of bind groups for one layout. Bind groups are
/// identified by uuid; the cache never evicts within one execution.
pub struct BindGroupManager {
    pub layout: u64,
    pub cache: Vec<(BindGroupDescriptor, u64)>,
}

/// Is a bind group with exactly this content in the cache sequence?
pub open spec fn contains_key_of(cache: Seq<(BindGroupDescriptor, u64)>, key: Seq<BindGroupEntry>) -> bool {
    exists|i: int| 0 <= i < cache.len() && (#[trigger] cache[i]).0.entries@ == key
}

impl BindGroupManager {
    /// Is a bind group with exactly this content cached?
    pub open spec fn contains_key(&self, key: Seq<BindGroupEntry>) -> bool {
        contains_key_of(self.cache@, key)
    }

    pub open spec fn num_bind_groups(&self) -> nat {
        self.cache@.len()
    }

    pub fn new(layout: u64) -> (r: Self)
        ensures
            r.layout == layout,
            r.num_bind_groups() == 0,
    {
        BindGroupManager { layout, cache: Vec::new() }
    }

    /// The count of bind groups created so far through this manager.
    pub fn num_cached(&self) -> (r: usize)
        ensures
            r == self.num_bind_groups(),
    {
        self.cache.len()
    }

    /// Returns the cached bind group for this descriptor's content, or
    /// creates one on a miss and caches it. A hit leaves both the
    /// cache and the runtime untouched: re-binding the same resources
    /// never creates a new bind group.
    pub fn get_or_create(&mut self, runtime: &mut Runtime, desc: BindGroupDescriptor) -> (bg: u64)
        requires
            old(runtime).next_uuid < u64::MAX,
        ensures
            final(self).contains_key(desc.entries@),
            final(self).layout == old(self).layout,
            old(self).contains_key(desc.entries@) ==> {
                &&& final(self).cache == old(self).cache
                &&& *final(runtime) == *old(runtime)
                &&& exists|i: int|
                    0 <= i < old(self).cache@.len() && (#[trigger] old(self).cache@[i]).0.entries@
                        == desc.entries@ && old(self).cache@[i].1 == bg
            },
            !old(self).contains_key(desc.entries@) ==> {
                &&& bg == old(runtime).next_uuid
                &&& final(runtime).next_uuid == old(runtime).next_uuid + 1
                &&& final(self).num_bind_groups() == old(self).num_bind_groups() + 1
                &&& final(self).cache@.len() == old(self).cache@.len() + 1
                &&& forall|i: int|
                    0 <= i < old(self).cache@.len() ==> final(self).cache@[i] == old(
                        self,
                    ).cache@[i]
            },
            forall|key: Seq<BindGroupEntry>|
                old(self).contains_key(key) ==> #[trigger] final(self).contains_key(key),
            final(self).num_bind_groups() <= old(self).num_bind_groups() + 1,
            final(self).num_bind_groups() >= old(self).num_bind_groups(),
            final(runtime).queue.writes == old(runtime).queue.writes,
            final(runtime).next_uuid >= old(runtime).next_uuid,
    {
        let n = self.cache.len();
        let mut i: usize = 0;
        while i < n
            invariant
                0 <= i <= n,
                n == self.cache@.len(),
                forall|j: int| 0 <= j < i ==> (#[trigger] self.cache@[j]).0.entries@
                    != desc.entries@,
            decreases n - i,
        {
            if entries_eq(&self.cache[i].0.entries, &desc.entries) {
                return self.cache[i].1;
            }
            i = i + 1;
        }
        let ghost pre_cache = self.cache@;
        let bg = runtime.fresh_uuid();
        self.cache.push((desc, bg));
        proof {
            assert(self.cache@[self.cache@.len() - 1].0.entries@ == desc.entries@);
            assert forall|key: Seq<BindGroupEntry>|
                contains_key_of(pre_cache, key) implies #[trigger] contains_key_of(
                self.cache@,
                key,
            ) by {
                let i = choose|i: int|
                    0 <= i < pre_cache.len() && (#[trigger] pre_cache[i]).0.entries@ == key;
                assert(self.cache@[i].0.entries@ == key);
            };
        }
        bg
    }
}

/// Element-by-element equality of two entry lists.
fn entries_eq(a: &Vec<BindGroupEntry>, b: &Vec<BindGroupEntry>) -> (r: bool)
    ensures
        r == (a@ == b@),
{
    if a.len() != b.len() {
        proof {
            assert(a@.len() != b@.len());
        }
        return false;
    }
    let n = a.len();
    let mut i: usize = 0;
    while i < n
        invariant
            0 <= i <= n,
            n == a@.len(),
            a@.len() == b@.len(),
            forall|j: int| 0 <= j < i ==> a@[j] == b@[j],
        decreases n - i,
    {
        if !(a[i].binding == b[i].binding && a[i].resource == b[i].resource) {
            proof {
                assert(a@[i as int] != b@[i as int]);
            }
            return false;
        }
        i = i + 1;
    }
    proof {
        assert(a@ =~= b@);
    }
    true
}

} // verus!
