use vstd::prelude::*;
use crate::ir::Id;
use crate::runtime::Buffer;
use crate::runtime::BufferProperties;
use crate::runtime::Image;
use crate::runtime::ImageProperties;
use crate::runtime::Runtime;

verus! {

/// One intermediate value of a module execution.
#[derive(Clone, Copy, PartialEq, Eq)]
pub enum Value {
    Image(Image),
    Buffer(Buffer),
}

impl Value {
    /// Checked accessor: the image, or nothing on a kind mismatch.
    pub fn as_image(&self) -> (r: Option<Image>)
        ensures
            match *self {
                Value::Image(img) => r == Some(img),
                Value::Buffer(_) => r is None,
            },
    {
        match *self {
            Value::Image(img) => Some(img),
            Value::Buffer(_) => None,
        }
    }

    /// Checked accessor: the buffer, or nothing on a kind mismatch.
    pub fn as_buffer(&self) -> (r: Option<Buffer>)
        ensures
            match *self {
                Value::Buffer(b) => r == Some(b),
                Value::Image(_) => r is None,
            },
    {
        match *self {
            Value::Buffer(b) => Some(b),
            Value::Image(_) => None,
        }
    }
}

/// The typed arena owning all intermediate values of one module
/// execution, indexed by `Id`. Ids are dense, so the map is a vector
/// of slots.
pub struct ValueStore {
    pub slots: Vec<Option<Value>>,
}

impl ValueStore {
    /// The value stored at `id`, if any.
    pub open spec fn value_at(&self, id: Id) -> Option<Value> {
        if id < self.slots@.len() {
            self.slots@[id as int]
        } else {
            None
        }
    }

    pub fn new() -> (r: Self)
        ensures
            forall|id: Id| r.value_at(id) is None,
    {
        ValueStore { slots: Vec::new() }
    }

    /// Drops every value, keeping the arena itself for the next
    /// execution.
    pub fn clear(&mut self)
        ensures
            forall|id: Id| final(self).value_at(id) is None,
    {
        self.slots.clear();
    }

    pub fn get(&self, id: Id) -> (r: Option<Value>)
        ensures
            r == self.value_at(id),
    {
        if (id as usize) < self.slots.len() {
            self.slots[id as usize]
        } else {
            None
        }
    }

    /// Stores `value` at `id`, growing the arena when needed.
    pub fn insert(&mut self, id: Id, value: Value)
        ensures
            final(self).value_at(id) == Some(value),
            forall|x: Id| x != id ==> final(self).value_at(x) == old(self).value_at(x),
    {
        while self.slots.len() <= id as usize
            invariant
                forall|x: Id|
                    x < old(self).slots@.len() ==> self.slots@[x as int] == old(
                        self,
                    ).slots@[x as int],
                forall|x: int|
                    old(self).slots@.len() <= x < self.slots@.len() ==> self.slots@[x] is None,
                old(self).slots@.len() <= self.slots@.len(),
            decreases id as usize + 1 - self.slots.len(),
        {
            self.slots.push(None);
        }
        self.slots.set(id as usize, Some(value));
    }

    /// Returns the image at `id` when one with these properties is
    /// already there — keeping its uuid stable — and otherwise
    /// allocates a new texture, stores it and returns it, dropping
    /// whatever was there before.
    pub fn ensure_value_at_id_is_image_of_properties(
        &mut self,
        runtime: &mut Runtime,
        id: Id,
        properties: &ImageProperties,
    ) -> (img: Image)
        requires
            old(runtime).next_uuid < u64::MAX,
        ensures
            img.properties == *properties,
            final(self).value_at(id) == Some(Value::Image(img)),
            forall|x: Id| x != id ==> final(self).value_at(x) == old(self).value_at(x),
            match old(self).value_at(id) {
                Some(Value::Image(existing)) => if existing.properties == *properties {
                    &&& img == existing
                    &&& *final(runtime) == *old(runtime)
                    &&& *final(self) == *old(self)
                } else {
                    &&& img.uuid == old(runtime).next_uuid
                    &&& final(runtime).next_uuid == old(runtime).next_uuid + 1
                },
                _ => {
                    &&& img.uuid == old(runtime).next_uuid
                    &&& final(runtime).next_uuid == old(runtime).next_uuid + 1
                },
            },
            final(runtime).queue.writes == old(runtime).queue.writes,
            final(runtime).next_uuid >= old(runtime).next_uuid,
    {
        let existing = self.get(id);
        match existing {
            Some(Value::Image(existing_img)) => {
                if existing_img.properties.same_as(properties) {
                    return existing_img;
                }
            },
            _ => {},
        }
        let img = runtime.create_image_of_properties(*properties);
        self.insert(id, Value::Image(img));
        img
    }

    /// The buffer analogue of the image path: reuse on matching
    /// properties, else allocate, store and return.
    pub fn ensure_value_at_id_is_buffer_of_properties(
        &mut self,
        runtime: &mut Runtime,
        id: Id,
        properties: &BufferProperties,
    ) -> (b: Buffer)
        requires
            old(runtime).next_uuid < u64::MAX,
        ensures
            b.properties == *properties,
            final(self).value_at(id) == Some(Value::Buffer(b)),
            forall|x: Id| x != id ==> final(self).value_at(x) == old(self).value_at(x),
            match old(self).value_at(id) {
                Some(Value::Buffer(existing)) => if existing.properties == *properties {
                    &&& b == existing
                    &&& *final(runtime) == *old(runtime)
                    &&& *final(self) == *old(self)
                } else {
                    &&& b.uuid == old(runtime).next_uuid
                    &&& final(runtime).next_uuid == old(runtime).next_uuid + 1
                },
                _ => {
                    &&& b.uuid == old(runtime).next_uuid
                    &&& final(runtime).next_uuid == old(runtime).next_uuid + 1
                },
            },
            final(runtime).queue.writes == old(runtime).queue.writes,
            final(runtime).next_uuid >= old(runtime).next_uuid,
    {
        let existing = self.get(id);
        match existing {
            Some(Value::Buffer(existing_buf)) => {
                if existing_buf.properties.size == properties.size
                    && existing_buf.properties.host_readable == properties.host_readable {
                    return existing_buf;
                }
            },
            _ => {},
        }
        let b = runtime.create_buffer_of_properties(*properties);
        self.insert(id, Value::Buffer(b));
        b
    }
}

} // verus!
