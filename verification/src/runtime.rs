use vstd::prelude::*;

verus! {

#[derive(Clone, Copy, PartialEq, Eq, Structural, Debug)]
pub enum ImageFormat {
    Rgba8Unorm,
    Rgba16Float,
    R16Float,
}

#[derive(Clone, Copy, PartialEq, Eq, Structural, Debug)]
pub enum ColorSpace {
    SrgbNonLinear,
    LinearRGB,
    HSL,
}

#[derive(Clone, Copy, PartialEq, Eq, Debug)]
pub struct ImageProperties {
    pub dimensions: (u32, u32),
    pub format: ImageFormat,
    pub color_space: ColorSpace,
}

impl ImageProperties {
    pub open spec fn wf(&self) -> bool {
        self.dimensions.0 >= 1 && self.dimensions.1 >= 1
    }
}

impl ImageProperties {
    /// Field-by-field equality, the meaning of `==` on properties.
    pub fn same_as(&self, other: &ImageProperties) -> (r: bool)
        ensures
            r == (*self == *other),
    {
        let r = self.dimensions.0 == other.dimensions.0 && self.dimensions.1 == other.dimensions.1
            && self.format == other.format && self.color_space == other.color_space;
        proof {
            if r {
                assert(self.dimensions == other.dimensions);
            }
        }
        r
    }
}

/// The number of mip levels of an image whose longer edge is `d`
/// texels: one per halving down to a single texel.
pub open spec fn mip_levels_spec(d: nat) -> nat
    decreases d,
{
    if d <= 1 {
        1
    } else {
        1 + mip_levels_spec(d / 2)
    }
}

pub fn compute_mip_levels(d: u32) -> (r: u32)
    ensures
        r == mip_levels_spec(d as nat),
{
    let mut levels: u32 = 1;
    let mut rest: u32 = d;
    while rest > 1
        invariant
            1 <= levels,
            mip_levels_spec(d as nat) == levels + mip_levels_spec(rest as nat) - 1,
            levels <= 33,
        decreases rest,
    {
        rest = rest / 2;
        levels = levels + 1;
        proof {
            assert(levels <= 33) by {
                assert(mip_levels_spec(rest as nat) >= 1) by {
                    lemma_mip_levels_at_least_one(rest as nat);
                }
                lemma_mip_levels_at_most(d as nat);
            };
        }
    }
    levels
}

pub proof fn lemma_mip_levels_at_least_one(d: nat)
    ensures
        mip_levels_spec(d) >= 1,
    decreases d,
{
    if d > 1 {
        lemma_mip_levels_at_least_one(d / 2);
    }
}

pub proof fn lemma_mip_levels_at_most(d: nat)
    requires
        d <= u32::MAX,
    ensures
        mip_levels_spec(d) <= 33,
{
    vstd::arithmetic::power2::lemma2_to64();
    lemma_mip_levels_bound(d, 32);
}

proof fn lemma_mip_levels_bound(d: nat, k: nat)
    requires
        d < vstd::arithmetic::power2::pow2(k),
    ensures
        mip_levels_spec(d) <= k + 1,
    decreases d,
{
    if d > 1 {
        vstd::arithmetic::power2::lemma2_to64();
        if k >= 1 {
            vstd::arithmetic::power2::lemma_pow2_unfold(k);
            lemma_mip_levels_bound(d / 2, (k - 1) as nat);
        }
    }
}

/// A texture descriptor. The model carries the attributes the
/// scheduling logic reads; the texels live on the GPU.
#[derive(Clone, Copy, PartialEq, Eq, Debug)]
pub struct Image {
    pub properties: ImageProperties,
    pub mip_level_count: u32,
    pub uuid: u64,
}

#[derive(Clone, Copy, PartialEq, Eq, Structural, Debug)]
pub struct BufferProperties {
    pub size: usize,
    pub host_readable: bool,
}

/// A buffer descriptor.
#[derive(Clone, Copy, PartialEq, Eq, Structural, Debug)]
pub struct Buffer {
    pub properties: BufferProperties,
    pub uuid: u64,
}

/// One encoded GPU command of the model.
#[derive(Clone, Copy, PartialEq, Eq, Debug)]
pub enum Command {
    Dispatch { pipeline: u64, bind_group: u64, workgroups: (u32, u32, u32) },
    CopyBufferToBuffer { src: u64, dst: u64, size: usize },
    GenerateMipmaps { image: u64 },
}

/// The ordered list of commands of one submission.
pub struct CommandEncoder {
    pub commands: Vec<Command>,
}

impl CommandEncoder {
    pub fn new() -> (r: Self)
        ensures
            r.commands@.len() == 0,
    {
        CommandEncoder { commands: Vec::new() }
    }

    pub fn dispatch(&mut self, pipeline: u64, bind_group: u64, x: u32, y: u32, z: u32)
        ensures
            final(self).commands@ == old(self).commands@.push(
                Command::Dispatch { pipeline, bind_group, workgroups: (x, y, z) },
            ),
    {
        self.commands.push(Command::Dispatch { pipeline, bind_group, workgroups: (x, y, z) });
    }

    pub fn copy_buffer_to_buffer(&mut self, src: &Buffer, dst: &Buffer, size: usize)
        ensures
            final(self).commands@ == old(self).commands@.push(
                Command::CopyBufferToBuffer { src: src.uuid, dst: dst.uuid, size },
            ),
    {
        self.commands.push(
            Command::CopyBufferToBuffer { src: src.uuid, dst: dst.uuid, size },
        );
    }
}

/// One uniform upload: the buffer written and the fixed-point values.
pub struct UniformWrite {
    pub buffer: u64,
    pub values: Vec<i64>,
}

/// The submission queue; the model records uniform uploads in order.
pub struct Queue {
    pub writes: Vec<UniformWrite>,
}

impl Queue {
    pub fn write_buffer(&mut self, buffer: &Buffer, values: Vec<i64>)
        ensures
            final(self).writes@.len() == old(self).writes@.len() + 1,
            final(self).writes@.last().buffer == buffer.uuid,
            final(self).writes@.last().values@ == values@,
            forall|i: int|
                0 <= i < old(self).writes@.len() ==> final(self).writes@[i] == old(
                    self,
                ).writes@[i],
    {
        self.writes.push(UniformWrite { buffer: buffer.uuid, values });
    }
}

/// The device and queue handle. Every resource the runtime creates
/// carries a uuid from one monotonic counter, so that two live
/// resources never share a uuid and bind groups can be cached by
/// content.
pub struct Runtime {
    pub next_uuid: u64,
    pub queue: Queue,
}

impl Runtime {
    pub fn new() -> (r: Self)
        ensures
            r.next_uuid == 0,
            r.queue.writes@.len() == 0,
    {
        Runtime { next_uuid: 0, queue: Queue { writes: Vec::new() } }
    }

    pub fn fresh_uuid(&mut self) -> (r: u64)
        requires
            old(self).next_uuid < u64::MAX,
        ensures
            r == old(self).next_uuid,
            final(self).next_uuid == old(self).next_uuid + 1,
            final(self).queue.writes == old(self).queue.writes,
    {
        let r = self.next_uuid;
        self.next_uuid = self.next_uuid + 1;
        r
    }

    pub fn create_image_of_properties(&mut self, properties: ImageProperties) -> (img: Image)
        requires
            old(self).next_uuid < u64::MAX,
        ensures
            img.properties == properties,
            img.uuid == old(self).next_uuid,
            img.mip_level_count == mip_levels_spec(
                vstd::math::max(
                    properties.dimensions.0 as int,
                    properties.dimensions.1 as int,
                ) as nat,
            ),
            final(self).next_uuid == old(self).next_uuid + 1,
            final(self).queue.writes == old(self).queue.writes,
    {
        let longer = if properties.dimensions.0 >= properties.dimensions.1 {
            properties.dimensions.0
        } else {
            properties.dimensions.1
        };
        let mip_level_count = compute_mip_levels(longer);
        let uuid = self.fresh_uuid();
        Image { properties, mip_level_count, uuid }
    }

    pub fn create_buffer_of_properties(&mut self, properties: BufferProperties) -> (b: Buffer)
        requires
            old(self).next_uuid < u64::MAX,
        ensures
            b.properties == properties,
            b.uuid == old(self).next_uuid,
            final(self).next_uuid == old(self).next_uuid + 1,
            final(self).queue.writes == old(self).queue.writes,
    {
        let uuid = self.fresh_uuid();
        Buffer { properties, uuid }
    }

    /// Builds one compute pipeline and its bind group layout; the
    /// shader itself lives on the GPU side and is identified by the
    /// pipeline's uuid.
    pub fn create_compute_pipeline(&mut self) -> (r: (u64, u64))
        requires
            old(self).next_uuid + 2 <= u64::MAX,
        ensures
            r.0 == old(self).next_uuid,
            r.1 == old(self).next_uuid + 1,
            final(self).next_uuid == old(self).next_uuid + 2,
            final(self).queue.writes == old(self).queue.writes,
    {
        let pipeline = self.fresh_uuid();
        let layout = self.fresh_uuid();
        (pipeline, layout)
    }

    pub fn create_command_encoder(&self) -> (r: CommandEncoder)
        ensures
            r.commands@.len() == 0,
    {
        CommandEncoder::new()
    }
}

/// Encodes the commands generating the mip chain of an image onto an
/// encoder.
pub struct MipmapGenerator {}

impl MipmapGenerator {
    pub fn new() -> (r: Self) {
        MipmapGenerator {}
    }

    pub fn encode_mipmap_generation_command(&self, image: &Image, encoder: &mut CommandEncoder)
        ensures
            final(encoder).commands@ == old(encoder).commands@.push(
                Command::GenerateMipmaps { image: image.uuid },
            ),
    {
        encoder.commands.push(Command::GenerateMipmaps { image: image.uuid });
    }
}

} // verus!
