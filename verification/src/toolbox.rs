use vstd::prelude::*;
use crate::runtime::Command;
use crate::runtime::CommandEncoder;
use crate::runtime::ColorSpace;
use crate::runtime::Image;
use crate::runtime::ImageFormat;
use crate::runtime::ImageProperties;
use crate::runtime::MipmapGenerator;
use crate::runtime::Runtime;

verus! {

/// Reusable cross-op utilities: the mipmap generator, the pixel-format
/// and color-space converters and the resizer. The toolbox encodes its
/// own work onto its own encoder, submitted with the frame.
pub struct Toolbox {
    pub mipmap_generator: MipmapGenerator,
    pub encoder: CommandEncoder,
}

impl Toolbox {
    pub fn new() -> (r: Self)
        ensures
            r.encoder.commands@.len() == 0,
    {
        Toolbox { mipmap_generator: MipmapGenerator::new(), encoder: CommandEncoder::new() }
    }

    /// Encodes the commands generating `image`'s mip chain.
    pub fn generate_mipmap(&mut self, image: &Image)
        ensures
            final(self).encoder.commands@ == old(self).encoder.commands@.push(
                Command::GenerateMipmaps { image: image.uuid },
            ),
            final(self).mipmap_generator == old(self).mipmap_generator,
    {
        let generator = MipmapGenerator::new();
        generator.encode_mipmap_generation_command(image, &mut self.encoder);
    }

    /// A copy of the image in the requested pixel format: the same
    /// image when the format already matches, otherwise a fresh
    /// texture with everything but the format carried over.
    pub fn convert_image_format(&self, runtime: &mut Runtime, image: Image, format: ImageFormat)
        -> (r: Image)
        requires
            old(runtime).next_uuid < u64::MAX,
        ensures
            r.properties.format == format,
            r.properties.dimensions == image.properties.dimensions,
            r.properties.color_space == image.properties.color_space,
            image.properties.format == format ==> r == image && *final(runtime) == *old(runtime),
            image.properties.format != format ==> r.uuid == old(runtime).next_uuid && final(runtime).next_uuid == old(runtime).next_uuid + 1,
    {
        if image.properties.format == format {
            return image;
        }
        runtime.create_image_of_properties(
            ImageProperties { format, ..image.properties },
        )
    }

    /// A copy of the image in the requested color space; the same
    /// image when the space already matches.
    pub fn convert_color_space(&self, runtime: &mut Runtime, image: Image, color_space: ColorSpace)
        -> (r: Image)
        requires
            old(runtime).next_uuid < u64::MAX,
        ensures
            r.properties.color_space == color_space,
            r.properties.dimensions == image.properties.dimensions,
            r.properties.format == image.properties.format,
            image.properties.color_space == color_space ==> r == image && *final(runtime) == *old(runtime),
            image.properties.color_space != color_space ==> r.uuid == old(runtime).next_uuid
                && final(runtime).next_uuid == old(runtime).next_uuid + 1,
    {
        if image.properties.color_space == color_space {
            return image;
        }
        runtime.create_image_of_properties(
            ImageProperties { color_space, ..image.properties },
        )
    }

    /// A downscaled copy: each axis is multiplied by `factor_num` and
    /// divided by `factor_den`, never below one texel.
    pub fn resize_image(
        &self,
        runtime: &mut Runtime,
        image: Image,
        factor_num: u32,
        factor_den: u32,
    ) -> (r: Image)
        requires
            old(runtime).next_uuid < u64::MAX,
            factor_den > 0,
        ensures
            r.properties.dimensions.0 == scaled_axis(image.properties.dimensions.0, factor_num, factor_den),
            r.properties.dimensions.1 == scaled_axis(image.properties.dimensions.1, factor_num, factor_den),
            r.properties.format == image.properties.format,
            r.properties.color_space == image.properties.color_space,
            r.uuid == old(runtime).next_uuid,
            final(runtime).next_uuid == old(runtime).next_uuid + 1,
    {
        let w = scale_axis(image.properties.dimensions.0, factor_num, factor_den);
        let h = scale_axis(image.properties.dimensions.1, factor_num, factor_den);
        runtime.create_image_of_properties(
            ImageProperties { dimensions: (w, h), ..image.properties },
        )
    }
}

/// One resized axis: `d * num / den`, at least one texel.
pub open spec fn scaled_axis(d: u32, num: u32, den: u32) -> u32 {
    let v = d * num / (den as int);
    if v < 1 {
        1u32
    } else if v > u32::MAX {
        u32::MAX
    } else {
        v as u32
    }
}

pub fn scale_axis(d: u32, num: u32, den: u32) -> (r: u32)
    requires
        den > 0,
    ensures
        r == scaled_axis(d, num, den),
{
    proof {
        vstd::arithmetic::mul::lemma_mul_upper_bound(d as int, u32::MAX as int, num as int, u32::MAX as int);
    }
    let v: u64 = (d as u64) * (num as u64) / (den as u64);
    if v < 1 {
        1
    } else if v > u32::MAX as u64 {
        u32::MAX
    } else {
        v as u32
    }
}

} // verus!
