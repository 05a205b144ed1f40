use vstd::prelude::*;
use crate::library::min_dimension;
use crate::library::THUMBNAIL_MIN_DIMENSION;
use crate::runtime::Image;
use crate::runtime::Runtime;
use crate::toolbox::scaled_axis;
use crate::toolbox::Toolbox;

verus! {

/// Produces thumbnails for library entries on request.
pub struct ThumbnailGeneratorService {
    pub runtime: Runtime,
    pub toolbox: Toolbox,
}

impl ThumbnailGeneratorService {
    pub fn new(runtime: Runtime, toolbox: Toolbox) -> (r: Self) {
        Self { runtime, toolbox }
    }

    /// A thumbnail-sized copy of the image: downscaled so the shorter
    /// edge becomes the thumbnail size when the image is more than
    /// twice that size, else the image itself.
    pub fn generate_thumbnail(&mut self, image: Image) -> (r: Image)
        requires
            old(self).runtime.next_uuid < u64::MAX,
        ensures
            min_dimension(image) > 2 * THUMBNAIL_MIN_DIMENSION ==> r.properties.dimensions == (
                scaled_axis(
                    image.properties.dimensions.0,
                    THUMBNAIL_MIN_DIMENSION,
                    min_dimension(image),
                ),
                scaled_axis(
                    image.properties.dimensions.1,
                    THUMBNAIL_MIN_DIMENSION,
                    min_dimension(image),
                ),
            ),
            min_dimension(image) <= 2 * THUMBNAIL_MIN_DIMENSION ==> r == image,
    {
        let min_dim = if image.properties.dimensions.0 <= image.properties.dimensions.1 {
            image.properties.dimensions.0
        } else {
            image.properties.dimensions.1
        };
        if min_dim > 2 * THUMBNAIL_MIN_DIMENSION {
            self.toolbox.generate_mipmap(&image);
            let thumbnail = self.toolbox.resize_image(
                &mut self.runtime,
                image,
                THUMBNAIL_MIN_DIMENSION,
                min_dim,
            );
            self.toolbox.generate_mipmap(&thumbnail);
            thumbnail
        } else {
            image
        }
    }
}

/// The long-running helpers a session owns.
pub struct Services {
    pub thumbnail_generator: ThumbnailGeneratorService,
}

impl Services {
    pub fn new(runtime: Runtime, toolbox: Toolbox) -> (r: Self) {
        Self { thumbnail_generator: ThumbnailGeneratorService::new(runtime, toolbox) }
    }
}

} // verus!
