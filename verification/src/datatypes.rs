//! The pixel model: tag enums, the supported `(color, element)` matrix, and
//! the pixel-buffer handle with its well-formedness invariant.

use vstd::prelude::*;

use crate::backend::{
    byte_len_ok, clone_image, get_image_detail, img_bytes, img_channels, img_elem, img_height,
    img_width,
};

verus! {

/// Color interpretation of a pixel buffer. `Unknown` never appears on a live
/// handle; it exists to introspect foreign pixel layouts and is rejected on
/// every input path.
#[derive(Clone, Copy, Debug, PartialEq, Eq, Structural)]
pub enum ImageRsColorType {
    L,
    La,
    Rgb,
    Rgba,
    Unknown,
}

/// Element type of a single sample. `Unknown` is output-only, as for colors.
#[derive(Clone, Copy, Debug, PartialEq, Eq, Structural)]
pub enum ImageRsDataType {
    U8,
    U16,
    F32,
    Unknown,
}

/// Resampling kernel selector for the resize operations.
#[derive(Clone, Copy, Debug, PartialEq, Eq, Structural)]
pub enum ImageRsFilterType {
    /// Nearest Neighbor
    Nearest,
    /// Linear Filter
    Triangle,
    /// Cubic Filter
    CatmullRom,
    /// Gaussian Filter
    Gaussian,
    /// Lanczos with window 3
    Lanczos3,
}

/// Container formats the encode dispatch can be asked for.
#[derive(Clone, Copy, Debug, PartialEq, Eq, Structural)]
pub enum ImageRsOutputFormat {
    Png,
    Jpeg,
    Pnm,
    Gif,
    Ico,
    Bmp,
    Farbfeld,
    Tga,
    Exr,
    Tiff,
    Avif,
    Qoi,
    Webp,
}

/// Samples per pixel of a color interpretation; 0 for `Unknown`.
pub open spec fn channels_of(c: ImageRsColorType) -> int {
    match c {
        ImageRsColorType::L => 1,
        ImageRsColorType::La => 2,
        ImageRsColorType::Rgb => 3,
        ImageRsColorType::Rgba => 4,
        ImageRsColorType::Unknown => 0,
    }
}

/// Bytes per sample of an element type; 0 for `Unknown`.
pub open spec fn elem_size_of(d: ImageRsDataType) -> int {
    match d {
        ImageRsDataType::U8 => 1,
        ImageRsDataType::U16 => 2,
        ImageRsDataType::F32 => 4,
        ImageRsDataType::Unknown => 0,
    }
}

/// Whether a color carries an alpha sample as its last channel.
pub open spec fn has_alpha(c: ImageRsColorType) -> bool {
    c == ImageRsColorType::La || c == ImageRsColorType::Rgba
}

/// The supported `(color, element)` matrix: every combination a live handle
/// may carry. `F32` exists only for `Rgb` and `Rgba`.
pub open spec fn supported(c: ImageRsColorType, d: ImageRsDataType) -> bool {
    match (c, d) {
        (ImageRsColorType::L, ImageRsDataType::U8) => true,
        (ImageRsColorType::L, ImageRsDataType::U16) => true,
        (ImageRsColorType::La, ImageRsDataType::U8) => true,
        (ImageRsColorType::La, ImageRsDataType::U16) => true,
        (ImageRsColorType::Rgb, ImageRsDataType::U8) => true,
        (ImageRsColorType::Rgb, ImageRsDataType::U16) => true,
        (ImageRsColorType::Rgb, ImageRsDataType::F32) => true,
        (ImageRsColorType::Rgba, ImageRsDataType::U8) => true,
        (ImageRsColorType::Rgba, ImageRsDataType::U16) => true,
        (ImageRsColorType::Rgba, ImageRsDataType::F32) => true,
        _ => false,
    }
}

/// Executable channel count, matching [`channels_of`].
pub fn channel_count(c: &ImageRsColorType) -> (r: u32)
    ensures
        r == channels_of(*c),
{
    match c {
        ImageRsColorType::L => 1,
        ImageRsColorType::La => 2,
        ImageRsColorType::Rgb => 3,
        ImageRsColorType::Rgba => 4,
        ImageRsColorType::Unknown => 0,
    }
}

/// Executable element size, matching [`elem_size_of`].
pub fn elem_size(d: &ImageRsDataType) -> (r: u32)
    ensures
        r == elem_size_of(*d),
{
    match d {
        ImageRsDataType::U8 => 1,
        ImageRsDataType::U16 => 2,
        ImageRsDataType::F32 => 4,
        ImageRsDataType::Unknown => 0,
    }
}

/// Executable test of the supported matrix, matching [`supported`].
pub fn is_supported(c: &ImageRsColorType, d: &ImageRsDataType) -> (r: bool)
    ensures
        r == supported(*c, *d),
{
    match (c, d) {
        (ImageRsColorType::L, ImageRsDataType::U8) => true,
        (ImageRsColorType::L, ImageRsDataType::U16) => true,
        (ImageRsColorType::La, ImageRsDataType::U8) => true,
        (ImageRsColorType::La, ImageRsDataType::U16) => true,
        (ImageRsColorType::Rgb, ImageRsDataType::U8) => true,
        (ImageRsColorType::Rgb, ImageRsDataType::U16) => true,
        (ImageRsColorType::Rgb, ImageRsDataType::F32) => true,
        (ImageRsColorType::Rgba, ImageRsDataType::U8) => true,
        (ImageRsColorType::Rgba, ImageRsDataType::U16) => true,
        (ImageRsColorType::Rgba, ImageRsDataType::F32) => true,
        _ => false,
    }
}

/// Owning wrapper around the backing pixel buffer of a handle.
pub struct ImageRsDynamicImageRef(pub image::DynamicImage);

impl ImageRsDynamicImageRef {
    /// Wrap a pixel buffer.
    pub fn new(image: image::DynamicImage) -> (r: Self)
        ensures
            r.0 == image,
    {
        ImageRsDynamicImageRef(image)
    }
}

/// The pixel-buffer handle: an immutable typed pixel buffer together with
/// the metadata any caller may read. [`ImageRsDynamicImage::inv`] ties the
/// metadata to the buffer and holds for every handle the library hands out.
pub struct ImageRsDynamicImage {
    pub resource: ImageRsDynamicImageRef,
    pub width: u32,
    pub height: u32,
    pub color_type: ImageRsColorType,
    pub channels: u32,
    pub dtype: ImageRsDataType,
    pub shape: Vec<u32>,
}

impl ImageRsDynamicImage {
    /// The underlying pixel buffer.
    pub open spec fn img(&self) -> image::DynamicImage {
        self.resource.0
    }

    /// The raw pixel bytes of the handle, row-major, channel-interleaved,
    /// host-endian for multi-byte samples.
    pub open spec fn bytes(&self) -> Seq<u8> {
        img_bytes(self.img())
    }

    /// Bytes occupied by one pixel.
    pub open spec fn pixel_size(&self) -> int {
        channels_of(self.color_type) * elem_size_of(self.dtype)
    }

    /// Wrap a pixel buffer into a handle, reading its metadata.
    ///
    /// The buffer must be exactly sized and non-empty; every buffer produced
    /// by this library's own constructors and operations is.
    pub fn new(image: image::DynamicImage) -> (r: Self)
        requires
            byte_len_ok(image),
            img_width(image) > 0,
            img_height(image) > 0,
        ensures
            r.inv(),
            r.img() == image,
            r.width == img_width(image),
            r.height == img_height(image),
            channels_of(r.color_type) == img_channels(image),
            elem_size_of(r.dtype) == img_elem(image),
    {
        let ((height, width, channels), color_type, dtype) = get_image_detail(&image);
        let mut shape: Vec<u32> = Vec::new();
        shape.push(height);
        shape.push(width);
        shape.push(channels);
        proof {
            assert(shape@ =~= seq![height, width, channels]);
            assert(img_bytes(image).len() == height * width * channels_of(color_type)
                * elem_size_of(dtype)) by (nonlinear_arith)
                requires
                    img_bytes(image).len() == img_width(image) * img_height(image) * img_channels(
                        image,
                    ) * img_elem(image),
                    img_width(image) == width,
                    img_height(image) == height,
                    img_channels(image) == channels_of(color_type),
                    img_elem(image) == elem_size_of(dtype),
            ;
        }
        ImageRsDynamicImage {
            resource: ImageRsDynamicImageRef::new(image),
            width,
            height,
            color_type,
            channels,
            dtype,
            shape,
        }
    }

    /// A copy of the underlying pixel buffer.
    pub fn clone_inner(&self) -> (r: image::DynamicImage)
        ensures
            r == self.resource.0,
    {
        clone_image(&self.resource.0)
    }

    /// Well-formedness of a live handle:
    /// the `(color, element)` pair is supported, the dimensions are positive,
    /// the denormalized fields agree with the tags, the metadata agrees with
    /// the underlying buffer, the byte count equals
    /// `height * width * channels * elem_size`, and `shape` is the triple
    /// `[height, width, channels]`.
    pub open spec fn inv(&self) -> bool {
        &&& supported(self.color_type, self.dtype)
        &&& self.width > 0
        &&& self.height > 0
        &&& self.channels == channels_of(self.color_type)
        &&& img_width(self.img()) == self.width
        &&& img_height(self.img()) == self.height
        &&& img_channels(self.img()) == channels_of(self.color_type)
        &&& img_elem(self.img()) == elem_size_of(self.dtype)
        &&& self.bytes().len() == self.height * self.width * channels_of(self.color_type)
            * elem_size_of(self.dtype)
        &&& self.shape@ == seq![self.height, self.width, self.channels]
    }
}

/// Within the supported matrix, the channel count and sample size determine
/// the `(color, element)` pair.
pub proof fn lemma_supported_tags_unique(
    c1: ImageRsColorType,
    d1: ImageRsDataType,
    c2: ImageRsColorType,
    d2: ImageRsDataType,
)
    requires
        supported(c1, d1),
        supported(c2, d2),
        channels_of(c1) == channels_of(c2),
        elem_size_of(d1) == elem_size_of(d2),
    ensures
        c1 == c2,
        d1 == d2,
{
}

/// Every live handle carries exactly `height * width * channels * elem_size`
/// pixel bytes.
pub proof fn lemma_handle_byte_length(h: &ImageRsDynamicImage)
    requires
        h.inv(),
    ensures
        h.bytes().len() == h.height * h.width * h.channels * elem_size_of(h.dtype),
{
}

/// Every live handle's `shape` equals the triple `(height, width, channels)`.
pub proof fn lemma_handle_shape(h: &ImageRsDynamicImage)
    requires
        h.inv(),
    ensures
        h.shape@ =~= seq![h.height, h.width, h.channels],
        h.shape@.len() == 3,
        h.shape@[0] == h.height,
        h.shape@[1] == h.width,
        h.shape@[2] == h.channels,
{
}

} // verus!
