//! Trusted boundary to the `image` crate.
//!
//! Everything the library knows about a pixel buffer is phrased over two
//! uninterpreted functions: [`img_bytes`], the raw pixel bytes of a buffer,
//! and [`img_dims`], its `(width, height, channels, bytes-per-sample)`
//! profile. Each wrapper below makes one call into the `image` crate and
//! states, over those names, what that call's source shows.

use vstd::prelude::*;

use image::codecs::pnm::{PnmSubtype, SampleEncoding};
use image::ColorType;
use image::ImageOutputFormat;

use crate::datatypes::{
    channels_of, elem_size_of, supported, ImageRsColorType, ImageRsDataType, ImageRsFilterType,
};
use crate::encode::{EncodeFormat, PnmEncoding, PnmParams};
use crate::error::{ImageRsError, IoKind, LimitKind, ParameterKind, UnsupportedKind};
use crate::pixels::{
    brighten_bytes, crop_bytes, fliph_bytes, flipv_bytes, invert_bytes, rot180_bytes,
    rot270_bytes, rot90_bytes,
};

verus! {

#[verifier::external_type_specification]
#[verifier::external_body]
pub struct ExDynamicImage(image::DynamicImage);

#[verifier::external_type_specification]
#[verifier::external_body]
pub struct ExFilterType(image::imageops::FilterType);

#[verifier::external_type_specification]
#[verifier::external_body]
pub struct ExColorType(image::ColorType);

#[verifier::external_type_specification]
#[verifier::external_body]
pub struct ExImageOutputFormat(image::ImageOutputFormat);

#[verifier::external_type_specification]
#[verifier::external_body]
pub struct ExPnmSubtype(image::codecs::pnm::PnmSubtype);

#[verifier::external_type_specification]
#[verifier::external_body]
pub struct ExImageError(image::ImageError);

#[verifier::external_type_specification]
#[verifier::external_body]
pub struct ExParameterError(image::error::ParameterError);

#[verifier::external_type_specification]
#[verifier::external_body]
pub struct ExLimitError(image::error::LimitError);

#[verifier::external_type_specification]
#[verifier::external_body]
pub struct ExUnsupportedError(image::error::UnsupportedError);

#[verifier::external_type_specification]
#[verifier::external_body]
pub struct ExIoError(std::io::Error);

/// The raw pixel bytes a buffer holds: row-major, channel-interleaved,
/// host-endian for multi-byte samples. This is what
/// `image::DynamicImage::as_bytes` returns.
pub uninterp spec fn img_bytes(img: image::DynamicImage) -> Seq<u8>;

/// The profile of a buffer: `(width, height, channels per pixel, bytes per
/// sample)`, as reported by `image::DynamicImage::dimensions` and
/// `image::DynamicImage::color`.
pub uninterp spec fn img_dims(img: image::DynamicImage) -> (u32, u32, u32, u32);

/// Width of a buffer, in pixels.
pub open spec fn img_width(img: image::DynamicImage) -> u32 {
    img_dims(img).0
}

/// Height of a buffer, in pixels.
pub open spec fn img_height(img: image::DynamicImage) -> u32 {
    img_dims(img).1
}

/// Samples per pixel of a buffer.
pub open spec fn img_channels(img: image::DynamicImage) -> u32 {
    img_dims(img).2
}

/// Bytes per sample of a buffer.
pub open spec fn img_elem(img: image::DynamicImage) -> u32 {
    img_dims(img).3
}

/// A buffer's byte count agrees exactly with its profile. This holds for
/// every buffer this library constructs; buffers built elsewhere over an
/// oversized container are excluded by requiring it.
pub open spec fn byte_len_ok(img: image::DynamicImage) -> bool {
    img_bytes(img).len() == img_width(img) * img_height(img) * img_channels(img) * img_elem(img)
}

/// The outcome of `image::load_from_memory` on a byte buffer: the pixel
/// bytes and profile of the decoded image, or `None` when no codec accepts
/// the bytes. Decoding from memory depends on the bytes alone.
pub uninterp spec fn decode_result(b: Seq<u8>) -> Option<(Seq<u8>, (u32, u32, u32, u32))>;

/// The outcome of `image::DynamicImage::write_to` on an exactly sized
/// buffer with the given pixel bytes and profile, encoding with the given
/// validated request: the container bytes produced, or `None` when the
/// codec refuses the combination. The codecs draw on nothing else, so the
/// outcome depends on these arguments alone.
pub uninterp spec fn encode_result(
    bytes: Seq<u8>,
    dims: (u32, u32, u32, u32),
    f: EncodeFormat,
) -> Option<Seq<u8>>;

/// Reads the metadata of a pixel buffer.
///
/// Relies on `image::DynamicImage::color`, `width` and `height`: the returned
/// triple is `(height, width, channels)`, and the color/element tags match
/// the buffer's `image::ColorType`. Every `DynamicImage` variant carries one
/// of the ten supported `(color, element)` pairs.
#[verifier::external_body]
pub fn get_image_detail(image: &image::DynamicImage) -> (r: (
    (u32, u32, u32),
    ImageRsColorType,
    ImageRsDataType,
))
    ensures
        r.0.0 == img_height(*image),
        r.0.1 == img_width(*image),
        r.0.2 == img_channels(*image),
        channels_of(r.1) == img_channels(*image),
        elem_size_of(r.2) == img_elem(*image),
        supported(r.1, r.2),
{
    let (channels, color, datatype) = color_tags(image.color());
    ((image.height(), image.width(), channels), color, datatype)
}

/// Relies on `image::ColorType`: tells its variants apart, yielding the
/// channel count and the facade's color/element tags, variant for variant.
#[verifier::external_body]
fn color_tags(c: ColorType) -> (u32, ImageRsColorType, ImageRsDataType) {
    match c {
        ColorType::L8 => (1, ImageRsColorType::L, ImageRsDataType::U8),
        ColorType::La8 => (2, ImageRsColorType::La, ImageRsDataType::U8),
        ColorType::Rgb8 => (3, ImageRsColorType::Rgb, ImageRsDataType::U8),
        ColorType::Rgba8 => (4, ImageRsColorType::Rgba, ImageRsDataType::U8),
        ColorType::L16 => (1, ImageRsColorType::L, ImageRsDataType::U16),
        ColorType::La16 => (2, ImageRsColorType::La, ImageRsDataType::U16),
        ColorType::Rgb16 => (3, ImageRsColorType::Rgb, ImageRsDataType::U16),
        ColorType::Rgba16 => (4, ImageRsColorType::Rgba, ImageRsDataType::U16),
        ColorType::Rgb32F => (3, ImageRsColorType::Rgb, ImageRsDataType::F32),
        ColorType::Rgba32F => (4, ImageRsColorType::Rgba, ImageRsDataType::F32),
        _ => (0, ImageRsColorType::Unknown, ImageRsDataType::Unknown),
    }
}

/// Relies on `image::DynamicImage::clone`: the clone is the same buffer value.
#[verifier::external_body]
pub(crate) fn clone_image(img: &image::DynamicImage) -> (r: image::DynamicImage)
    ensures
        r == *img,
{
    img.clone()
}

/// Relies on `image::DynamicImage::as_bytes`: the raw pixel bytes of the
/// buffer, copied into a vector.
#[verifier::external_body]
pub(crate) fn image_bytes_vec(img: &image::DynamicImage) -> (r: Vec<u8>)
    ensures
        r@ == img_bytes(*img),
{
    img.as_bytes().to_vec()
}

/// Relies on `image::load_from_memory`: decodes a byte buffer, guessing the
/// format by content. It succeeds exactly when [`decode_result`] names an
/// outcome, and then yields a buffer with exactly the named bytes and
/// profile; a failure is mapped by [`map_image_error`], so it is never one
/// of the facade's own validation discriminants. The caller checks the
/// profile's consistency itself.
#[verifier::external_body]
pub(crate) fn decode_bytes_raw(buffer: &[u8]) -> (r: Result<image::DynamicImage, ImageRsError>)
    ensures
        r is Ok <==> decode_result(buffer@) is Some,
        r matches Ok(img) ==> ({
            &&& decode_result(buffer@) matches Some(d)
            &&& img_bytes(img) == d.0
            &&& img_dims(img) == d.1
        }),
        r matches Err(e) ==> e != ImageRsError::BadArgument && e != ImageRsError::InvalidImageData,
{
    match image::load_from_memory(buffer) {
        Ok(img) => Ok(img),
        Err(e) => Err(map_image_error(e)),
    }
}

/// Relies on `image::ImageBuffer::from_raw` and the `ImageLuma8` constructor:
/// an exactly sized byte vector becomes an 8-bit grayscale buffer over the
/// same bytes.
#[verifier::external_body]
pub(crate) fn make_luma8(width: u32, height: u32, data: Vec<u8>) -> (r: image::DynamicImage)
    requires
        data@.len() == width * height * 1 * 1,
    ensures
        img_dims(r) == (width, height, 1u32, 1u32),
        img_bytes(r) == data@,
{
    image::DynamicImage::ImageLuma8(image::ImageBuffer::from_raw(width, height, data).unwrap())
}

/// Relies on `image::ImageBuffer::from_raw` and the `ImageLumaA8`
/// constructor, as for [`make_luma8`].
#[verifier::external_body]
pub(crate) fn make_luma_a8(width: u32, height: u32, data: Vec<u8>) -> (r: image::DynamicImage)
    requires
        data@.len() == width * height * 2 * 1,
    ensures
        img_dims(r) == (width, height, 2u32, 1u32),
        img_bytes(r) == data@,
{
    image::DynamicImage::ImageLumaA8(image::ImageBuffer::from_raw(width, height, data).unwrap())
}

/// Relies on `image::ImageBuffer::from_raw` and the `ImageRgb8` constructor,
/// as for [`make_luma8`].
#[verifier::external_body]
pub(crate) fn make_rgb8(width: u32, height: u32, data: Vec<u8>) -> (r: image::DynamicImage)
    requires
        data@.len() == width * height * 3 * 1,
    ensures
        img_dims(r) == (width, height, 3u32, 1u32),
        img_bytes(r) == data@,
{
    image::DynamicImage::ImageRgb8(image::ImageBuffer::from_raw(width, height, data).unwrap())
}

/// Relies on `image::ImageBuffer::from_raw` and the `ImageRgba8` constructor,
/// as for [`make_luma8`].
#[verifier::external_body]
pub(crate) fn make_rgba8(width: u32, height: u32, data: Vec<u8>) -> (r: image::DynamicImage)
    requires
        data@.len() == width * height * 4 * 1,
    ensures
        img_dims(r) == (width, height, 4u32, 1u32),
        img_bytes(r) == data@,
{
    image::DynamicImage::ImageRgba8(image::ImageBuffer::from_raw(width, height, data).unwrap())
}

/// Relies on `bytemuck::pod_collect_to_vec` and `image::ImageBuffer::from_raw`:
/// the bytes are re-viewed as host-endian 16-bit samples without swapping, so
/// the buffer holds the same bytes.
#[verifier::external_body]
pub(crate) fn make_luma16(width: u32, height: u32, data: Vec<u8>) -> (r: image::DynamicImage)
    requires
        data@.len() == width * height * 1 * 2,
    ensures
        img_dims(r) == (width, height, 1u32, 2u32),
        img_bytes(r) == data@,
{
    let samples: Vec<u16> = bytemuck::pod_collect_to_vec(&data);
    image::DynamicImage::ImageLuma16(image::ImageBuffer::from_raw(width, height, samples).unwrap())
}

/// As [`make_luma16`], for the `ImageLumaA16` constructor.
#[verifier::external_body]
pub(crate) fn make_luma_a16(width: u32, height: u32, data: Vec<u8>) -> (r: image::DynamicImage)
    requires
        data@.len() == width * height * 2 * 2,
    ensures
        img_dims(r) == (width, height, 2u32, 2u32),
        img_bytes(r) == data@,
{
    let samples: Vec<u16> = bytemuck::pod_collect_to_vec(&data);
    image::DynamicImage::ImageLumaA16(image::ImageBuffer::from_raw(width, height, samples).unwrap())
}

/// As [`make_luma16`], for the `ImageRgb16` constructor.
#[verifier::external_body]
pub(crate) fn make_rgb16(width: u32, height: u32, data: Vec<u8>) -> (r: image::DynamicImage)
    requires
        data@.len() == width * height * 3 * 2,
    ensures
        img_dims(r) == (width, height, 3u32, 2u32),
        img_bytes(r) == data@,
{
    let samples: Vec<u16> = bytemuck::pod_collect_to_vec(&data);
    image::DynamicImage::ImageRgb16(image::ImageBuffer::from_raw(width, height, samples).unwrap())
}

/// As [`make_luma16`], for the `ImageRgba16` constructor.
#[verifier::external_body]
pub(crate) fn make_rgba16(width: u32, height: u32, data: Vec<u8>) -> (r: image::DynamicImage)
    requires
        data@.len() == width * height * 4 * 2,
    ensures
        img_dims(r) == (width, height, 4u32, 2u32),
        img_bytes(r) == data@,
{
    let samples: Vec<u16> = bytemuck::pod_collect_to_vec(&data);
    image::DynamicImage::ImageRgba16(image::ImageBuffer::from_raw(width, height, samples).unwrap())
}

/// Relies on `bytemuck::pod_collect_to_vec` and `image::ImageBuffer::from_raw`:
/// the bytes are re-viewed as host-endian 32-bit float samples without
/// swapping, so the buffer holds the same bytes.
#[verifier::external_body]
pub(crate) fn make_rgb32f(width: u32, height: u32, data: Vec<u8>) -> (r: image::DynamicImage)
    requires
        data@.len() == width * height * 3 * 4,
    ensures
        img_dims(r) == (width, height, 3u32, 4u32),
        img_bytes(r) == data@,
{
    let buf: image::Rgb32FImage =
        image::ImageBuffer::from_raw(width, height, bytemuck::pod_collect_to_vec(&data)).unwrap();
    image::DynamicImage::ImageRgb32F(buf)
}

/// As [`make_rgb32f`], for the `ImageRgba32F` constructor.
#[verifier::external_body]
pub(crate) fn make_rgba32f(width: u32, height: u32, data: Vec<u8>) -> (r: image::DynamicImage)
    requires
        data@.len() == width * height * 4 * 4,
    ensures
        img_dims(r) == (width, height, 4u32, 4u32),
        img_bytes(r) == data@,
{
    let buf: image::Rgba32FImage =
        image::ImageBuffer::from_raw(width, height, bytemuck::pod_collect_to_vec(&data)).unwrap();
    image::DynamicImage::ImageRgba32F(buf)
}

/// Relies on `image::ImageError`: the conversion distinguishes its variants
/// and never yields the facade's own validation discriminants.
#[verifier::external_body]
pub(crate) fn map_image_error(e: image::ImageError) -> (r: ImageRsError)
    ensures
        r != ImageRsError::BadArgument,
        r != ImageRsError::InvalidImageData,
{
    match e {
        image::ImageError::Decoding(_) => ImageRsError::Decoding,
        image::ImageError::Encoding(_) => ImageRsError::Encoding,
        image::ImageError::Parameter(p) => ImageRsError::Parameter(map_parameter_kind(p)),
        image::ImageError::Limits(l) => ImageRsError::Limit(map_limit_kind(l)),
        image::ImageError::Unsupported(u) => ImageRsError::Unsupported(map_unsupported_kind(u)),
        image::ImageError::IoError(ioe) => ImageRsError::Io(map_io_kind(ioe)),
    }
}

/// Relies on `image::error::ParameterError::kind` to distinguish the
/// parameter-violation kinds.
#[verifier::external_body]
pub(crate) fn map_parameter_kind(e: image::error::ParameterError) -> ParameterKind {
    match e.kind() {
        image::error::ParameterErrorKind::DimensionMismatch => ParameterKind::DimensionMismatch,
        image::error::ParameterErrorKind::FailedAlready => ParameterKind::FailedAlready,
        image::error::ParameterErrorKind::NoMoreData => ParameterKind::NoMoreData,
        _ => ParameterKind::Other,
    }
}

/// Relies on `image::error::LimitError::kind` to distinguish the limit kinds.
#[verifier::external_body]
pub(crate) fn map_limit_kind(e: image::error::LimitError) -> LimitKind {
    match e.kind() {
        image::error::LimitErrorKind::DimensionError => LimitKind::DimensionTooLarge,
        image::error::LimitErrorKind::InsufficientMemory => LimitKind::InsufficientMemory,
        _ => LimitKind::Other,
    }
}

/// Relies on `image::error::UnsupportedError::kind` to distinguish the
/// unsupported-combination kinds.
#[verifier::external_body]
pub(crate) fn map_unsupported_kind(e: image::error::UnsupportedError) -> UnsupportedKind {
    match e.kind() {
        image::error::UnsupportedErrorKind::Color(_) => UnsupportedKind::ColorType,
        image::error::UnsupportedErrorKind::Format(_) => UnsupportedKind::Format,
        _ => UnsupportedKind::Other,
    }
}

/// Relies on `std::io::Error::kind` to distinguish the filesystem error kinds.
#[verifier::external_body]
pub(crate) fn map_io_kind(e: std::io::Error) -> IoKind {
    match e.kind() {
        std::io::ErrorKind::NotFound => IoKind::NotFound,
        std::io::ErrorKind::PermissionDenied => IoKind::PermissionDenied,
        std::io::ErrorKind::BrokenPipe => IoKind::BrokenPipe,
        std::io::ErrorKind::AlreadyExists => IoKind::AlreadyExists,
        _ => IoKind::Other,
    }
}

/// Bytes per pixel of a buffer.
pub open spec fn img_pixel_size(img: image::DynamicImage) -> int {
    img_channels(img) * img_elem(img)
}

/// Whether a buffer's last channel is an alpha channel, going by its
/// channel count as `image`'s pixel types do.
pub open spec fn img_has_alpha(img: image::DynamicImage) -> bool {
    img_channels(img) == 2 || img_channels(img) == 4
}

/// Channel count `image::DynamicImage::grayscale` leaves a buffer with:
/// 32-bit float buffers keep their channels, integral buffers collapse to
/// luma, keeping alpha.
pub open spec fn gray_channels(c: u32, e: u32) -> u32 {
    if e == 4 {
        c
    } else if c == 1 || c == 3 {
        1u32
    } else {
        2u32
    }
}

/// Relies on `image::DynamicImage::fliph` (`imageops::flip_horizontal`):
/// same profile, each row reversed pixel-wise.
#[verifier::external_body]
pub(crate) fn fliph_raw(img: &image::DynamicImage) -> (r: image::DynamicImage)
    ensures
        img_dims(r) == img_dims(*img),
        img_bytes(r) == fliph_bytes(
            img_bytes(*img),
            img_width(*img) as int,
            img_height(*img) as int,
            img_pixel_size(*img),
        ),
{
    img.fliph()
}

/// Relies on `image::DynamicImage::flipv` (`imageops::flip_vertical`):
/// same profile, rows in reverse order.
#[verifier::external_body]
pub(crate) fn flipv_raw(img: &image::DynamicImage) -> (r: image::DynamicImage)
    ensures
        img_dims(r) == img_dims(*img),
        img_bytes(r) == flipv_bytes(
            img_bytes(*img),
            img_width(*img) as int,
            img_height(*img) as int,
            img_pixel_size(*img),
        ),
{
    img.flipv()
}

/// Relies on `image::DynamicImage::rotate90` (`imageops::rotate90`): width
/// and height swap, and the output pixel at row `r`, column `c` is the input
/// pixel at row `h - 1 - c`, column `r`.
#[verifier::external_body]
pub(crate) fn rotate90_raw(img: &image::DynamicImage) -> (r: image::DynamicImage)
    ensures
        img_dims(r) == (img_height(*img), img_width(*img), img_channels(*img), img_elem(*img)),
        img_bytes(r) == rot90_bytes(
            img_bytes(*img),
            img_width(*img) as int,
            img_height(*img) as int,
            img_pixel_size(*img),
        ),
{
    img.rotate90()
}

/// Relies on `image::DynamicImage::rotate180` (`imageops::rotate180`): same
/// profile, pixels mirrored in both directions.
#[verifier::external_body]
pub(crate) fn rotate180_raw(img: &image::DynamicImage) -> (r: image::DynamicImage)
    ensures
        img_dims(r) == img_dims(*img),
        img_bytes(r) == rot180_bytes(
            img_bytes(*img),
            img_width(*img) as int,
            img_height(*img) as int,
            img_pixel_size(*img),
        ),
{
    img.rotate180()
}

/// Relies on `image::DynamicImage::rotate270` (`imageops::rotate270`): width
/// and height swap, and the output pixel at row `r`, column `c` is the input
/// pixel at row `c`, column `w - 1 - r`.
#[verifier::external_body]
pub(crate) fn rotate270_raw(img: &image::DynamicImage) -> (r: image::DynamicImage)
    ensures
        img_dims(r) == (img_height(*img), img_width(*img), img_channels(*img), img_elem(*img)),
        img_bytes(r) == rot270_bytes(
            img_bytes(*img),
            img_width(*img) as int,
            img_height(*img) as int,
            img_pixel_size(*img),
        ),
{
    img.rotate270()
}

/// Relies on `image::DynamicImage::invert` (`imageops::invert`): every
/// sample becomes its type maximum minus itself, alpha samples excepted.
/// For 8- and 16-bit samples that is a bytewise complement in place, so the
/// byte permutation is stated for those; float buffers keep only their
/// byte count. An exactly sized buffer is required: on an oversized
/// container the operation leaves the trailing bytes alone.
#[verifier::external_body]
pub(crate) fn invert_raw(img: &image::DynamicImage) -> (r: image::DynamicImage)
    requires
        byte_len_ok(*img),
    ensures
        img_dims(r) == img_dims(*img),
        img_bytes(r).len() == img_bytes(*img).len(),
        img_elem(*img) == 1 || img_elem(*img) == 2 ==> img_bytes(r) == invert_bytes(
            img_bytes(*img),
            img_channels(*img) as int,
            img_elem(*img) as int,
            img_has_alpha(*img),
        ),
{
    let mut out = img.clone();
    out.invert();
    out
}

/// Relies on `image::DynamicImage::grayscale`: dimensions and element type
/// are kept, the channel count becomes [`gray_channels`], and the output
/// buffer is exactly sized. An exactly sized buffer is required: the
/// already-gray arms return a clone of the container as it is.
#[verifier::external_body]
pub(crate) fn grayscale_raw(img: &image::DynamicImage) -> (r: image::DynamicImage)
    requires
        byte_len_ok(*img),
    ensures
        img_width(r) == img_width(*img),
        img_height(r) == img_height(*img),
        img_elem(r) == img_elem(*img),
        img_channels(r) == gray_channels(img_channels(*img), img_elem(*img)),
        byte_len_ok(r),
{
    img.grayscale()
}

/// Relies on `image::DynamicImage::resize_exact` (`imageops::resize`): the
/// output has exactly the requested dimensions, the same pixel type, and an
/// exactly sized buffer; when the requested dimensions equal the source's,
/// the pixels are copied verbatim instead of resampled, whatever the
/// filter. Positive source dimensions are required: the sampling kernels
/// misbehave on an empty source.
#[verifier::external_body]
pub(crate) fn resize_exact_raw(
    img: &image::DynamicImage,
    nwidth: u32,
    nheight: u32,
    filter: ImageRsFilterType,
) -> (r: image::DynamicImage)
    requires
        byte_len_ok(*img),
        img_width(*img) > 0,
        img_height(*img) > 0,
        nwidth > 0,
        nheight > 0,
    ensures
        img_dims(r) == (nwidth, nheight, img_channels(*img), img_elem(*img)),
        byte_len_ok(r),
        nwidth == img_width(*img) && nheight == img_height(*img) ==> img_bytes(r) == img_bytes(
            *img,
        ),
{
    img.resize_exact(nwidth, nheight, to_filter_type(filter))
}

/// Relies on `image::DynamicImage::resize`: the output keeps the aspect
/// ratio and is the largest size fitting within the requested bounds, so
/// both dimensions stay within them and neither drops below one pixel.
/// The output dimensions are roundings, clamped to at least one, of one
/// common scaling of the source dimensions, each within one of the scaled
/// value; cross-multiplying bounds the proportion error by the sum of the
/// source dimensions. An exactly sized buffer is required: when the bounds
/// equal the source dimensions the source is returned as a clone.
#[verifier::external_body]
pub(crate) fn resize_ratio_raw(
    img: &image::DynamicImage,
    nwidth: u32,
    nheight: u32,
    filter: ImageRsFilterType,
) -> (r: image::DynamicImage)
    requires
        byte_len_ok(*img),
        nwidth > 0,
        nheight > 0,
        img_width(*img) > 0,
        img_height(*img) > 0,
    ensures
        1 <= img_width(r) <= nwidth,
        1 <= img_height(r) <= nheight,
        img_channels(r) == img_channels(*img),
        img_elem(r) == img_elem(*img),
        byte_len_ok(r),
        img_width(r) * img_height(*img) - img_height(r) * img_width(*img) <= img_width(*img)
            + img_height(*img),
        img_height(r) * img_width(*img) - img_width(r) * img_height(*img) <= img_width(*img)
            + img_height(*img),
{
    img.resize(nwidth, nheight, to_filter_type(filter))
}

/// Relies on `image::DynamicImage::resize_to_fill`: the output has exactly
/// the requested dimensions, center-cropped to fill, with the same pixel
/// type.
#[verifier::external_body]
pub(crate) fn resize_fill_raw(
    img: &image::DynamicImage,
    nwidth: u32,
    nheight: u32,
    filter: ImageRsFilterType,
) -> (r: image::DynamicImage)
    requires
        nwidth > 0,
        nheight > 0,
        img_width(*img) > 0,
        img_height(*img) > 0,
    ensures
        img_dims(r) == (nwidth, nheight, img_channels(*img), img_elem(*img)),
        byte_len_ok(r),
{
    img.resize_to_fill(nwidth, nheight, to_filter_type(filter))
}

/// Relies on `image::DynamicImage::crop_imm`: for a rectangle within the
/// image bounds the output is exactly that rectangle's pixels.
#[verifier::external_body]
pub(crate) fn crop_raw(img: &image::DynamicImage, x: u32, y: u32, cwidth: u32, cheight: u32) -> (r:
    image::DynamicImage)
    requires
        x + cwidth <= img_width(*img),
        y + cheight <= img_height(*img),
    ensures
        img_dims(r) == (cwidth, cheight, img_channels(*img), img_elem(*img)),
        img_bytes(r) == crop_bytes(
            img_bytes(*img),
            img_width(*img) as int,
            img_pixel_size(*img),
            x as int,
            y as int,
            cwidth as int,
            cheight as int,
        ),
{
    img.crop_imm(x, y, cwidth, cheight)
}

/// Relies on `image::DynamicImage::brighten` (`imageops::brighten`): each
/// non-alpha sample is cast to `i32`, shifted by `value` and clamped to the
/// sample range, which for byte-wide samples is exactly [`brighten_bytes`].
/// Integral elements are required — float samples do not survive the `i32`
/// cast — and the shift is bounded so the cast sum cannot overflow. An
/// exactly sized buffer is required: the output buffer is fresh and exactly
/// sized.
#[verifier::external_body]
pub(crate) fn brighten_raw(img: &image::DynamicImage, value: i32) -> (r: image::DynamicImage)
    requires
        byte_len_ok(*img),
        img_elem(*img) == 1 || img_elem(*img) == 2,
        value as int <= 0x7fffffffint - 65535,
    ensures
        img_dims(r) == img_dims(*img),
        img_bytes(r).len() == img_bytes(*img).len(),
        img_elem(*img) == 1 ==> img_bytes(r) == brighten_bytes(
            img_bytes(*img),
            img_channels(*img) as int,
            img_has_alpha(*img),
            value as int,
        ),
{
    img.brighten(value)
}

/// Relies on `image::DynamicImage::huerotate` (`imageops::huerotate`): same
/// profile, samples adjusted pixel by pixel. An exactly sized buffer is
/// required, as for [`brighten_raw`].
#[verifier::external_body]
pub(crate) fn huerotate_raw(img: &image::DynamicImage, value: i32) -> (r: image::DynamicImage)
    requires
        byte_len_ok(*img),
    ensures
        img_dims(r) == img_dims(*img),
        img_bytes(r).len() == img_bytes(*img).len(),
{
    img.huerotate(value)
}

/// Relies on `image::codecs::pnm::PnmSubtype`: converts the validated PNM
/// request to the crate's subtype, variant for variant.
#[verifier::external_body]
pub(crate) fn to_pnm_subtype(p: &PnmParams) -> PnmSubtype {
    match p {
        PnmParams::Bitmap(PnmEncoding::Binary) => PnmSubtype::Bitmap(SampleEncoding::Binary),
        PnmParams::Bitmap(PnmEncoding::Ascii) => PnmSubtype::Bitmap(SampleEncoding::Ascii),
        PnmParams::Graymap(PnmEncoding::Binary) => PnmSubtype::Graymap(SampleEncoding::Binary),
        PnmParams::Graymap(PnmEncoding::Ascii) => PnmSubtype::Graymap(SampleEncoding::Ascii),
        PnmParams::Pixmap(PnmEncoding::Binary) => PnmSubtype::Pixmap(SampleEncoding::Binary),
        PnmParams::Pixmap(PnmEncoding::Ascii) => PnmSubtype::Pixmap(SampleEncoding::Ascii),
        PnmParams::ArbitraryMap => PnmSubtype::ArbitraryMap,
    }
}

/// Relies on `image::ImageOutputFormat`: converts the validated encode
/// request to the crate's output format, variant for variant.
#[verifier::external_body]
pub(crate) fn to_output_format(f: &EncodeFormat) -> ImageOutputFormat {
    match f {
        EncodeFormat::Png => ImageOutputFormat::Png,
        EncodeFormat::Jpeg(q) => ImageOutputFormat::Jpeg(*q),
        EncodeFormat::Pnm(p) => ImageOutputFormat::Pnm(to_pnm_subtype(p)),
        EncodeFormat::Gif => ImageOutputFormat::Gif,
        EncodeFormat::Ico => ImageOutputFormat::Ico,
        EncodeFormat::Bmp => ImageOutputFormat::Bmp,
        EncodeFormat::Farbfeld => ImageOutputFormat::Farbfeld,
        EncodeFormat::Tga => ImageOutputFormat::Tga,
        EncodeFormat::Exr => ImageOutputFormat::OpenExr,
        EncodeFormat::Tiff => ImageOutputFormat::Tiff,
        EncodeFormat::Qoi => ImageOutputFormat::Qoi,
        EncodeFormat::Webp => ImageOutputFormat::WebP,
    }
}

/// Relies on `image::DynamicImage::write_to`: encodes the buffer into an
/// in-memory byte vector with the validated codec request. It succeeds
/// exactly when [`encode_result`] names an outcome, and then returns
/// exactly the named bytes: the codecs read nothing but the pixel bytes,
/// the profile and the request.
#[verifier::external_body]
pub(crate) fn write_image(img: &image::DynamicImage, ef: &EncodeFormat) -> (r: Result<
    Vec<u8>,
    image::ImageError,
>)
    requires
        byte_len_ok(*img),
    ensures
        r is Ok <==> encode_result(img_bytes(*img), img_dims(*img), *ef) is Some,
        r matches Ok(v) ==> ({
            &&& encode_result(img_bytes(*img), img_dims(*img), *ef) matches Some(out)
            &&& v@ == out
        }),
{
    let mut cursor = std::io::Cursor::new(Vec::new());
    match img.write_to(&mut cursor, to_output_format(ef)) {
        Ok(()) => Ok(cursor.into_inner()),
        Err(e) => Err(e),
    }
}

/// Relies on `image::imageops::FilterType`: converts the facade's filter
/// selector to the crate's, variant for variant.
#[verifier::external_body]
pub(crate) fn to_filter_type(f: ImageRsFilterType) -> image::imageops::FilterType {
    match f {
        ImageRsFilterType::Nearest => image::imageops::FilterType::Nearest,
        ImageRsFilterType::Triangle => image::imageops::FilterType::Triangle,
        ImageRsFilterType::CatmullRom => image::imageops::FilterType::CatmullRom,
        ImageRsFilterType::Gaussian => image::imageops::FilterType::Gaussian,
        ImageRsFilterType::Lanczos3 => image::imageops::FilterType::Lanczos3,
    }
}

} // verus!
