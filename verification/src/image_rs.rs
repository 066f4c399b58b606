//! The operation surface of the facade: raw ingest, in-memory decode, the
//! pure transforms, and the encode dispatch.
//!
//! Every operation takes a well-formed handle and returns a new well-formed
//! handle; inputs are never mutated.

use vstd::prelude::*;

use crate::backend::{
    brighten_raw, byte_len_ok, crop_raw, decode_bytes_raw, decode_result, encode_result,
    fliph_raw, flipv_raw, get_image_detail, gray_channels, grayscale_raw, huerotate_raw,
    image_bytes_vec, img_dims, img_has_alpha, invert_raw, make_luma16, make_luma8, make_luma_a16,
    make_luma_a8, make_rgb16, make_rgb32f, make_rgb8, make_rgba16, make_rgba32f, make_rgba8,
    map_image_error, resize_exact_raw, resize_fill_raw, resize_ratio_raw, rotate180_raw,
    rotate270_raw, rotate90_raw, write_image,
};
use crate::datatypes::{
    channel_count, channels_of, elem_size, elem_size_of, has_alpha, is_supported,
    lemma_supported_tags_unique, supported, ImageRsColorType, ImageRsDataType, ImageRsDynamicImage,
    ImageRsFilterType, ImageRsOutputFormat,
};
use crate::encode::{into_output_format, opts_view, spec_encode_format};
use crate::error::{ImageRsError, ParameterKind, UnsupportedKind};
use crate::pixels::{
    brighten_bytes, crop_bytes, fliph_bytes, flipv_bytes, invert_bytes,
    lemma_brighten_saturates, lemma_size_shuffle, rot180_bytes, rot270_bytes, rot90_bytes,
};

verus! {

/// The byte count a buffer with the given dimensions and tags must have.
pub open spec fn expected_len(
    height: u32,
    width: u32,
    c: ImageRsColorType,
    d: ImageRsDataType,
) -> int {
    height * width * channels_of(c) * elem_size_of(d)
}

/// When raw ingest succeeds: a supported pair, positive dimensions, and a
/// byte count that agrees with them exactly.
pub open spec fn ingest_ok(
    height: u32,
    width: u32,
    c: ImageRsColorType,
    d: ImageRsDataType,
    data: Seq<u8>,
) -> bool {
    &&& supported(c, d)
    &&& height > 0
    &&& width > 0
    &&& data.len() == expected_len(height, width, c, d)
}

/// The error raw ingest reports when it fails: a byte count that disagrees
/// with the dimensions (a zero dimension included) is `InvalidImageData`; an
/// unsupported pair is `Unsupported`, an `Unknown` color specifically
/// `Unsupported(ColorType)`.
pub open spec fn ingest_err(
    height: u32,
    width: u32,
    c: ImageRsColorType,
    d: ImageRsDataType,
    data: Seq<u8>,
) -> ImageRsError {
    if data.len() != expected_len(height, width, c, d) {
        ImageRsError::InvalidImageData
    } else if !supported(c, d) {
        if c == ImageRsColorType::Unknown {
            ImageRsError::Unsupported(UnsupportedKind::ColorType)
        } else {
            ImageRsError::Unsupported(UnsupportedKind::Other)
        }
    } else {
        ImageRsError::InvalidImageData
    }
}

/// Raw ingest: validate the byte buffer against the dimensions and tags,
/// then reinterpret it, without swapping bytes, as a typed pixel buffer.
pub fn new(
    height: u32,
    width: u32,
    color_type: ImageRsColorType,
    data_type: ImageRsDataType,
    data: Vec<u8>,
) -> (r: Result<ImageRsDynamicImage, ImageRsError>)
    ensures
        r is Ok <==> ingest_ok(height, width, color_type, data_type, data@),
        r matches Ok(h) ==> ({
            &&& h.inv()
            &&& h.width == width
            &&& h.height == height
            &&& h.color_type == color_type
            &&& h.dtype == data_type
            &&& h.channels == channels_of(color_type)
            &&& h.bytes() == data@
        }),
        r matches Err(e) ==> e == ingest_err(height, width, color_type, data_type, data@),
{
    let channels = channel_count(&color_type);
    let esize = elem_size(&data_type);
    proof {
        assert((height as int) * (width as int) < 0x10000000000000000int) by (nonlinear_arith)
            requires
                0 <= (height as int) <= 0xffffffffint,
                0 <= (width as int) <= 0xffffffffint,
        ;
    }
    let hw: u128 = (height as u128) * (width as u128);
    proof {
        assert((hw as int) * (channels as int) < 0x40000000000000000int) by (nonlinear_arith)
            requires
                0 <= (hw as int) < 0x10000000000000000int,
                0 <= (channels as int) <= 4,
        ;
    }
    let hwc: u128 = hw * (channels as u128);
    proof {
        assert((hwc as int) * (esize as int) < 0x100000000000000000int) by (nonlinear_arith)
            requires
                0 <= (hwc as int) < 0x40000000000000000int,
                0 <= (esize as int) <= 4,
        ;
    }
    let expected: u128 = hwc * (esize as u128);
    if (data.len() as u128) != expected {
        return Err(ImageRsError::InvalidImageData);
    }
    if !is_supported(&color_type, &data_type) {
        if color_type == ImageRsColorType::Unknown {
            return Err(ImageRsError::Unsupported(UnsupportedKind::ColorType));
        }
        return Err(ImageRsError::Unsupported(UnsupportedKind::Other));
    }
    if height == 0 || width == 0 {
        return Err(ImageRsError::InvalidImageData);
    }
    proof {
        assert(data@.len() == width * height * channels_of(color_type) * elem_size_of(data_type))
            by (nonlinear_arith)
            requires
                data@.len() == height * width * channels_of(color_type) * elem_size_of(data_type),
        ;
    }
    let img = match (color_type, data_type) {
        (ImageRsColorType::L, ImageRsDataType::U8) => make_luma8(width, height, data),
        (ImageRsColorType::L, ImageRsDataType::U16) => make_luma16(width, height, data),
        (ImageRsColorType::La, ImageRsDataType::U8) => make_luma_a8(width, height, data),
        (ImageRsColorType::La, ImageRsDataType::U16) => make_luma_a16(width, height, data),
        (ImageRsColorType::Rgb, ImageRsDataType::U8) => make_rgb8(width, height, data),
        (ImageRsColorType::Rgb, ImageRsDataType::U16) => make_rgb16(width, height, data),
        (ImageRsColorType::Rgb, ImageRsDataType::F32) => make_rgb32f(width, height, data),
        (ImageRsColorType::Rgba, ImageRsDataType::U8) => make_rgba8(width, height, data),
        (ImageRsColorType::Rgba, ImageRsDataType::U16) => make_rgba16(width, height, data),
        (ImageRsColorType::Rgba, ImageRsDataType::F32) => make_rgba32f(width, height, data),
        _ => {
            proof {
                assert(false);
            }
            make_luma8(width, height, data)
        },
    };
    let handle = ImageRsDynamicImage::new(img);
    proof {
        lemma_supported_tags_unique(handle.color_type, handle.dtype, color_type, data_type);
    }
    Ok(handle)
}

/// What a decode outcome must satisfy to become a handle: the codec
/// accepted the bytes and yielded positive dimensions and a byte count that
/// agrees with the profile. Every image the codecs actually produce
/// satisfies the latter two; they are checked rather than assumed.
pub open spec fn decoded_wf(b: Seq<u8>) -> bool {
    match decode_result(b) {
        Some(d) => (d.1).0 > 0 && (d.1).1 > 0 && d.0.len() == (d.1).0 * (d.1).1 * (d.1).2 * (
        d.1).3,
        None => false,
    }
}

/// Decode an in-memory byte buffer, auto-detecting its format by content.
/// It succeeds exactly when the codecs decode the bytes into a well-formed
/// image, and then the handle carries exactly the decoded bytes and
/// profile; a decoded image with a zero dimension or an inconsistent buffer
/// size is rejected as undecodable.
pub fn from_binary(buffer: &Vec<u8>) -> (r: Result<ImageRsDynamicImage, ImageRsError>)
    ensures
        r is Ok <==> decoded_wf(buffer@),
        r matches Ok(h) ==> ({
            &&& decode_result(buffer@) matches Some(d)
            &&& h.inv()
            &&& h.width == (d.1).0
            &&& h.height == (d.1).1
            &&& channels_of(h.color_type) == (d.1).2
            &&& elem_size_of(h.dtype) == (d.1).3
            &&& h.bytes() == d.0
        }),
        r matches Err(e) ==> e != ImageRsError::BadArgument && e != ImageRsError::InvalidImageData,
        decode_result(buffer@) is Some && !decoded_wf(buffer@) ==> r == Err::<
            ImageRsDynamicImage,
            ImageRsError,
        >(ImageRsError::Decoding),
{
    match decode_bytes_raw(buffer.as_slice()) {
        Err(e) => Err(e),
        Ok(img) => {
            let ((h, w, c), _color, dtype) = get_image_detail(&img);
            if w == 0 || h == 0 {
                return Err(ImageRsError::Decoding);
            }
            let esize = elem_size(&dtype);
            let bytes = image_bytes_vec(&img);
            proof {
                assert((w as int) * (h as int) < 0x10000000000000000int) by (nonlinear_arith)
                    requires
                        0 <= (w as int) <= 0xffffffffint,
                        0 <= (h as int) <= 0xffffffffint,
                ;
            }
            let wh: u128 = (w as u128) * (h as u128);
            proof {
                assert((wh as int) * (c as int) < 0x40000000000000000int) by (nonlinear_arith)
                    requires
                        0 <= (wh as int) < 0x10000000000000000int,
                        0 <= (c as int) <= 4,
                ;
            }
            let whc: u128 = wh * (c as u128);
            proof {
                assert((whc as int) * (esize as int) < 0x100000000000000000int)
                    by (nonlinear_arith)
                    requires
                        0 <= (whc as int) < 0x40000000000000000int,
                        0 <= (esize as int) <= 4,
                ;
            }
            if (bytes.len() as u128) != whc * (esize as u128) {
                return Err(ImageRsError::Decoding);
            }
            Ok(ImageRsDynamicImage::new(img))
        },
    }
}

/// The raw pixel byte view of a handle: exactly its pixel bytes.
pub fn to_binary(image: &ImageRsDynamicImage) -> (r: Result<Vec<u8>, ImageRsError>)
    requires
        image.inv(),
    ensures
        r is Ok,
        r matches Ok(v) ==> v@ == image.bytes(),
{
    Ok(image_bytes_vec(&image.resource.0))
}

/// Resize to exactly `(height, width)` with the chosen filter. Zero targets
/// are rejected; otherwise the output has exactly the requested dimensions
/// and the input's color and element, and a resize to the input's own
/// dimensions is byte-identical to the input, whatever the filter.
pub fn resize(
    image: &ImageRsDynamicImage,
    height: u32,
    width: u32,
    filter: ImageRsFilterType,
) -> (r: Result<ImageRsDynamicImage, ImageRsError>)
    requires
        image.inv(),
    ensures
        r is Ok <==> (height > 0 && width > 0),
        !(height > 0 && width > 0) ==> r == Err::<ImageRsDynamicImage, ImageRsError>(
            ImageRsError::Parameter(ParameterKind::DimensionMismatch),
        ),
        r matches Ok(out) ==> ({
            &&& out.inv()
            &&& out.width == width
            &&& out.height == height
            &&& out.color_type == image.color_type
            &&& out.dtype == image.dtype
            &&& (width == image.width && height == image.height ==> out.bytes() == image.bytes())
        }),
{
    if height == 0 || width == 0 {
        return Err(ImageRsError::Parameter(ParameterKind::DimensionMismatch));
    }
    proof {
        lemma_size_shuffle(
            image.width as int,
            image.height as int,
            channels_of(image.color_type),
            elem_size_of(image.dtype),
        );
        assert(byte_len_ok(image.resource.0));
    }
    let img = resize_exact_raw(&image.resource.0, width, height, filter);
    let out = ImageRsDynamicImage::new(img);
    proof {
        lemma_supported_tags_unique(out.color_type, out.dtype, image.color_type, image.dtype);
    }
    Ok(out)
}

/// Resize to the largest size that fits within `(height, width)` while
/// keeping the aspect ratio. Zero bounds are rejected; otherwise both
/// output dimensions stay within the bounds, neither drops below one pixel,
/// and the output proportions track the input's: the cross-product error
/// `|out.width * in.height - out.height * in.width|` is at most
/// `in.width + in.height`, the rounding slack of scaling both dimensions by
/// one common ratio.
pub fn resize_preserve_ratio(
    image: &ImageRsDynamicImage,
    height: u32,
    width: u32,
    filter: ImageRsFilterType,
) -> (r: Result<ImageRsDynamicImage, ImageRsError>)
    requires
        image.inv(),
    ensures
        r is Ok <==> (height > 0 && width > 0),
        !(height > 0 && width > 0) ==> r == Err::<ImageRsDynamicImage, ImageRsError>(
            ImageRsError::Parameter(ParameterKind::DimensionMismatch),
        ),
        r matches Ok(out) ==> ({
            &&& out.inv()
            &&& 1 <= out.width <= width
            &&& 1 <= out.height <= height
            &&& out.color_type == image.color_type
            &&& out.dtype == image.dtype
            &&& out.width * image.height - out.height * image.width <= image.width + image.height
            &&& out.height * image.width - out.width * image.height <= image.width + image.height
        }),
{
    if height == 0 || width == 0 {
        return Err(ImageRsError::Parameter(ParameterKind::DimensionMismatch));
    }
    proof {
        lemma_size_shuffle(
            image.width as int,
            image.height as int,
            channels_of(image.color_type),
            elem_size_of(image.dtype),
        );
        assert(byte_len_ok(image.resource.0));
    }
    let img = resize_ratio_raw(&image.resource.0, width, height, filter);
    let out = ImageRsDynamicImage::new(img);
    proof {
        lemma_supported_tags_unique(out.color_type, out.dtype, image.color_type, image.dtype);
    }
    Ok(out)
}

/// Resize to exactly `(height, width)`, keeping the aspect ratio and
/// center-cropping the overflow. Zero targets are rejected.
pub fn resize_to_fill(
    image: &ImageRsDynamicImage,
    height: u32,
    width: u32,
    filter: ImageRsFilterType,
) -> (r: Result<ImageRsDynamicImage, ImageRsError>)
    requires
        image.inv(),
    ensures
        r is Ok <==> (height > 0 && width > 0),
        !(height > 0 && width > 0) ==> r == Err::<ImageRsDynamicImage, ImageRsError>(
            ImageRsError::Parameter(ParameterKind::DimensionMismatch),
        ),
        r matches Ok(out) ==> ({
            &&& out.inv()
            &&& out.width == width
            &&& out.height == height
            &&& out.color_type == image.color_type
            &&& out.dtype == image.dtype
        }),
{
    if height == 0 || width == 0 {
        return Err(ImageRsError::Parameter(ParameterKind::DimensionMismatch));
    }
    proof {
        lemma_size_shuffle(
            image.width as int,
            image.height as int,
            channels_of(image.color_type),
            elem_size_of(image.dtype),
        );
        assert(byte_len_ok(image.resource.0));
    }
    let img = resize_fill_raw(&image.resource.0, width, height, filter);
    let out = ImageRsDynamicImage::new(img);
    proof {
        lemma_supported_tags_unique(out.color_type, out.dtype, image.color_type, image.dtype);
    }
    Ok(out)
}

/// When a crop rectangle is acceptable: non-empty and entirely within the
/// image bounds.
pub open spec fn crop_ok(image: &ImageRsDynamicImage, x: u32, y: u32, height: u32, width: u32)
    -> bool {
    &&& width > 0
    &&& height > 0
    &&& x + width <= image.width
    &&& y + height <= image.height
}

/// Crop the rectangle of the given size whose top-left pixel is at
/// `(x, y)`. A rectangle that is empty or exceeds the image bounds is
/// rejected rather than silently clipped; otherwise the output is exactly
/// that rectangle's pixels.
pub fn crop(image: &ImageRsDynamicImage, x: u32, y: u32, height: u32, width: u32) -> (r: Result<
    ImageRsDynamicImage,
    ImageRsError,
>)
    requires
        image.inv(),
    ensures
        r is Ok <==> crop_ok(image, x, y, height, width),
        !crop_ok(image, x, y, height, width) ==> r == Err::<ImageRsDynamicImage, ImageRsError>(
            ImageRsError::Parameter(ParameterKind::DimensionMismatch),
        ),
        r matches Ok(out) ==> ({
            &&& out.inv()
            &&& out.width == width
            &&& out.height == height
            &&& out.color_type == image.color_type
            &&& out.dtype == image.dtype
            &&& out.bytes() == crop_bytes(
                image.bytes(),
                image.width as int,
                image.pixel_size(),
                x as int,
                y as int,
                width as int,
                height as int,
            )
        }),
{
    if width == 0 || height == 0 {
        return Err(ImageRsError::Parameter(ParameterKind::DimensionMismatch));
    }
    if (x as u64) + (width as u64) > (image.width as u64) || (y as u64) + (height as u64) > (
    image.height as u64) {
        return Err(ImageRsError::Parameter(ParameterKind::DimensionMismatch));
    }
    let img = crop_raw(&image.resource.0, x, y, width, height);
    proof {
        lemma_size_shuffle(
            width as int,
            height as int,
            channels_of(image.color_type),
            elem_size_of(image.dtype),
        );
    }
    let out = ImageRsDynamicImage::new(img);
    proof {
        lemma_supported_tags_unique(out.color_type, out.dtype, image.color_type, image.dtype);
    }
    Ok(out)
}

/// The color a buffer has after grayscale conversion: float buffers keep
/// their color, integral buffers collapse to luma, keeping alpha.
pub open spec fn gray_color(c: ImageRsColorType, d: ImageRsDataType) -> ImageRsColorType {
    if d == ImageRsDataType::F32 {
        c
    } else if c == ImageRsColorType::L || c == ImageRsColorType::Rgb {
        ImageRsColorType::L
    } else {
        ImageRsColorType::La
    }
}

/// Convert to grayscale. The element type is preserved; the color becomes
/// [`gray_color`] of the input's, as the pixel-algorithm collaborator
/// defines it.
pub fn grayscale(image: &ImageRsDynamicImage) -> (r: Result<ImageRsDynamicImage, ImageRsError>)
    requires
        image.inv(),
    ensures
        r is Ok,
        r matches Ok(out) ==> ({
            &&& out.inv()
            &&& out.width == image.width
            &&& out.height == image.height
            &&& out.color_type == gray_color(image.color_type, image.dtype)
            &&& out.dtype == image.dtype
        }),
{
    proof {
        lemma_size_shuffle(
            image.width as int,
            image.height as int,
            channels_of(image.color_type),
            elem_size_of(image.dtype),
        );
        assert(byte_len_ok(image.resource.0));
    }
    let img = grayscale_raw(&image.resource.0);
    proof {
        assert(supported(gray_color(image.color_type, image.dtype), image.dtype));
        assert(channels_of(gray_color(image.color_type, image.dtype)) == gray_channels(
            channels_of(image.color_type) as u32,
            elem_size_of(image.dtype) as u32,
        ));
    }
    let out = ImageRsDynamicImage::new(img);
    proof {
        lemma_supported_tags_unique(
            out.color_type,
            out.dtype,
            gray_color(image.color_type, image.dtype),
            image.dtype,
        );
    }
    Ok(out)
}

/// Invert every sample: each becomes its type maximum minus itself, the
/// alpha channel untouched. For integral elements this is the exact byte
/// permutation [`invert_bytes`].
pub fn invert(image: &ImageRsDynamicImage) -> (r: Result<ImageRsDynamicImage, ImageRsError>)
    requires
        image.inv(),
    ensures
        r is Ok,
        r matches Ok(out) ==> ({
            &&& out.inv()
            &&& out.width == image.width
            &&& out.height == image.height
            &&& out.color_type == image.color_type
            &&& out.dtype == image.dtype
            &&& (image.dtype == ImageRsDataType::U8 || image.dtype == ImageRsDataType::U16)
                ==> out.bytes() == invert_bytes(
                image.bytes(),
                channels_of(image.color_type),
                elem_size_of(image.dtype),
                has_alpha(image.color_type),
            )
        }),
{
    proof {
        lemma_size_shuffle(
            image.width as int,
            image.height as int,
            channels_of(image.color_type),
            elem_size_of(image.dtype),
        );
        assert(byte_len_ok(image.resource.0));
    }
    let img = invert_raw(&image.resource.0);
    proof {
        assert(img_has_alpha(image.resource.0) == has_alpha(image.color_type));
    }
    let out = ImageRsDynamicImage::new(img);
    proof {
        lemma_supported_tags_unique(out.color_type, out.dtype, image.color_type, image.dtype);
    }
    Ok(out)
}

/// Brighten every sample by the given amount, saturating at the sample
/// bounds, the alpha channel untouched; for byte-wide samples that is
/// exactly [`brighten_bytes`]. Shape, color and element are preserved.
/// Float buffers are rejected: the collaborator shifts samples in integer
/// arithmetic, which float samples do not survive.
pub fn brighten(image: &ImageRsDynamicImage, value: i32) -> (r: Result<
    ImageRsDynamicImage,
    ImageRsError,
>)
    requires
        image.inv(),
    ensures
        r is Ok <==> image.dtype != ImageRsDataType::F32,
        image.dtype == ImageRsDataType::F32 ==> r == Err::<ImageRsDynamicImage, ImageRsError>(
            ImageRsError::Unsupported(UnsupportedKind::ColorType),
        ),
        r matches Ok(out) ==> ({
            &&& out.inv()
            &&& out.width == image.width
            &&& out.height == image.height
            &&& out.color_type == image.color_type
            &&& out.dtype == image.dtype
            &&& (image.dtype == ImageRsDataType::U8 ==> out.bytes() == brighten_bytes(
                image.bytes(),
                channels_of(image.color_type),
                has_alpha(image.color_type),
                value as int,
            ))
        }),
{
    if image.dtype == ImageRsDataType::F32 {
        return Err(ImageRsError::Unsupported(UnsupportedKind::ColorType));
    }
    let v: i32 = if value > 65536 {
        65536
    } else {
        value
    };
    proof {
        lemma_size_shuffle(
            image.width as int,
            image.height as int,
            channels_of(image.color_type),
            elem_size_of(image.dtype),
        );
        assert(byte_len_ok(image.resource.0));
        assert(img_has_alpha(image.resource.0) == has_alpha(image.color_type));
        if image.dtype == ImageRsDataType::U8 && value > 65536 {
            lemma_brighten_saturates(
                image.bytes(),
                channels_of(image.color_type),
                has_alpha(image.color_type),
                value as int,
            );
        }
    }
    let img = brighten_raw(&image.resource.0, v);
    let out = ImageRsDynamicImage::new(img);
    proof {
        lemma_supported_tags_unique(out.color_type, out.dtype, image.color_type, image.dtype);
    }
    Ok(out)
}

/// Rotate the hue of every pixel by the given number of degrees. Shape,
/// color and element are preserved.
pub fn huerotate(image: &ImageRsDynamicImage, value: i32) -> (r: Result<
    ImageRsDynamicImage,
    ImageRsError,
>)
    requires
        image.inv(),
    ensures
        r is Ok,
        r matches Ok(out) ==> ({
            &&& out.inv()
            &&& out.width == image.width
            &&& out.height == image.height
            &&& out.color_type == image.color_type
            &&& out.dtype == image.dtype
        }),
{
    proof {
        lemma_size_shuffle(
            image.width as int,
            image.height as int,
            channels_of(image.color_type),
            elem_size_of(image.dtype),
        );
        assert(byte_len_ok(image.resource.0));
    }
    let img = huerotate_raw(&image.resource.0, value);
    let out = ImageRsDynamicImage::new(img);
    proof {
        lemma_supported_tags_unique(out.color_type, out.dtype, image.color_type, image.dtype);
    }
    Ok(out)
}

/// Flip vertically: rows in reverse order, bytes exactly [`flipv_bytes`].
pub fn flipv(image: &ImageRsDynamicImage) -> (r: Result<ImageRsDynamicImage, ImageRsError>)
    requires
        image.inv(),
    ensures
        r is Ok,
        r matches Ok(out) ==> ({
            &&& out.inv()
            &&& out.width == image.width
            &&& out.height == image.height
            &&& out.color_type == image.color_type
            &&& out.dtype == image.dtype
            &&& out.bytes() == flipv_bytes(
                image.bytes(),
                image.width as int,
                image.height as int,
                image.pixel_size(),
            )
        }),
{
    let img = flipv_raw(&image.resource.0);
    proof {
        lemma_size_shuffle(
            image.width as int,
            image.height as int,
            channels_of(image.color_type),
            elem_size_of(image.dtype),
        );
    }
    let out = ImageRsDynamicImage::new(img);
    proof {
        lemma_supported_tags_unique(out.color_type, out.dtype, image.color_type, image.dtype);
    }
    Ok(out)
}

/// Flip horizontally: each row reversed, bytes exactly [`fliph_bytes`].
pub fn fliph(image: &ImageRsDynamicImage) -> (r: Result<ImageRsDynamicImage, ImageRsError>)
    requires
        image.inv(),
    ensures
        r is Ok,
        r matches Ok(out) ==> ({
            &&& out.inv()
            &&& out.width == image.width
            &&& out.height == image.height
            &&& out.color_type == image.color_type
            &&& out.dtype == image.dtype
            &&& out.bytes() == fliph_bytes(
                image.bytes(),
                image.width as int,
                image.height as int,
                image.pixel_size(),
            )
        }),
{
    let img = fliph_raw(&image.resource.0);
    proof {
        lemma_size_shuffle(
            image.width as int,
            image.height as int,
            channels_of(image.color_type),
            elem_size_of(image.dtype),
        );
    }
    let out = ImageRsDynamicImage::new(img);
    proof {
        lemma_supported_tags_unique(out.color_type, out.dtype, image.color_type, image.dtype);
    }
    Ok(out)
}

/// Rotate 90 degrees clockwise: dimensions swap, bytes exactly
/// [`rot90_bytes`].
pub fn rotate90(image: &ImageRsDynamicImage) -> (r: Result<ImageRsDynamicImage, ImageRsError>)
    requires
        image.inv(),
    ensures
        r is Ok,
        r matches Ok(out) ==> ({
            &&& out.inv()
            &&& out.width == image.height
            &&& out.height == image.width
            &&& out.color_type == image.color_type
            &&& out.dtype == image.dtype
            &&& out.bytes() == rot90_bytes(
                image.bytes(),
                image.width as int,
                image.height as int,
                image.pixel_size(),
            )
        }),
{
    let img = rotate90_raw(&image.resource.0);
    proof {
        lemma_size_shuffle(
            image.width as int,
            image.height as int,
            channels_of(image.color_type),
            elem_size_of(image.dtype),
        );
    }
    let out = ImageRsDynamicImage::new(img);
    proof {
        lemma_supported_tags_unique(out.color_type, out.dtype, image.color_type, image.dtype);
    }
    Ok(out)
}

/// Rotate 180 degrees: dimensions preserved, bytes exactly
/// [`rot180_bytes`].
pub fn rotate180(image: &ImageRsDynamicImage) -> (r: Result<ImageRsDynamicImage, ImageRsError>)
    requires
        image.inv(),
    ensures
        r is Ok,
        r matches Ok(out) ==> ({
            &&& out.inv()
            &&& out.width == image.width
            &&& out.height == image.height
            &&& out.color_type == image.color_type
            &&& out.dtype == image.dtype
            &&& out.bytes() == rot180_bytes(
                image.bytes(),
                image.width as int,
                image.height as int,
                image.pixel_size(),
            )
        }),
{
    let img = rotate180_raw(&image.resource.0);
    proof {
        lemma_size_shuffle(
            image.width as int,
            image.height as int,
            channels_of(image.color_type),
            elem_size_of(image.dtype),
        );
    }
    let out = ImageRsDynamicImage::new(img);
    proof {
        lemma_supported_tags_unique(out.color_type, out.dtype, image.color_type, image.dtype);
    }
    Ok(out)
}

/// Rotate 270 degrees clockwise: dimensions swap, bytes exactly
/// [`rot270_bytes`].
pub fn rotate270(image: &ImageRsDynamicImage) -> (r: Result<ImageRsDynamicImage, ImageRsError>)
    requires
        image.inv(),
    ensures
        r is Ok,
        r matches Ok(out) ==> ({
            &&& out.inv()
            &&& out.width == image.height
            &&& out.height == image.width
            &&& out.color_type == image.color_type
            &&& out.dtype == image.dtype
            &&& out.bytes() == rot270_bytes(
                image.bytes(),
                image.width as int,
                image.height as int,
                image.pixel_size(),
            )
        }),
{
    let img = rotate270_raw(&image.resource.0);
    proof {
        lemma_size_shuffle(
            image.width as int,
            image.height as int,
            channels_of(image.color_type),
            elem_size_of(image.dtype),
        );
    }
    let out = ImageRsDynamicImage::new(img);
    proof {
        lemma_supported_tags_unique(out.color_type, out.dtype, image.color_type, image.dtype);
    }
    Ok(out)
}

/// Encode a handle to bytes in the chosen format. A malformed options bag
/// is rejected with exactly the error [`spec_encode_format`] states. With a
/// valid bag the call succeeds exactly when the codec accepts the
/// combination — [`encode_result`] of the handle's bytes and profile — and
/// then returns exactly those encoded bytes; a codec failure is never
/// reported as one of the facade's own validation errors.
pub fn encode_as(
    image: &ImageRsDynamicImage,
    format: ImageRsOutputFormat,
    options: &Vec<(String, String)>,
) -> (r: Result<Vec<u8>, ImageRsError>)
    requires
        image.inv(),
    ensures
        spec_encode_format(format, opts_view(options@)) matches Err(e) ==> r == Err::<
            Vec<u8>,
            ImageRsError,
        >(e),
        spec_encode_format(format, opts_view(options@)) matches Ok(ef) ==> ({
            let d = (
                image.width,
                image.height,
                channels_of(image.color_type) as u32,
                elem_size_of(image.dtype) as u32,
            );
            &&& (r is Ok <==> encode_result(image.bytes(), d, ef) is Some)
            &&& (r matches Ok(v) ==> (encode_result(image.bytes(), d, ef) matches Some(out)
                && v@ == out))
            &&& (r matches Err(e2) ==> e2 != ImageRsError::BadArgument && e2
                != ImageRsError::InvalidImageData)
        }),
{
    let ef = match into_output_format(format, options) {
        Ok(ef) => ef,
        Err(e) => {
            return Err(e);
        },
    };
    proof {
        lemma_size_shuffle(
            image.width as int,
            image.height as int,
            channels_of(image.color_type),
            elem_size_of(image.dtype),
        );
        assert(byte_len_ok(image.resource.0));
        assert(img_dims(image.resource.0) == (
            image.width,
            image.height,
            channels_of(image.color_type) as u32,
            elem_size_of(image.dtype) as u32,
        ));
    }
    match write_image(&image.resource.0, &ef) {
        Ok(bytes) => Ok(bytes),
        Err(e) => Err(map_image_error(e)),
    }
}

} // verus!
