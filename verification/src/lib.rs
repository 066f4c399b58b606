//! An image-manipulation facade over the `image` crate.
//!
//! The library exposes opaque pixel-buffer handles ([`ImageRsDynamicImage`])
//! whose metadata (width, height, channel count, element type, color
//! interpretation) is proved consistent with the underlying pixel bytes.
//! Raw byte buffers are validated before they become handles, geometric
//! transforms carry byte-level contracts, and the encoder dispatch checks
//! each codec's options before the codec runs.

pub mod backend;
pub mod datatypes;
pub mod encode;
pub mod error;
pub mod image_rs;
pub mod pixels;

pub use crate::datatypes::{
    ImageRsColorType, ImageRsDataType, ImageRsDynamicImage, ImageRsDynamicImageRef,
    ImageRsFilterType, ImageRsOutputFormat,
};
pub use crate::error::ImageRsError;
