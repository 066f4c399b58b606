use image_rs::error::UnsupportedKind;
use image_rs::image_rs::{encode_as, from_binary, new, to_binary};
use image_rs::{ImageRsColorType, ImageRsDataType, ImageRsError, ImageRsOutputFormat};


fn expect_err<T>(r: Result<T, image_rs::ImageRsError>) -> image_rs::ImageRsError {
    match r {
        Err(e) => e,
        Ok(_) => panic!("expected an error"),
    }
}

fn rgb8_handle() -> image_rs::ImageRsDynamicImage {
    let data: Vec<u8> = (0..12u8).collect();
    new(2, 2, ImageRsColorType::Rgb, ImageRsDataType::U8, data).unwrap()
}

fn opts(pairs: &[(&str, &str)]) -> Vec<(String, String)> {
    pairs
        .iter()
        .map(|(k, v)| (k.to_string(), v.to_string()))
        .collect()
}

#[test]
fn jpeg_without_quality_is_bad_argument() {
    let h = rgb8_handle();
    let r = encode_as(&h, ImageRsOutputFormat::Jpeg, &opts(&[]));
    assert_eq!(expect_err(r), ImageRsError::BadArgument);
}

#[test]
fn jpeg_with_unparseable_quality_is_bad_argument() {
    let h = rgb8_handle();
    let r = encode_as(&h, ImageRsOutputFormat::Jpeg, &opts(&[("quality", "high")]));
    assert_eq!(expect_err(r), ImageRsError::BadArgument);
    let r = encode_as(&h, ImageRsOutputFormat::Jpeg, &opts(&[("quality", "256")]));
    assert_eq!(expect_err(r), ImageRsError::BadArgument);
    let r = encode_as(&h, ImageRsOutputFormat::Jpeg, &opts(&[("quality", "")]));
    assert_eq!(expect_err(r), ImageRsError::BadArgument);
    let r = encode_as(&h, ImageRsOutputFormat::Jpeg, &opts(&[("quality", "-1")]));
    assert_eq!(expect_err(r), ImageRsError::BadArgument);
}

#[test]
fn jpeg_with_valid_quality_encodes() {
    let h = rgb8_handle();
    let r = encode_as(&h, ImageRsOutputFormat::Jpeg, &opts(&[("quality", "75")]));
    let bytes = r.unwrap();
    assert!(bytes.starts_with(&[0xFFu8, 0xD8]));
}

#[test]
fn jpeg_quality_accepts_leading_plus() {
    let h = rgb8_handle();
    let r = encode_as(&h, ImageRsOutputFormat::Jpeg, &opts(&[("quality", "+90")]));
    assert!(r.is_ok());
}

#[test]
fn pnm_arbitrarymap_begins_with_p7_magic() {
    let h = rgb8_handle();
    let r = encode_as(
        &h,
        ImageRsOutputFormat::Pnm,
        &opts(&[("subtype", "arbitrarymap")]),
    );
    let bytes = r.unwrap();
    assert_eq!(&bytes[0..2], b"P7");
}

#[test]
fn pnm_pixmap_binary_begins_with_p6_magic() {
    let h = rgb8_handle();
    let r = encode_as(
        &h,
        ImageRsOutputFormat::Pnm,
        &opts(&[("subtype", "pixmap"), ("encoding", "binary")]),
    );
    let bytes = r.unwrap();
    assert_eq!(&bytes[0..2], b"P6");
}

#[test]
fn pnm_pixmap_ascii_begins_with_p3_magic() {
    let h = rgb8_handle();
    let r = encode_as(
        &h,
        ImageRsOutputFormat::Pnm,
        &opts(&[("subtype", "pixmap"), ("encoding", "ascii")]),
    );
    let bytes = r.unwrap();
    assert_eq!(&bytes[0..2], b"P3");
}

#[test]
fn pnm_missing_subtype_is_bad_argument() {
    let h = rgb8_handle();
    let r = encode_as(&h, ImageRsOutputFormat::Pnm, &opts(&[]));
    assert_eq!(expect_err(r), ImageRsError::BadArgument);
}

#[test]
fn pnm_missing_encoding_is_bad_argument() {
    let h = rgb8_handle();
    let r = encode_as(&h, ImageRsOutputFormat::Pnm, &opts(&[("subtype", "pixmap")]));
    assert_eq!(expect_err(r), ImageRsError::BadArgument);
}

#[test]
fn pnm_bad_subtype_or_encoding_is_bad_argument() {
    let h = rgb8_handle();
    let r = encode_as(&h, ImageRsOutputFormat::Pnm, &opts(&[("subtype", "pnm")]));
    assert_eq!(expect_err(r), ImageRsError::BadArgument);
    let r = encode_as(
        &h,
        ImageRsOutputFormat::Pnm,
        &opts(&[("subtype", "pixmap"), ("encoding", "base64")]),
    );
    assert_eq!(expect_err(r), ImageRsError::BadArgument);
}

#[test]
fn avif_is_unsupported_format() {
    let h = rgb8_handle();
    let r = encode_as(&h, ImageRsOutputFormat::Avif, &opts(&[]));
    assert_eq!(
        expect_err(r),
        ImageRsError::Unsupported(UnsupportedKind::Format)
    );
}

#[test]
fn png_encode_ignores_unknown_options() {
    let h = rgb8_handle();
    let r = encode_as(&h, ImageRsOutputFormat::Png, &opts(&[("quality", "high")]));
    let bytes = r.unwrap();
    assert_eq!(&bytes[1..4], b"PNG");
}

#[test]
fn png_decode_encode_decode_is_lossless() {
    let data: Vec<u8> = (0..27u8).map(|i| i.wrapping_mul(9)).collect();
    let h0 = new(3, 3, ImageRsColorType::Rgb, ImageRsDataType::U8, data.clone()).unwrap();
    let png1 = encode_as(&h0, ImageRsOutputFormat::Png, &opts(&[])).unwrap();

    let h1 = from_binary(&png1).unwrap();
    assert_eq!((h1.width, h1.height), (3, 3));
    assert_eq!(h1.color_type, ImageRsColorType::Rgb);
    assert_eq!(h1.dtype, ImageRsDataType::U8);
    assert_eq!(to_binary(&h1).unwrap(), data);

    let png2 = encode_as(&h1, ImageRsOutputFormat::Png, &opts(&[])).unwrap();
    let h2 = from_binary(&png2).unwrap();
    assert_eq!(to_binary(&h2).unwrap(), to_binary(&h1).unwrap());
    assert_eq!((h2.width, h2.height), (h1.width, h1.height));
    assert_eq!(h2.color_type, h1.color_type);
    assert_eq!(h2.dtype, h1.dtype);
}

#[test]
fn farbfeld_rejects_unsupported_color() {
    let h = rgb8_handle();
    let r = encode_as(&h, ImageRsOutputFormat::Farbfeld, &opts(&[]));
    let e = expect_err(r);
    assert_ne!(e, ImageRsError::BadArgument);
    assert_ne!(e, ImageRsError::InvalidImageData);
    assert_eq!(e, ImageRsError::Unsupported(UnsupportedKind::ColorType));
}

#[test]
fn first_binding_of_a_key_wins() {
    let h = rgb8_handle();
    let r = encode_as(
        &h,
        ImageRsOutputFormat::Jpeg,
        &opts(&[("quality", "75"), ("quality", "bad")]),
    );
    assert!(r.is_ok());
    let r = encode_as(
        &h,
        ImageRsOutputFormat::Jpeg,
        &opts(&[("quality", "bad"), ("quality", "75")]),
    );
    assert_eq!(expect_err(r), ImageRsError::BadArgument);
}

#[test]
fn garbage_bytes_fail_to_decode() {
    let r = from_binary(&vec![0xDEu8, 0xAD, 0xBE, 0xEF, 1, 2, 3, 4]);
    assert!(r.is_err());
}

#[test]
fn bmp_and_tga_round_trip_dimensions() {
    let h = rgb8_handle();
    let bmp = encode_as(&h, ImageRsOutputFormat::Bmp, &opts(&[])).unwrap();
    let hb = from_binary(&bmp).unwrap();
    assert_eq!((hb.width, hb.height), (2, 2));
    let tga = encode_as(&h, ImageRsOutputFormat::Tga, &opts(&[])).unwrap();
    assert!(!tga.is_empty());
}
