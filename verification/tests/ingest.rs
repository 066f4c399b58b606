use image_rs::error::UnsupportedKind;
use image_rs::image_rs::{new, to_binary};
use image_rs::{ImageRsColorType, ImageRsDataType, ImageRsError};


fn expect_err<T>(r: Result<T, image_rs::ImageRsError>) -> image_rs::ImageRsError {
    match r {
        Err(e) => e,
        Ok(_) => panic!("expected an error"),
    }
}

fn supported_pairs() -> Vec<(ImageRsColorType, ImageRsDataType, u32, u32)> {
    vec![
        (ImageRsColorType::L, ImageRsDataType::U8, 1, 1),
        (ImageRsColorType::L, ImageRsDataType::U16, 1, 2),
        (ImageRsColorType::La, ImageRsDataType::U8, 2, 1),
        (ImageRsColorType::La, ImageRsDataType::U16, 2, 2),
        (ImageRsColorType::Rgb, ImageRsDataType::U8, 3, 1),
        (ImageRsColorType::Rgb, ImageRsDataType::U16, 3, 2),
        (ImageRsColorType::Rgb, ImageRsDataType::F32, 3, 4),
        (ImageRsColorType::Rgba, ImageRsDataType::U8, 4, 1),
        (ImageRsColorType::Rgba, ImageRsDataType::U16, 4, 2),
        (ImageRsColorType::Rgba, ImageRsDataType::F32, 4, 4),
    ]
}

#[test]
fn ingest_zeros_every_supported_pair() {
    let height = 3u32;
    let width = 2u32;
    for (color, dtype, channels, esize) in supported_pairs() {
        let len = (height * width * channels * esize) as usize;
        let data = vec![0u8; len];
        let h = new(height, width, color, dtype, data.clone()).unwrap();
        assert_eq!(h.height, height);
        assert_eq!(h.width, width);
        assert_eq!(h.channels, channels);
        assert_eq!(h.color_type, color);
        assert_eq!(h.dtype, dtype);
        assert_eq!(h.shape, vec![height, width, channels]);
        let bytes = to_binary(&h).unwrap();
        assert_eq!(bytes, data);
    }
}

#[test]
fn ingest_round_trip_every_supported_pair() {
    let height = 2u32;
    let width = 3u32;
    for (color, dtype, channels, esize) in supported_pairs() {
        let len = (height * width * channels * esize) as usize;
        let data: Vec<u8> = (0..len).map(|i| (i * 7 % 251) as u8).collect();
        let h = new(height, width, color, dtype, data.clone()).unwrap();
        let bytes = to_binary(&h).unwrap();
        assert_eq!(bytes, data);
    }
}

#[test]
fn ingest_bad_length_is_invalid_image_data() {
    let r = new(2, 2, ImageRsColorType::Rgb, ImageRsDataType::U8, vec![0u8; 11]);
    assert_eq!(expect_err(r), ImageRsError::InvalidImageData);
}

#[test]
fn ingest_u16_native_order() {
    let data = vec![0x34u8, 0x12, 0x78, 0x56];
    let h = new(1, 2, ImageRsColorType::L, ImageRsDataType::U16, data.clone()).unwrap();
    assert_eq!(h.dtype, ImageRsDataType::U16);
    assert_eq!(h.height, 1);
    assert_eq!(h.width, 2);
    let bytes = to_binary(&h).unwrap();
    assert_eq!(bytes, data);
    let samples: Vec<u16> = bytes
        .chunks(2)
        .map(|c| u16::from_ne_bytes([c[0], c[1]]))
        .collect();
    assert_eq!(samples, vec![0x1234u16, 0x5678]);
}

#[test]
fn ingest_unsupported_pair_is_unsupported() {
    let r = new(1, 1, ImageRsColorType::L, ImageRsDataType::F32, vec![0u8; 4]);
    assert_eq!(
        expect_err(r),
        ImageRsError::Unsupported(UnsupportedKind::Other)
    );
    let r = new(0, 0, ImageRsColorType::L, ImageRsDataType::F32, vec![]);
    assert_eq!(
        expect_err(r),
        ImageRsError::Unsupported(UnsupportedKind::Other)
    );
}

#[test]
fn ingest_unknown_color_is_unsupported_color_type() {
    let r = new(2, 2, ImageRsColorType::Unknown, ImageRsDataType::U8, vec![]);
    assert_eq!(
        expect_err(r),
        ImageRsError::Unsupported(UnsupportedKind::ColorType)
    );
}

#[test]
fn ingest_zero_dimension_is_invalid_image_data() {
    let r = new(0, 5, ImageRsColorType::L, ImageRsDataType::U8, vec![]);
    assert_eq!(expect_err(r), ImageRsError::InvalidImageData);
    let r = new(5, 0, ImageRsColorType::Rgba, ImageRsDataType::U16, vec![]);
    assert_eq!(expect_err(r), ImageRsError::InvalidImageData);
}

#[test]
fn ingest_huge_dimensions_are_invalid_image_data() {
    let r = new(
        u32::MAX,
        u32::MAX,
        ImageRsColorType::Rgba,
        ImageRsDataType::U16,
        vec![0u8; 8],
    );
    assert_eq!(expect_err(r), ImageRsError::InvalidImageData);
}

#[test]
fn handle_metadata_matches_get_image_detail() {
    let data: Vec<u8> = (0..12u32).map(|i| i as u8).collect();
    let h = new(2, 2, ImageRsColorType::Rgb, ImageRsDataType::U8, data).unwrap();
    let inner = h.clone_inner();
    let ((dh, dw, dc), color, dtype) = image_rs::backend::get_image_detail(&inner);
    assert_eq!((dh, dw, dc), (2, 2, 3));
    assert_eq!(color, ImageRsColorType::Rgb);
    assert_eq!(dtype, ImageRsDataType::U8);
}
