use image_rs::error::ParameterKind;
use image_rs::image_rs::{
    brighten, crop, fliph, flipv, grayscale, huerotate, invert, new, resize,
    resize_preserve_ratio, resize_to_fill, rotate180, rotate270, rotate90, to_binary,
};
use image_rs::{ImageRsColorType, ImageRsDataType, ImageRsError, ImageRsFilterType};


fn expect_err<T>(r: Result<T, image_rs::ImageRsError>) -> image_rs::ImageRsError {
    match r {
        Err(e) => e,
        Ok(_) => panic!("expected an error"),
    }
}

fn rot90_expected(b: &[u8], w: usize, h: usize, p: usize) -> Vec<u8> {
    let mut out = vec![0u8; b.len()];
    for r in 0..w {
        for c in 0..h {
            for o in 0..p {
                out[(r * h + c) * p + o] = b[((h - 1 - c) * w + r) * p + o];
            }
        }
    }
    out
}

fn rot180_expected(b: &[u8], w: usize, h: usize, p: usize) -> Vec<u8> {
    let mut out = vec![0u8; b.len()];
    for r in 0..h {
        for c in 0..w {
            for o in 0..p {
                out[(r * w + c) * p + o] = b[((h - 1 - r) * w + (w - 1 - c)) * p + o];
            }
        }
    }
    out
}

fn rot270_expected(b: &[u8], w: usize, h: usize, p: usize) -> Vec<u8> {
    let mut out = vec![0u8; b.len()];
    for r in 0..w {
        for c in 0..h {
            for o in 0..p {
                out[(r * h + c) * p + o] = b[(c * w + (w - 1 - r)) * p + o];
            }
        }
    }
    out
}

fn fliph_expected(b: &[u8], w: usize, h: usize, p: usize) -> Vec<u8> {
    let mut out = vec![0u8; b.len()];
    for r in 0..h {
        for c in 0..w {
            for o in 0..p {
                out[(r * w + c) * p + o] = b[(r * w + (w - 1 - c)) * p + o];
            }
        }
    }
    out
}

fn flipv_expected(b: &[u8], w: usize, h: usize, p: usize) -> Vec<u8> {
    let mut out = vec![0u8; b.len()];
    for r in 0..h {
        for c in 0..w {
            for o in 0..p {
                out[(r * w + c) * p + o] = b[((h - 1 - r) * w + c) * p + o];
            }
        }
    }
    out
}

fn rgb8_handle(height: u32, width: u32) -> (image_rs::ImageRsDynamicImage, Vec<u8>) {
    let len = (height * width * 3) as usize;
    let data: Vec<u8> = (0..len).map(|i| (i * 5 % 256) as u8).collect();
    let h = new(
        height,
        width,
        ImageRsColorType::Rgb,
        ImageRsDataType::U8,
        data.clone(),
    )
    .unwrap();
    (h, data)
}

#[test]
fn rotate90_matches_pixel_permutation() {
    let (h, data) = rgb8_handle(3, 2);
    let out = rotate90(&h).unwrap();
    assert_eq!(out.width, 3);
    assert_eq!(out.height, 2);
    assert_eq!(to_binary(&out).unwrap(), rot90_expected(&data, 2, 3, 3));
}

#[test]
fn rotate180_matches_pixel_permutation() {
    let (h, data) = rgb8_handle(3, 2);
    let out = rotate180(&h).unwrap();
    assert_eq!((out.width, out.height), (2, 3));
    assert_eq!(to_binary(&out).unwrap(), rot180_expected(&data, 2, 3, 3));
}

#[test]
fn rotate270_matches_pixel_permutation() {
    let (h, data) = rgb8_handle(3, 2);
    let out = rotate270(&h).unwrap();
    assert_eq!((out.width, out.height), (3, 2));
    assert_eq!(to_binary(&out).unwrap(), rot270_expected(&data, 2, 3, 3));
}

#[test]
fn flips_match_pixel_permutations() {
    let (h, data) = rgb8_handle(3, 2);
    let fh = fliph(&h).unwrap();
    assert_eq!(to_binary(&fh).unwrap(), fliph_expected(&data, 2, 3, 3));
    let fv = flipv(&h).unwrap();
    assert_eq!(to_binary(&fv).unwrap(), flipv_expected(&data, 2, 3, 3));
}

#[test]
fn rotate90_four_times_is_identity() {
    let (h, data) = rgb8_handle(3, 2);
    let r1 = rotate90(&h).unwrap();
    let r2 = rotate90(&r1).unwrap();
    let r3 = rotate90(&r2).unwrap();
    let r4 = rotate90(&r3).unwrap();
    assert_eq!(to_binary(&r4).unwrap(), data);
    assert_eq!((r4.width, r4.height), (h.width, h.height));
}

#[test]
fn flips_are_involutive() {
    let (h, data) = rgb8_handle(2, 4);
    let fv2 = flipv(&flipv(&h).unwrap()).unwrap();
    assert_eq!(to_binary(&fv2).unwrap(), data);
    let fh2 = fliph(&fliph(&h).unwrap()).unwrap();
    assert_eq!(to_binary(&fh2).unwrap(), data);
}

#[test]
fn rotate180_equals_flipv_of_fliph() {
    let (h, _data) = rgb8_handle(3, 4);
    let r = rotate180(&h).unwrap();
    let f = flipv(&fliph(&h).unwrap()).unwrap();
    assert_eq!(to_binary(&r).unwrap(), to_binary(&f).unwrap());
}

#[test]
fn invert_is_involutive_for_integral_elements() {
    let (h, data) = rgb8_handle(2, 2);
    let inv2 = invert(&invert(&h).unwrap()).unwrap();
    assert_eq!(to_binary(&inv2).unwrap(), data);

    let data16: Vec<u8> = (0..16u32).map(|i| (i * 11 % 256) as u8).collect();
    let h16 = new(
        2,
        2,
        ImageRsColorType::La,
        ImageRsDataType::U16,
        data16.clone(),
    )
    .unwrap();
    let inv2 = invert(&invert(&h16).unwrap()).unwrap();
    assert_eq!(to_binary(&inv2).unwrap(), data16);
}

#[test]
fn invert_complements_samples_and_keeps_alpha() {
    let h = new(
        1,
        1,
        ImageRsColorType::La,
        ImageRsDataType::U8,
        vec![10, 200],
    )
    .unwrap();
    let out = invert(&h).unwrap();
    assert_eq!(to_binary(&out).unwrap(), vec![245, 200]);

    let h = new(1, 1, ImageRsColorType::L, ImageRsDataType::U8, vec![10]).unwrap();
    let out = invert(&h).unwrap();
    assert_eq!(to_binary(&out).unwrap(), vec![245]);
}

#[test]
fn resize_identity_on_solid_color() {
    let data = vec![127u8; 4 * 4 * 4];
    let h = new(
        4,
        4,
        ImageRsColorType::Rgba,
        ImageRsDataType::U8,
        data.clone(),
    )
    .unwrap();
    let out = resize(&h, 4, 4, ImageRsFilterType::Nearest).unwrap();
    assert_eq!((out.width, out.height), (4, 4));
    assert_eq!(to_binary(&out).unwrap(), data);
}

#[test]
fn resize_exact_dims_for_every_filter() {
    let (h, _) = rgb8_handle(5, 3);
    let filters = vec![
        ImageRsFilterType::Nearest,
        ImageRsFilterType::Triangle,
        ImageRsFilterType::CatmullRom,
        ImageRsFilterType::Gaussian,
        ImageRsFilterType::Lanczos3,
    ];
    for f in filters {
        let out = resize(&h, 7, 2, f).unwrap();
        assert_eq!((out.height, out.width), (7, 2));
        assert_eq!(out.color_type, ImageRsColorType::Rgb);
        assert_eq!(out.dtype, ImageRsDataType::U8);
    }
}

#[test]
fn resize_zero_target_is_rejected() {
    let (h, _) = rgb8_handle(2, 2);
    let r = resize(&h, 0, 4, ImageRsFilterType::Nearest);
    assert_eq!(
        expect_err(r),
        ImageRsError::Parameter(ParameterKind::DimensionMismatch)
    );
    let r = resize_preserve_ratio(&h, 4, 0, ImageRsFilterType::Nearest);
    assert_eq!(
        expect_err(r),
        ImageRsError::Parameter(ParameterKind::DimensionMismatch)
    );
    let r = resize_to_fill(&h, 0, 0, ImageRsFilterType::Nearest);
    assert_eq!(
        expect_err(r),
        ImageRsError::Parameter(ParameterKind::DimensionMismatch)
    );
}

#[test]
fn resize_to_same_dims_is_identity() {
    let (h, data) = rgb8_handle(3, 4);
    let out = resize(&h, 3, 4, ImageRsFilterType::CatmullRom).unwrap();
    assert_eq!((out.width, out.height), (4, 3));
    assert_eq!(to_binary(&out).unwrap(), data);
}

#[test]
fn resize_preserve_ratio_cross_product_bound() {
    let (h, _) = rgb8_handle(2, 3);
    let out = resize_preserve_ratio(&h, 2, 2, ImageRsFilterType::Nearest).unwrap();
    let err = (out.width as i64 * h.height as i64 - out.height as i64 * h.width as i64).abs();
    assert!(err <= (h.width + h.height) as i64);
    assert_eq!((out.width, out.height), (2, 1));
}

#[test]
fn resize_preserve_ratio_fits_box_and_keeps_ratio() {
    let (h, _) = rgb8_handle(50, 100);
    let out = resize_preserve_ratio(&h, 10, 10, ImageRsFilterType::Nearest).unwrap();
    assert!(out.width <= 10 && out.height <= 10);
    assert_eq!((out.width, out.height), (10, 5));
}

#[test]
fn resize_to_fill_hits_exact_dims() {
    let (h, _) = rgb8_handle(50, 100);
    let out = resize_to_fill(&h, 10, 10, ImageRsFilterType::Triangle).unwrap();
    assert_eq!((out.width, out.height), (10, 10));
}

#[test]
fn crop_extracts_exact_rectangle() {
    let data: Vec<u8> = (0..12u8).collect();
    let h = new(3, 4, ImageRsColorType::L, ImageRsDataType::U8, data).unwrap();
    let out = crop(&h, 1, 1, 2, 2).unwrap();
    assert_eq!((out.width, out.height), (2, 2));
    assert_eq!(to_binary(&out).unwrap(), vec![5, 6, 9, 10]);
}

#[test]
fn crop_out_of_bounds_is_rejected() {
    let data: Vec<u8> = (0..12u8).collect();
    let h = new(3, 4, ImageRsColorType::L, ImageRsDataType::U8, data).unwrap();
    let r = crop(&h, 3, 0, 2, 2);
    assert_eq!(
        expect_err(r),
        ImageRsError::Parameter(ParameterKind::DimensionMismatch)
    );
    let r = crop(&h, 0, 0, 0, 2);
    assert_eq!(
        expect_err(r),
        ImageRsError::Parameter(ParameterKind::DimensionMismatch)
    );
}

#[test]
fn grayscale_tag_mapping() {
    let (h, _) = rgb8_handle(2, 2);
    let g = grayscale(&h).unwrap();
    assert_eq!(g.color_type, ImageRsColorType::L);
    assert_eq!(g.dtype, ImageRsDataType::U8);
    assert_eq!((g.width, g.height), (2, 2));

    let h = new(
        1,
        1,
        ImageRsColorType::Rgba,
        ImageRsDataType::U16,
        vec![0u8; 8],
    )
    .unwrap();
    let g = grayscale(&h).unwrap();
    assert_eq!(g.color_type, ImageRsColorType::La);
    assert_eq!(g.dtype, ImageRsDataType::U16);

    let h = new(
        1,
        1,
        ImageRsColorType::Rgb,
        ImageRsDataType::F32,
        vec![0u8; 12],
    )
    .unwrap();
    let g = grayscale(&h).unwrap();
    assert_eq!(g.color_type, ImageRsColorType::Rgb);
    assert_eq!(g.dtype, ImageRsDataType::F32);
}

#[test]
fn brighten_adds_and_preserves_shape() {
    let h = new(1, 2, ImageRsColorType::L, ImageRsDataType::U8, vec![10, 250]).unwrap();
    let out = brighten(&h, 10).unwrap();
    assert_eq!((out.width, out.height), (2, 1));
    assert_eq!(out.color_type, ImageRsColorType::L);
    assert_eq!(to_binary(&out).unwrap(), vec![20, 255]);
}

#[test]
fn brighten_saturates_and_keeps_alpha() {
    let h = new(
        1,
        1,
        ImageRsColorType::La,
        ImageRsDataType::U8,
        vec![10, 200],
    )
    .unwrap();
    let out = brighten(&h, 300).unwrap();
    assert_eq!(to_binary(&out).unwrap(), vec![255, 200]);
    let out = brighten(&h, i32::MAX).unwrap();
    assert_eq!(to_binary(&out).unwrap(), vec![255, 200]);
    let out = brighten(&h, -20).unwrap();
    assert_eq!(to_binary(&out).unwrap(), vec![0, 200]);
}

#[test]
fn brighten_shifts_u16_samples() {
    let data = 7u16.to_ne_bytes().to_vec();
    let h = new(1, 1, ImageRsColorType::L, ImageRsDataType::U16, data).unwrap();
    let out = brighten(&h, 10).unwrap();
    assert_eq!(out.dtype, ImageRsDataType::U16);
    let bytes = to_binary(&out).unwrap();
    assert_eq!(u16::from_ne_bytes([bytes[0], bytes[1]]), 17);
}

#[test]
fn brighten_rejects_float_buffers() {
    let h = new(
        1,
        1,
        ImageRsColorType::Rgb,
        ImageRsDataType::F32,
        vec![0u8; 12],
    )
    .unwrap();
    let r = brighten(&h, 10);
    assert_eq!(
        expect_err(r),
        ImageRsError::Unsupported(image_rs::error::UnsupportedKind::ColorType)
    );
}

#[test]
fn huerotate_preserves_shape_and_tags() {
    let (h, _) = rgb8_handle(2, 3);
    let out = huerotate(&h, 90).unwrap();
    assert_eq!((out.width, out.height), (h.width, h.height));
    assert_eq!(out.color_type, ImageRsColorType::Rgb);
    assert_eq!(out.dtype, ImageRsDataType::U8);
}
