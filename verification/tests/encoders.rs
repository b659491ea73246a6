use image::DynamicImage;
use image_converter::adaptive::{encode, target_bytes_for};
use image_converter::bitmap::{Bitmap, PixelLayout, MAX_PIXELS};
use image_converter::config::OutputFormat;
use image_converter::encoder::{
    encode_webp_lossless, plan_png, turbo_encode_jpeg, turbo_encode_jpeg_adaptive,
    turbo_encode_png_compressed, turbo_encode_png_fast, PngPlan,
};
use image_converter::codec::ResizeFilter;
use image_converter::error::ConvertError;
use image_converter::estimate::estimate_png_size;
use image_converter::quality::WebpQuality;
use image_converter::webp::{
    choose_webp_output, encode_webp_lossy, encode_webp_smart, estimate_webp_compression_ratio,
    should_try_lossless,
};

fn lossy(pixels: &Vec<u8>, width: u32, height: u32, numerator: u64, denominator: u64) -> Vec<u8> {
    let quality = numerator as f32 / denominator as f32;
    webp::Encoder::from_rgb(pixels, width, height).encode(quality).to_vec()
}

fn bitmap_of(image: &DynamicImage) -> Bitmap {
    match image {
        DynamicImage::ImageRgba8(buffer) => Bitmap::from_raw(
            buffer.width(),
            buffer.height(),
            PixelLayout::Rgba8,
            buffer.as_raw().clone(),
        )
        .unwrap(),
        other => {
            let buffer = other.to_rgb8();
            Bitmap::from_raw(buffer.width(), buffer.height(), PixelLayout::Rgb8, buffer.into_raw())
                .unwrap()
        }
    }
}

fn gradient(width: u32, height: u32) -> Bitmap {
    let mut data = Vec::new();
    for y in 0..height {
        for x in 0..width {
            let r = ((x + y) % 256) as u8;
            data.push(r);
            data.push(0);
            data.push(255 - r);
        }
    }
    Bitmap::from_raw(width, height, PixelLayout::Rgb8, data).unwrap()
}

fn noise(width: u32, height: u32) -> Bitmap {
    let mut data = Vec::new();
    let mut state: u32 = 12345;
    for _ in 0..(width * height * 3) {
        state = state.wrapping_mul(1664525).wrapping_add(1013904223);
        data.push((state >> 24) as u8);
    }
    Bitmap::from_raw(width, height, PixelLayout::Rgb8, data).unwrap()
}

#[test]
fn test_turbo_jpeg_encoding() {
    let test_image = bitmap_of(&DynamicImage::new_rgb8(200, 200));
    let result = turbo_encode_jpeg(&test_image, 80, None);
    assert!(result.is_ok());

    let data = result.unwrap();
    assert!(data.len() > 100);
}

#[test]
fn test_turbo_png_fast() {
    let test_image = bitmap_of(&DynamicImage::new_rgb8(100, 100));
    let result = turbo_encode_png_fast(&test_image);
    assert!(result.is_ok());
}

#[test]
fn test_size_estimation() {
    let size = estimate_png_size(1000, 1000);
    assert!(size > 1000000);
    assert!(size < 5000000);
}

#[test]
fn test_webp_lossy_encoding() {
    let test_image = bitmap_of(&DynamicImage::new_rgb8(100, 100));
    let result = encode_webp_lossy(&test_image, WebpQuality::new(80), None, &lossy);
    assert!(result.is_ok());

    let data = result.unwrap();
    assert!(data.len() > 50);
    assert!(data.starts_with(b"RIFF"));
}

#[test]
fn test_webp_smart_encoding() {
    let test_image = bitmap_of(&DynamicImage::new_rgb8(200, 200));
    let result = encode_webp_smart(&test_image, 50000, true, &lossy);
    assert!(result.is_ok());

    let data = result.unwrap();
    assert!(data.len() <= 60000);
}

#[test]
fn size_estimate_is_exact() {
    assert_eq!(estimate_png_size(1000, 1000), 2_101_024);
    assert_eq!(estimate_png_size(200, 200), 85_024);
    assert_eq!(estimate_png_size(0, 0), 1024);
    assert_eq!(estimate_png_size(1, 1), 1026);
    assert_eq!(estimate_png_size(4000, 3000), 25_201_024);
    assert_eq!(estimate_png_size(65_536, 65_536), 9_019_432_345);
}

#[test]
fn size_estimate_grows_linearly() {
    let base = estimate_png_size(100, 100) - 1024;
    assert_eq!(estimate_png_size(200, 100) - 1024, 2 * base);
    assert_eq!(estimate_png_size(200, 200) - 1024, 4 * base);
    assert_eq!(estimate_png_size(100, 200), estimate_png_size(200, 100));
}

#[test]
fn jpeg_gradient_within_budget() {
    let image = gradient(200, 200);
    let bytes = turbo_encode_jpeg_adaptive(&image, 400 * 1024).unwrap();
    assert_eq!(&bytes[0..2], &[0xFF, 0xD8]);
    assert!(bytes.len() <= 400 * 1024);
}

#[test]
fn jpeg_keeps_first_quality_when_it_fits() {
    let image = gradient(200, 200);
    let searched = turbo_encode_jpeg_adaptive(&image, 400 * 1024).unwrap();
    let at_eighty = turbo_encode_jpeg(&image, 80, None).unwrap();
    assert_eq!(searched, at_eighty);
}

#[test]
fn jpeg_quality_decays_until_it_fits() {
    let image = noise(128, 128);
    let at_80 = turbo_encode_jpeg(&image, 80, None).unwrap();
    let at_64 = turbo_encode_jpeg(&image, 64, None).unwrap();
    assert!(at_64.len() < at_80.len());
    let budget = at_64.len();
    let searched = turbo_encode_jpeg(&image, 80, Some(budget)).unwrap();
    assert_eq!(searched, at_64);
}

#[test]
fn jpeg_settles_for_the_floor() {
    let image = noise(64, 64);
    let at_floor = turbo_encode_jpeg(&image, 9, None).unwrap();
    let searched = turbo_encode_jpeg(&image, 80, Some(10)).unwrap();
    assert_eq!(searched, at_floor);
    assert!(searched.len() > 10);
}

#[test]
fn jpeg_at_floor_encodes_once() {
    let image = noise(64, 64);
    let at_ten = turbo_encode_jpeg(&image, 10, None).unwrap();
    let searched = turbo_encode_jpeg(&image, 10, Some(1)).unwrap();
    assert_eq!(searched, at_ten);
}

#[test]
fn jpeg_refuses_empty_and_oversized_images() {
    let empty = Bitmap::from_raw(0, 10, PixelLayout::Rgb8, Vec::new()).unwrap();
    assert_eq!(turbo_encode_jpeg(&empty, 80, None), Err(ConvertError::Encode));
    let wide = Bitmap::from_raw(65_536, 1, PixelLayout::Rgb8, vec![0u8; 65_536 * 3]).unwrap();
    assert_eq!(turbo_encode_jpeg(&wide, 80, None), Err(ConvertError::Encode));
    let widest = Bitmap::from_raw(65_535, 1, PixelLayout::Rgb8, vec![0u8; 65_535 * 3]).unwrap();
    assert!(turbo_encode_jpeg(&widest, 80, None).is_ok());
}

#[test]
fn jpeg_drops_alpha() {
    let rgb = gradient(16, 16);
    let mut data = Vec::new();
    for pixel in rgb.as_bytes().chunks(3) {
        data.extend_from_slice(pixel);
        data.push(7);
    }
    let rgba = Bitmap::from_raw(16, 16, PixelLayout::Rgba8, data).unwrap();
    assert_eq!(turbo_encode_jpeg(&rgba, 80, None), turbo_encode_jpeg(&rgb, 80, None));
}

#[test]
fn png_original_has_signature() {
    let image = gradient(200, 200);
    let bytes = encode(&image, 1, OutputFormat::PngOriginal, &lossy).unwrap();
    assert_eq!(&bytes[0..8], &[0x89, b'P', b'N', b'G', 0x0D, 0x0A, 0x1A, 0x0A]);
    let decoded = image::load_from_memory(&bytes).unwrap();
    assert_eq!(decoded.width(), 200);
    assert_eq!(decoded.height(), 200);
    assert_eq!(decoded.to_rgb8().into_raw(), *image.as_bytes());
}

#[test]
fn png_fast_keeps_alpha() {
    let data: Vec<u8> = (0..4 * 4 * 4).map(|i| (i * 3) as u8).collect();
    let image = Bitmap::from_raw(4, 4, PixelLayout::Rgba8, data.clone()).unwrap();
    let bytes = turbo_encode_png_fast(&image).unwrap();
    let decoded = image::load_from_memory(&bytes).unwrap();
    assert_eq!(decoded.color(), image::ColorType::Rgba8);
    assert_eq!(decoded.to_rgba8().into_raw(), data);
}

#[test]
fn png_fast_refuses_empty_image() {
    let empty = Bitmap::from_raw(0, 0, PixelLayout::Rgb8, Vec::new()).unwrap();
    assert_eq!(turbo_encode_png_fast(&empty), Err(ConvertError::Encode));
}

#[test]
fn png_plan_values() {
    assert_eq!(plan_png(200, 200, 400 * 1024), PngPlan::Direct);
    assert_eq!(plan_png(1000, 1000, 2_101_024), PngPlan::Direct);
    assert_eq!(
        plan_png(1000, 1000, 2_101_023),
        PngPlan::Resize { width: 950, height: 950, filter: ResizeFilter::Lanczos3 }
    );
    assert_eq!(
        plan_png(1000, 1000, 1_600_000),
        PngPlan::Resize { width: 829, height: 829, filter: ResizeFilter::Lanczos3 }
    );
    assert_eq!(
        plan_png(1000, 1000, 700_000),
        PngPlan::Resize { width: 548, height: 548, filter: ResizeFilter::CatmullRom }
    );
    assert_eq!(
        plan_png(1000, 1000, 409_600),
        PngPlan::Resize { width: 419, height: 419, filter: ResizeFilter::Triangle }
    );
    assert_eq!(
        plan_png(4000, 3000, 1_000_000),
        PngPlan::Resize { width: 757, height: 568, filter: ResizeFilter::Triangle }
    );
    assert_eq!(
        plan_png(1000, 1000, 23_281),
        PngPlan::Resize { width: 100, height: 100, filter: ResizeFilter::Triangle }
    );
    assert_eq!(plan_png(1000, 1000, 23_280), PngPlan::TooSmall);
    assert_eq!(plan_png(1000, 1000, 0), PngPlan::TooSmall);
    assert_eq!(plan_png(100_000, 100_000, 1_000_000), PngPlan::TooSmall);
    assert_eq!(
        plan_png(100_000, 100_000, 1_000_000_000),
        PngPlan::Resize { width: 20_731, height: 20_731, filter: ResizeFilter::Triangle }
    );
}

#[test]
fn png_plan_keeps_sides_at_thirty_two() {
    assert_eq!(
        plan_png(4000, 40, 40_000),
        PngPlan::Resize { width: 1309, height: 32, filter: ResizeFilter::Triangle }
    );
}

#[test]
fn png_compressed_keeps_dimensions_when_estimate_fits() {
    let image = gradient(200, 200);
    let bytes = turbo_encode_png_compressed(&image, 400 * 1024).unwrap();
    assert_eq!(bytes, turbo_encode_png_fast(&image).unwrap());
    let decoded = image::load_from_memory(&bytes).unwrap();
    assert_eq!((decoded.width(), decoded.height()), (200, 200));
}

#[test]
fn png_compressed_resizes_over_budget() {
    let image = gradient(1000, 1000);
    let bytes = turbo_encode_png_compressed(&image, 409_600).unwrap();
    let decoded = image::load_from_memory(&bytes).unwrap();
    assert_eq!((decoded.width(), decoded.height()), (419, 419));
}

#[test]
fn png_compressed_refuses_unreachable_target() {
    let image = gradient(1000, 1000);
    assert_eq!(turbo_encode_png_compressed(&image, 23_280), Err(ConvertError::TargetTooSmall));
    assert_eq!(
        encode(&image, 1000, OutputFormat::PngCompressed, &lossy),
        Err(ConvertError::TargetTooSmall)
    );
}

#[test]
fn webp_lossless_round_trips() {
    let data: Vec<u8> = (0..8 * 8 * 4).map(|i| (i * 7) as u8 | 0x80).collect();
    let image = Bitmap::from_raw(8, 8, PixelLayout::Rgba8, data.clone()).unwrap();
    let bytes = encode_webp_lossless(&image).unwrap();
    assert!(bytes.starts_with(b"RIFF"));
    assert_ne!(bytes, data);
    let decoded = image::load_from_memory(&bytes).unwrap();
    assert_eq!(decoded.to_rgba8().into_raw(), data);
}

#[test]
fn webp_lossless_adds_opaque_alpha() {
    let rgb = gradient(8, 8);
    let bytes = encode_webp_lossless(&rgb).unwrap();
    let decoded = image::load_from_memory(&bytes).unwrap();
    assert_eq!(decoded.to_rgb8().into_raw(), *rgb.as_bytes());
}

#[test]
fn webp_refuses_empty_and_oversized_images() {
    let empty = Bitmap::from_raw(0, 0, PixelLayout::Rgba8, Vec::new()).unwrap();
    assert_eq!(encode_webp_lossless(&empty), Err(ConvertError::Encode));
    assert_eq!(
        encode_webp_lossy(&empty, WebpQuality::new(80), None, &lossy),
        Err(ConvertError::Encode)
    );
    let wide = Bitmap::from_raw(16_384, 1, PixelLayout::Rgb8, vec![0u8; 16_384 * 3]).unwrap();
    assert_eq!(encode_webp_lossless(&wide), Err(ConvertError::Encode));
    assert_eq!(encode_webp_smart(&wide, 1000, false, &lossy), Err(ConvertError::Encode));
}

#[test]
fn webp_lossy_decays_by_four_fifths() {
    let image = noise(64, 64);
    let calls = std::cell::RefCell::new(Vec::new());
    let recording = |pixels: &Vec<u8>, w: u32, h: u32, n: u64, d: u64| {
        calls.borrow_mut().push((n, d));
        lossy(pixels, w, h, n, d)
    };
    let bytes = encode_webp_lossy(&image, WebpQuality::new(85), Some(1), &recording).unwrap();
    let seen = calls.borrow().clone();
    assert_eq!(seen.len(), 11);
    assert_eq!(seen[0], (85, 1));
    assert_eq!(seen[1], (340, 5));
    assert_eq!(seen[2], (1360, 25));
    assert_eq!(seen[3], (5440, 125));
    for k in 1..seen.len() {
        assert_eq!(seen[k].0 * 5 * seen[k - 1].1, seen[k - 1].0 * 4 * seen[k].1);
        assert!(seen[k - 1].0 > 10 * seen[k - 1].1);
    }
    let last = seen[seen.len() - 1];
    assert!(last.0 <= 10 * last.1);
    assert_eq!(bytes, lossy(&image.to_rgb8(), 64, 64, last.0, last.1));
}

#[test]
fn webp_lossy_keeps_first_quality_when_it_fits() {
    let image = gradient(64, 64);
    let calls = std::cell::RefCell::new(Vec::new());
    let recording = |pixels: &Vec<u8>, w: u32, h: u32, n: u64, d: u64| {
        calls.borrow_mut().push((n, d));
        lossy(pixels, w, h, n, d)
    };
    let bytes = encode_webp_smart(&image, 400 * 1024, false, &recording).unwrap();
    assert_eq!(calls.borrow().clone(), vec![(85, 1)]);
    assert!(bytes.len() <= 400 * 1024);
}

#[test]
fn webp_lossy_starts_at_the_tier_of_the_budget() {
    let image = gradient(700, 750);
    for (budget, percent) in [(49_999usize, 50u64), (50_000, 75), (199_999, 75), (200_000, 85)] {
        let calls = std::cell::RefCell::new(Vec::new());
        let recording = |pixels: &Vec<u8>, w: u32, h: u32, n: u64, d: u64| {
            calls.borrow_mut().push((n, d));
            lossy(pixels, w, h, n, d)
        };
        let _ = encode_webp_smart(&image, budget, false, &recording).unwrap();
        assert_eq!(calls.borrow()[0], (percent, 1));
    }
}

#[test]
fn smart_mode_choice() {
    assert_eq!(choose_webp_output(vec![1, 2], None, 10), vec![1, 2]);
    assert_eq!(choose_webp_output(vec![1, 2], Some(vec![3; 12]), 10), vec![3; 12]);
    assert_eq!(choose_webp_output(vec![1, 2], Some(vec![3; 13]), 10), vec![1, 2]);
    assert_eq!(choose_webp_output(vec![1, 2], Some(Vec::new()), 0), Vec::<u8>::new());
    assert_eq!(choose_webp_output(vec![1, 2], Some(vec![3; 1]), 0), vec![1, 2]);
    assert!(should_try_lossless(true, 1_000_000));
    assert!(should_try_lossless(false, 499_999));
    assert!(!should_try_lossless(false, 500_000));
}

#[test]
fn smart_mode_prefers_close_lossless() {
    let image = bitmap_of(&DynamicImage::new_rgb8(200, 200));
    let lossless = encode_webp_lossless(&image).unwrap();
    let smart = encode_webp_smart(&image, 50_000, true, &lossy).unwrap();
    assert_eq!(smart, lossless);
}

#[test]
fn encode_dispatches_by_format() {
    let image = gradient(64, 64);
    let budget = 400 * 1024;
    assert_eq!(
        encode(&image, budget, OutputFormat::Jpeg, &lossy),
        turbo_encode_jpeg_adaptive(&image, budget)
    );
    assert_eq!(
        encode(&image, budget, OutputFormat::PngCompressed, &lossy),
        turbo_encode_png_compressed(&image, budget)
    );
    assert_eq!(
        encode(&image, budget, OutputFormat::PngOriginal, &lossy),
        turbo_encode_png_fast(&image)
    );
    assert_eq!(
        encode(&image, budget, OutputFormat::WebPLossless, &lossy),
        encode_webp_lossless(&image)
    );
    assert_eq!(
        encode(&image, budget, OutputFormat::WebPLossy, &lossy),
        encode_webp_smart(&image, budget, false, &lossy)
    );
}

#[test]
fn encoding_twice_gives_the_same_bytes() {
    let image = noise(48, 40);
    for format in [
        OutputFormat::Jpeg,
        OutputFormat::PngCompressed,
        OutputFormat::PngOriginal,
        OutputFormat::WebPLossy,
        OutputFormat::WebPLossless,
    ] {
        let first = encode(&image, 3000, format, &lossy);
        let second = encode(&image, 3000, format, &lossy);
        assert_eq!(first, second);
    }
}

#[test]
fn budget_in_bytes() {
    assert_eq!(target_bytes_for(0), 0);
    assert_eq!(target_bytes_for(400), 409_600);
    assert_eq!(target_bytes_for(1), 1024);
}

#[test]
fn bitmap_checks_its_parts() {
    assert!(Bitmap::from_raw(2, 2, PixelLayout::Rgb8, vec![0; 12]).is_ok());
    assert_eq!(
        Bitmap::from_raw(2, 2, PixelLayout::Rgb8, vec![0; 11]).err(),
        Some(ConvertError::Decode)
    );
    assert_eq!(
        Bitmap::from_raw(2, 2, PixelLayout::Rgba8, vec![0; 12]).err(),
        Some(ConvertError::Decode)
    );
    assert!(Bitmap::from_raw(2, 2, PixelLayout::Rgba8, vec![0; 16]).is_ok());
    assert_eq!(
        Bitmap::from_raw(MAX_PIXELS + 1, 1, PixelLayout::Rgb8, Vec::new()).err(),
        Some(ConvertError::Decode)
    );
    assert_eq!(
        Bitmap::from_raw(65_536, 65_536, PixelLayout::Rgb8, Vec::new()).err(),
        Some(ConvertError::Decode)
    );
    let bitmap = Bitmap::from_raw(3, 2, PixelLayout::Rgb8, (0..18).collect()).unwrap();
    assert_eq!(bitmap.width(), 3);
    assert_eq!(bitmap.height(), 2);
    assert_eq!(bitmap.layout(), PixelLayout::Rgb8);
    assert_eq!(bitmap.pixel_count(), 6);
    assert_eq!(bitmap.into_raw(), (0..18).collect::<Vec<u8>>());
    assert_eq!(PixelLayout::Rgb8.channels(), 3);
    assert_eq!(PixelLayout::Rgba8.channels(), 4);
}

#[test]
fn bitmap_converts_layouts_as_the_image_crate_does() {
    let rgba_data: Vec<u8> = (0..5 * 3 * 4).map(|i| (i * 5) as u8).collect();
    let rgba = Bitmap::from_raw(5, 3, PixelLayout::Rgba8, rgba_data.clone()).unwrap();
    let reference =
        DynamicImage::ImageRgba8(image::RgbaImage::from_raw(5, 3, rgba_data.clone()).unwrap());
    assert_eq!(rgba.to_rgb8(), reference.to_rgb8().into_raw());
    assert_eq!(rgba.to_rgba8(), rgba_data);
    assert_eq!(rgba.to_rgb8()[0..6], [0, 5, 10, 20, 25, 30]);

    let rgb_data: Vec<u8> = (0..5 * 3 * 3).map(|i| (i * 5) as u8).collect();
    let rgb = Bitmap::from_raw(5, 3, PixelLayout::Rgb8, rgb_data.clone()).unwrap();
    let reference =
        DynamicImage::ImageRgb8(image::RgbImage::from_raw(5, 3, rgb_data.clone()).unwrap());
    assert_eq!(rgb.to_rgba8(), reference.to_rgba8().into_raw());
    assert_eq!(rgb.to_rgb8(), rgb_data);
    assert_eq!(rgb.to_rgba8()[0..8], [0, 5, 10, 255, 15, 20, 25, 255]);
}

#[test]
fn test_compression_ratio_estimation() {
    let ratio = estimate_webp_compression_ratio(1000, 1000, 80);
    assert!(ratio > 0 && ratio < 10_000);
}

#[test]
fn compression_ratio_by_quality_and_size() {
    assert_eq!(estimate_webp_compression_ratio(1000, 1000, 80), 1980);
    assert_eq!(estimate_webp_compression_ratio(1000, 1001, 80), 1620);
    assert_eq!(estimate_webp_compression_ratio(10, 10, 0), 550);
    assert_eq!(estimate_webp_compression_ratio(10, 10, 20), 550);
    assert_eq!(estimate_webp_compression_ratio(10, 10, 21), 880);
    assert_eq!(estimate_webp_compression_ratio(10, 10, 40), 880);
    assert_eq!(estimate_webp_compression_ratio(10, 10, 41), 1320);
    assert_eq!(estimate_webp_compression_ratio(10, 10, 60), 1320);
    assert_eq!(estimate_webp_compression_ratio(10, 10, 61), 1980);
    assert_eq!(estimate_webp_compression_ratio(10, 10, 81), 2750);
    assert_eq!(estimate_webp_compression_ratio(u32::MAX, u32::MAX, 255), 2250);
    assert_eq!(estimate_webp_compression_ratio(2000, 2000, 10), 450);
}
