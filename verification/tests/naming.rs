use image_converter::config::{
    AppMode, CompressionMode, OutputFormat, PdfPageOrientation, PdfSettings, ProcessingMode,
};
use image_converter::menu_bar::{apply_menu_action, MenuAction, MenuBarState};
use image_converter::names::{
    file_extension, file_stem, find_last_dot, is_image_file_name, is_pdf_file_name,
    is_supported_image_extension, numbered_page_file_name, output_file_name, page_file_name,
};
use image_converter::pool::{
    buffer_serves, capacity_to_allocate, cleanup_memory_pool, requested_capacity, worth_keeping,
    MemoryPool,
};
use image_converter::quality::{
    decay_quality, initial_jpeg_quality, next_jpeg_step, next_webp_step, SearchStep, WebpQuality,
};
use image_converter::text::{
    decimal_width, lower_char, name_le, push_decimal, push_decimal_wide, push_padded_decimal,
    same_text, same_text_ignoring_case,
};

#[test]
fn stems_and_extensions() {
    assert_eq!(find_last_dot("a.b.c"), Some(3));
    assert_eq!(find_last_dot("abc"), None);
    assert_eq!(find_last_dot(""), None);
    assert_eq!(find_last_dot(".profile"), Some(0));
    assert_eq!(find_last_dot("图片.png"), Some(2));
    assert_eq!(file_stem("photo.png"), "photo");
    assert_eq!(file_stem("archive.tar.gz"), "archive.tar");
    assert_eq!(file_stem(".profile"), ".profile");
    assert_eq!(file_stem("README"), "README");
    assert_eq!(file_stem("trailing."), "trailing");
    assert_eq!(file_stem(""), "");
    assert_eq!(file_extension("photo.png"), Some("png".to_string()));
    assert_eq!(file_extension("archive.tar.gz"), Some("gz".to_string()));
    assert_eq!(file_extension(".profile"), None);
    assert_eq!(file_extension("README"), None);
    assert_eq!(file_extension("trailing."), Some(String::new()));
    assert_eq!(file_extension("图片.JPEG"), Some("JPEG".to_string()));
    for name in ["photo.png", "archive.tar.gz", ".profile", "README", "trailing.", "a.b"] {
        let path = std::path::Path::new(name);
        assert_eq!(file_stem(name), path.file_stem().unwrap().to_str().unwrap());
        assert_eq!(
            file_extension(name),
            path.extension().map(|e| e.to_str().unwrap().to_string())
        );
    }
}

#[test]
fn supported_extensions() {
    for extension in ["jpg", "jpeg", "png", "bmp", "tiff", "webp", "gif", "JPG", "Png", "WEBP"] {
        assert!(is_supported_image_extension(extension));
    }
    for extension in ["", "pdf", "jpe", "jpegs", "tif", "txt", "png "] {
        assert!(!is_supported_image_extension(extension));
    }
    assert!(is_image_file_name("holiday.JPeG"));
    assert!(!is_image_file_name("holiday"));
    assert!(!is_image_file_name(".png"));
    assert!(!is_image_file_name("holiday.png.txt"));
    assert!(is_pdf_file_name("report.pdf"));
    assert!(!is_pdf_file_name("report.PDF"));
    assert!(!is_pdf_file_name("report.pdf.png"));
    assert!(!is_pdf_file_name("pdf"));
}

#[test]
fn output_names() {
    assert_eq!(output_file_name("photo.png", OutputFormat::Jpeg), "photo.jpg");
    assert_eq!(output_file_name("photo.jpeg", OutputFormat::PngCompressed), "photo.png");
    assert_eq!(output_file_name("photo.jpeg", OutputFormat::PngOriginal), "photo.png");
    assert_eq!(output_file_name("a.b.bmp", OutputFormat::WebPLossy), "a.b.webp");
    assert_eq!(output_file_name("noext", OutputFormat::WebPLossless), "noext.webp");
    assert_eq!(output_file_name("图片.png", OutputFormat::Jpeg), "图片.jpg");
    for name in ["photo.png", "a.b.bmp", "noext", ".hidden"] {
        assert_eq!(
            output_file_name(name, OutputFormat::Jpeg),
            std::path::Path::new(name).with_extension("jpg").to_str().unwrap()
        );
    }
    assert_eq!(page_file_name("report", 1, OutputFormat::Jpeg), "report_page_1.jpg");
    assert_eq!(page_file_name("report", 10, OutputFormat::PngOriginal), "report_page_10.png");
    assert_eq!(page_file_name("", 0, OutputFormat::WebPLossy), "_page_0.webp");
    assert_eq!(numbered_page_file_name(1, OutputFormat::Jpeg), "page_001.jpg");
    assert_eq!(numbered_page_file_name(42, OutputFormat::PngCompressed), "page_042.png");
    assert_eq!(numbered_page_file_name(999, OutputFormat::WebPLossless), "page_999.webp");
    assert_eq!(numbered_page_file_name(1000, OutputFormat::Jpeg), "page_1000.jpg");
    assert_eq!(numbered_page_file_name(0, OutputFormat::Jpeg), "page_000.jpg");
}

#[test]
fn decimal_text() {
    let mut text = String::from("n=");
    push_decimal(&mut text, 0);
    assert_eq!(text, "n=0");
    push_decimal(&mut text, 1234567890);
    assert_eq!(text, "n=01234567890");
    let mut text = String::new();
    push_decimal(&mut text, usize::MAX);
    assert_eq!(text, usize::MAX.to_string());
    let mut text = String::new();
    push_decimal_wide(&mut text, u128::MAX);
    assert_eq!(text, u128::MAX.to_string());
    let mut text = String::new();
    push_padded_decimal(&mut text, 7, 3);
    push_padded_decimal(&mut text, 12345, 3);
    push_padded_decimal(&mut text, 5, 0);
    push_padded_decimal(&mut text, 0, 2);
    assert_eq!(text, "00712345500");
    assert_eq!(decimal_width(0), 1);
    assert_eq!(decimal_width(9), 1);
    assert_eq!(decimal_width(10), 2);
    assert_eq!(decimal_width(99_999), 5);
    assert_eq!(decimal_width(usize::MAX), usize::MAX.to_string().len());
}

#[test]
fn comparing_text() {
    assert!(same_text("abc", "abc"));
    assert!(!same_text("abc", "abd"));
    assert!(!same_text("abc", "ab"));
    assert!(same_text("", ""));
    assert!(same_text_ignoring_case("JpEg", "jpeg"));
    assert!(same_text_ignoring_case("png", "PNG"));
    assert!(!same_text_ignoring_case("png", "pn"));
    assert!(!same_text_ignoring_case("é", "É"));
    assert_eq!(lower_char('A'), 'a');
    assert_eq!(lower_char('Z'), 'z');
    assert_eq!(lower_char('a'), 'a');
    assert_eq!(lower_char('['), '[');
    assert_eq!(lower_char('@'), '@');
    assert_eq!(lower_char('É'), 'É');
    let names = ["", "A", "B", "a", "a.png", "ab", "b", "é", "图"];
    for a in names {
        for b in names {
            assert_eq!(name_le(a, b), a <= b);
        }
    }
}

#[test]
fn jpeg_quality_steps() {
    assert_eq!(initial_jpeg_quality(0), 40);
    assert_eq!(initial_jpeg_quality(49_999), 40);
    assert_eq!(initial_jpeg_quality(50_000), 60);
    assert_eq!(initial_jpeg_quality(199_999), 60);
    assert_eq!(initial_jpeg_quality(200_000), 80);
    assert_eq!(initial_jpeg_quality(usize::MAX), 80);

    let mut quality = 80u8;
    let mut seen = vec![quality];
    while let SearchStep::Retry(next) = next_jpeg_step(quality, 2, Some(1)) {
        quality = next;
        seen.push(quality);
    }
    assert_eq!(seen, [80, 64, 51, 40, 32, 25, 20, 16, 12, 9]);
    assert_eq!(next_jpeg_step(9, 2, Some(1)), SearchStep::DoneBestEffort);
    assert_eq!(next_jpeg_step(10, 2, Some(1)), SearchStep::DoneBestEffort);
    assert_eq!(next_jpeg_step(11, 2, Some(1)), SearchStep::Retry(8));
    assert_eq!(next_jpeg_step(80, 1, Some(1)), SearchStep::Done);
    assert_eq!(next_jpeg_step(80, 0, Some(0)), SearchStep::Done);
    assert_eq!(next_jpeg_step(80, usize::MAX, None), SearchStep::Done);
    assert_eq!(next_jpeg_step(5, usize::MAX, None), SearchStep::Done);

    assert_eq!(decay_quality(100), 80);
    assert_eq!(decay_quality(255), 204);
    assert_eq!(decay_quality(1), 0);
    assert_eq!(decay_quality(0), 0);
    let mut quality = 255u8;
    let mut decays = 0;
    while quality > 10 {
        quality = decay_quality(quality);
        decays += 1;
    }
    assert_eq!(decays, 14);
}

#[test]
fn webp_quality_steps() {
    let start = WebpQuality::for_target(10_000);
    assert_eq!((start.initial(), start.retries()), (50, 0));
    assert_eq!((start.numerator(), start.denominator()), (50, 1));
    assert_eq!(WebpQuality::for_target(50_000).initial(), 75);
    assert_eq!(WebpQuality::for_target(199_999).initial(), 75);
    assert_eq!(WebpQuality::for_target(200_000).initial(), 85);

    let mut quality = WebpQuality::new(85);
    let mut seen = vec![(quality.numerator(), quality.denominator())];
    while let SearchStep::Retry(next) = next_webp_step(quality, 2, Some(1)) {
        quality = next;
        seen.push((quality.numerator(), quality.denominator()));
    }
    assert_eq!(seen.len(), 11);
    assert_eq!(seen[1], (340, 5));
    assert_eq!(seen[10], (85 * 4u64.pow(10), 5u64.pow(10)));
    assert!(quality.numerator() <= 10 * quality.denominator());
    assert!(!quality.above_floor());
    assert!(matches!(next_webp_step(quality, 2, Some(1)), SearchStep::DoneBestEffort));
    assert!(matches!(next_webp_step(WebpQuality::new(85), 1, Some(1)), SearchStep::Done));
    assert!(matches!(next_webp_step(WebpQuality::new(85), 9, None), SearchStep::Done));
    assert!(matches!(next_webp_step(WebpQuality::new(10), 9, Some(1)), SearchStep::DoneBestEffort));
    assert!(WebpQuality::new(11).above_floor());

    let mut quality = WebpQuality::new(255);
    let mut retries = 0;
    while let SearchStep::Retry(next) = next_webp_step(quality, 2, Some(1)) {
        quality = next;
        retries += 1;
    }
    assert_eq!(retries, 15);
    assert_eq!(quality.retries(), 15);
    assert_eq!(quality.denominator(), 30_517_578_125);
    assert_eq!(quality.numerator(), 255 * 1_073_741_824);
}

#[test]
fn formats_and_modes() {
    assert_eq!(OutputFormat::Jpeg.extension(), "jpg");
    assert_eq!(OutputFormat::PngCompressed.extension(), "png");
    assert_eq!(OutputFormat::PngOriginal.extension(), "png");
    assert_eq!(OutputFormat::WebPLossy.extension(), "webp");
    assert_eq!(OutputFormat::WebPLossless.extension(), "webp");
    assert_eq!(
        OutputFormat::all_formats(),
        vec![
            (OutputFormat::Jpeg, "JPEG"),
            (OutputFormat::PngCompressed, "PNG (压缩)"),
            (OutputFormat::PngOriginal, "PNG (原始)"),
            (OutputFormat::WebPLossy, "WebP (有损)"),
            (OutputFormat::WebPLossless, "WebP (无损)"),
        ]
    );
    assert_eq!(
        ProcessingMode::all_modes(),
        vec![(ProcessingMode::SingleFile, "单个文件"), (ProcessingMode::Folder, "文件夹")]
    );
    assert_eq!(
        AppMode::all_modes(),
        vec![
            (AppMode::ImageConverter, "图片格式转换"),
            (AppMode::ImageToPdf, "图片转PDF"),
            (AppMode::PdfToImage, "PDF转图片"),
            (AppMode::PureWatermark, "纯水印模式"),
        ]
    );
    assert_eq!(
        PdfPageOrientation::all_orientations(),
        vec![
            (PdfPageOrientation::Auto, "自动检测"),
            (PdfPageOrientation::Landscape, "横向"),
            (PdfPageOrientation::Portrait, "纵向"),
        ]
    );
    assert_eq!(CompressionMode::default(), CompressionMode::SizeTarget);
    let settings = PdfSettings::default();
    assert!(settings.preserve_original_size);
    assert_eq!(settings.page_orientation, PdfPageOrientation::Auto);
    assert_eq!(settings.image_quality, 90);
    assert!(settings.one_image_per_page);
    assert_eq!(settings.default_output_name, "converted.pdf");
}

#[test]
fn menu_actions() {
    let mut state = MenuBarState::default();
    assert_eq!(state.current_mode, AppMode::ImageConverter);
    assert!(!state.show_about && !state.show_settings);
    apply_menu_action(&mut state, MenuAction::ImageToPdf);
    assert_eq!(state.current_mode, AppMode::ImageToPdf);
    apply_menu_action(&mut state, MenuAction::About);
    assert!(state.show_about && !state.show_settings);
    apply_menu_action(&mut state, MenuAction::Settings);
    assert!(state.show_about && state.show_settings);
    for action in [
        MenuAction::NoAction,
        MenuAction::NewProject,
        MenuAction::OpenFile,
        MenuAction::SaveAs,
        MenuAction::Exit,
    ] {
        apply_menu_action(&mut state, action);
        assert_eq!(state.current_mode, AppMode::ImageToPdf);
    }
    apply_menu_action(&mut state, MenuAction::ImageConverter);
    assert_eq!(state.current_mode, AppMode::ImageConverter);
    assert!(state.show_about && state.show_settings);
}

#[test]
fn pool_keeps_large_buffers() {
    let mut pool = MemoryPool::new();
    assert_eq!(pool.len(), 0);
    let buffer = pool.get_buffer(10);
    assert!(buffer.is_empty());
    assert!(buffer.capacity() >= 1_048_576);
    assert_eq!(pool.len(), 0);

    let mut used = buffer;
    used.extend_from_slice(&[1, 2, 3]);
    pool.return_buffer(used);
    assert_eq!(pool.len(), 1);
    pool.return_buffer(Vec::with_capacity(16));
    assert_eq!(pool.len(), 1);
    pool.return_buffer(Vec::with_capacity(1024));
    assert_eq!(pool.len(), 1);

    let small = pool.get_buffer(4_000_000);
    assert!(small.is_empty());
    assert!(small.capacity() >= 4_000_000);
    assert_eq!(pool.len(), 1);
    let reused = pool.get_buffer(1000);
    assert!(reused.is_empty());
    assert!(reused.capacity() >= 1_048_576);
    assert_eq!(pool.len(), 0);

    for _ in 0..6 {
        pool.return_buffer(Vec::with_capacity(2048));
    }
    assert_eq!(pool.len(), 4);
    cleanup_memory_pool(&mut pool);
    assert_eq!(pool.len(), 0);
}

#[test]
fn pool_rounds_capacity_up() {
    assert_eq!(requested_capacity(0), 1_048_576);
    assert_eq!(requested_capacity(1_048_576), 1_048_576);
    assert_eq!(requested_capacity(1_048_577), 2_097_152);
    assert_eq!(requested_capacity(3_000_000), 4_194_304);
    assert_eq!(requested_capacity(1 << 40), 1 << 40);
    assert_eq!(requested_capacity((1 << 40) + 1), 1 << 41);
    assert_eq!(requested_capacity(usize::MAX), usize::MAX);
    assert_eq!(requested_capacity((usize::MAX >> 1) + 1), (usize::MAX >> 1) + 1);
    assert_eq!(requested_capacity((usize::MAX >> 1) + 2), (usize::MAX >> 1) + 2);
    assert_eq!(capacity_to_allocate(0), 1_048_576);
    assert_eq!(capacity_to_allocate(3_000_000), 4_194_304);
    assert_eq!(capacity_to_allocate(1 << 30), 1 << 30);
    assert_eq!(capacity_to_allocate((1 << 30) + 1), 1 << 30);
    assert_eq!(capacity_to_allocate(usize::MAX), 1 << 30);
}

#[test]
fn pool_serves_requests_beyond_what_it_allocates() {
    let mut pool = MemoryPool::new();
    let buffer = pool.get_buffer(usize::MAX);
    assert!(buffer.is_empty());
    assert_eq!(pool.len(), 0);
}

#[test]
fn pool_decisions() {
    assert!(buffer_serves(10, 10));
    assert!(buffer_serves(11, 10));
    assert!(!buffer_serves(9, 10));
    assert!(buffer_serves(0, 0));
    assert!(worth_keeping(0, 1025));
    assert!(worth_keeping(3, usize::MAX));
    assert!(!worth_keeping(4, 1025));
    assert!(!worth_keeping(0, 1024));
    assert!(!worth_keeping(usize::MAX, usize::MAX));
}

#[test]
fn pool_hands_out_the_first_buffer_that_serves() {
    let mut pool = MemoryPool::new();
    pool.return_measured(vec![1, 2, 3], 2000);
    pool.return_measured(Vec::new(), 5000);
    pool.return_measured(Vec::new(), 3000);
    pool.return_measured(Vec::new(), 1024);
    assert_eq!(pool.capacities(), [2000, 5000, 3000]);
    assert!(pool.get_buffer(2500).is_empty());
    assert_eq!(pool.capacities(), [2000, 3000]);
    assert!(pool.get_buffer(6000).is_empty());
    assert_eq!(pool.capacities(), [2000, 3000]);
    assert!(pool.get_buffer(0).is_empty());
    assert_eq!(pool.capacities(), [3000]);
    assert!(pool.get_buffer(3000).is_empty());
    assert_eq!(pool.capacities(), Vec::<usize>::new());

    for capacity in [1025, 1026, 1027, 1028, 1029] {
        pool.return_measured(Vec::new(), capacity);
    }
    assert_eq!(pool.capacities(), [1025, 1026, 1027, 1028]);
    assert!(pool.get_buffer(1026).is_empty());
    assert_eq!(pool.capacities(), [1025, 1028, 1027]);
}

#[test]
fn pool_measures_what_it_gets_back() {
    let mut pool = MemoryPool::new();
    let buffer: Vec<u8> = vec![7; 3000];
    let measured = buffer.capacity();
    pool.return_buffer(buffer);
    assert_eq!(pool.capacities(), [measured]);
    assert!(measured >= 3000);
    pool.return_buffer(vec![7; 10]);
    assert_eq!(pool.capacities(), [measured]);
    let reused = pool.get_buffer(3000);
    assert!(reused.is_empty());
    assert_eq!(reused.capacity(), measured);
    assert_eq!(pool.len(), 0);
}
