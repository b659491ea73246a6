use image_converter::error::ConvertError;
use image_converter::image_to_pdf::{
    calculate_page_size_legacy, ImageToPdfConverter, InputType, PageMode, PageOrientation,
    PathKind, StandardPageSize,
};

#[test]
fn test_input_type_detection() {
    assert_eq!(InputType::SingleImage, InputType::SingleImage);
    assert_eq!(InputType::Folder, InputType::Folder);
}

#[test]
fn input_type_follows_the_path() {
    assert_eq!(
        ImageToPdfConverter::detect_input_type(PathKind::File, "photo.JPG"),
        Ok(InputType::SingleImage)
    );
    assert_eq!(
        ImageToPdfConverter::detect_input_type(PathKind::File, "scan.tiff"),
        Ok(InputType::SingleImage)
    );
    assert_eq!(
        ImageToPdfConverter::detect_input_type(PathKind::Directory, "photos.txt"),
        Ok(InputType::Folder)
    );
    assert_eq!(
        ImageToPdfConverter::detect_input_type(PathKind::File, "notes.txt"),
        Err(ConvertError::Input)
    );
    assert_eq!(
        ImageToPdfConverter::detect_input_type(PathKind::File, "document.pdf"),
        Err(ConvertError::Input)
    );
    assert_eq!(
        ImageToPdfConverter::detect_input_type(PathKind::File, "README"),
        Err(ConvertError::Input)
    );
    assert_eq!(
        ImageToPdfConverter::detect_input_type(PathKind::File, ".png"),
        Err(ConvertError::Input)
    );
    assert_eq!(
        ImageToPdfConverter::detect_input_type(PathKind::Missing, "photo.jpg"),
        Err(ConvertError::Input)
    );
    assert_eq!(
        ImageToPdfConverter::detect_input_type(PathKind::Other, "photo.jpg"),
        Err(ConvertError::Input)
    );
}

#[test]
fn images_of_a_folder_in_order() {
    let names: Vec<String> =
        ["b.png", "notes.txt", "a.JPG", "c.pdf", "a.gif", "Z.bmp", "d.webp", "e", ".jpeg"]
            .iter()
            .map(|name| name.to_string())
            .collect();
    assert_eq!(
        ImageToPdfConverter::get_image_files_public(&names),
        vec!["Z.bmp", "a.JPG", "a.gif", "b.png", "d.webp"]
    );
    assert_eq!(ImageToPdfConverter::get_image_files_public(&Vec::new()), Vec::<String>::new());
}

#[test]
fn test_page_size_calculation() {
    let (width, height) = ImageToPdfConverter::calculate_page_size(
        PageMode::AdaptiveSize,
        PageOrientation::Auto,
        true,
        300,
        0,
        1920,
        1080,
    )
    .unwrap();
    assert!(width > 0 && height > 0);
}

#[test]
fn fixed_page_sizes() {
    let size = |mode, orientation, rotate, w, h| {
        ImageToPdfConverter::calculate_page_size(mode, orientation, rotate, 300, 50, w, h)
    };
    assert_eq!(size(PageMode::FixedA4, PageOrientation::Auto, true, 1920, 1080), Some((2970, 2100)));
    assert_eq!(size(PageMode::FixedA4, PageOrientation::Auto, true, 1080, 1920), Some((2100, 2970)));
    assert_eq!(size(PageMode::FixedA4, PageOrientation::Auto, true, 500, 500), Some((2100, 2970)));
    assert_eq!(size(PageMode::FixedA4, PageOrientation::Auto, false, 1920, 1080), Some((2100, 2970)));
    assert_eq!(
        size(PageMode::FixedA4, PageOrientation::Landscape, false, 1080, 1920),
        Some((2970, 2100))
    );
    assert_eq!(
        size(PageMode::FixedA4, PageOrientation::Portrait, true, 1920, 1080),
        Some((2100, 2970))
    );
    assert_eq!(
        size(PageMode::Standard(StandardPageSize::A3), PageOrientation::Portrait, true, 1, 1),
        Some((2970, 4200))
    );
    assert_eq!(
        size(PageMode::Standard(StandardPageSize::A4), PageOrientation::Portrait, true, 1, 1),
        Some((2100, 2970))
    );
    assert_eq!(
        size(PageMode::Standard(StandardPageSize::A5), PageOrientation::Landscape, true, 1, 1),
        Some((2100, 1480))
    );
    assert_eq!(
        size(PageMode::Standard(StandardPageSize::Letter), PageOrientation::Auto, true, 2, 1),
        Some((2794, 2159))
    );
    assert_eq!(
        size(PageMode::Standard(StandardPageSize::Legal), PageOrientation::Auto, true, 1, 2),
        Some((2159, 3556))
    );
}

#[test]
fn pages_that_follow_their_image() {
    let size = |orientation, rotate, dpi, margin, w, h| {
        ImageToPdfConverter::calculate_page_size(
            PageMode::AdaptiveSize,
            orientation,
            rotate,
            dpi,
            margin,
            w,
            h,
        )
    };
    assert_eq!(size(PageOrientation::Auto, true, 300, 0, 1920, 1080), Some((1626, 914)));
    assert_eq!(size(PageOrientation::Auto, true, 300, 100, 1920, 1080), Some((1826, 1114)));
    assert_eq!(size(PageOrientation::Auto, true, 254, 0, 1000, 10), Some((1000, 10)));
    assert_eq!(size(PageOrientation::Auto, true, 72, 0, 72, 36), Some((254, 127)));
    assert_eq!(size(PageOrientation::Landscape, true, 300, 0, 1080, 1920), Some((1626, 914)));
    assert_eq!(size(PageOrientation::Landscape, true, 300, 0, 1920, 1080), Some((1626, 914)));
    assert_eq!(size(PageOrientation::Portrait, true, 300, 0, 1920, 1080), Some((914, 1626)));
    assert_eq!(size(PageOrientation::Portrait, true, 300, 0, 1080, 1920), Some((914, 1626)));
    assert_eq!(size(PageOrientation::Portrait, false, 300, 0, 1920, 1080), Some((1626, 914)));
    assert_eq!(size(PageOrientation::Landscape, false, 300, 0, 1080, 1920), Some((914, 1626)));
    assert_eq!(size(PageOrientation::Auto, true, 0, 0, 1920, 1080), None);
    assert_eq!(size(PageOrientation::Auto, true, 1, u32::MAX, 0, 0), Some((8_589_934_590, 8_589_934_590)));
    assert_eq!(
        size(PageOrientation::Auto, true, 1, 0, u32::MAX, 1),
        Some((254 * (u32::MAX as u64), 254))
    );
    let fixed = ImageToPdfConverter::calculate_page_size(
        PageMode::FixedA4,
        PageOrientation::Auto,
        true,
        0,
        0,
        10,
        20,
    );
    assert_eq!(fixed, Some((2100, 2970)));
}

#[test]
fn pages_of_the_older_scheme() {
    assert_eq!(calculate_page_size_legacy(false, PageOrientation::Landscape, 1920, 1080), (2100, 2970));
    assert_eq!(calculate_page_size_legacy(true, PageOrientation::Auto, 1500, 750), (2540, 1270));
    assert_eq!(calculate_page_size_legacy(true, PageOrientation::Auto, 750, 1500), (1270, 2540));
    assert_eq!(calculate_page_size_legacy(true, PageOrientation::Landscape, 750, 1500), (2540, 1270));
    assert_eq!(calculate_page_size_legacy(true, PageOrientation::Portrait, 1500, 750), (1270, 2540));
    assert_eq!(calculate_page_size_legacy(true, PageOrientation::Portrait, 0, 0), (0, 0));
}
