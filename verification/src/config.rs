//! The choices a caller makes: output format, processing mode, application
//! mode and the settings of PDF output.

use vstd::prelude::*;
use vstd::string::*;

verus! {

/// How a result is to be stored.
#[derive(Clone, Copy, Debug, PartialEq, Eq, Structural)]
pub enum CompressionMode {
    /// Compress towards a target size.
    SizeTarget,
    /// Keep the original quality.
    Original,
}

impl Default for CompressionMode {
    fn default() -> (mode: CompressionMode)
        ensures
            mode == CompressionMode::SizeTarget,
    {
        CompressionMode::SizeTarget
    }
}

/// The encodings that the engine writes.
#[derive(Clone, Copy, Debug, PartialEq, Eq, Structural)]
pub enum OutputFormat {
    /// JPEG, with quality lowered until the target size is met.
    Jpeg,
    /// PNG, with resolution lowered to meet the target size.
    PngCompressed,
    /// PNG at full resolution, whatever the target size.
    PngOriginal,
    /// WebP with loss, with quality lowered until the target size is met.
    WebPLossy,
    /// WebP without loss.
    WebPLossless,
}

/// The file extension of a format.
pub open spec fn extension_of(format: OutputFormat) -> Seq<char> {
    match format {
        OutputFormat::Jpeg => "jpg"@,
        OutputFormat::PngCompressed | OutputFormat::PngOriginal => "png"@,
        OutputFormat::WebPLossy | OutputFormat::WebPLossless => "webp"@,
    }
}

/// The label under which a format is offered.
pub open spec fn format_label(format: OutputFormat) -> Seq<char> {
    match format {
        OutputFormat::Jpeg => "JPEG"@,
        OutputFormat::PngCompressed => "PNG (压缩)"@,
        OutputFormat::PngOriginal => "PNG (原始)"@,
        OutputFormat::WebPLossy => "WebP (有损)"@,
        OutputFormat::WebPLossless => "WebP (无损)"@,
    }
}

/// The formats in the order in which they are offered.
pub open spec fn format_choices() -> Seq<OutputFormat> {
    seq![
        OutputFormat::Jpeg,
        OutputFormat::PngCompressed,
        OutputFormat::PngOriginal,
        OutputFormat::WebPLossy,
        OutputFormat::WebPLossless,
    ]
}

impl OutputFormat {
    /// The canonical file extension, without a dot.
    pub fn extension(&self) -> (ext: &'static str)
        ensures
            ext@ == extension_of(*self),
    {
        match self {
            OutputFormat::Jpeg => "jpg",
            OutputFormat::PngCompressed | OutputFormat::PngOriginal => "png",
            OutputFormat::WebPLossy | OutputFormat::WebPLossless => "webp",
        }
    }

    /// Every format with its label, in the order of `format_choices`.
    pub fn all_formats() -> (all: Vec<(OutputFormat, &'static str)>)
        ensures
            all@.len() == format_choices().len(),
            forall|i: int|
                0 <= i < all@.len() ==> (#[trigger] all@[i]).0 == format_choices()[i]
                    && all@[i].1@ == format_label(all@[i].0),
    {
        let all = vec![
            (OutputFormat::Jpeg, "JPEG"),
            (OutputFormat::PngCompressed, "PNG (压缩)"),
            (OutputFormat::PngOriginal, "PNG (原始)"),
            (OutputFormat::WebPLossy, "WebP (有损)"),
            (OutputFormat::WebPLossless, "WebP (无损)"),
        ];
        all
    }
}

/// Whether one file is converted or every file of a folder.
#[derive(Clone, Copy, Debug, PartialEq, Eq, Structural)]
pub enum ProcessingMode {
    SingleFile,
    Folder,
}

/// The label under which a processing mode is offered.
pub open spec fn processing_mode_label(mode: ProcessingMode) -> Seq<char> {
    match mode {
        ProcessingMode::SingleFile => "单个文件"@,
        ProcessingMode::Folder => "文件夹"@,
    }
}

impl ProcessingMode {
    /// Every processing mode with its label: single file first.
    pub fn all_modes() -> (all: Vec<(ProcessingMode, &'static str)>)
        ensures
            all@.len() == 2,
            all@[0].0 == ProcessingMode::SingleFile,
            all@[1].0 == ProcessingMode::Folder,
            forall|i: int|
                0 <= i < all@.len() ==> (#[trigger] all@[i]).1@ == processing_mode_label(
                    all@[i].0,
                ),
    {
        let all = vec![(ProcessingMode::SingleFile, "单个文件"), (ProcessingMode::Folder, "文件夹")];
        all
    }
}

/// What the application does with its input.
#[derive(Clone, Copy, Debug, PartialEq, Eq, Structural)]
pub enum AppMode {
    /// Convert images between formats.
    ImageConverter,
    /// Collect images into a PDF.
    ImageToPdf,
    /// Render the pages of a PDF as images.
    PdfToImage,
    /// Add a watermark and leave the image otherwise as it is.
    PureWatermark,
}

/// The label under which an application mode is offered.
pub open spec fn app_mode_label(mode: AppMode) -> Seq<char> {
    match mode {
        AppMode::ImageConverter => "图片格式转换"@,
        AppMode::ImageToPdf => "图片转PDF"@,
        AppMode::PdfToImage => "PDF转图片"@,
        AppMode::PureWatermark => "纯水印模式"@,
    }
}

impl AppMode {
    /// Every application mode with its label, in the order of declaration.
    pub fn all_modes() -> (all: Vec<(AppMode, &'static str)>)
        ensures
            all@.len() == 4,
            all@[0].0 == AppMode::ImageConverter,
            all@[1].0 == AppMode::ImageToPdf,
            all@[2].0 == AppMode::PdfToImage,
            all@[3].0 == AppMode::PureWatermark,
            forall|i: int|
                0 <= i < all@.len() ==> (#[trigger] all@[i]).1@ == app_mode_label(all@[i].0),
    {
        let all = vec![
            (AppMode::ImageConverter, "图片格式转换"),
            (AppMode::ImageToPdf, "图片转PDF"),
            (AppMode::PdfToImage, "PDF转图片"),
            (AppMode::PureWatermark, "纯水印模式"),
        ];
        all
    }
}

/// The orientation of the pages of a PDF.
#[derive(Clone, Copy, Debug, PartialEq, Eq, Structural)]
pub enum PdfPageOrientation {
    /// Follow the image: landscape for a wide one, portrait otherwise.
    Auto,
    Landscape,
    Portrait,
}

/// The label under which an orientation is offered.
pub open spec fn orientation_label(orientation: PdfPageOrientation) -> Seq<char> {
    match orientation {
        PdfPageOrientation::Auto => "自动检测"@,
        PdfPageOrientation::Landscape => "横向"@,
        PdfPageOrientation::Portrait => "纵向"@,
    }
}

impl PdfPageOrientation {
    /// Every orientation with its label: automatic first.
    pub fn all_orientations() -> (all: Vec<(PdfPageOrientation, &'static str)>)
        ensures
            all@.len() == 3,
            all@[0].0 == PdfPageOrientation::Auto,
            all@[1].0 == PdfPageOrientation::Landscape,
            all@[2].0 == PdfPageOrientation::Portrait,
            forall|i: int|
                0 <= i < all@.len() ==> (#[trigger] all@[i]).1@ == orientation_label(all@[i].0),
    {
        let all = vec![
            (PdfPageOrientation::Auto, "自动检测"),
            (PdfPageOrientation::Landscape, "横向"),
            (PdfPageOrientation::Portrait, "纵向"),
        ];
        all
    }
}

/// The settings of PDF output.
#[derive(Debug)]
pub struct PdfSettings {
    /// Whether images keep their pixel size on the page.
    pub preserve_original_size: bool,
    /// The orientation of the pages.
    pub page_orientation: PdfPageOrientation,
    /// The image quality, from 0 to 100.
    pub image_quality: u8,
    /// Whether each image gets a page of its own.
    pub one_image_per_page: bool,
    /// The name of the PDF file where none is given.
    pub default_output_name: String,
}

impl Default for PdfSettings {
    fn default() -> (settings: PdfSettings)
        ensures
            settings.preserve_original_size,
            settings.page_orientation == PdfPageOrientation::Auto,
            settings.image_quality == 90,
            settings.one_image_per_page,
            settings.default_output_name@ == "converted.pdf"@,
    {
        PdfSettings {
            preserve_original_size: true,
            page_orientation: PdfPageOrientation::Auto,
            image_quality: 90,
            one_image_per_page: true,
            default_output_name: String::from_str("converted.pdf"),
        }
    }
}

} // verus!
