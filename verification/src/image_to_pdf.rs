//! Collecting images into a PDF: what the input is, which files of a folder
//! go in, and the size of a page of a standard format.
//!
//! Laying an image out on a page, and writing the document, work in real
//! numbers and are the caller's part.

use vstd::prelude::*;
use vstd::string::*;
use crate::error::ConvertError;
use crate::names::{is_image_file_name, is_image_name};
use crate::tasks::{InputKind, accepted, in_order, select_names, texts};

verus! {

/// How the size of a page is chosen.
#[derive(Clone, Copy, Debug, PartialEq, Eq, Structural)]
pub enum PageMode {
    /// Every page is A4.
    FixedA4,
    /// Every page is as large as its image.
    AdaptiveSize,
    /// Every page has a standard size.
    Standard(StandardPageSize),
}

/// The standard sizes of a page.
#[derive(Clone, Copy, Debug, PartialEq, Eq, Structural)]
pub enum StandardPageSize {
    A3,
    A4,
    A5,
    Letter,
    Legal,
}

/// The orientation of a page.
#[derive(Clone, Copy, Debug, PartialEq, Eq, Structural)]
pub enum PageOrientation {
    /// Landscape for an image that is wider than high, portrait otherwise.
    Auto,
    Landscape,
    Portrait,
}

/// What the input of a conversion is.
#[derive(Clone, Copy, Debug, PartialEq, Eq, Structural)]
pub enum InputType {
    /// One image file.
    SingleImage,
    /// A folder of images.
    Folder,
}

/// What a path leads to.
#[derive(Clone, Copy, Debug, PartialEq, Eq, Structural)]
pub enum PathKind {
    /// Nothing: the path does not exist.
    Missing,
    /// A file.
    File,
    /// A directory.
    Directory,
    /// Something else.
    Other,
}

/// The short and the long side of a standard page in portrait, in tenths
/// of a millimetre.
pub open spec fn portrait_size(size: StandardPageSize) -> (nat, nat) {
    match size {
        StandardPageSize::A3 => (2970, 4200),
        StandardPageSize::A4 => (2100, 2970),
        StandardPageSize::A5 => (1480, 2100),
        StandardPageSize::Letter => (2159, 2794),
        StandardPageSize::Legal => (2159, 3556),
    }
}

/// Whether a page lies in landscape: where it is asked for, and for a wide
/// image where the orientation follows the image and pages may be rotated.
pub open spec fn lies_landscape(
    orientation: PageOrientation,
    auto_rotate: bool,
    image_is_wide: bool,
) -> bool {
    match orientation {
        PageOrientation::Landscape => true,
        PageOrientation::Portrait => false,
        PageOrientation::Auto => auto_rotate && image_is_wide,
    }
}

/// The length on paper of a run of pixels, in tenths of a millimetre
/// rounded to the nearest: an inch has 254 tenths and `dpi` pixels.
pub open spec fn printed_length(pixels: nat, dpi: nat) -> nat {
    (pixels * 254 + dpi / 2) / dpi
}

/// The width and height of a page that follows its image, in tenths of a
/// millimetre: the image at the given resolution with a margin on every
/// side. Where pages may be rotated, a page that is asked for in
/// landscape has its longer side as its width, and one in portrait its
/// shorter side.
pub open spec fn adaptive_page_size(
    orientation: PageOrientation,
    auto_rotate: bool,
    dpi: nat,
    margin: nat,
    image_width: nat,
    image_height: nat,
) -> (nat, nat) {
    let width = printed_length(image_width, dpi) + 2 * margin;
    let height = printed_length(image_height, dpi) + 2 * margin;
    let turned = if orientation == PageOrientation::Landscape {
        width < height
    } else if orientation == PageOrientation::Portrait {
        width > height
    } else {
        false
    };
    if auto_rotate && turned {
        (height, width)
    } else {
        (width, height)
    }
}

/// The width and height of a page of a standard size, in tenths of a
/// millimetre.
pub open spec fn standard_page_size(
    size: StandardPageSize,
    orientation: PageOrientation,
    auto_rotate: bool,
    image_is_wide: bool,
) -> (nat, nat) {
    let (short, long) = portrait_size(size);
    if lies_landscape(orientation, auto_rotate, image_is_wide) {
        (long, short)
    } else {
        (short, long)
    }
}

/// The width and height of the page for an image, in tenths of a
/// millimetre. A page that follows its image has no size at a resolution
/// of zero.
pub open spec fn page_size(
    mode: PageMode,
    orientation: PageOrientation,
    auto_rotate: bool,
    dpi: nat,
    margin: nat,
    image_width: nat,
    image_height: nat,
) -> Option<(nat, nat)> {
    match mode {
        PageMode::FixedA4 => Some(
            standard_page_size(
                StandardPageSize::A4,
                orientation,
                auto_rotate,
                image_width > image_height,
            ),
        ),
        PageMode::Standard(size) => Some(
            standard_page_size(size, orientation, auto_rotate, image_width > image_height),
        ),
        PageMode::AdaptiveSize => if dpi == 0 {
            None
        } else {
            Some(
                adaptive_page_size(orientation, auto_rotate, dpi, margin, image_width, image_height),
            )
        },
    }
}

/// The resolution at which `calculate_page_size_legacy` prints an image.
pub const LEGACY_DPI: u32 = 150;

/// The size of a page in the older scheme, in tenths of a millimetre: A4 in
/// portrait for images that need not keep their size, and otherwise the
/// image at 150 dots per inch without a margin, turned as asked.
pub open spec fn legacy_page_size(
    preserve_original_size: bool,
    orientation: PageOrientation,
    image_width: nat,
    image_height: nat,
) -> (nat, nat) {
    if preserve_original_size {
        adaptive_page_size(orientation, true, LEGACY_DPI as nat, 0, image_width, image_height)
    } else {
        portrait_size(StandardPageSize::A4)
    }
}

/// Whether a path is accepted as input: it leads to a directory, or to a
/// file with the name of an image.
pub open spec fn input_type_of(kind: PathKind, name: Seq<char>) -> Result<InputType, ConvertError> {
    match kind {
        PathKind::Directory => Ok(InputType::Folder),
        PathKind::File => if is_image_name(name) {
            Ok(InputType::SingleImage)
        } else {
            Err(ConvertError::Input)
        },
        PathKind::Missing | PathKind::Other => Err(ConvertError::Input),
    }
}

/// Turns images into PDF documents.
#[derive(Clone, Copy, Debug)]
pub struct ImageToPdfConverter;

impl ImageToPdfConverter {
    /// Selects the images among the names of a folder's files, and puts
    /// them in the order of their names.
    pub fn get_image_files_public(names: &Vec<String>) -> (images: Vec<String>)
        ensures
            in_order(texts(images@)),
            texts(images@).to_multiset() == accepted(InputKind::Images, texts(names@)).to_multiset(),
    {
        select_names(names, InputKind::Images)
    }

    /// Decides what the input of a conversion is, from what its path leads
    /// to and the name of the file.
    pub fn detect_input_type(kind: PathKind, name: &str) -> (r: Result<InputType, ConvertError>)
        ensures
            r == input_type_of(kind, name@),
    {
        match kind {
            PathKind::Directory => Ok(InputType::Folder),
            PathKind::File => {
                if is_image_file_name(name) {
                    Ok(InputType::SingleImage)
                } else {
                    Err(ConvertError::Input)
                }
            },
            PathKind::Missing => Err(ConvertError::Input),
            PathKind::Other => Err(ConvertError::Input),
        }
    }

    /// The width and height of the page for an image, in tenths of a
    /// millimetre. `dpi` is the resolution at which the image is printed
    /// and `margin` the margin on every side, in tenths of a millimetre;
    /// both count only for a page that follows its image.
    pub fn calculate_page_size(
        mode: PageMode,
        orientation: PageOrientation,
        auto_rotate: bool,
        dpi: u32,
        margin: u32,
        image_width: u32,
        image_height: u32,
    ) -> (size: Option<(u64, u64)>)
        ensures
            match size {
                Some((w, h)) => page_size(
                    mode,
                    orientation,
                    auto_rotate,
                    dpi as nat,
                    margin as nat,
                    image_width as nat,
                    image_height as nat,
                ) == Some((w as nat, h as nat)),
                None => page_size(
                    mode,
                    orientation,
                    auto_rotate,
                    dpi as nat,
                    margin as nat,
                    image_width as nat,
                    image_height as nat,
                ) is None,
            },
    {
        let portrait: (u64, u64) = match mode {
            PageMode::FixedA4 => (2100, 2970),
            PageMode::Standard(StandardPageSize::A3) => (2970, 4200),
            PageMode::Standard(StandardPageSize::A4) => (2100, 2970),
            PageMode::Standard(StandardPageSize::A5) => (1480, 2100),
            PageMode::Standard(StandardPageSize::Letter) => (2159, 2794),
            PageMode::Standard(StandardPageSize::Legal) => (2159, 3556),
            PageMode::AdaptiveSize => {
                if dpi == 0 {
                    return None;
                }
                let width = printed(image_width, dpi) + 2 * (margin as u64);
                let height = printed(image_height, dpi) + 2 * (margin as u64);
                let turned = match orientation {
                    PageOrientation::Landscape => width < height,
                    PageOrientation::Portrait => width > height,
                    PageOrientation::Auto => false,
                };
                if auto_rotate && turned {
                    return Some((height, width));
                } else {
                    return Some((width, height));
                }
            },
        };
        let landscape = match orientation {
            PageOrientation::Landscape => true,
            PageOrientation::Portrait => false,
            PageOrientation::Auto => auto_rotate && image_width > image_height,
        };
        if landscape {
            Some((portrait.1, portrait.0))
        } else {
            Some(portrait)
        }
    }
}

/// The size of a page in the older scheme, in tenths of a millimetre.
pub fn calculate_page_size_legacy(
    preserve_original_size: bool,
    orientation: PageOrientation,
    image_width: u32,
    image_height: u32,
) -> (size: (u64, u64))
    ensures
        (size.0 as nat, size.1 as nat) == legacy_page_size(
            preserve_original_size,
            orientation,
            image_width as nat,
            image_height as nat,
        ),
{
    if !preserve_original_size {
        return (2100, 2970);
    }
    let width = printed(image_width, LEGACY_DPI);
    let height = printed(image_height, LEGACY_DPI);
    let turned = match orientation {
        PageOrientation::Landscape => width < height,
        PageOrientation::Portrait => width > height,
        PageOrientation::Auto => false,
    };
    if turned {
        (height, width)
    } else {
        (width, height)
    }
}

fn printed(pixels: u32, dpi: u32) -> (length: u64)
    requires
        dpi > 0,
    ensures
        length == printed_length(pixels as nat, dpi as nat),
        length <= 254 * 0xFFFF_FFFF + 0x7FFF_FFFF,
{
    let scaled: u64 = (pixels as u64) * 254 + (dpi as u64) / 2;
    let length: u64 = scaled / (dpi as u64);
    assert(length <= scaled) by (nonlinear_arith)
        requires
            length == scaled / (dpi as u64),
            dpi >= 1,
    ;
    length
}

} // verus!
