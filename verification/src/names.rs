//! File names: their stems and extensions, which of them the engine
//! converts, and the names under which results are stored.
//!
//! A name here is the last component of a path. As in `std::path`, the
//! extension is what follows the last dot, unless the name has no dot or
//! its only dot comes first.

use vstd::prelude::*;
use vstd::string::*;
use crate::config::{OutputFormat, extension_of};
use crate::text::{
    ascii_lower,
    decimal,
    padded_decimal,
    push_decimal,
    push_padded_decimal,
    same_text,
    same_text_ignoring_case,
};

verus! {

/// The position of the last dot of a name, or -1 where it has none.
pub open spec fn last_dot(name: Seq<char>) -> int
    decreases name.len(),
{
    if name.len() == 0 {
        -1
    } else if name.last() == '.' {
        name.len() - 1
    } else {
        last_dot(name.drop_last())
    }
}

/// Whether a name has an extension: a dot that is not its first character.
pub open spec fn has_extension(name: Seq<char>) -> bool {
    last_dot(name) > 0
}

/// The name without its extension and the dot before it.
pub open spec fn name_stem(name: Seq<char>) -> Seq<char> {
    if has_extension(name) {
        name.subrange(0, last_dot(name))
    } else {
        name
    }
}

/// What follows the last dot of a name with an extension.
pub open spec fn name_extension(name: Seq<char>) -> Seq<char> {
    name.subrange(last_dot(name) + 1, name.len() as int)
}

/// Whether an extension is one of the image formats that are read,
/// whatever its case.
pub open spec fn is_image_extension(extension: Seq<char>) -> bool {
    let lower = ascii_lower(extension);
    ||| lower == ascii_lower("jpg"@)
    ||| lower == ascii_lower("jpeg"@)
    ||| lower == ascii_lower("png"@)
    ||| lower == ascii_lower("bmp"@)
    ||| lower == ascii_lower("tiff"@)
    ||| lower == ascii_lower("webp"@)
    ||| lower == ascii_lower("gif"@)
}

/// Whether a name is that of an image that is read.
pub open spec fn is_image_name(name: Seq<char>) -> bool {
    has_extension(name) && is_image_extension(name_extension(name))
}

/// Whether a name is that of a PDF: its extension is `pdf`, in small
/// letters.
pub open spec fn is_pdf_name(name: Seq<char>) -> bool {
    has_extension(name) && name_extension(name) == "pdf"@
}

/// Whether a name is that of a file the batch converts: an image, or a PDF.
pub open spec fn is_convertible_name(name: Seq<char>) -> bool {
    is_image_name(name) || is_pdf_name(name)
}

proof fn lemma_last_dot_bounds(name: Seq<char>)
    ensures
        -1 <= last_dot(name) < name.len(),
        last_dot(name) >= 0 ==> name[last_dot(name)] == '.',
    decreases name.len(),
{
    if name.len() > 0 && name.last() != '.' {
        lemma_last_dot_bounds(name.drop_last());
    }
}

/// Finds the last dot of a name.
pub fn find_last_dot(name: &str) -> (dot: Option<usize>)
    ensures
        match dot {
            Some(d) => d == last_dot(name@) && d < name@.len() && name@[d as int] == '.',
            None => last_dot(name@) == -1,
        },
{
    let n = name.unicode_len();
    let mut i: usize = n;
    proof {
        assert(name@.subrange(0, n as int) =~= name@);
        lemma_last_dot_bounds(name@);
    }
    while i > 0
        invariant
            i <= n,
            n == name@.len(),
            last_dot(name@) == last_dot(name@.subrange(0, i as int)),
        decreases i,
    {
        let c = name.get_char(i - 1);
        if c == '.' {
            return Some(i - 1);
        }
        proof {
            assert(name@.subrange(0, i as int).drop_last() =~= name@.subrange(0, i - 1));
        }
        i = i - 1;
    }
    None
}

/// The name without its extension.
pub fn file_stem(name: &str) -> (stem: String)
    ensures
        stem@ == name_stem(name@),
{
    match find_last_dot(name) {
        Some(d) => {
            if d > 0 {
                String::from_str(name.substring_char(0, d))
            } else {
                String::from_str(name)
            }
        },
        None => String::from_str(name),
    }
}

/// The extension of a name, if it has one.
pub fn file_extension(name: &str) -> (extension: Option<String>)
    ensures
        extension is Some <==> has_extension(name@),
        extension matches Some(e) ==> e@ == name_extension(name@),
{
    match find_last_dot(name) {
        Some(d) => {
            if d > 0 {
                let n = name.unicode_len();
                Some(String::from_str(name.substring_char(d + 1, n)))
            } else {
                None
            }
        },
        None => None,
    }
}

/// Whether an extension is one of the image formats that are read.
pub fn is_supported_image_extension(extension: &str) -> (supported: bool)
    ensures
        supported == is_image_extension(extension@),
{
    same_text_ignoring_case(extension, "jpg") || same_text_ignoring_case(extension, "jpeg")
        || same_text_ignoring_case(extension, "png") || same_text_ignoring_case(extension, "bmp")
        || same_text_ignoring_case(extension, "tiff") || same_text_ignoring_case(
        extension,
        "webp",
    ) || same_text_ignoring_case(extension, "gif")
}

/// Whether a file name is that of an image that is read.
pub fn is_image_file_name(name: &str) -> (image: bool)
    ensures
        image == is_image_name(name@),
{
    match file_extension(name) {
        Some(extension) => is_supported_image_extension(extension.as_str()),
        None => false,
    }
}

/// Whether a file name is that of a PDF.
pub fn is_pdf_file_name(name: &str) -> (pdf: bool)
    ensures
        pdf == is_pdf_name(name@),
{
    match file_extension(name) {
        Some(extension) => same_text(extension.as_str(), "pdf"),
        None => false,
    }
}

/// The name under which an image is stored in a format: its stem, a dot
/// and the format's extension.
pub open spec fn output_name(name: Seq<char>, format: OutputFormat) -> Seq<char> {
    name_stem(name) + seq!['.'] + extension_of(format)
}

/// The name under which a page of a PDF is stored: the stem of the PDF,
/// `_page_`, the number of the page, a dot and the format's extension.
pub open spec fn page_name(stem: Seq<char>, page: nat, format: OutputFormat) -> Seq<char> {
    stem + "_page_"@ + decimal(page) + seq!['.'] + extension_of(format)
}

/// The name under which a page is stored in a folder of its own: `page_`,
/// the number of the page in three digits or more, a dot and the format's
/// extension.
pub open spec fn numbered_page_name(page: nat, format: OutputFormat) -> Seq<char> {
    "page_"@ + padded_decimal(page, 3) + seq!['.'] + extension_of(format)
}

/// The name under which an image is stored in a format.
pub fn output_file_name(name: &str, format: OutputFormat) -> (out: String)
    ensures
        out@ == output_name(name@, format),
{
    let mut out = file_stem(name);
    out.push('.');
    out.append(format.extension());
    assert(out@ =~= output_name(name@, format));
    out
}

/// The name under which a page of a PDF is stored. Pages count from one.
pub fn page_file_name(stem: &str, page: usize, format: OutputFormat) -> (out: String)
    ensures
        out@ == page_name(stem@, page as nat, format),
{
    let mut out = String::from_str(stem);
    out.append("_page_");
    push_decimal(&mut out, page);
    out.push('.');
    out.append(format.extension());
    assert(out@ =~= page_name(stem@, page as nat, format));
    out
}

/// The name under which a page is stored in a folder of its own.
pub fn numbered_page_file_name(page: usize, format: OutputFormat) -> (out: String)
    ensures
        out@ == numbered_page_name(page as nat, format),
{
    let mut out = String::from_str("page_");
    push_padded_decimal(&mut out, page, 3);
    out.push('.');
    out.append(format.extension());
    assert(out@ =~= numbered_page_name(page as nat, format));
    out
}

/// The folder, below the output folder, in which the pages of a PDF are
/// stored: one named after the PDF where the batch holds several PDFs, so
/// that the names of their pages do not collide, and none otherwise.
pub open spec fn page_folder(name: Seq<char>, pdf_count: nat) -> Option<Seq<char>> {
    if pdf_count > 1 {
        Some(name_stem(name))
    } else {
        None
    }
}

/// The folder in which the pages of a PDF are stored, if they get one of
/// their own.
pub fn pdf_output_folder(name: &str, pdf_count: usize) -> (folder: Option<String>)
    ensures
        match folder {
            Some(f) => page_folder(name@, pdf_count as nat) == Some(f@),
            None => page_folder(name@, pdf_count as nat) is None,
        },
{
    if pdf_count > 1 {
        Some(file_stem(name))
    } else {
        None
    }
}

} // verus!
