//! Watermarks: where one is placed on an image, and the dot patterns of
//! the characters that a text watermark is drawn with.

use vstd::prelude::*;
use vstd::string::*;
use crate::text::{decimal, push_decimal};

verus! {

/// Where a watermark is placed on an image.
#[derive(Clone, Copy, Debug, PartialEq, Eq, Structural)]
pub enum WatermarkPosition {
    TopLeft,
    TopCenter,
    TopRight,
    MiddleLeft,
    MiddleCenter,
    MiddleRight,
    BottomLeft,
    BottomCenter,
    BottomRight,
    /// At the given pixel, counted from the top left corner.
    Custom(u32, u32),
}

impl Default for WatermarkPosition {
    fn default() -> (position: WatermarkPosition)
        ensures
            position == WatermarkPosition::BottomRight,
    {
        WatermarkPosition::BottomRight
    }
}

/// The name under which a position is shown.
pub open spec fn position_label(position: WatermarkPosition) -> Seq<char> {
    match position {
        WatermarkPosition::TopLeft => "左上角"@,
        WatermarkPosition::TopCenter => "上方中央"@,
        WatermarkPosition::TopRight => "右上角"@,
        WatermarkPosition::MiddleLeft => "左侧中央"@,
        WatermarkPosition::MiddleCenter => "正中央"@,
        WatermarkPosition::MiddleRight => "右侧中央"@,
        WatermarkPosition::BottomLeft => "左下角"@,
        WatermarkPosition::BottomCenter => "下方中央"@,
        WatermarkPosition::BottomRight => "右下角"@,
        WatermarkPosition::Custom(x, y) => "自定义 ("@ + decimal(x as nat) + ", "@ + decimal(
            y as nat,
        ) + ")"@,
    }
}

/// The positions that are offered, in reading order.
pub open spec fn preset_positions() -> Seq<WatermarkPosition> {
    seq![
        WatermarkPosition::TopLeft,
        WatermarkPosition::TopCenter,
        WatermarkPosition::TopRight,
        WatermarkPosition::MiddleLeft,
        WatermarkPosition::MiddleCenter,
        WatermarkPosition::MiddleRight,
        WatermarkPosition::BottomLeft,
        WatermarkPosition::BottomCenter,
        WatermarkPosition::BottomRight,
    ]
}

impl WatermarkPosition {
    /// Every preset position with its name, in reading order.
    pub fn all_positions() -> (all: Vec<(WatermarkPosition, &'static str)>)
        ensures
            all@.len() == preset_positions().len(),
            forall|i: int|
                0 <= i < all@.len() ==> (#[trigger] all@[i]).0 == preset_positions()[i]
                    && all@[i].1@ == position_label(all@[i].0),
    {
        let all = vec![
            (WatermarkPosition::TopLeft, "左上角"),
            (WatermarkPosition::TopCenter, "上方中央"),
            (WatermarkPosition::TopRight, "右上角"),
            (WatermarkPosition::MiddleLeft, "左侧中央"),
            (WatermarkPosition::MiddleCenter, "正中央"),
            (WatermarkPosition::MiddleRight, "右侧中央"),
            (WatermarkPosition::BottomLeft, "左下角"),
            (WatermarkPosition::BottomCenter, "下方中央"),
            (WatermarkPosition::BottomRight, "右下角"),
        ];
        all
    }

    /// The name under which the position is shown.
    pub fn display_name(&self) -> (name: String)
        ensures
            name@ == position_label(*self),
    {
        match self {
            WatermarkPosition::TopLeft => String::from_str("左上角"),
            WatermarkPosition::TopCenter => String::from_str("上方中央"),
            WatermarkPosition::TopRight => String::from_str("右上角"),
            WatermarkPosition::MiddleLeft => String::from_str("左侧中央"),
            WatermarkPosition::MiddleCenter => String::from_str("正中央"),
            WatermarkPosition::MiddleRight => String::from_str("右侧中央"),
            WatermarkPosition::BottomLeft => String::from_str("左下角"),
            WatermarkPosition::BottomCenter => String::from_str("下方中央"),
            WatermarkPosition::BottomRight => String::from_str("右下角"),
            WatermarkPosition::Custom(x, y) => {
                let mut name = String::from_str("自定义 (");
                push_decimal(&mut name, *x as usize);
                name.append(", ");
                push_decimal(&mut name, *y as usize);
                name.append(")");
                assert(name@ =~= position_label(*self));
                name
            },
        }
    }
}

/// The difference of two numbers, or zero where the second is the larger.
pub open spec fn minus_or_zero(a: nat, b: nat) -> nat {
    if a >= b {
        (a - b) as nat
    } else {
        0
    }
}

/// The pixel at which the top left corner of a watermark goes. At the left
/// and the top the margin is kept; at the right and the bottom the
/// watermark and the margin are taken off the image's size; in the middle
/// what the image is larger than the watermark is halved. Where the
/// watermark does not fit, it goes to the edge.
pub open spec fn watermark_origin(
    img_width: nat,
    img_height: nat,
    wm_width: nat,
    wm_height: nat,
    position: WatermarkPosition,
    margin: nat,
) -> (nat, nat) {
    let left = margin;
    let center = minus_or_zero(img_width, wm_width) / 2;
    let right = minus_or_zero(img_width, wm_width + margin);
    let top = margin;
    let middle = minus_or_zero(img_height, wm_height) / 2;
    let bottom = minus_or_zero(img_height, wm_height + margin);
    match position {
        WatermarkPosition::TopLeft => (left, top),
        WatermarkPosition::TopCenter => (center, top),
        WatermarkPosition::TopRight => (right, top),
        WatermarkPosition::MiddleLeft => (left, middle),
        WatermarkPosition::MiddleCenter => (center, middle),
        WatermarkPosition::MiddleRight => (right, middle),
        WatermarkPosition::BottomLeft => (left, bottom),
        WatermarkPosition::BottomCenter => (center, bottom),
        WatermarkPosition::BottomRight => (right, bottom),
        WatermarkPosition::Custom(x, y) => (x as nat, y as nat),
    }
}

/// The rows of dots of a character, from the top: in each row the highest
/// bit is the leftmost dot. Letters look the same in both cases, and a
/// character without a pattern of its own is drawn as a ring.
pub open spec fn glyph(ch: char) -> Seq<u8> {
    match ch {
        'A' | 'a' => seq![0x18, 0x24, 0x42, 0x42, 0x7E, 0x42, 0x42, 0x00],
        'B' | 'b' => seq![0x7C, 0x42, 0x42, 0x7C, 0x42, 0x42, 0x7C, 0x00],
        'C' | 'c' => seq![0x3C, 0x42, 0x40, 0x40, 0x40, 0x42, 0x3C, 0x00],
        'D' | 'd' => seq![0x78, 0x44, 0x42, 0x42, 0x42, 0x44, 0x78, 0x00],
        'E' | 'e' => seq![0x7E, 0x40, 0x40, 0x7C, 0x40, 0x40, 0x7E, 0x00],
        'F' | 'f' => seq![0x7E, 0x40, 0x40, 0x7C, 0x40, 0x40, 0x40, 0x00],
        'G' | 'g' => seq![0x3C, 0x42, 0x40, 0x4E, 0x42, 0x42, 0x3C, 0x00],
        'H' | 'h' => seq![0x42, 0x42, 0x42, 0x7E, 0x42, 0x42, 0x42, 0x00],
        'I' | 'i' => seq![0x7E, 0x18, 0x18, 0x18, 0x18, 0x18, 0x7E, 0x00],
        'J' | 'j' => seq![0x3E, 0x04, 0x04, 0x04, 0x44, 0x44, 0x38, 0x00],
        'K' | 'k' => seq![0x42, 0x44, 0x48, 0x70, 0x48, 0x44, 0x42, 0x00],
        'L' | 'l' => seq![0x40, 0x40, 0x40, 0x40, 0x40, 0x40, 0x7E, 0x00],
        'M' | 'm' => seq![0x42, 0x66, 0x5A, 0x42, 0x42, 0x42, 0x42, 0x00],
        'N' | 'n' => seq![0x42, 0x62, 0x52, 0x4A, 0x46, 0x42, 0x42, 0x00],
        'O' | 'o' => seq![0x3C, 0x42, 0x42, 0x42, 0x42, 0x42, 0x3C, 0x00],
        'P' | 'p' => seq![0x7C, 0x42, 0x42, 0x7C, 0x40, 0x40, 0x40, 0x00],
        'Q' | 'q' => seq![0x3C, 0x42, 0x42, 0x52, 0x4A, 0x44, 0x3A, 0x00],
        'R' | 'r' => seq![0x7C, 0x42, 0x42, 0x7C, 0x48, 0x44, 0x42, 0x00],
        'S' | 's' => seq![0x3C, 0x42, 0x40, 0x3C, 0x02, 0x42, 0x3C, 0x00],
        'T' | 't' => seq![0x7E, 0x18, 0x18, 0x18, 0x18, 0x18, 0x18, 0x00],
        'U' | 'u' => seq![0x42, 0x42, 0x42, 0x42, 0x42, 0x42, 0x3C, 0x00],
        'V' | 'v' => seq![0x42, 0x42, 0x42, 0x42, 0x24, 0x24, 0x18, 0x00],
        'W' | 'w' => seq![0x42, 0x42, 0x42, 0x42, 0x5A, 0x66, 0x42, 0x00],
        'X' | 'x' => seq![0x42, 0x24, 0x18, 0x18, 0x18, 0x24, 0x42, 0x00],
        'Y' | 'y' => seq![0x42, 0x42, 0x24, 0x18, 0x18, 0x18, 0x18, 0x00],
        'Z' | 'z' => seq![0x7E, 0x04, 0x08, 0x10, 0x20, 0x40, 0x7E, 0x00],
        '0' => seq![0x3C, 0x46, 0x4A, 0x52, 0x52, 0x62, 0x3C, 0x00],
        '1' => seq![0x18, 0x38, 0x18, 0x18, 0x18, 0x18, 0x7E, 0x00],
        '2' => seq![0x3C, 0x42, 0x02, 0x3C, 0x40, 0x40, 0x7E, 0x00],
        '3' => seq![0x3C, 0x42, 0x02, 0x1C, 0x02, 0x42, 0x3C, 0x00],
        '4' => seq![0x08, 0x18, 0x28, 0x48, 0x7E, 0x08, 0x08, 0x00],
        '5' => seq![0x7E, 0x40, 0x7C, 0x02, 0x02, 0x42, 0x3C, 0x00],
        '6' => seq![0x3C, 0x40, 0x40, 0x7C, 0x42, 0x42, 0x3C, 0x00],
        '7' => seq![0x7E, 0x02, 0x04, 0x08, 0x10, 0x20, 0x20, 0x00],
        '8' => seq![0x3C, 0x42, 0x42, 0x3C, 0x42, 0x42, 0x3C, 0x00],
        '9' => seq![0x3C, 0x42, 0x42, 0x3E, 0x02, 0x02, 0x3C, 0x00],
        '©' => seq![0x3C, 0x42, 0x9D, 0xA1, 0xA1, 0x9D, 0x42, 0x3C],
        '@' => seq![0x3C, 0x42, 0x9A, 0xAA, 0x9E, 0x80, 0x7C, 0x00],
        ' ' => seq![0x00, 0x00, 0x00, 0x00, 0x00, 0x00, 0x00, 0x00],
        '.' => seq![0x00, 0x00, 0x00, 0x00, 0x00, 0x00, 0x18, 0x00],
        ',' => seq![0x00, 0x00, 0x00, 0x00, 0x00, 0x18, 0x10, 0x20],
        ':' => seq![0x00, 0x00, 0x18, 0x00, 0x00, 0x18, 0x00, 0x00],
        '-' => seq![0x00, 0x00, 0x00, 0x7E, 0x00, 0x00, 0x00, 0x00],
        '_' => seq![0x00, 0x00, 0x00, 0x00, 0x00, 0x00, 0x00, 0xFF],
        _ => seq![0x3C, 0x42, 0x99, 0xA1, 0xA1, 0x99, 0x42, 0x3C],
    }
}

fn far_edge(size: u32, taken: u32, margin: u32) -> (origin: u32)
    ensures
        origin == minus_or_zero(size as nat, taken as nat + margin as nat),
{
    let needed: u64 = taken as u64 + margin as u64;
    if needed >= size as u64 {
        0
    } else {
        (size as u64 - needed) as u32
    }
}

/// Places watermarks and knows the patterns of their characters.
#[derive(Clone, Copy, Debug)]
pub struct SimpleWatermarkProcessor;

impl SimpleWatermarkProcessor {
    /// A processor.
    pub fn new() -> (processor: SimpleWatermarkProcessor) {
        SimpleWatermarkProcessor
    }

    /// Computes the pixel at which the top left corner of a watermark goes.
    pub fn calculate_position(
        &self,
        img_width: u32,
        img_height: u32,
        wm_width: u32,
        wm_height: u32,
        position: WatermarkPosition,
        margin: u32,
    ) -> (origin: (u32, u32))
        ensures
            (origin.0 as nat, origin.1 as nat) == watermark_origin(
                img_width as nat,
                img_height as nat,
                wm_width as nat,
                wm_height as nat,
                position,
                margin as nat,
            ),
    {
        let center = img_width.saturating_sub(wm_width) / 2;
        let middle = img_height.saturating_sub(wm_height) / 2;
        match position {
            WatermarkPosition::TopLeft => (margin, margin),
            WatermarkPosition::TopCenter => (center, margin),
            WatermarkPosition::TopRight => (far_edge(img_width, wm_width, margin), margin),
            WatermarkPosition::MiddleLeft => (margin, middle),
            WatermarkPosition::MiddleCenter => (center, middle),
            WatermarkPosition::MiddleRight => (far_edge(img_width, wm_width, margin), middle),
            WatermarkPosition::BottomLeft => (margin, far_edge(img_height, wm_height, margin)),
            WatermarkPosition::BottomCenter => (center, far_edge(img_height, wm_height, margin)),
            WatermarkPosition::BottomRight => (
                far_edge(img_width, wm_width, margin),
                far_edge(img_height, wm_height, margin),
            ),
            WatermarkPosition::Custom(x, y) => (x, y),
        }
    }

    /// The rows of dots of a character.
    pub fn get_char_pattern(&self, ch: char) -> (pattern: [u8; 8])
        ensures
            pattern@ == glyph(ch),
    {
        let pattern: [u8; 8] = match ch {
            'A' | 'a' => [0x18, 0x24, 0x42, 0x42, 0x7E, 0x42, 0x42, 0x00],
            'B' | 'b' => [0x7C, 0x42, 0x42, 0x7C, 0x42, 0x42, 0x7C, 0x00],
            'C' | 'c' => [0x3C, 0x42, 0x40, 0x40, 0x40, 0x42, 0x3C, 0x00],
            'D' | 'd' => [0x78, 0x44, 0x42, 0x42, 0x42, 0x44, 0x78, 0x00],
            'E' | 'e' => [0x7E, 0x40, 0x40, 0x7C, 0x40, 0x40, 0x7E, 0x00],
            'F' | 'f' => [0x7E, 0x40, 0x40, 0x7C, 0x40, 0x40, 0x40, 0x00],
            'G' | 'g' => [0x3C, 0x42, 0x40, 0x4E, 0x42, 0x42, 0x3C, 0x00],
            'H' | 'h' => [0x42, 0x42, 0x42, 0x7E, 0x42, 0x42, 0x42, 0x00],
            'I' | 'i' => [0x7E, 0x18, 0x18, 0x18, 0x18, 0x18, 0x7E, 0x00],
            'J' | 'j' => [0x3E, 0x04, 0x04, 0x04, 0x44, 0x44, 0x38, 0x00],
            'K' | 'k' => [0x42, 0x44, 0x48, 0x70, 0x48, 0x44, 0x42, 0x00],
            'L' | 'l' => [0x40, 0x40, 0x40, 0x40, 0x40, 0x40, 0x7E, 0x00],
            'M' | 'm' => [0x42, 0x66, 0x5A, 0x42, 0x42, 0x42, 0x42, 0x00],
            'N' | 'n' => [0x42, 0x62, 0x52, 0x4A, 0x46, 0x42, 0x42, 0x00],
            'O' | 'o' => [0x3C, 0x42, 0x42, 0x42, 0x42, 0x42, 0x3C, 0x00],
            'P' | 'p' => [0x7C, 0x42, 0x42, 0x7C, 0x40, 0x40, 0x40, 0x00],
            'Q' | 'q' => [0x3C, 0x42, 0x42, 0x52, 0x4A, 0x44, 0x3A, 0x00],
            'R' | 'r' => [0x7C, 0x42, 0x42, 0x7C, 0x48, 0x44, 0x42, 0x00],
            'S' | 's' => [0x3C, 0x42, 0x40, 0x3C, 0x02, 0x42, 0x3C, 0x00],
            'T' | 't' => [0x7E, 0x18, 0x18, 0x18, 0x18, 0x18, 0x18, 0x00],
            'U' | 'u' => [0x42, 0x42, 0x42, 0x42, 0x42, 0x42, 0x3C, 0x00],
            'V' | 'v' => [0x42, 0x42, 0x42, 0x42, 0x24, 0x24, 0x18, 0x00],
            'W' | 'w' => [0x42, 0x42, 0x42, 0x42, 0x5A, 0x66, 0x42, 0x00],
            'X' | 'x' => [0x42, 0x24, 0x18, 0x18, 0x18, 0x24, 0x42, 0x00],
            'Y' | 'y' => [0x42, 0x42, 0x24, 0x18, 0x18, 0x18, 0x18, 0x00],
            'Z' | 'z' => [0x7E, 0x04, 0x08, 0x10, 0x20, 0x40, 0x7E, 0x00],
            '0' => [0x3C, 0x46, 0x4A, 0x52, 0x52, 0x62, 0x3C, 0x00],
            '1' => [0x18, 0x38, 0x18, 0x18, 0x18, 0x18, 0x7E, 0x00],
            '2' => [0x3C, 0x42, 0x02, 0x3C, 0x40, 0x40, 0x7E, 0x00],
            '3' => [0x3C, 0x42, 0x02, 0x1C, 0x02, 0x42, 0x3C, 0x00],
            '4' => [0x08, 0x18, 0x28, 0x48, 0x7E, 0x08, 0x08, 0x00],
            '5' => [0x7E, 0x40, 0x7C, 0x02, 0x02, 0x42, 0x3C, 0x00],
            '6' => [0x3C, 0x40, 0x40, 0x7C, 0x42, 0x42, 0x3C, 0x00],
            '7' => [0x7E, 0x02, 0x04, 0x08, 0x10, 0x20, 0x20, 0x00],
            '8' => [0x3C, 0x42, 0x42, 0x3C, 0x42, 0x42, 0x3C, 0x00],
            '9' => [0x3C, 0x42, 0x42, 0x3E, 0x02, 0x02, 0x3C, 0x00],
            '©' => [0x3C, 0x42, 0x9D, 0xA1, 0xA1, 0x9D, 0x42, 0x3C],
            '@' => [0x3C, 0x42, 0x9A, 0xAA, 0x9E, 0x80, 0x7C, 0x00],
            ' ' => [0x00, 0x00, 0x00, 0x00, 0x00, 0x00, 0x00, 0x00],
            '.' => [0x00, 0x00, 0x00, 0x00, 0x00, 0x00, 0x18, 0x00],
            ',' => [0x00, 0x00, 0x00, 0x00, 0x00, 0x18, 0x10, 0x20],
            ':' => [0x00, 0x00, 0x18, 0x00, 0x00, 0x18, 0x00, 0x00],
            '-' => [0x00, 0x00, 0x00, 0x7E, 0x00, 0x00, 0x00, 0x00],
            '_' => [0x00, 0x00, 0x00, 0x00, 0x00, 0x00, 0x00, 0xFF],
            _ => [0x3C, 0x42, 0x99, 0xA1, 0xA1, 0x99, 0x42, 0x3C],
        };
        assert(pattern@ =~= glyph(ch));
        pattern
    }
}

} // verus!
