//! An owned 8-bit bitmap, the pixel buffer that the encoders work on.

use vstd::prelude::*;
use crate::error::ConvertError;

verus! {

/// The most pixels a bitmap may hold. With this cap every byte count of a
/// bitmap, four bytes per pixel and a kilobyte of header included, fits in
/// 32 bits.
pub const MAX_PIXELS: u32 = 1_073_741_567;

/// How the bytes of a pixel are laid out.
#[derive(Clone, Copy, Debug, PartialEq, Eq, Structural)]
pub enum PixelLayout {
    /// Red, green, blue: three bytes per pixel.
    Rgb8,
    /// Red, green, blue, alpha: four bytes per pixel.
    Rgba8,
}

/// The number of bytes per pixel of a layout.
pub open spec fn channel_count(layout: PixelLayout) -> nat {
    match layout {
        PixelLayout::Rgb8 => 3,
        PixelLayout::Rgba8 => 4,
    }
}

impl PixelLayout {
    /// The number of bytes per pixel.
    pub fn channels(self) -> (n: usize)
        ensures
            n == channel_count(self),
    {
        match self {
            PixelLayout::Rgb8 => 3,
            PixelLayout::Rgba8 => 4,
        }
    }
}

/// What a bitmap is, mathematically: its dimensions, its layout and its
/// bytes in row-major order.
pub struct BitmapView {
    pub width: nat,
    pub height: nat,
    pub layout: PixelLayout,
    pub pixels: Seq<u8>,
}

/// Whether raw parts describe a bitmap: the byte count matches the
/// dimensions and the pixel count is within the cap.
pub open spec fn valid_raw(width: nat, height: nat, layout: PixelLayout, len: nat) -> bool {
    &&& width * height <= MAX_PIXELS
    &&& len == width * height * channel_count(layout)
}

impl BitmapView {
    /// The invariant of every bitmap.
    pub open spec fn valid(self) -> bool {
        &&& self.width <= u32::MAX
        &&& self.height <= u32::MAX
        &&& valid_raw(self.width, self.height, self.layout, self.pixels.len())
    }

    /// The number of pixels.
    pub open spec fn pixel_count(self) -> nat {
        self.width * self.height
    }
}

/// The pixels of an RGBA buffer without their alpha bytes.
pub open spec fn without_alpha(pixels: Seq<u8>) -> Seq<u8> {
    Seq::new((pixels.len() / 4 * 3) as nat, |i: int| pixels[i / 3 * 4 + i % 3])
}

/// The pixels of an RGB buffer, each followed by a fully opaque alpha byte.
pub open spec fn with_opaque_alpha(pixels: Seq<u8>) -> Seq<u8> {
    Seq::new(
        (pixels.len() / 3 * 4) as nat,
        |i: int|
            if i % 4 == 3 {
                255u8
            } else {
                pixels[i / 4 * 3 + i % 4]
            },
    )
}

/// The bytes of a bitmap as RGB.
pub open spec fn rgb_pixels(b: BitmapView) -> Seq<u8> {
    match b.layout {
        PixelLayout::Rgb8 => b.pixels,
        PixelLayout::Rgba8 => without_alpha(b.pixels),
    }
}

/// The bytes of a bitmap as RGBA.
pub open spec fn rgba_pixels(b: BitmapView) -> Seq<u8> {
    match b.layout {
        PixelLayout::Rgb8 => with_opaque_alpha(b.pixels),
        PixelLayout::Rgba8 => b.pixels,
    }
}

/// An owned bitmap of 8-bit channels.
pub struct Bitmap {
    width: u32,
    height: u32,
    layout: PixelLayout,
    data: Vec<u8>,
}

impl View for Bitmap {
    type V = BitmapView;

    closed spec fn view(&self) -> BitmapView {
        BitmapView {
            width: self.width as nat,
            height: self.height as nat,
            layout: self.layout,
            pixels: self.data@,
        }
    }
}

proof fn lemma_pixel_bytes(width: nat, height: nat, channels: nat)
    requires
        width * height <= MAX_PIXELS,
        channels <= 4,
    ensures
        width * height * channels <= 4 * MAX_PIXELS,
{
    assert(width * height * channels <= 4 * MAX_PIXELS) by (nonlinear_arith)
        requires
            width * height <= MAX_PIXELS,
            channels <= 4,
    ;
}

impl Bitmap {
    #[verifier::type_invariant]
    spec fn inv(self) -> bool {
        valid_raw(self.width as nat, self.height as nat, self.layout, self.data@.len())
    }

    /// Makes a bitmap of raw parts. Parts that do not describe a bitmap
    /// are refused as data that cannot be decoded.
    pub fn from_raw(width: u32, height: u32, layout: PixelLayout, data: Vec<u8>) -> (r: Result<
        Bitmap,
        ConvertError,
    >)
        ensures
            r is Ok <==> valid_raw(width as nat, height as nat, layout, data@.len()),
            r matches Err(e) ==> e == ConvertError::Decode,
            r matches Ok(b) ==> b@ == (BitmapView {
                width: width as nat,
                height: height as nat,
                layout,
                pixels: data@,
            }) && b@.valid(),
    {
        assert(width as nat * height as nat <= 0xFFFF_FFFF * 0xFFFF_FFFF) by (nonlinear_arith)
            requires
                width <= 0xFFFF_FFFF,
                height <= 0xFFFF_FFFF,
        ;
        let pixels: u64 = (width as u64) * (height as u64);
        if pixels > MAX_PIXELS as u64 {
            return Err(ConvertError::Decode);
        }
        let channels: u64 = layout.channels() as u64;
        proof {
            lemma_pixel_bytes(width as nat, height as nat, channels as nat);
        }
        let bytes: u64 = pixels * channels;
        if data.len() as u64 != bytes {
            return Err(ConvertError::Decode);
        }
        Ok(Bitmap { width, height, layout, data })
    }

    /// The width in pixels.
    pub fn width(&self) -> (w: u32)
        ensures
            w == self@.width,
            self@.valid(),
    {
        proof {
            use_type_invariant(self);
        }
        self.width
    }

    /// The height in pixels.
    pub fn height(&self) -> (h: u32)
        ensures
            h == self@.height,
            self@.valid(),
    {
        proof {
            use_type_invariant(self);
        }
        self.height
    }

    /// The layout of the pixels.
    pub fn layout(&self) -> (l: PixelLayout)
        ensures
            l == self@.layout,
            self@.valid(),
    {
        proof {
            use_type_invariant(self);
        }
        self.layout
    }

    /// The bytes of the pixels, row by row.
    pub fn as_bytes(&self) -> (bytes: &Vec<u8>)
        ensures
            bytes@ == self@.pixels,
            self@.valid(),
    {
        proof {
            use_type_invariant(self);
        }
        &self.data
    }

    /// Gives up the bitmap for its bytes.
    pub fn into_raw(self) -> (bytes: Vec<u8>)
        ensures
            bytes@ == self@.pixels,
            self@.valid(),
    {
        proof {
            use_type_invariant(&self);
        }
        self.data
    }

    /// The number of pixels.
    pub fn pixel_count(&self) -> (n: u32)
        ensures
            n == self@.pixel_count(),
            n <= MAX_PIXELS,
            self@.valid(),
    {
        proof {
            use_type_invariant(self);
        }
        assert(self.width as nat * self.height as nat == self.width * self.height)
            by (nonlinear_arith);
        self.width * self.height
    }

    /// A copy of the pixels as RGB: an alpha channel is dropped.
    pub fn to_rgb8(&self) -> (out: Vec<u8>)
        ensures
            out@ == rgb_pixels(self@),
            out@.len() == 3 * self@.pixel_count(),
            self@.valid(),
    {
        proof {
            use_type_invariant(self);
            lemma_pixel_bytes(self.width as nat, self.height as nat, 4);
            lemma_pixel_bytes(self.width as nat, self.height as nat, 3);
        }
        let ghost count: nat = self.width as nat * self.height as nat;
        match self.layout {
            PixelLayout::Rgb8 => {
                let out = self.data.clone();
                assert(out@ =~= self.data@);
                out
            },
            PixelLayout::Rgba8 => {
                let n: usize = self.data.len() / 4;
                let mut out: Vec<u8> = Vec::with_capacity(n * 3);
                let mut p: usize = 0;
                while p < n
                    invariant
                        p <= n,
                        n == count,
                        self.data@.len() == 4 * n,
                        n <= MAX_PIXELS,
                        out@.len() == 3 * p,
                        forall|i: int|
                            0 <= i < 3 * p ==> out@[i] == #[trigger] without_alpha(self.data@)[i],
                    decreases n - p,
                {
                    let ghost before = out@;
                    out.push(self.data[4 * p]);
                    out.push(self.data[4 * p + 1]);
                    out.push(self.data[4 * p + 2]);
                    proof {
                        let s = without_alpha(self.data@);
                        assert(self.data@.len() / 4 * 3 == 3 * n);
                        assert forall|i: int| 0 <= i < 3 * (p + 1) implies out@[i] == #[trigger] s[i] by {
                            if i < 3 * p {
                                assert(out@[i] == before[i]);
                            } else {
                                assert(i / 3 == p);
                                assert(i % 3 == i - 3 * p);
                            }
                        }
                    }
                    p = p + 1;
                }
                assert(out@ =~= without_alpha(self.data@));
                out
            },
        }
    }

    /// A copy of the pixels as RGBA: pixels without alpha become opaque.
    pub fn to_rgba8(&self) -> (out: Vec<u8>)
        ensures
            out@ == rgba_pixels(self@),
            out@.len() == 4 * self@.pixel_count(),
            self@.valid(),
    {
        proof {
            use_type_invariant(self);
            lemma_pixel_bytes(self.width as nat, self.height as nat, 4);
            lemma_pixel_bytes(self.width as nat, self.height as nat, 3);
        }
        let ghost count: nat = self.width as nat * self.height as nat;
        match self.layout {
            PixelLayout::Rgba8 => {
                let out = self.data.clone();
                assert(out@ =~= self.data@);
                out
            },
            PixelLayout::Rgb8 => {
                let n: usize = self.data.len() / 3;
                let mut out: Vec<u8> = Vec::with_capacity(n * 4);
                let mut p: usize = 0;
                while p < n
                    invariant
                        p <= n,
                        n == count,
                        self.data@.len() == 3 * n,
                        n <= MAX_PIXELS,
                        out@.len() == 4 * p,
                        forall|i: int|
                            0 <= i < 4 * p ==> out@[i] == #[trigger] with_opaque_alpha(
                                self.data@,
                            )[i],
                    decreases n - p,
                {
                    let ghost before = out@;
                    out.push(self.data[3 * p]);
                    out.push(self.data[3 * p + 1]);
                    out.push(self.data[3 * p + 2]);
                    out.push(255);
                    proof {
                        let s = with_opaque_alpha(self.data@);
                        assert(self.data@.len() / 3 * 4 == 4 * n);
                        assert forall|i: int| 0 <= i < 4 * (p + 1) implies out@[i] == #[trigger] s[i] by {
                            if i < 4 * p {
                                assert(out@[i] == before[i]);
                            } else {
                                assert(i / 4 == p);
                                assert(i % 4 == i - 4 * p);
                            }
                        }
                    }
                    p = p + 1;
                }
                assert(out@ =~= with_opaque_alpha(self.data@));
                out
            },
        }
    }
}

} // verus!
