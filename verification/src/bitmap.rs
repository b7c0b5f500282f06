//! From the bitmap of a Windows icon to a PNG data URL.
//!
//! The native calls that find the icon and copy its bits are the caller's. The
//! decisions in between are made here: which of the icon's two bitmaps to
//! read, whether its dimensions are acceptable, how many bytes its bits take,
//! and how the bits are reordered into RGBA before they are encoded.

use crate::data_url::{icon_url, png_data_url};
use crate::source::opt_text;
use image::{ImageBuffer, ImageOutputFormat, Rgba};
use std::io::Cursor;
use vstd::prelude::*;

verus! {

/// The largest width and height accepted, in pixels.
pub const MAX_ICON_DIMENSION: i32 = 2048;

/// The largest number of bytes accepted for the bits of a bitmap: 16 MiB.
pub const MAX_BITMAP_BYTES: u64 = 16 * 1024 * 1024;

/// The bytes of the PNG file that encodes the `width` by `height` image whose
/// pixels are `rgba`, four bytes each, row by row; `None` where the encoder
/// refuses the image.
pub uninterp spec fn png_encoding(width: u32, height: u32, rgba: Seq<u8>) -> Option<Seq<u8>>;

/// The bytes of an optional buffer.
pub open spec fn opt_bytes(bytes: Option<Vec<u8>>) -> Option<Seq<u8>> {
    match bytes {
        Some(b) => Some(b@),
        None => None,
    }
}

/// `image::ImageBuffer::from_raw` followed by `ImageBuffer::write_to` with
/// `ImageOutputFormat::Png`, into memory: the PNG file for an image of 8-bit
/// RGBA pixels. The first returns nothing where the buffer is too short for
/// the dimensions, the second fails where the encoder refuses the image; both
/// give `None` here. Nothing is claimed about when that happens or about the
/// bytes, only that the dimensions and the pixels determine the outcome.
#[verifier::external_body]
pub(crate) fn encode_png(width: u32, height: u32, rgba: Vec<u8>) -> (png: Option<Vec<u8>>)
    ensures
        opt_bytes(png) == png_encoding(width, height, rgba@),
{
    let image = ImageBuffer::<Rgba<u8>, Vec<u8>>::from_raw(width, height, rgba)?;
    let mut out = Cursor::new(Vec::new());
    image.write_to(&mut out, ImageOutputFormat::Png).ok()?;
    Some(out.into_inner())
}

/// Which of an icon's two bitmaps is read.
#[derive(Clone, Copy, Debug, PartialEq, Eq, Structural)]
pub struct BitmapChoice {
    /// The handle of the bitmap to read.
    pub handle: isize,
    /// Whether it is the mask, read because the icon has no colour bitmap.
    pub monochrome: bool,
}

/// The bitmap to read of an icon whose colour bitmap is `color` and whose mask
/// is `mask`, where a null handle is 0: the colour bitmap where there is one,
/// else the mask, else nothing.
pub open spec fn chosen_bitmap(color: isize, mask: isize) -> Option<BitmapChoice> {
    if color != 0 {
        Some(BitmapChoice { handle: color, monochrome: false })
    } else if mask != 0 {
        Some(BitmapChoice { handle: mask, monochrome: true })
    } else {
        None
    }
}

/// Chooses the bitmap to read of an icon.
pub fn select_bitmap(color: isize, mask: isize) -> (choice: Option<BitmapChoice>)
    ensures
        choice == chosen_bitmap(color, mask),
{
    if color != 0 {
        Some(BitmapChoice { handle: color, monochrome: false })
    } else if mask != 0 {
        Some(BitmapChoice { handle: mask, monochrome: true })
    } else {
        None
    }
}

/// What the system reports of a bitmap.
#[derive(Clone, Copy, Debug, PartialEq, Eq, Structural)]
pub struct BitmapInfo {
    /// Width in pixels.
    pub width: i32,
    /// Height in pixels.
    pub height: i32,
    /// Bits per pixel.
    pub bits_per_pixel: u16,
    /// Whether the bitmap is the mask of an icon without a colour bitmap.
    pub monochrome: bool,
}

impl BitmapInfo {
    /// Whether both dimensions are at least 1 and at most `MAX_ICON_DIMENSION`.
    pub open spec fn dimensions_ok(self) -> bool {
        0 < self.width <= MAX_ICON_DIMENSION && 0 < self.height <= MAX_ICON_DIMENSION
    }

    /// The number of bytes that the bits take.
    pub open spec fn byte_count(self) -> int {
        self.width * self.height * self.bits_per_pixel / 8
    }

    /// The size of the buffer for the bits, where the bitmap is accepted: its
    /// dimensions are acceptable, it is not a mask of one bit per pixel, and its
    /// bits take at least one byte and at most `MAX_BITMAP_BYTES`.
    pub open spec fn accepted_size(self) -> Option<usize> {
        if !self.dimensions_ok() {
            None
        } else if self.monochrome && self.bits_per_pixel == 1 {
            None
        } else if self.byte_count() == 0 || self.byte_count() > MAX_BITMAP_BYTES {
            None
        } else {
            Some(self.byte_count() as usize)
        }
    }
}

/// The size of the buffer to copy the bits of the bitmap into, or `None` where
/// the bitmap is not accepted.
pub fn bitmap_buffer_size(info: &BitmapInfo) -> (size: Option<usize>)
    ensures
        size == info.accepted_size(),
{
    if info.width <= 0 || info.height <= 0 || info.width > MAX_ICON_DIMENSION || info.height
        > MAX_ICON_DIMENSION {
        return None;
    }
    if info.monochrome && info.bits_per_pixel == 1 {
        return None;
    }
    let width: u64 = info.width as u64;
    let height: u64 = info.height as u64;
    let depth: u64 = info.bits_per_pixel as u64;
    assert(width * height <= 2048 * 2048) by (nonlinear_arith)
        requires
            0 < width <= 2048,
            0 < height <= 2048,
    ;
    let pixels: u64 = width * height;
    assert(pixels * depth <= 2048 * 2048 * 65535) by (nonlinear_arith)
        requires
            pixels <= 2048 * 2048,
            depth <= 65535,
    ;
    let bytes: u64 = pixels * depth / 8;
    if bytes == 0 || bytes > MAX_BITMAP_BYTES {
        None
    } else {
        Some(bytes as usize)
    }
}

/// The bytes `bits`, read as pixels of four bytes in the order blue, green,
/// red, alpha, with red and blue exchanged in each. Bytes after the last whole
/// pixel stay as they are.
pub open spec fn bgra_to_rgba(bits: Seq<u8>) -> Seq<u8> {
    Seq::new(
        bits.len(),
        |i: int|
            if i / 4 * 4 + 4 <= bits.len() {
                if i % 4 == 0 {
                    bits[i + 2]
                } else if i % 4 == 2 {
                    bits[i - 2]
                } else {
                    bits[i]
                }
            } else {
                bits[i]
            },
    )
}

/// The bytes `bits`, read as pixels of three bytes in the order blue, green,
/// red, turned into pixels of four bytes in the order red, green, blue, alpha,
/// all opaque. Bytes after the last whole pixel are dropped.
pub open spec fn bgr_to_rgba(bits: Seq<u8>) -> Seq<u8> {
    Seq::new(
        (bits.len() / 3 * 4) as nat,
        |i: int|
            if i % 4 == 3 {
                255u8
            } else {
                bits[i / 4 * 3 + 2 - i % 4]
            },
    )
}

/// The RGBA pixels for bits of `bits_per_pixel` bits per pixel: known for 32
/// and for 24 bits per pixel only.
pub open spec fn rgba_pixels(bits_per_pixel: u16, bits: Seq<u8>) -> Option<Seq<u8>> {
    if bits_per_pixel == 32 {
        Some(bgra_to_rgba(bits))
    } else if bits_per_pixel == 24 {
        Some(bgr_to_rgba(bits))
    } else {
        None
    }
}

/// Exchanges red and blue in each whole pixel of four bytes.
pub fn swap_red_blue(bits: Vec<u8>) -> (rgba: Vec<u8>)
    ensures
        rgba@ == bgra_to_rgba(bits@),
{
    let mut rgba = bits;
    let n = rgba.len();
    let mut i: usize = 0;
    while n - i >= 4
        invariant
            i <= n,
            i % 4 == 0,
            rgba.len() == n,
            n == bits.len(),
            forall|j: int| 0 <= j < i ==> rgba@[j] == bgra_to_rgba(bits@)[j],
            forall|j: int| i <= j < n ==> rgba@[j] == bits@[j],
        decreases n - i,
    {
        let blue = rgba[i];
        let red = rgba[i + 2];
        rgba.set(i, red);
        rgba.set(i + 2, blue);
        i += 4;
    }
    assert(rgba@ =~= bgra_to_rgba(bits@));
    rgba
}

/// Turns pixels of three bytes into opaque pixels of four bytes, red first.
pub fn expand_bgr(bits: &Vec<u8>) -> (rgba: Vec<u8>)
    requires
        bits.len() / 3 * 4 <= usize::MAX,
    ensures
        rgba@ == bgr_to_rgba(bits@),
{
    let mut rgba: Vec<u8> = Vec::new();
    let n = bits.len();
    let mut i: usize = 0;
    while n - i >= 3
        invariant
            i <= n,
            i % 3 == 0,
            n == bits.len(),
            rgba.len() == i / 3 * 4,
            forall|j: int| 0 <= j < rgba.len() ==> rgba@[j] == bgr_to_rgba(bits@)[j],
        decreases n - i,
    {
        rgba.push(bits[i + 2]);
        rgba.push(bits[i + 1]);
        rgba.push(bits[i]);
        rgba.push(255);
        i += 3;
    }
    assert(rgba@ =~= bgr_to_rgba(bits@));
    rgba
}

/// The icon for a bitmap of which the system reported `info` and copied the
/// bits `bits`: nothing for a bitmap that is not accepted, for bits that do not
/// fill the buffer of the accepted size exactly, and for another depth than 24
/// or 32 bits per pixel; else the data URL of the PNG file that encodes its
/// pixels, where the encoder accepts them.
pub open spec fn bitmap_icon(info: BitmapInfo, bits: Seq<u8>) -> Option<Seq<char>> {
    match info.accepted_size() {
        None => None,
        Some(size) => if bits.len() != size {
            None
        } else {
            match rgba_pixels(info.bits_per_pixel, bits) {
                None => None,
                Some(rgba) => match png_encoding(info.width as u32, info.height as u32, rgba) {
                    None => None,
                    Some(png) => icon_url("png"@, png),
                },
            }
        },
    }
}

/// Turns the bits of an icon's bitmap into a PNG data URL.
pub fn icon_from_bitmap(info: &BitmapInfo, bits: Vec<u8>) -> (icon: Option<String>)
    ensures
        opt_text(icon) == bitmap_icon(*info, bits@),
{
    let size = match bitmap_buffer_size(info) {
        Some(size) => size,
        None => {
            return None;
        },
    };
    if bits.len() != size {
        return None;
    }
    let rgba = if info.bits_per_pixel == 32 {
        swap_red_blue(bits)
    } else if info.bits_per_pixel == 24 {
        expand_bgr(&bits)
    } else {
        return None;
    };
    match encode_png(info.width as u32, info.height as u32, rgba) {
        Some(png) => png_data_url(&png),
        None => None,
    }
}

/// For an accepted bitmap of 24 or 32 bits per pixel whose bits fill the buffer,
/// the pixels handed to the encoder are `width` times `height` in number.
pub proof fn lemma_rgba_covers_image(info: BitmapInfo, bits: Seq<u8>)
    requires
        info.accepted_size() matches Some(size) && bits.len() == size,
        info.bits_per_pixel == 24 || info.bits_per_pixel == 32,
    ensures
        rgba_pixels(info.bits_per_pixel, bits) matches Some(rgba) && rgba.len() == 4 * (info.width
            * info.height),
{
    let pixels = info.width * info.height;
    assert(0 < pixels <= 2048 * 2048) by (nonlinear_arith)
        requires
            pixels == info.width * info.height,
            0 < info.width <= 2048,
            0 < info.height <= 2048,
    ;
    assert(info.byte_count() == pixels * info.bits_per_pixel / 8);
    assert(bits.len() == info.byte_count());
}

} // verus!
