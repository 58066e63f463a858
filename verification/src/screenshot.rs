//! Screenshots: reading the 32-bit framebuffer into a pixel array, and
//! encoding that array as a bitmap file.

use vstd::prelude::*;
use crate::sys::display::DisplayPixelFormat;

verus! {

pub const SCREEN_WIDTH: usize = 480;

pub const SCREEN_HEIGHT: usize = 272;

/// Bytes per pixel of a screenshot (RGBA).
pub const BYTES_PER_PIXEL: usize = 4;

pub const NUM_PIXELS: usize = 130560;

/// Little-endian bytes of a 16-bit value.
pub open spec fn le_bytes_u16(x: u16) -> Seq<u8> {
    seq![(x & 0xff) as u8, ((x >> 8) & 0xff) as u8]
}

/// Little-endian bytes of a 32-bit value.
pub open spec fn le_bytes_u32(x: u32) -> Seq<u8> {
    seq![(x & 0xff) as u8, ((x >> 8) & 0xff) as u8, ((x >> 16) & 0xff) as u8, ((x >> 24) & 0xff) as u8]
}

fn push_u16_le(v: &mut Vec<u8>, x: u16)
    ensures
        final(v)@ == old(v)@ + le_bytes_u16(x),
{
    v.push((x & 0xff) as u8);
    v.push(((x >> 8) & 0xff) as u8);
    assert(final(v)@ =~= old(v)@ + le_bytes_u16(x));
}

fn push_u32_le(v: &mut Vec<u8>, x: u32)
    ensures
        final(v)@ == old(v)@ + le_bytes_u32(x),
{
    v.push((x & 0xff) as u8);
    v.push(((x >> 8) & 0xff) as u8);
    v.push(((x >> 16) & 0xff) as u8);
    v.push(((x >> 24) & 0xff) as u8);
    assert(final(v)@ =~= old(v)@ + le_bytes_u32(x));
}

/// The 54-byte header of a bitmap file.
pub struct BmpHeader {
    pub file_type: [u8; 2],
    pub file_size: u32,
    pub reserved_1: u16,
    pub reserved_2: u16,
    pub image_data_start: u32,
    pub dib_header_size: u32,
    pub image_width: u32,
    pub image_height: u32,
    pub color_planes: u16,
    pub bpp: u16,
    pub compression: u32,
    pub image_data_len: u32,
    pub print_resolution_x: u32,
    pub print_resolution_y: u32,
    pub palette_color_count: u32,
    pub important_colors: u32,
}

impl BmpHeader {
    /// Size of the header in bytes.
    pub const BYTES: usize = 54;

    /// The header's bytes: each field in declaration order, without padding,
    /// multi-byte fields little-endian.
    pub open spec fn spec_to_bytes(self) -> Seq<u8> {
        seq![self.file_type[0], self.file_type[1]] + le_bytes_u32(self.file_size) + le_bytes_u16(
            self.reserved_1,
        ) + le_bytes_u16(self.reserved_2) + le_bytes_u32(self.image_data_start) + le_bytes_u32(
            self.dib_header_size,
        ) + le_bytes_u32(self.image_width) + le_bytes_u32(self.image_height) + le_bytes_u16(
            self.color_planes,
        ) + le_bytes_u16(self.bpp) + le_bytes_u32(self.compression) + le_bytes_u32(
            self.image_data_len,
        ) + le_bytes_u32(self.print_resolution_x) + le_bytes_u32(self.print_resolution_y)
            + le_bytes_u32(self.palette_color_count) + le_bytes_u32(self.important_colors)
    }

    /// The header's bytes as they lie in memory on the (little-endian) PSP.
    pub fn to_bytes(self) -> (bytes: Vec<u8>)
        ensures
            bytes@ == self.spec_to_bytes(),
            bytes@.len() == Self::BYTES,
    {
        let mut v: Vec<u8> = Vec::new();
        v.push(self.file_type[0]);
        v.push(self.file_type[1]);
        push_u32_le(&mut v, self.file_size);
        push_u16_le(&mut v, self.reserved_1);
        push_u16_le(&mut v, self.reserved_2);
        push_u32_le(&mut v, self.image_data_start);
        push_u32_le(&mut v, self.dib_header_size);
        push_u32_le(&mut v, self.image_width);
        push_u32_le(&mut v, self.image_height);
        push_u16_le(&mut v, self.color_planes);
        push_u16_le(&mut v, self.bpp);
        push_u32_le(&mut v, self.compression);
        push_u32_le(&mut v, self.image_data_len);
        push_u32_le(&mut v, self.print_resolution_x);
        push_u32_le(&mut v, self.print_resolution_y);
        push_u32_le(&mut v, self.palette_color_count);
        push_u32_le(&mut v, self.important_colors);
        assert(v@ =~= self.spec_to_bytes());
        v
    }
}

/// The little-endian bytes of a 16-bit value read back as the value.
pub proof fn lemma_le_bytes_u16(x: u16)
    ensures
        le_bytes_u16(x).len() == 2,
        (le_bytes_u16(x)[0] as u16) | ((le_bytes_u16(x)[1] as u16) << 8u16) == x,
{
    assert((x & 0xff) < 256 && ((x >> 8u16) & 0xff) < 256 && (x & 0xff) | (((x >> 8u16) & 0xff) << 8u16)
        == x) by (bit_vector);
}

/// The little-endian bytes of a 32-bit value read back as the value.
pub proof fn lemma_le_bytes_u32(x: u32)
    ensures
        le_bytes_u32(x).len() == 4,
        le_u32_at(le_bytes_u32(x), 0) == x,
{
    assert((x & 0xff) < 256 && ((x >> 8u32) & 0xff) < 256 && ((x >> 16u32) & 0xff) < 256 && ((x >> 24u32)
        & 0xff) < 256 && (x & 0xff) | (((x >> 8u32) & 0xff) << 8u32) | (((x >> 16u32) & 0xff) << 16u32) | (((x
        >> 24u32) & 0xff) << 24u32) == x) by (bit_vector);
}

/// The 32-bit value stored little-endian at byte `i` of `b`.
pub open spec fn le_u32_at(b: Seq<u8>, i: int) -> u32 {
    (b[i] as u32) | ((b[i + 1] as u32) << 8u32) | ((b[i + 2] as u32) << 16u32) | ((b[i + 3] as u32) << 24u32)
}

/// The 16-bit value stored little-endian at byte `i` of `b`.
pub open spec fn le_u16_at(b: Seq<u8>, i: int) -> u16 {
    (b[i] as u16) | ((b[i + 1] as u16) << 8u16)
}

/// A header's bytes hold its fields where a bitmap reader looks for them:
/// the "BM" tag first, the file size at byte 2, the data offset at 10, the
/// DIB header size at 14, the width and height at 18 and 22, the bits per
/// pixel at 28 and the data length at 34, in 54 bytes.
pub proof fn lemma_header_field_offsets(h: BmpHeader)
    ensures
        ({
            let b = h.spec_to_bytes();
            &&& b.len() == 54
            &&& b[0] == h.file_type[0] && b[1] == h.file_type[1]
            &&& le_u32_at(b, 2) == h.file_size
            &&& le_u32_at(b, 10) == h.image_data_start
            &&& le_u32_at(b, 14) == h.dib_header_size
            &&& le_u32_at(b, 18) == h.image_width
            &&& le_u32_at(b, 22) == h.image_height
            &&& le_u16_at(b, 26) == h.color_planes
            &&& le_u16_at(b, 28) == h.bpp
            &&& le_u32_at(b, 34) == h.image_data_len
        }),
{
    let b = h.spec_to_bytes();
    lemma_le_bytes_u32(h.file_size);
    lemma_le_bytes_u32(h.image_data_start);
    lemma_le_bytes_u32(h.dib_header_size);
    lemma_le_bytes_u32(h.image_width);
    lemma_le_bytes_u32(h.image_height);
    lemma_le_bytes_u32(h.image_data_len);
    lemma_le_bytes_u16(h.color_planes);
    lemma_le_bytes_u16(h.bpp);
    assert(b.subrange(2, 6) =~= le_bytes_u32(h.file_size));
    assert(b.subrange(10, 14) =~= le_bytes_u32(h.image_data_start));
    assert(b.subrange(14, 18) =~= le_bytes_u32(h.dib_header_size));
    assert(b.subrange(18, 22) =~= le_bytes_u32(h.image_width));
    assert(b.subrange(22, 26) =~= le_bytes_u32(h.image_height));
    assert(b.subrange(26, 28) =~= le_bytes_u16(h.color_planes));
    assert(b.subrange(28, 30) =~= le_bytes_u16(h.bpp));
    assert(b.subrange(34, 38) =~= le_bytes_u32(h.image_data_len));
}

/// The screenshot header describes a well-formed bitmap of the screen: a
/// "BM" file of one plane, 32 bits per pixel, uncompressed, the screen's
/// width and height, its pixel data right after the 14-byte file header and
/// the DIB header, four bytes per pixel, to the end of the file, at 72 dots
/// per inch (pixels per metre, rounded).
pub proof fn lemma_screenshot_header_consistent()
    ensures
        ({
            let h = spec_screenshot_bmp_header();
            &&& h.file_type[0] == 0x42 && h.file_type[1] == 0x4d
            &&& h.image_width == SCREEN_WIDTH && h.image_height == SCREEN_HEIGHT
            &&& h.color_planes == 1 && h.bpp == 8 * BYTES_PER_PIXEL && h.compression == 0
            &&& h.image_data_start == 14 + h.dib_header_size && h.dib_header_size == 40
            &&& h.image_data_start == BmpHeader::BYTES
            &&& h.image_data_len == h.image_width * h.image_height * (h.bpp / 8)
            &&& h.file_size == h.image_data_start + h.image_data_len
            &&& h.print_resolution_x == h.print_resolution_y
            &&& h.print_resolution_x == (72 * 10000 + 127) / 254
        }),
{
}

/// The address through which the framebuffer at `top_addr` is read without
/// the cache: the kernel cache-through bits for a kernel address (top bit
/// set), the user cache-through bit otherwise.
pub fn cache_through_address(top_addr: u32) -> (addr: u32)
    ensures
        addr == (if top_addr & 0x80000000 != 0 {
            top_addr | 0xA0000000
        } else {
            top_addr | 0x40000000
        }),
{
    if top_addr & 0x80000000 != 0 {
        top_addr | 0xA0000000
    } else {
        top_addr | 0x40000000
    }
}

/// The framebuffer word for screen point (`x`, `y`) when a framebuffer row
/// holds `buffer_width` pixels.
pub open spec fn frame_pixel(frame: Seq<u32>, buffer_width: int, x: int, y: int) -> u32 {
    frame[x + y * buffer_width]
}

/// Take a screenshot of a framebuffer whose rows hold `buffer_width` pixels of
/// `pixel_format`, given its words `frame`, returning a raw RGBA array.
///
/// Only the 32-bit format 8888 is read. The result holds the screen row by
/// row: the raw word of screen point (`x`, `y`) at index `x + y * SCREEN_WIDTH`.
pub fn screenshot_from_frame(frame: &Vec<u32>, buffer_width: usize, pixel_format: DisplayPixelFormat) -> (buffer: Vec<u32>)
    requires
        pixel_format == DisplayPixelFormat::_8888,
        (SCREEN_WIDTH - 1) + (SCREEN_HEIGHT - 1) * buffer_width < frame@.len(),
    ensures
        buffer@.len() == NUM_PIXELS,
        forall|x: int, y: int|
            0 <= x < SCREEN_WIDTH && 0 <= y < SCREEN_HEIGHT ==> #[trigger] buffer@[x + y
                * SCREEN_WIDTH] == frame_pixel(frame@, buffer_width as int, x, y),
{
    let mut buffer: Vec<u32> = Vec::new();
    let mut y: usize = 0;
    while y < SCREEN_HEIGHT
        invariant
            y <= SCREEN_HEIGHT,
            (SCREEN_WIDTH - 1) + (SCREEN_HEIGHT - 1) * buffer_width < frame@.len(),
            buffer@.len() == y * SCREEN_WIDTH,
            forall|i: int, j: int|
                0 <= i < SCREEN_WIDTH && 0 <= j < y ==> #[trigger] buffer@[i + j * SCREEN_WIDTH]
                    == frame_pixel(frame@, buffer_width as int, i, j),
        decreases SCREEN_HEIGHT - y,
    {
        let mut x: usize = 0;
        while x < SCREEN_WIDTH
            invariant
                y < SCREEN_HEIGHT,
                x <= SCREEN_WIDTH,
                (SCREEN_WIDTH - 1) + (SCREEN_HEIGHT - 1) * buffer_width < frame@.len(),
                buffer@.len() == y * SCREEN_WIDTH + x,
                forall|i: int, j: int|
                    0 <= i < SCREEN_WIDTH && 0 <= j < y ==> #[trigger] buffer@[i + j * SCREEN_WIDTH]
                        == frame_pixel(frame@, buffer_width as int, i, j),
                forall|i: int|
                    0 <= i < x ==> #[trigger] buffer@[i + y * SCREEN_WIDTH] == frame_pixel(
                        frame@,
                        buffer_width as int,
                        i,
                        y as int,
                    ),
            decreases SCREEN_WIDTH - x,
        {
            assert(y * buffer_width <= (SCREEN_HEIGHT - 1) * buffer_width) by (nonlinear_arith)
                requires
                    y < SCREEN_HEIGHT,
            ;
            assert(frame@.len() == frame.len());
            let rgba = frame[x + y * buffer_width];
            buffer.push(rgba);
            x += 1;
        }
        y += 1;
    }
    buffer
}

/// The header of the bitmap file that `screenshot_bmp_from_pixels` writes: a
/// 480 x 272 image (the screen) of 32 bits per pixel at 72 DPI, its data right after the
/// 54 header bytes.
pub open spec fn spec_screenshot_bmp_header() -> BmpHeader {
    BmpHeader {
        file_type: [66u8, 77u8],
        file_size: (54 + 480 * 272 * 4) as u32,
        reserved_1: 0,
        reserved_2: 0,
        image_data_start: 54,
        dib_header_size: 40,
        image_width: 480,
        image_height: 272,
        color_planes: 1,
        bpp: 32,
        compression: 0,
        image_data_len: (480 * 272 * 4) as u32,
        print_resolution_x: 2835,
        print_resolution_y: 2835,
        palette_color_count: 0,
        important_colors: 0,
    }
}

/// The header of a screenshot bitmap file.
pub fn screenshot_bmp_header() -> (h: BmpHeader)
    ensures
        h == spec_screenshot_bmp_header(),
{
    BmpHeader {
        file_type: [66u8, 77u8],
        file_size: 54 + 480 * 272 * 4,
        reserved_1: 0,
        reserved_2: 0,
        image_data_start: 54,
        dib_header_size: 40,
        image_width: 480,
        image_height: 272,
        color_planes: 1,
        bpp: 32,
        compression: 0,
        image_data_len: 480 * 272 * 4,
        print_resolution_x: 2835,  // 72 DPI
        print_resolution_y: 2835,  // 72 DPI
        palette_color_count: 0,
        important_colors: 0,
    }
}

/// The little-endian bytes of each pixel of `pixels`, in order.
pub open spec fn pixels_le_bytes(pixels: Seq<u32>) -> Seq<u8>
    decreases pixels.len(),
{
    if pixels.len() == 0 {
        Seq::empty()
    } else {
        pixels_le_bytes(pixels.drop_last()) + le_bytes_u32(pixels.last())
    }
}

proof fn lemma_pixels_le_bytes_len(pixels: Seq<u32>)
    ensures
        pixels_le_bytes(pixels).len() == 4 * pixels.len(),
    decreases pixels.len(),
{
    if pixels.len() > 0 {
        lemma_pixels_le_bytes_len(pixels.drop_last());
    }
}

/// A valid bitmap file holding the screenshot `payload`: the bytes of the
/// screenshot header, then the little-endian bytes of every pixel.
pub fn screenshot_bmp_from_pixels(payload: &Vec<u32>) -> (file: Vec<u8>)
    requires
        payload@.len() == NUM_PIXELS,
    ensures
        file@ == spec_screenshot_bmp_header().spec_to_bytes() + pixels_le_bytes(payload@),
        file@.len() == BmpHeader::BYTES + NUM_PIXELS * BYTES_PER_PIXEL,
        file@.subrange(0, 2) == seq![66u8, 77u8],
        spec_screenshot_bmp_header().file_size == file@.len(),
        spec_screenshot_bmp_header().image_data_start == BmpHeader::BYTES,
        spec_screenshot_bmp_header().image_data_len == file@.len() - BmpHeader::BYTES,
        spec_screenshot_bmp_header().image_width * spec_screenshot_bmp_header().image_height
            * spec_screenshot_bmp_header().bpp / 8 == spec_screenshot_bmp_header().image_data_len,
        spec_screenshot_bmp_header().image_width == SCREEN_WIDTH,
        spec_screenshot_bmp_header().image_height == SCREEN_HEIGHT,
{
    let header = screenshot_bmp_header();
    let mut file = header.to_bytes();
    let ghost head = file@;
    let mut i: usize = 0;
    while i < payload.len()
        invariant
            i <= payload@.len(),
            file@ == head + pixels_le_bytes(payload@.take(i as int)),
        decreases payload@.len() - i,
    {
        push_u32_le(&mut file, payload[i]);
        assert(payload@.take(i + 1).drop_last() =~= payload@.take(i as int));
        i += 1;
    }
    assert(payload@.take(payload@.len() as int) =~= payload@);
    proof {
        lemma_pixels_le_bytes_len(payload@);
        assert(file@.subrange(0, 2) =~= seq![66u8, 77u8]);
    }
    file
}

} // verus!
