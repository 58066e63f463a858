//! Drawing single pixels into the 16-bit (5:6:5) LCD framebuffer.

use vstd::prelude::*;

verus! {

/// The little-endian-in-bits 5:6:5 value that stores the colour whose
/// red-green-blue 5:6:5 raw value is `rgb`: the red and blue fields swap
/// places, green stays in bits 5..11.
pub open spec fn bgr565_of_rgb565(rgb: u16) -> u16 {
    (((rgb & 0x1f) << 11) | (rgb & 0x7e0) | ((rgb >> 11) & 0x1f)) as u16
}

/// Converting to the framebuffer's order keeps each channel: red moves from
/// the top five bits to the bottom five, blue the other way, green stays;
/// converting twice gives the colour back.
pub proof fn lemma_bgr565_channels(rgb: u16)
    ensures
        bgr565_of_rgb565(rgb) & 0x1f == rgb >> 11u16,
        (bgr565_of_rgb565(rgb) >> 5u16) & 0x3f == (rgb >> 5u16) & 0x3f,
        bgr565_of_rgb565(rgb) >> 11u16 == rgb & 0x1f,
        bgr565_of_rgb565(bgr565_of_rgb565(rgb)) == rgb,
{
    let b = (((rgb & 0x1f) << 11) | (rgb & 0x7e0) | ((rgb >> 11) & 0x1f)) as u16;
    assert(b == bgr565_of_rgb565(rgb));
    assert(b == (((rgb & 0x1f) << 11u16) | (rgb & 0x7e0) | ((rgb >> 11u16) & 0x1f)) ==> (b & 0x1f == rgb >> 11u16
        && (b >> 5u16) & 0x3f == (rgb >> 5u16) & 0x3f && b >> 11u16 == rgb & 0x1f && (((b & 0x1f) << 11u16) | (b
        & 0x7e0) | ((b >> 11u16) & 0x1f)) == rgb)) by (bit_vector);
}

/// Converts a colour from `Rgb565` to `Bgr565` (`embedded_graphics`
/// `From<Rgb565> for Bgr565`), with both colours carried as their raw 16-bit
/// values. Claimed from the crate's source: every channel keeps its value,
/// since converting a channel between equal bit depths gives it back, and
/// only the positions of red and blue swap.
#[verifier::external_body]
fn bgr565_from_rgb565(rgb: u16) -> (bgr: u16)
    ensures
        bgr == bgr565_of_rgb565(rgb),
{
    let color = embedded_graphics::pixelcolor::Rgb565::from(
        embedded_graphics::pixelcolor::raw::RawU16::new(rgb),
    );
    let converted = embedded_graphics::pixelcolor::Bgr565::from(color);
    embedded_graphics::pixelcolor::raw::RawData::into_inner(
        embedded_graphics::pixelcolor::raw::RawU16::from(converted),
    )
}

/// Converts the point (`x`, `y`) to a pair of unsigned coordinates
/// (`embedded_graphics` `TryFrom<Point> for (u32, u32)`). Claimed from the
/// crate's source: it succeeds exactly when neither coordinate is negative,
/// and then keeps both values.
#[verifier::external_body]
fn point_to_unsigned(x: i32, y: i32) -> (r: Option<(u32, u32)>)
    ensures
        r == (if x >= 0 && y >= 0 {
            Some((x as u32, y as u32))
        } else {
            None::<(u32, u32)>
        }),
{
    match <(u32, u32) as core::convert::TryFrom<embedded_graphics::geometry::Point>>::try_from(
        embedded_graphics::geometry::Point::new(x, y),
    ) {
        Ok(p) => Some(p),
        Err(_) => None,
    }
}

/// Width of the visible screen in pixels.
pub const FRAMEBUFFER_WIDTH: u32 = 480;

/// Height of the visible screen in pixels.
pub const FRAMEBUFFER_HEIGHT: u32 = 272;

/// Pixels per framebuffer row in memory.
pub const FRAMEBUFFER_STRIDE: u32 = 512;

/// A 16-bit store into the framebuffer: `value` goes `offset` pixels (not
/// bytes) past the framebuffer's base address.
#[derive(Debug, Clone, Copy, PartialEq, Eq, Structural)]
pub struct PixelWrite {
    pub offset: u32,
    pub value: u16,
}

/// The LCD framebuffer, 5:6:5 pixels at an uncached VRAM address.
pub struct Framebuffer {
    vram_base: u32,
}

impl Framebuffer {
    /// Address of the first pixel.
    pub closed spec fn base(&self) -> u32 {
        self.vram_base
    }

    /// The framebuffer at the start of VRAM, which the graphics engine
    /// reports at `edram_addr`, read through the uncached mirror.
    pub fn new(edram_addr: u32) -> (fb: Framebuffer)
        ensures
            fb.base() == 0x4000_0000u32 | edram_addr,
    {
        Framebuffer { vram_base: 0x4000_0000u32 | edram_addr }
    }

    /// Address of the first pixel.
    pub fn vram_base(&self) -> (a: u32)
        ensures
            a == self.base(),
    {
        self.vram_base
    }

    /// The store that draws the colour with red-green-blue 5:6:5 raw value
    /// `color` at point (`x`, `y`), or `None` when the point lies outside
    /// `0..=480` x `0..=272` (both bounds included) and nothing is drawn.
    pub fn draw_pixel(&self, x: i32, y: i32, color: u16) -> (w: Option<PixelWrite>)
        ensures
            w == (if 0 <= x <= 480 && 0 <= y <= 272 {
                Some(
                    (PixelWrite {
                        offset: (x + y * FRAMEBUFFER_STRIDE) as u32,
                        value: bgr565_of_rgb565(color),
                    }),
                )
            } else {
                None::<PixelWrite>
            }),
    {
        match point_to_unsigned(x, y) {
            Some((ux, uy)) => {
                if ux <= 480 && uy <= 272 {
                    Some(PixelWrite { offset: ux + uy * 512, value: bgr565_from_rgb565(color) })
                } else {
                    None
                }
            },
            None => None,
        }
    }

    /// Size of the drawable area: 480 x 272 pixels.
    pub fn size(&self) -> (s: (u32, u32))
        ensures
            s == (FRAMEBUFFER_WIDTH, FRAMEBUFFER_HEIGHT),
    {
        (480, 272)
    }
}

} // verus!
