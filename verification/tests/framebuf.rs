use psp::framebuf_gfx::{Framebuffer, PixelWrite};

#[test]
fn framebuffer_uses_uncached_vram() {
    let fb = Framebuffer::new(0x0400_0000);
    assert_eq!(fb.vram_base(), 0x4400_0000);
    assert_eq!(fb.size(), (480, 272));
}

#[test]
fn draw_pixel_swaps_red_and_blue() {
    let fb = Framebuffer::new(0x0400_0000);
    // Pure red in 5:6:5 is 0xF800; stored with red in the low bits.
    assert_eq!(fb.draw_pixel(0, 0, 0xF800), Some(PixelWrite { offset: 0, value: 0x001F }));
    assert_eq!(fb.draw_pixel(1, 0, 0x001F), Some(PixelWrite { offset: 1, value: 0xF800 }));
    assert_eq!(fb.draw_pixel(2, 1, 0x07E0), Some(PixelWrite { offset: 514, value: 0x07E0 }));
    assert_eq!(fb.draw_pixel(3, 2, 0x1234), Some(PixelWrite { offset: 1027, value: 0xA222 }));
}

#[test]
fn draw_pixel_bounds() {
    let fb = Framebuffer::new(0);
    assert_eq!(fb.draw_pixel(480, 272, 0).map(|w| w.offset), Some(480 + 272 * 512));
    assert_eq!(fb.draw_pixel(481, 0, 0), None);
    assert_eq!(fb.draw_pixel(0, 273, 0), None);
    assert_eq!(fb.draw_pixel(-1, 0, 0), None);
    assert_eq!(fb.draw_pixel(0, -5, 0), None);
}
