use psp::screenshot::{
    cache_through_address, screenshot_bmp_from_pixels, screenshot_bmp_header,
    screenshot_from_frame, BmpHeader, NUM_PIXELS, SCREEN_HEIGHT, SCREEN_WIDTH,
};
use psp::sys::display::DisplayPixelFormat;

#[test]
fn cache_through_bits() {
    assert_eq!(cache_through_address(0x0410_0000), 0x4410_0000);
    assert_eq!(cache_through_address(0x8800_0000), 0xA800_0000);
    assert_eq!(cache_through_address(0), 0x4000_0000);
}

#[test]
fn bmp_header_bytes() {
    let bytes = screenshot_bmp_header().to_bytes();
    assert_eq!(bytes.len(), BmpHeader::BYTES);
    assert_eq!(&bytes[0..2], b"BM");
    assert_eq!(&bytes[2..6], &(54u32 + 480 * 272 * 4).to_le_bytes());
    assert_eq!(&bytes[6..10], &[0, 0, 0, 0]);
    assert_eq!(&bytes[10..14], &54u32.to_le_bytes());
    assert_eq!(&bytes[14..18], &40u32.to_le_bytes());
    assert_eq!(&bytes[18..22], &480u32.to_le_bytes());
    assert_eq!(&bytes[22..26], &272u32.to_le_bytes());
    assert_eq!(&bytes[26..28], &1u16.to_le_bytes());
    assert_eq!(&bytes[28..30], &32u16.to_le_bytes());
    assert_eq!(&bytes[30..34], &0u32.to_le_bytes());
    assert_eq!(&bytes[34..38], &(480u32 * 272 * 4).to_le_bytes());
    assert_eq!(&bytes[38..42], &2835u32.to_le_bytes());
    assert_eq!(&bytes[42..46], &2835u32.to_le_bytes());
    assert_eq!(&bytes[46..54], &[0u8; 8]);
}

#[test]
fn screenshot_is_row_major_raw_words() {
    let bw = 512usize;
    let frame: Vec<u32> = (0..(480 + 271 * bw) as u32).map(|i| i.wrapping_mul(0x0101_0103)).collect();
    let shot = screenshot_from_frame(&frame, bw, DisplayPixelFormat::_8888);
    assert_eq!(shot.len(), NUM_PIXELS);
    for y in 0..SCREEN_HEIGHT {
        for x in 0..SCREEN_WIDTH {
            assert_eq!(shot[x + y * SCREEN_WIDTH], frame[x + y * bw]);
        }
    }
}

#[test]
fn screenshot_keeps_all_channels() {
    let bw = 480usize;
    let mut frame = vec![0u32; 480 + 271 * bw];
    frame[1] = 0x1122_3344;
    let shot = screenshot_from_frame(&frame, bw, DisplayPixelFormat::_8888);
    assert_eq!(shot[1], 0x1122_3344);
}

#[test]
fn bmp_file_is_header_then_le_pixels() {
    let mut payload = vec![0u32; NUM_PIXELS];
    payload[0] = 0x0403_0201;
    payload[NUM_PIXELS - 1] = 0xddcc_bbaa;
    let file = screenshot_bmp_from_pixels(&payload);
    assert_eq!(file.len(), 54 + NUM_PIXELS * 4);
    assert_eq!(u32::from_le_bytes([file[2], file[3], file[4], file[5]]) as usize, file.len());
    assert_eq!(u32::from_le_bytes([file[34], file[35], file[36], file[37]]) as usize, file.len() - 54);
    assert_eq!(file[..54].to_vec(), screenshot_bmp_header().to_bytes());
    assert_eq!(&file[54..58], &[1, 2, 3, 4]);
    assert_eq!(&file[file.len() - 4..], &[0xaa, 0xbb, 0xcc, 0xdd]);
}
