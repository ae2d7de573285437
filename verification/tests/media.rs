use klip_core::media::{
    bgra_to_rgba, estimated_size_bytes, mp4_duration_ms, repack_rows, screenshot_png,
    thumbnail_rgb, total_duration_ms,
};

fn minimal_mp4(timescale: u32) -> Vec<u8> {
    let config = mp4::Mp4Config {
        major_brand: str::parse("isom").unwrap(),
        minor_version: 512,
        compatible_brands: vec![str::parse("isom").unwrap(), str::parse("iso2").unwrap()],
        timescale,
    };
    let cursor = std::io::Cursor::new(Vec::new());
    let mut writer = mp4::Mp4Writer::write_start(cursor, &config).unwrap();
    writer.write_end().unwrap();
    writer.into_writer().into_inner()
}

#[test]
fn test_mp4_duration_ms() {
    // Timescale units convert to milliseconds.
    assert_eq!(mp4_duration_ms(0, 1000), Some(0));
    assert_eq!(mp4_duration_ms(2500, 1000), Some(2500));
    assert_eq!(mp4_duration_ms(90_000, 90_000), Some(1000));
    assert_eq!(mp4_duration_ms(3, 2), Some(1500));
    // A zero timescale and an overflowing conversion are refused, where the
    // raw division would panic or wrap.
    assert_eq!(mp4_duration_ms(1000, 0), None);
    assert_eq!(mp4_duration_ms(u64::MAX, 1), None);
}

#[test]
fn test_mp4_duration_end_to_end() {
    // The shell's flow: parse the header with the mp4 crate, convert the
    // plain fields with the library.  A freshly written file declares zero
    // duration.
    let bytes = minimal_mp4(1000);
    let reader =
        mp4::Mp4Reader::read_header(std::io::Cursor::new(&bytes), bytes.len() as u64).unwrap();
    assert_eq!(
        mp4_duration_ms(reader.moov.mvhd.duration, reader.moov.mvhd.timescale),
        Some(0)
    );
    // Garbage does not parse; the library is never reached.
    assert!(mp4::Mp4Reader::read_header(std::io::Cursor::new(&b"garbage"[..]), 7).is_err());
}

#[test]
fn test_total_duration_ms() {
    assert_eq!(total_duration_ms(&vec![]), Some(0));
    assert_eq!(total_duration_ms(&vec![1000, 2500, 500]), Some(4000));
    assert_eq!(total_duration_ms(&vec![u64::MAX, 1]), None);
    assert_eq!(total_duration_ms(&vec![u64::MAX]), Some(u64::MAX));
}

#[test]
fn test_estimated_size_bytes() {
    // 1080p at 30 fps: 8 Mbit/s video + 192 kbit/s audio over 10 s.
    assert_eq!(estimated_size_bytes(1920, 1080, 30, 10_000), 8_192_000u128 * 10_000 / 8_000);
    // 720p halves the base bitrate class.
    assert_eq!(estimated_size_bytes(1280, 720, 30, 10_000), 4_192_000u128 * 10_000 / 8_000);
    // 60 fps doubles the video bitrate.
    assert_eq!(estimated_size_bytes(1920, 1080, 60, 10_000), 16_192_000u128 * 10_000 / 8_000);
    // 1440p and larger classes.
    assert_eq!(estimated_size_bytes(2560, 1440, 30, 8_000), 14_192_000);
    assert_eq!(estimated_size_bytes(3840, 2160, 30, 8_000), 20_192_000);
    assert_eq!(estimated_size_bytes(1920, 1080, 30, 0), 0);
}

#[test]
fn test_bgra_to_rgba_swizzles_channels() {
    assert_eq!(bgra_to_rgba(&vec![1, 2, 3, 4, 5, 6, 7, 8]), vec![3, 2, 1, 4, 7, 6, 5, 8]);
    // Trailing bytes of an incomplete pixel read as zero.
    assert_eq!(bgra_to_rgba(&vec![1, 2, 3, 4, 9, 9]), vec![3, 2, 1, 4, 0, 0]);
    assert_eq!(bgra_to_rgba(&Vec::new()), Vec::<u8>::new());
}

#[test]
fn test_repack_rows() {
    // Two rows of three payload bytes with one stride byte each.
    let data = vec![1, 2, 3, 9, 4, 5, 6, 9];
    assert_eq!(repack_rows(&data, 4, 3, 2), vec![1, 2, 3, 4, 5, 6]);
    // A tight stride copies the buffer as it is.
    assert_eq!(repack_rows(&data, 4, 4, 2), data);
    assert_eq!(repack_rows(&data, 4, 0, 2), Vec::<u8>::new());
}

#[test]
fn test_screenshot_png_encodes() {
    // One red BGRA pixel.
    let png = screenshot_png(1, 1, &vec![0, 0, 255, 255]).unwrap();
    assert_eq!(&png[..8], &[137, 80, 78, 71, 13, 10, 26, 10]);
    // The stream decodes back to the swizzled RGBA pixel.
    let decoder = png::Decoder::new(std::io::Cursor::new(png));
    let mut reader = decoder.read_info().unwrap();
    let mut buf = vec![0u8; reader.output_buffer_size().unwrap()];
    let info = reader.next_frame(&mut buf).unwrap();
    assert_eq!((info.width, info.height), (1, 1));
    assert_eq!(&buf[..4], &[255, 0, 0, 255]);
}

#[test]
fn test_screenshot_png_rejects_bad_input() {
    assert!(screenshot_png(0, 1, &Vec::new()).is_err());
    assert!(screenshot_png(1, 0, &Vec::new()).is_err());
    assert!(screenshot_png(2, 2, &vec![0u8; 15]).is_err());
}

#[test]
fn test_thumbnail_rgb_resizes() {
    // A 2x2 RGB image shrunk to 1x1 yields exactly one pixel.
    let data = vec![255, 0, 0, 255, 0, 0, 255, 0, 0, 255, 0, 0];
    let thumb = thumbnail_rgb(2, 2, &data, 1, 1).unwrap();
    assert_eq!(thumb.len(), 3);
    // A uniform image stays uniform under resampling.
    assert_eq!(thumb, vec![255, 0, 0]);
    // Growing works too.
    let grown = thumbnail_rgb(2, 2, &data, 4, 4).unwrap();
    assert_eq!(grown.len(), 48);
}

#[test]
fn test_thumbnail_rgb_rejects_bad_input() {
    assert!(thumbnail_rgb(0, 2, &Vec::new(), 1, 1).is_err());
    assert!(thumbnail_rgb(2, 2, &vec![0u8; 11], 1, 1).is_err());
    // Target dimensions whose buffer could not exist in address space are
    // refused before any resampling work.
    assert!(thumbnail_rgb(2, 2, &vec![0u8; 12], u32::MAX, u32::MAX).is_err());
}
