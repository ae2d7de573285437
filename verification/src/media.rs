//! Media helpers around the compositor: MP4 duration conversion, screenshot
//! pixel conversion and PNG encoding, thumbnail resizing, and the export
//! size estimate.
//!
//! The PNG-encoding and image-resampling calls stand behind trusted
//! wrappers; everything that decides or computes on plain values is
//! verified.  MP4 box parsing stays with the shell: the mp4 crate's parser
//! can panic on crafted buffers (box readers subtract field sizes from the
//! declared box size in `u64` and size collections from unchecked entry
//! counts), and no practical precondition names the panic-free inputs, so
//! no trusted contract can honestly promise an error for every malformed
//! buffer.  The shell parses and hands this module the movie header's
//! plain fields.

use vstd::prelude::*;

verus! {

/// The duration in milliseconds that a movie header declares: the movie
/// duration converted from timescale units.  `None` when the timescale is
/// zero or the conversion would overflow (the parser could panic on the
/// former and the original could on both).
pub open spec fn mp4_duration_ms_spec(duration: u64, timescale: u32) -> Option<u64> {
    if timescale != 0 && duration as int * 1000 / (timescale as int) <= u64::MAX {
        Some((duration as int * 1000 / timescale as int) as u64)
    } else {
        None
    }
}

/// Convert a movie header's declared duration and timescale, as the shell's
/// MP4 parse hands them over, into milliseconds.
pub fn mp4_duration_ms(duration: u64, timescale: u32) -> (r: Option<u64>)
    ensures
        r == mp4_duration_ms_spec(duration, timescale),
{
    if timescale == 0 {
        return None;
    }
    let wide: u128 = (duration as u128 * 1000) / (timescale as u128);
    if wide > u64::MAX as u128 {
        None
    } else {
        Some(wide as u64)
    }
}

/// Sum of a sequence of durations, as an unbounded integer.
pub open spec fn duration_sum(ds: Seq<u64>) -> int
    decreases ds.len(),
{
    if ds.len() == 0 {
        0
    } else {
        duration_sum(ds.drop_last()) + ds.last()
    }
}

/// Total duration of a recording's display segments; `None` exactly when
/// the sum does not fit a u64.
pub fn total_duration_ms(durations: &Vec<u64>) -> (r: Option<u64>)
    ensures
        duration_sum(durations@) <= u64::MAX ==> r == Some(duration_sum(durations@) as u64),
        duration_sum(durations@) > u64::MAX ==> r is None,
{
    let mut total: u64 = 0;
    let mut i: usize = 0;
    while i < durations.len()
        invariant
            0 <= i <= durations.len(),
            total == duration_sum(durations@.take(i as int)),
        decreases durations.len() - i,
    {
        proof {
            assert(durations@.take(i as int + 1).drop_last() =~= durations@.take(i as int));
            lemma_duration_sum_monotone(durations@, i as int + 1);
        }
        let d = durations[i];
        if d > u64::MAX - total {
            return None;
        }
        total = total + d;
        i = i + 1;
    }
    proof {
        assert(durations@.take(durations@.len() as int) =~= durations@);
    }
    Some(total)
}

/// A prefix sum of durations never exceeds the full sum.
proof fn lemma_duration_sum_monotone(ds: Seq<u64>, k: int)
    requires
        0 <= k <= ds.len(),
    ensures
        duration_sum(ds.take(k)) <= duration_sum(ds),
    decreases ds.len() - k,
{
    if k < ds.len() {
        lemma_duration_sum_monotone(ds, k + 1);
        assert(ds.take(k + 1).drop_last() =~= ds.take(k));
    } else {
        assert(ds.take(k) =~= ds);
    }
}

/// Base video bitrate in bits per second, stepped by output resolution.
pub open spec fn base_bitrate_spec(width: u32, height: u32) -> int {
    if width <= 1280 && height <= 720 {
        4_000_000
    } else if width <= 1920 && height <= 1080 {
        8_000_000
    } else if width <= 2560 && height <= 1440 {
        14_000_000
    } else {
        20_000_000
    }
}

/// Estimated encoded size in bytes: the resolution-stepped video bitrate
/// scaled by the frame rate against a 30 fps baseline, plus a 192 kbit/s
/// audio stream, over the recording's duration.
pub open spec fn estimated_size_bytes_spec(
    width: u32,
    height: u32,
    fps: u32,
    duration_ms: u64,
) -> int {
    let video = base_bitrate_spec(width, height) * fps as int / 30;
    let total = video + 192_000;
    total * duration_ms as int / 8000
}

/// Estimate the encoded output size of a recording, in bytes.
pub fn estimated_size_bytes(width: u32, height: u32, fps: u32, duration_ms: u64) -> (r: u128)
    ensures
        r == estimated_size_bytes_spec(width, height, fps, duration_ms),
{
    let base: u128 = if width <= 1280 && height <= 720 {
        4_000_000
    } else if width <= 1920 && height <= 1080 {
        8_000_000
    } else if width <= 2560 && height <= 1440 {
        14_000_000
    } else {
        20_000_000
    };
    proof {
        assert(base * fps as int <= 20_000_000 * 0xFFFF_FFFF) by (nonlinear_arith)
            requires
                base <= 20_000_000,
                fps <= 0xFFFF_FFFF,
        ;
    }
    let video: u128 = base * fps as u128 / 30;
    let total: u128 = video + 192_000;
    proof {
        assert(total * duration_ms as int <= (20_000_000 * 0xFFFF_FFFF / 30 + 192_000)
            * 0xFFFF_FFFF_FFFF_FFFF) by (nonlinear_arith)
            requires
                total <= 20_000_000 * 0xFFFF_FFFF / 30 + 192_000,
                duration_ms <= 0xFFFF_FFFF_FFFF_FFFF,
        ;
    }
    total * duration_ms as u128 / 8000
}

/// The RGBA bytes a BGRA screenshot converts to: each complete four-byte
/// pixel has its red and blue channels swapped; trailing bytes of an
/// incomplete pixel read as zero.
pub open spec fn rgba_of_bgra(b: Seq<u8>) -> Seq<u8> {
    Seq::new(
        b.len(),
        |i: int|
            if i < 4 * (b.len() / 4) {
                if i % 4 == 0 {
                    b[i + 2]
                } else if i % 4 == 2 {
                    b[i - 2]
                } else {
                    b[i]
                }
            } else {
                0u8
            },
    )
}

/// Convert captured BGRA pixel data to RGBA.
pub fn bgra_to_rgba(bgra: &Vec<u8>) -> (r: Vec<u8>)
    ensures
        r@ =~= rgba_of_bgra(bgra@),
{
    let n = bgra.len();
    let complete = 4 * (n / 4);
    let mut out: Vec<u8> = Vec::new();
    let mut i: usize = 0;
    while i < n
        invariant
            0 <= i <= n,
            n == bgra@.len(),
            complete == 4 * (n / 4),
            out@ =~= rgba_of_bgra(bgra@).take(i as int),
        decreases n - i,
    {
        let v: u8 = if i < complete {
            if i % 4 == 0 {
                bgra[i + 2]
            } else if i % 4 == 2 {
                bgra[i - 2]
            } else {
                bgra[i]
            }
        } else {
            0
        };
        out.push(v);
        proof {
            assert(out@ =~= rgba_of_bgra(bgra@).take(i as int + 1));
        }
        i = i + 1;
    }
    proof {
        assert(rgba_of_bgra(bgra@).take(n as int) =~= rgba_of_bgra(bgra@));
    }
    out
}

/// The PNG stream that encoding an RGBA image of the given dimensions
/// produces (8-bit RGBA, fast compression).  A function of the dimensions
/// and pixel bytes alone.
pub uninterp spec fn png_rgba_of(width: u32, height: u32, data: Seq<u8>) -> Seq<u8>;

/// Relies on png::Encoder writing into an in-memory buffer: 8-bit RGBA with
/// fast compression.  With positive dimensions and a matching buffer length
/// the encoder cannot fail.
#[verifier::external_body]
fn encode_png_rgba(width: u32, height: u32, data: &Vec<u8>) -> (r: Result<Vec<u8>, String>)
    requires
        width > 0,
        height > 0,
        data@.len() == 4 * width * height,
        4 * (width as int) * (height as int) + height as int <= usize::MAX,
    ensures
        r is Ok,
        r matches Ok(out) ==> out@ == png_rgba_of(width, height, data@),
{
    let mut out: Vec<u8> = Vec::new();
    let mut encoder = png::Encoder::new(&mut out, width, height);
    encoder.set_color(png::ColorType::Rgba);
    encoder.set_compression(png::Compression::Fast);
    let mut writer = encoder.write_header().map_err(|e| e.to_string())?;
    writer.write_image_data(data).map_err(|e| e.to_string())?;
    writer.finish().map_err(|e| e.to_string())?;
    Ok(out)
}

/// Encode a captured BGRA frame as a PNG screenshot: the pixels are
/// converted to RGBA and encoded.  Succeeds exactly when the dimensions are
/// positive and the buffer holds four bytes per pixel (within address
/// space).
pub fn screenshot_png(width: u32, height: u32, bgra: &Vec<u8>) -> (r: Result<Vec<u8>, String>)
    ensures
        r is Ok <==> (width > 0 && height > 0 && bgra@.len() == 4 * width * height && 4 * (
        width as int) * (height as int) + height as int <= usize::MAX),
        r matches Ok(out) ==> out@ == png_rgba_of(width, height, rgba_of_bgra(bgra@)),
{
    if width == 0 || height == 0 {
        return Err(String::from_str("screenshot has no pixels"));
    }
    proof {
        assert(4 * (width as int) * (height as int) <= 4 * 0xFFFF_FFFF * 0xFFFF_FFFF)
            by (nonlinear_arith)
            requires
                width <= 0xFFFF_FFFF,
                height <= 0xFFFF_FFFF,
        ;
    }
    let expected: u128 = 4 * (width as u128) * (height as u128);
    if bgra.len() as u128 != expected {
        return Err(String::from_str("pixel buffer does not match the dimensions"));
    }
    if expected + (height as u128) > usize::MAX as u128 {
        return Err(String::from_str("image too large to encode"));
    }
    let rgba = bgra_to_rgba(bgra);
    encode_png_rgba(width, height, &rgba)
}

/// Relies on image::imageops::resize with the Lanczos3 filter over an RGB
/// buffer.  The Lanczos kernel goes through the platform's floating-point
/// `sin`, so the pixel values are not stated; the contract promises only
/// the output shape, three bytes per target pixel.  The bounds on the
/// target dimensions keep the resampler's intermediate buffer (four f32
/// channels per source-width pixel) and its output buffer within what a
/// `Vec` can hold, which its source checks by panicking.
#[verifier::external_body]
fn resize_rgb_lanczos3(
    width: u32,
    height: u32,
    data: &Vec<u8>,
    new_width: u32,
    new_height: u32,
) -> (r: Result<Vec<u8>, String>)
    requires
        width > 0,
        height > 0,
        data@.len() == 3 * width * height,
        16 * (width as int) * (new_height as int) <= isize::MAX,
        3 * (new_width as int) * (new_height as int) <= isize::MAX,
    ensures
        r is Ok,
        r matches Ok(out) ==> out@.len() == 3 * new_width * new_height,
{
    match image::RgbImage::from_raw(width, height, data.clone()) {
        Some(img) => Ok(
            image::imageops::resize(&img, new_width, new_height, image::imageops::FilterType::Lanczos3)
                .into_raw(),
        ),
        None => Err("pixel buffer does not match the dimensions".to_string()),
    }
}

/// Resize an RGB frame to thumbnail dimensions with Lanczos3 resampling.
/// Succeeds exactly when the source dimensions are positive, the buffer
/// holds three bytes per source pixel, and the target dimensions keep the
/// resampler's intermediate and output buffers within address space.
pub fn thumbnail_rgb(
    width: u32,
    height: u32,
    data: &Vec<u8>,
    target_width: u32,
    target_height: u32,
) -> (r: Result<Vec<u8>, String>)
    ensures
        r is Ok <==> (width > 0 && height > 0 && data@.len() == 3 * width * height && 16 * (
        width as int) * (target_height as int) <= isize::MAX && 3 * (target_width as int) * (
        target_height as int) <= isize::MAX),
        r matches Ok(out) ==> out@.len() == 3 * target_width * target_height,
{
    if width == 0 || height == 0 {
        return Err(String::from_str("image has no pixels"));
    }
    proof {
        assert(16 * (width as int) * (target_height as int) <= 16 * 0xFFFF_FFFF * 0xFFFF_FFFF
            && 3 * (target_width as int) * (target_height as int) <= 3 * 0xFFFF_FFFF * 0xFFFF_FFFF
            && 3 * (width as int) * (height as int) <= 3 * 0xFFFF_FFFF * 0xFFFF_FFFF)
            by (nonlinear_arith)
            requires
                width <= 0xFFFF_FFFF,
                height <= 0xFFFF_FFFF,
                target_width <= 0xFFFF_FFFF,
                target_height <= 0xFFFF_FFFF,
        ;
    }
    let expected: u128 = 3 * (width as u128) * (height as u128);
    if data.len() as u128 != expected {
        return Err(String::from_str("pixel buffer does not match the dimensions"));
    }
    if 16 * (width as u128) * (target_height as u128) > isize::MAX as u128 {
        return Err(String::from_str("target dimensions too large to resample"));
    }
    if 3 * (target_width as u128) * (target_height as u128) > isize::MAX as u128 {
        return Err(String::from_str("target dimensions too large to resample"));
    }
    resize_rgb_lanczos3(width, height, data, target_width, target_height)
}

/// The row-major pixels of `data` with each row shortened from the decoder
/// stride to the packed row length.
pub open spec fn repacked_rows(
    data: Seq<u8>,
    src_stride: int,
    row_len: int,
    height: int,
) -> Seq<u8> {
    Seq::new((height * row_len) as nat, |i: int| data[(i / row_len) * src_stride + i % row_len])
}

/// Repack decoder output whose rows are `src_stride` bytes apart into a
/// tightly packed buffer of `row_len`-byte rows.
pub fn repack_rows(data: &Vec<u8>, src_stride: usize, row_len: usize, height: usize) -> (r: Vec<
    u8,
>)
    requires
        row_len <= src_stride,
        height as int * src_stride as int <= data@.len(),
    ensures
        r@ =~= repacked_rows(data@, src_stride as int, row_len as int, height as int),
{
    let mut out: Vec<u8> = Vec::new();
    if row_len == 0 || height == 0 {
        proof {
            assert(height as int * row_len as int == 0) by (nonlinear_arith)
                requires
                    row_len == 0 || height == 0,
            ;
        }
        return out;
    }
    let dlen: usize = data.len();
    proof {
        assert(height as int * row_len as int <= height as int * src_stride as int)
            by (nonlinear_arith)
            requires
                row_len <= src_stride,
                height >= 0,
        ;
    }
    let total: usize = height * row_len;
    let mut i: usize = 0;
    while i < total
        invariant
            0 <= i <= total,
            1 <= row_len <= src_stride,
            total == height * row_len,
            height as int * row_len as int <= height as int * src_stride as int <= data@.len(),
            data@.len() <= usize::MAX,
            out@ =~= repacked_rows(data@, src_stride as int, row_len as int, height as int).take(
                i as int,
            ),
        decreases total - i,
    {
        let row: usize = i / row_len;
        let col: usize = i % row_len;
        proof {
            assert(row < height) by (nonlinear_arith)
                requires
                    row == i as int / row_len as int,
                    i < height as int * row_len as int,
                    row_len >= 1,
                    i >= 0,
                    height >= 0,
            ;
            assert(row as int * src_stride as int + col < height as int * src_stride as int)
                by (nonlinear_arith)
                requires
                    row < height,
                    col < src_stride,
                    src_stride >= 1,
                    row >= 0,
                    col >= 0,
            ;
        }
        let v = data[row * src_stride + col];
        out.push(v);
        proof {
            assert(out@ =~= repacked_rows(
                data@,
                src_stride as int,
                row_len as int,
                height as int,
            ).take(i as int + 1));
        }
        i = i + 1;
    }
    proof {
        let full = repacked_rows(data@, src_stride as int, row_len as int, height as int);
        assert(full.take(full.len() as int) =~= full);
    }
    out
}

} // verus!
