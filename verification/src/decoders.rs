//! Decoders for 8-bit RGB JPEG and PNG files, which refuse every other pixel
//! layout.

use vstd::prelude::*;

use crate::error::{is_refusal, DecodeErr, DecodeError};
use jpeg_decoder::{CodingProcess, PixelFormat};

verus! {

/// How `jpeg-decoder` lays out a pixel.
#[derive(Clone, Copy, Debug, PartialEq, Eq, Structural)]
pub enum JpgPixelFormat {
    /// Gray, 8 bits.
    L8,
    /// Gray, 16 bits.
    L16,
    /// RGB, 8 bits a channel.
    RGB24,
    /// CMYK, 8 bits a channel.
    CMYK32,
}

/// How `jpeg-decoder` says that an image was coded.
#[derive(Clone, Copy, Debug, PartialEq, Eq, Structural)]
pub enum JpgCodingProcess {
    /// Sequential DCT.
    DctSequential,
    /// Progressive DCT.
    DctProgressive,
    /// Lossless.
    Lossless,
}

/// What `jpeg-decoder` tells of a decoded image.
#[derive(Clone, Copy, Debug, PartialEq, Eq, Structural)]
pub struct JpgInfo {
    pub width: u16,
    pub height: u16,
    pub pixel_format: JpgPixelFormat,
    pub coding_process: JpgCodingProcess,
}

/// Names what `jpeg-decoder` gives for the bytes of a JPEG file: the decoded
/// pixels with the image's information where it has it, or `None` where it
/// refuses the bytes. The crate is built with its `platform_independent`
/// feature, so the pixels do not depend on the processor that decodes.
pub uninterp spec fn jpeg_decoded(data: Seq<u8>) -> Option<(Seq<u8>, Option<JpgInfo>)>;

/// Calls `jpeg_decoder::Decoder::new` on `data`, then its `decode` and
/// `info`. The contract claims that success and the result are those named
/// by `jpeg_decoded`, and two facts that the source of `decode` shows: a
/// decoded image always has its information, and a DCT-coded RGB24 image is
/// decoded into 3 bytes a pixel. (A lossless one with samples of other than
/// 8 bits is decoded into 2 bytes a sample; the contract says nothing of
/// lossless images.)
#[verifier::external_body]
pub(crate) fn read_jpeg(data: &[u8]) -> (res: Result<(Vec<u8>, Option<JpgInfo>), jpeg_decoder::Error>)
    ensures
        res is Ok <==> jpeg_decoded(data@) is Some,
        res matches Ok(r) ==> jpeg_decoded(data@) == Some((r.0@, r.1)),
        res matches Ok(r) ==> r.1 is Some,
        res matches Ok(r) ==> (r.1 matches Some(i) ==> (i.pixel_format == JpgPixelFormat::RGB24
            && i.coding_process != JpgCodingProcess::Lossless ==> r.0.len() == 3 * i.width * i.height)),
{
    let mut decoder = jpeg_decoder::Decoder::new(data);
    let frame = decoder.decode()?;
    Ok((frame, match decoder.info() {
        Some(i) => Some(JpgInfo { width: i.width, height: i.height, pixel_format: match i.pixel_format {
            PixelFormat::L8 => JpgPixelFormat::L8,
            PixelFormat::L16 => JpgPixelFormat::L16,
            PixelFormat::RGB24 => JpgPixelFormat::RGB24,
            PixelFormat::CMYK32 => JpgPixelFormat::CMYK32,
        }, coding_process: match i.coding_process {
            CodingProcess::DctSequential => JpgCodingProcess::DctSequential,
            CodingProcess::DctProgressive => JpgCodingProcess::DctProgressive,
            CodingProcess::Lossless => JpgCodingProcess::Lossless,
        } }),
        None => None,
    }))
}

/// What [`decode_jpg`] gives for the bytes `data` of a JPEG file.
pub open spec fn decode_jpg_result(data: Seq<u8>, res: Result<(Vec<u8>, (u32, u32)), DecodeError>) -> bool {
    match jpeg_decoded(data) {
        Some((frame, Some(info))) => if info.pixel_format != JpgPixelFormat::RGB24 {
            res matches Err(e) && is_refusal(e, "unsupport PixelFormat yet [gray or cmyk]"@)
        } else if frame.len() != 3 * info.width * info.height {
            res matches Err(e) && is_refusal(e, "unsupport jpeg sample precision [8bit only now]"@)
        } else {
            res matches Ok(r) && r.0@ == frame && r.1 == (info.width as u32, info.height as u32)
        },
        _ => res matches Err(e) && e is Jpeg,
    }
}

/// Decodes the bytes of a JPEG file into [R,G,B]*w*h with the width and
/// height. Gray and CMYK images are refused, and so are RGB images with
/// samples of other than 8 bits (which only lossless coding allows).
pub fn decode_jpg(data: &[u8]) -> (res: Result<(Vec<u8>, (u32, u32)), DecodeError>)
    ensures
        decode_jpg_result(data@, res),
        res matches Ok(r) ==> r.0.len() == 3 * r.1.0 * r.1.1,
        res matches Ok(r) ==> (jpeg_decoded(data@) matches Some((frame, Some(info))) && r.0@ == frame
            && r.1.0 == info.width && r.1.1 == info.height && info.pixel_format == JpgPixelFormat::RGB24),
        res is Ok <==> (jpeg_decoded(data@) matches Some((frame, Some(info)))
            && info.pixel_format == JpgPixelFormat::RGB24 && frame.len() == 3 * info.width * info.height),
        (jpeg_decoded(data@) is None) <==> (res matches Err(e) && e is Jpeg),
        !(res matches Err(DecodeError::Unsupported(e)) && e.0@ == "cannt read img info"@),
{
    proof {
        reveal_strlit("cannt read img info");
        reveal_strlit("unsupport PixelFormat yet [gray or cmyk]");
        reveal_strlit("unsupport jpeg sample precision [8bit only now]");
        assert("unsupport PixelFormat yet [gray or cmyk]"@.len() != "cannt read img info"@.len());
        assert("unsupport jpeg sample precision [8bit only now]"@.len() != "cannt read img info"@.len());
    }
    let (frame, info) = match read_jpeg(data) {
        Ok(r) => r,
        Err(e) => { return Err(DecodeError::Jpeg(e)); },
    };
    match info {
        Some(info) => {
            match info.pixel_format {
                JpgPixelFormat::RGB24 => {},
                _ => {
                    return Err(DecodeError::Unsupported(DecodeErr::new("unsupport PixelFormat yet [gray or cmyk]")));
                },
            }
            let w: u64 = info.width as u64;
            let h: u64 = info.height as u64;
            assert(w * h <= 65535 * 65535) by (nonlinear_arith)
                requires
                    w <= 65535,
                    h <= 65535,
            ;
            let pixels: u64 = w * h;
            assert(3 * info.width * info.height == 3 * pixels) by (nonlinear_arith)
                requires
                    pixels == w * h,
                    w == info.width,
                    h == info.height,
            ;
            assert(frame.len() as u64 == frame.len());
            if frame.len() as u64 != 3 * pixels {
                return Err(DecodeError::Unsupported(DecodeErr::new("unsupport jpeg sample precision [8bit only now]")));
            }
            Ok((frame, (info.width as u32, info.height as u32)))
        },
        None => {
            // `read_jpeg` always gives the information of a decoded image.
            assert(false);
            Err(DecodeError::Unsupported(DecodeErr::new("cannt read img info")))
        },
    }
}

/// The `png` crate's number for a depth of 8 bits a sample (`BitDepth::Eight`).
pub open spec fn png_depth_eight() -> u8 {
    8
}

/// The `png` crate's number for RGB without alpha (`ColorType::Rgb`).
pub open spec fn png_color_rgb() -> u8 {
    2
}

/// What the `png` crate tells of a decoded image; the bit depth and the
/// color type are the numbers that the PNG format gives them.
#[derive(Clone, Copy, Debug, PartialEq, Eq, Structural)]
pub struct PngInfo {
    pub width: u32,
    pub height: u32,
    pub bit_depth: u8,
    pub color_type: u8,
}

/// Names what the `png` crate gives for the bytes of a PNG file: the first
/// frame, in a buffer of `output_buffer_size` bytes, with the image's
/// information, or `None` where it refuses the bytes.
pub uninterp spec fn png_decoded(data: Seq<u8>) -> Option<(Seq<u8>, PngInfo)>;

/// Calls `png::Decoder::new` on `data`, `read_info`, then `next_frame` into a
/// zeroed buffer of `output_buffer_size` bytes, and reads `info`. The
/// contract claims that success and the result are those named by
/// `png_decoded`, and a fact that the source shows: with no transformation
/// asked for, an 8-bit RGB image fills a buffer of 3 bytes a pixel.
#[verifier::external_body]
fn read_png(data: &[u8]) -> (res: Result<(Vec<u8>, PngInfo), png::DecodingError>)
    ensures
        res is Ok <==> png_decoded(data@) is Some,
        res matches Ok(r) ==> png_decoded(data@) == Some((r.0@, r.1)),
        res matches Ok(r) ==> (r.1.bit_depth == 8 && r.1.color_type == 2
            ==> r.0.len() == 3 * r.1.width * r.1.height),
{
    let mut reader = png::Decoder::new(data).read_info()?;
    let mut frame = vec![0; reader.output_buffer_size()];
    reader.next_frame(&mut frame)?;
    let inf = reader.info();
    let info = PngInfo {
        width: inf.width,
        height: inf.height,
        bit_depth: inf.bit_depth as u8,
        color_type: inf.color_type as u8,
    };
    Ok((frame, info))
}

/// What [`decode_png`] gives for the bytes `data` of a PNG file.
pub open spec fn decode_png_result(data: Seq<u8>, res: Result<(Vec<u8>, (u32, u32)), DecodeError>) -> bool {
    match png_decoded(data) {
        None => res matches Err(e) && e is Png,
        Some((frame, info)) => if info.bit_depth != png_depth_eight() {
            res matches Err(e) && is_refusal(e, "unsupport png bitdepth [8bit only now]"@)
        } else if info.color_type != png_color_rgb() {
            res matches Err(e) && is_refusal(e, "unsupport png colortype [RGB only now]"@)
        } else {
            res matches Ok(r) && r.0@ == frame && r.1 == (info.width, info.height)
        },
    }
}

/// Decodes the bytes of a PNG file into [R,G,B]*w*h with the width and
/// height; only 8-bit RGB images are accepted.
pub fn decode_png(data: &[u8]) -> (res: Result<(Vec<u8>, (u32, u32)), DecodeError>)
    ensures
        decode_png_result(data@, res),
        res matches Ok(r) ==> r.0.len() == 3 * r.1.0 * r.1.1,
        res matches Ok(r) ==> (png_decoded(data@) matches Some((frame, info)) && r.0@ == frame
            && r.1.0 == info.width && r.1.1 == info.height),
        res is Ok <==> (png_decoded(data@) matches Some((_, info)) && info.bit_depth == 8 && info.color_type == 2),
        (png_decoded(data@) is None) <==> (res matches Err(e) && e is Png),
{
    let (frame, info) = match read_png(data) {
        Ok(r) => r,
        Err(e) => { return Err(DecodeError::Png(e)); },
    };
    if info.bit_depth != 8 {
        return Err(DecodeError::Unsupported(DecodeErr::new("unsupport png bitdepth [8bit only now]")));
    }
    if info.color_type != 2 {
        return Err(DecodeError::Unsupported(DecodeErr::new("unsupport png colortype [RGB only now]")));
    }
    Ok((frame, (info.width, info.height)))
}

/// A JPEG that `decode_jpg` accepts comes back as exactly the pixels that
/// `jpeg-decoder` gives, in its order, with the image's own width and
/// height; it is accepted exactly when it is RGB24 with 3 bytes a pixel.
pub proof fn law_decode_jpg_gives_decoder_pixels(data: Seq<u8>, res: Result<(Vec<u8>, (u32, u32)), DecodeError>)
    requires
        decode_jpg_result(data, res),
    ensures
        res matches Ok(r) ==> (jpeg_decoded(data) matches Some((frame, Some(info))) && r.0@ == frame
            && r.1.0 == info.width && r.1.1 == info.height),
        res is Ok <==> (jpeg_decoded(data) matches Some((frame, Some(info)))
            && info.pixel_format == JpgPixelFormat::RGB24 && frame.len() == 3 * info.width * info.height),
        jpeg_decoded(data) is None ==> (res matches Err(e) && e is Jpeg),
        jpeg_decoded(data) matches Some((_, Some(info))) ==> (info.pixel_format != JpgPixelFormat::RGB24
            ==> (res matches Err(DecodeError::Unsupported(m)) && m.0@ == "unsupport PixelFormat yet [gray or cmyk]"@)),
{
}

/// A PNG that `decode_png` accepts comes back as exactly the buffer that
/// the `png` crate fills, with the image's own width and height, in that
/// order; it is accepted exactly when its bit depth is 8 and its color type
/// is RGB (2).
pub proof fn law_decode_png_gives_decoder_pixels(data: Seq<u8>, res: Result<(Vec<u8>, (u32, u32)), DecodeError>)
    requires
        decode_png_result(data, res),
    ensures
        res matches Ok(r) ==> (png_decoded(data) matches Some((frame, info)) && r.0@ == frame
            && r.1.0 == info.width && r.1.1 == info.height),
        res is Ok <==> (png_decoded(data) matches Some((_, info)) && info.bit_depth == 8 && info.color_type == 2),
        png_decoded(data) is None ==> (res matches Err(e) && e is Png),
        png_decoded(data) matches Some((_, info)) ==> (info.bit_depth != 8 ==> (res matches Err(
            DecodeError::Unsupported(m)) && m.0@ == "unsupport png bitdepth [8bit only now]"@)),
        png_decoded(data) matches Some((_, info)) ==> (info.bit_depth == 8 && info.color_type != 2 ==> (res matches Err(
            DecodeError::Unsupported(m)) && m.0@ == "unsupport png colortype [RGB only now]"@)),
{
}

} // verus!
