use vstd::prelude::*;

use crate::decoders::{jpeg_decoded, read_jpeg, JpgPixelFormat};
use crate::error::{is_refusal, DecodeErr, DecodeError};
use image::GenericImageView;

verus! {

/// Names what std's `Path::extension` gives for a path written as a string:
/// the bytes of the path's file name after its last `.`, if it has one that
/// does not start the name.
pub uninterp spec fn path_extension(path: Seq<char>) -> Option<Seq<u8>>;

/// Calls `std::path::Path::extension` on `path` and copies the bytes of the
/// extension. The contract claims only that the result is the named
/// `path_extension` of the path.
#[verifier::external_body]
fn extension_of(path: &str) -> (ext: Option<Vec<u8>>)
    ensures
        ext is None <==> path_extension(path@) is None,
        ext matches Some(e) ==> path_extension(path@) == Some(e@),
{
    match std::path::Path::new(path).extension() {
        Some(e) => Some(e.as_encoded_bytes().to_vec()),
        None => None,
    }
}

/// ASCII `A`..`Z` become `a`..`z`; every other byte stays.
pub open spec fn lower_byte(b: u8) -> u8 {
    if 65 <= b <= 90 {
        (b + 32) as u8
    } else {
        b
    }
}

/// The bytes with ASCII letters lowered, as `to_ascii_lowercase` does.
pub open spec fn ascii_lower(s: Seq<u8>) -> Seq<u8> {
    s.map_values(|b: u8| lower_byte(b))
}

/// Lowers the ASCII letters of `bytes`.
pub fn ascii_lowercase(bytes: &[u8]) -> (lower: Vec<u8>)
    ensures
        lower@ == ascii_lower(bytes@),
        lower.len() == bytes.len(),
        forall|i: int| 0 <= i < bytes.len() ==> (65 <= #[trigger] bytes[i] <= 90 ==> lower[i] == bytes[i] + 32),
        forall|i: int| 0 <= i < bytes.len() ==> (!(65 <= #[trigger] bytes[i] <= 90) ==> lower[i] == bytes[i]),
{
    let mut lower: Vec<u8> = Vec::new();
    let mut i: usize = 0;
    while i < bytes.len()
        invariant
            i <= bytes.len(),
            lower@ == ascii_lower(bytes@.take(i as int)),
        decreases bytes.len() - i,
    {
        let b = bytes[i];
        let l: u8 = if 65 <= b && b <= 90 { b + 32 } else { b };
        lower.push(l);
        assert(bytes@.take(i + 1) == bytes@.take(i as int).push(b));
        i = i + 1;
    }
    assert(bytes@.take(bytes.len() as int) == bytes@);
    lower
}

/// Whether two byte strings are equal.
fn same_bytes(a: &[u8], b: &[u8]) -> (eq: bool)
    ensures
        eq == (a@ == b@),
{
    if a.len() != b.len() {
        return false;
    }
    let mut i: usize = 0;
    while i < a.len()
        invariant
            a.len() == b.len(),
            i <= a.len(),
            forall|j: int| 0 <= j < i ==> a@[j] == b@[j],
        decreases a.len() - i,
    {
        if a[i] != b[i] {
            return false;
        }
        i = i + 1;
    }
    assert(a@ =~= b@);
    true
}

/// The bytes of `jp2`.
pub open spec fn ext_jp2() -> Seq<u8> {
    seq![106u8, 112u8, 50u8]
}

/// The bytes of `heic`.
pub open spec fn ext_heic() -> Seq<u8> {
    seq![104u8, 101u8, 105u8, 99u8]
}

/// The bytes of `heif`.
pub open spec fn ext_heif() -> Seq<u8> {
    seq![104u8, 101u8, 105u8, 102u8]
}

/// The bytes of `avif`.
pub open spec fn ext_avif() -> Seq<u8> {
    seq![97u8, 118u8, 105u8, 102u8]
}

/// Where a file goes, by its extension.
#[derive(Clone, Copy, Debug, PartialEq, Eq, Structural)]
pub enum DecodeRoute {
    /// JPEG 2000, not supported yet.
    Jp2k,
    /// HEIF, not supported yet.
    Heif,
    /// AVIF, which is the output format and is not decoded.
    Avif,
    /// Everything else goes to the `image` crate.
    ByImage,
}

/// The route of a lowercase extension.
pub open spec fn route_of(ext: Seq<u8>) -> DecodeRoute {
    if ext == ext_jp2() {
        DecodeRoute::Jp2k
    } else if ext == ext_heic() || ext == ext_heif() {
        DecodeRoute::Heif
    } else if ext == ext_avif() {
        DecodeRoute::Avif
    } else {
        DecodeRoute::ByImage
    }
}

/// The route of a path whose extension exists: that of its extension, with
/// ASCII letters lowered.
pub open spec fn route_of_path(path: Seq<char>) -> DecodeRoute {
    route_of(ascii_lower(path_extension(path).unwrap()))
}

/// What the refusal for `route` says; the `image` route is not refused.
pub open spec fn route_refused(route: DecodeRoute, err: DecodeError) -> bool {
    match route {
        DecodeRoute::Jp2k => is_refusal(err, "jp2 format not support yet"@),
        DecodeRoute::Heif => is_refusal(err, "heif format not support yet"@),
        DecodeRoute::Avif => is_refusal(err, "avif will not process"@),
        DecodeRoute::ByImage => false,
    }
}

/// Chooses the route of a file by its lowercased extension.
pub fn route_of_extension(ext: &[u8]) -> (route: DecodeRoute)
    ensures
        route == route_of(ascii_lower(ext@)),
        route == DecodeRoute::Jp2k <==> ascii_lower(ext@) == seq![106u8, 112u8, 50u8],
        route == DecodeRoute::Heif <==> (ascii_lower(ext@) == seq![104u8, 101u8, 105u8, 99u8]
            || ascii_lower(ext@) == seq![104u8, 101u8, 105u8, 102u8]),
        route == DecodeRoute::Avif <==> ascii_lower(ext@) == seq![97u8, 118u8, 105u8, 102u8],
{
    let lower = ascii_lowercase(ext);
    let jp2: Vec<u8> = vec![106u8, 112u8, 50u8];
    let heic: Vec<u8> = vec![104u8, 101u8, 105u8, 99u8];
    let heif: Vec<u8> = vec![104u8, 101u8, 105u8, 102u8];
    let avif: Vec<u8> = vec![97u8, 118u8, 105u8, 102u8];
    assert(jp2@ == ext_jp2());
    assert(heic@ == ext_heic());
    assert(heif@ == ext_heif());
    assert(avif@ == ext_avif());
    if same_bytes(lower.as_slice(), jp2.as_slice()) {
        DecodeRoute::Jp2k
    } else if same_bytes(lower.as_slice(), heic.as_slice()) || same_bytes(lower.as_slice(), heif.as_slice()) {
        DecodeRoute::Heif
    } else if same_bytes(lower.as_slice(), avif.as_slice()) {
        DecodeRoute::Avif
    } else {
        DecodeRoute::ByImage
    }
}

/// Decoding of JPEG 2000 files, which is still to be written: does nothing.
#[allow(unused_variables)]
pub fn decode_jp2k(path: &str) {
}

/// Decoding of HEIF files, which is still to be written: does nothing.
#[allow(unused_variables)]
pub fn decode_heif(path: &str) {
}

/// Refuses the formats that are not decoded: `jp2`, `heic`/`heif` and `avif`,
/// whatever the case of the extension's letters. Any other extension passes.
pub fn decode_route(path: &str) -> (res: Result<(), DecodeError>)
    requires
        path_extension(path@) is Some,
    ensures
        res is Ok <==> route_of_path(path@) == DecodeRoute::ByImage,
        res matches Err(e) ==> route_refused(route_of_path(path@), e),
        res is Err <==> (ascii_lower(path_extension(path@).unwrap()) == seq![106u8, 112u8, 50u8]
            || ascii_lower(path_extension(path@).unwrap()) == seq![104u8, 101u8, 105u8, 99u8]
            || ascii_lower(path_extension(path@).unwrap()) == seq![104u8, 101u8, 105u8, 102u8]
            || ascii_lower(path_extension(path@).unwrap()) == seq![97u8, 118u8, 105u8, 102u8]),
{
    proof {
        law_route_refuses_exactly(ascii_lower(path_extension(path@).unwrap()));
    }
    let ext = extension_of(path);
    let ext = match ext {
        Some(e) => e,
        None => { return Ok(()); }
    };
    match route_of_extension(ext.as_slice()) {
        DecodeRoute::Jp2k => {
            decode_jp2k(path);
            Err(DecodeError::Unsupported(DecodeErr::new("jp2 format not support yet")))
        },
        DecodeRoute::Heif => {
            decode_heif(path);
            Err(DecodeError::Unsupported(DecodeErr::new("heif format not support yet")))
        },
        DecodeRoute::Avif => Err(DecodeError::Unsupported(DecodeErr::new("avif will not process"))),
        DecodeRoute::ByImage => Ok(()),
    }
}

/// As [`decode_route`], for any path: `None` where the path has no extension.
pub fn try_decode_route(path: &str) -> (res: Option<Result<(), DecodeError>>)
    ensures
        res is None <==> path_extension(path@) is None,
        res matches Some(r) ==> {
            &&& r is Ok <==> route_of_path(path@) == DecodeRoute::ByImage
            &&& r matches Err(e) ==> route_refused(route_of_path(path@), e)
        },
{
    match extension_of(path) {
        None => None,
        Some(_) => Some(decode_route(path)),
    }
}

/// The bytes of `jpg`.
pub open spec fn ext_jpg() -> Seq<u8> {
    seq![106u8, 112u8, 103u8]
}

/// The bytes of `jpeg`.
pub open spec fn ext_jpeg() -> Seq<u8> {
    seq![106u8, 112u8, 101u8, 103u8]
}

/// Whether the `image` crate reads the file at `path` as a JPEG: its
/// extension is `jpg` or `jpeg`, whatever the case of its letters.
pub open spec fn image_reads_jpeg(path: Seq<char>) -> bool {
    path_extension(path) matches Some(e) && (ascii_lower(e) == ext_jpg() || ascii_lower(e) == ext_jpeg())
}

/// The bytes a pixel that the `image` crate expects of a JPEG of this
/// layout, before it turns CMYK into RGB.
pub open spec fn jpeg_pixel_bytes(format: JpgPixelFormat) -> int {
    match format {
        JpgPixelFormat::L8 => 1,
        JpgPixelFormat::L16 => 2,
        JpgPixelFormat::RGB24 => 3,
        JpgPixelFormat::CMYK32 => 4,
    }
}

/// Whether the pixels that `jpeg-decoder` gives for `data` are as many bytes
/// as the image's layout asks for: not so for lossless images whose samples
/// have other than 8 bits (and `jpeg-decoder` gives 2 bytes each).
pub open spec fn jpeg_frame_fits(data: Seq<u8>) -> bool {
    match jpeg_decoded(data) {
        Some((frame, Some(info))) => frame.len() == info.width * info.height * jpeg_pixel_bytes(info.pixel_format),
        _ => true,
    }
}

/// Whether the `image` crate decodes the file at `path` that holds `data`
/// without panicking: it copies the JPEG decoder's pixels into a buffer of
/// the image's size, and panics where the two lengths differ.
pub open spec fn image_decodable(data: Seq<u8>, path: Seq<char>) -> bool {
    image_reads_jpeg(path) ==> jpeg_frame_fits(data)
}

/// Tells whether the `image` crate decodes the file whose bytes are `data`
/// and whose extension is `ext` without panicking.
fn image_can_decode(data: &[u8], ext: &[u8], path: Ghost<Seq<char>>) -> (ok: bool)
    requires
        path_extension(path@) == Some(ext@),
    ensures
        ok == image_decodable(data@, path@),
{
    let lower = ascii_lowercase(ext);
    let jpg: Vec<u8> = vec![106u8, 112u8, 103u8];
    let jpeg: Vec<u8> = vec![106u8, 112u8, 101u8, 103u8];
    assert(jpg@ == ext_jpg());
    assert(jpeg@ == ext_jpeg());
    if !same_bytes(lower.as_slice(), jpg.as_slice()) && !same_bytes(lower.as_slice(), jpeg.as_slice()) {
        return true;
    }
    match read_jpeg(data) {
        Ok((frame, Some(info))) => {
            let bytes: u64 = match info.pixel_format {
                JpgPixelFormat::L8 => 1,
                JpgPixelFormat::L16 => 2,
                JpgPixelFormat::RGB24 => 3,
                JpgPixelFormat::CMYK32 => 4,
            };
            let w: u64 = info.width as u64;
            let h: u64 = info.height as u64;
            assert(w * h * bytes <= 65535 * 65535 * 4) by (nonlinear_arith)
                requires
                    w <= 65535,
                    h <= 65535,
                    bytes <= 4,
            ;
            assert(frame.len() as u64 == frame.len());
            frame.len() as u64 == w * h * bytes
        },
        _ => true,
    }
}

/// Names what `image::open` gives, as RGB with 8 bits a channel, for a file
/// at `path` whose bytes are `data`: the pixel bytes row by row with the
/// width and height, or `None` where the `image` crate refuses the file.
pub uninterp spec fn image_rgb8(data: Seq<u8>, path: Seq<char>) -> Option<(Seq<u8>, u32, u32)>;

/// Decodes `data` as `image::open` decodes a file at `path` that holds these
/// bytes: `ImageFormat::from_path` picks the format by the extension, then
/// `image::load` decodes, `dimensions` gives the size and `into_rgb8` the RGB
/// bytes. It requires a file on which `image` does not panic (see
/// `image_decodable`). The contract claims that success and the frame are
/// those named
/// by `image_rgb8`, and a fact that the source shows: the RGB buffer holds
/// exactly 3 bytes for each of the width × height pixels.
#[verifier::external_body]
fn decode_by_image(data: &[u8], path: &str) -> (res: Result<(Vec<u8>, u32, u32), image::ImageError>)
    requires
        image_decodable(data@, path@),
    ensures
        res is Ok <==> image_rgb8(data@, path@) is Some,
        res matches Ok(f) ==> image_rgb8(data@, path@) == Some((f.0@, f.1, f.2)),
        res matches Ok(f) ==> f.0.len() == 3 * f.1 * f.2,
{
    let format = image::ImageFormat::from_path(path)?;
    let input = image::load(std::io::Cursor::new(data), format)?;
    let (w, h) = input.dimensions();
    Ok((input.into_rgb8().into_raw(), w, h))
}

/// What [`decode`] gives for a file at `path` that holds `data`.
pub open spec fn decode_result(
    path: Seq<char>,
    data: Seq<u8>,
    res: Result<(Vec<u8>, u32, u32), DecodeError>,
) -> bool {
    let route = route_of_path(path);
    if route == DecodeRoute::ByImage {
        &&& res is Ok <==> image_rgb8(data, path) is Some
        &&& res matches Ok(f) ==> image_rgb8(data, path) == Some((f.0@, f.1, f.2))
        &&& res matches Ok(f) ==> f.0.len() == 3 * f.1 * f.2
        &&& res matches Err(e) ==> e is Image
    } else {
        res matches Err(e) && route_refused(route, e)
    }
}

/// Decodes the file at `path`, whose bytes are `data`, into [R,G,B]*w*h
/// with its width and height. JPEG 2000, HEIF and AVIF files are refused by their
/// extension; every other file is decoded by the `image` crate.
pub fn decode(path: &str, data: &[u8]) -> (res: Result<(Vec<u8>, u32, u32), DecodeError>)
    requires
        path_extension(path@) is Some,
        image_decodable(data@, path@),
    ensures
        decode_result(path@, data@, res),
        res matches Ok(f) ==> image_rgb8(data@, path@) == Some((f.0@, f.1, f.2)),
        res matches Ok(f) ==> f.0.len() == 3 * f.1 * f.2,
        (res matches Err(DecodeError::Unsupported(_))) <==> (ascii_lower(path_extension(path@).unwrap()) == seq![106u8, 112u8, 50u8]
            || ascii_lower(path_extension(path@).unwrap()) == seq![104u8, 101u8, 105u8, 99u8]
            || ascii_lower(path_extension(path@).unwrap()) == seq![104u8, 101u8, 105u8, 102u8]
            || ascii_lower(path_extension(path@).unwrap()) == seq![97u8, 118u8, 105u8, 102u8]),
{
    proof {
        law_route_refuses_exactly(ascii_lower(path_extension(path@).unwrap()));
    }
    match decode_route(path) {
        Err(e) => Err(e),
        Ok(()) => match decode_by_image(data, path) {
            Ok(frame) => Ok(frame),
            Err(e) => Err(DecodeError::Image(e)),
        },
    }
}

/// As [`decode`], for any file: `None` where the path has no extension, or
/// where the `image` crate would panic on the file.
pub fn try_decode(path: &str, data: &[u8]) -> (res: Option<Result<(Vec<u8>, u32, u32), DecodeError>>)
    ensures
        res is None <==> (path_extension(path@) is None || !image_decodable(data@, path@)),
        res matches Some(r) ==> decode_result(path@, data@, r),
{
    match extension_of(path) {
        None => None,
        Some(ext) => {
            if image_can_decode(data, ext.as_slice(), Ghost(path@)) {
                Some(decode(path, data))
            } else {
                None
            }
        },
    }
}

/// Lowering ASCII letters twice lowers them once.
pub proof fn law_ascii_lower_idempotent(s: Seq<u8>)
    ensures
        ascii_lower(ascii_lower(s)) == ascii_lower(s),
{
    assert(ascii_lower(ascii_lower(s)) =~= ascii_lower(s));
}

/// The route of a file does not depend on the case of its extension's
/// letters: it is that of a path whose extension is the first one in
/// lowercase.
pub proof fn law_route_ignores_case(path: Seq<char>, lowered: Seq<char>)
    requires
        path_extension(path) is Some,
        path_extension(lowered) == Some(ascii_lower(path_extension(path).unwrap())),
    ensures
        route_of_path(lowered) == route_of_path(path),
{
    law_ascii_lower_idempotent(path_extension(path).unwrap());
}

/// A refused file is refused by its path alone: whatever bytes it holds, the
/// two results are the same refusal.
pub proof fn law_refusal_ignores_content(
    path: Seq<char>,
    data1: Seq<u8>,
    data2: Seq<u8>,
    res1: Result<(Vec<u8>, u32, u32), DecodeError>,
    res2: Result<(Vec<u8>, u32, u32), DecodeError>,
)
    requires
        route_of_path(path) != DecodeRoute::ByImage,
        decode_result(path, data1, res1),
        decode_result(path, data2, res2),
    ensures
        res1 matches Err(DecodeError::Unsupported(e1)) && res2 matches Err(DecodeError::Unsupported(e2))
            && e1.0@ == e2.0@,
{
}

/// [`decode`] refuses exactly the files that [`decode_route`] refuses: the
/// result is a refusal if and only if the route is not the `image` one.
pub proof fn law_decode_refuses_as_route(
    path: Seq<char>,
    data: Seq<u8>,
    res: Result<(Vec<u8>, u32, u32), DecodeError>,
)
    requires
        decode_result(path, data, res),
    ensures
        (res matches Err(DecodeError::Unsupported(_))) <==> route_of_path(path) != DecodeRoute::ByImage,
{
}

/// Lowering keeps the length and changes exactly the bytes of `A`..`Z`,
/// each into the letter 32 places on (`a`..`z`).
pub proof fn law_ascii_lower_bytewise(s: Seq<u8>)
    ensures
        ascii_lower(s).len() == s.len(),
        forall|i: int| 0 <= i < s.len() ==> (65 <= #[trigger] s[i] <= 90 ==> ascii_lower(s)[i] == s[i] + 32),
        forall|i: int| 0 <= i < s.len() ==> (!(65 <= #[trigger] s[i] <= 90) ==> ascii_lower(s)[i] == s[i]),
{
}

/// The refused extensions are exactly `jp2` (JPEG 2000), `heic` and `heif`
/// (HEIF) and `avif`, as lowercase bytes; every other extension goes to the
/// `image` crate.
pub proof fn law_route_refuses_exactly(ext: Seq<u8>)
    ensures
        route_of(ext) == DecodeRoute::Jp2k <==> ext == seq![106u8, 112u8, 50u8],
        route_of(ext) == DecodeRoute::Heif <==> (ext == seq![104u8, 101u8, 105u8, 99u8]
            || ext == seq![104u8, 101u8, 105u8, 102u8]),
        route_of(ext) == DecodeRoute::Avif <==> ext == seq![97u8, 118u8, 105u8, 102u8],
        route_of(ext) == DecodeRoute::ByImage <==> !(ext == seq![106u8, 112u8, 50u8]
            || ext == seq![104u8, 101u8, 105u8, 99u8] || ext == seq![104u8, 101u8, 105u8, 102u8]
            || ext == seq![97u8, 118u8, 105u8, 102u8]),
{
}

/// `decode` refuses a file exactly when its extension, lowered, is `jp2`,
/// `heic`, `heif` or `avif`; every other file gives what the `image` crate
/// gives: the named frame with its width and height, or an `image` error.
pub proof fn law_decode_refuses_only_four_extensions(
    path: Seq<char>,
    data: Seq<u8>,
    res: Result<(Vec<u8>, u32, u32), DecodeError>,
)
    requires
        path_extension(path) is Some,
        decode_result(path, data, res),
    ensures
        ({
            let e = ascii_lower(path_extension(path).unwrap());
            (res matches Err(DecodeError::Unsupported(_))) <==> (e == seq![106u8, 112u8, 50u8]
                || e == seq![104u8, 101u8, 105u8, 99u8] || e == seq![104u8, 101u8, 105u8, 102u8]
                || e == seq![97u8, 118u8, 105u8, 102u8])
        }),
        res matches Ok(f) ==> image_rgb8(data, path) == Some((f.0@, f.1, f.2)),
        (res matches Err(DecodeError::Unsupported(_))) || (res is Ok <==> image_rgb8(data, path) is Some),
        ({
            let e = ascii_lower(path_extension(path).unwrap());
            &&& e == seq![106u8, 112u8, 50u8] ==> (res matches Err(DecodeError::Unsupported(m))
                && m.0@ == "jp2 format not support yet"@)
            &&& (e == seq![104u8, 101u8, 105u8, 99u8] || e == seq![104u8, 101u8, 105u8, 102u8]) ==> (res matches Err(
                DecodeError::Unsupported(m)) && m.0@ == "heif format not support yet"@)
            &&& e == seq![97u8, 118u8, 105u8, 102u8] ==> (res matches Err(DecodeError::Unsupported(m))
                && m.0@ == "avif will not process"@)
        }),
{
    law_route_refuses_exactly(ascii_lower(path_extension(path).unwrap()));
}

} // verus!
