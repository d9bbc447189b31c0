use hcrmi::codecs::decoder::{ascii_lowercase, route_of_extension, DecodeRoute};
use hcrmi::decoders::{decode_jpg, decode_png};
use hcrmi::{decode, decode_route, try_decode, try_decode_route, DecodeErr, DecodeError};

fn png_file(w: u32, h: u32, color: png::ColorType, depth: png::BitDepth, data: &[u8]) -> Vec<u8> {
    let mut out = Vec::new();
    {
        let mut enc = png::Encoder::new(&mut out, w, h);
        enc.set_color(color);
        enc.set_depth(depth);
        let mut writer = enc.write_header().unwrap();
        writer.write_image_data(data).unwrap();
    }
    out
}

fn jpeg_file(w: u32, h: u32, color: image::ColorType, data: &[u8]) -> Vec<u8> {
    let mut out = Vec::new();
    image::codecs::jpeg::JpegEncoder::new_with_quality(&mut out, 95)
        .encode(data, w, h, color)
        .unwrap();
    out
}

fn rgb_pattern(w: u32, h: u32) -> Vec<u8> {
    let mut v = Vec::new();
    for y in 0..h {
        for x in 0..w {
            v.push((x * 40) as u8);
            v.push((y * 60) as u8);
            v.push(((x + y) * 20) as u8);
        }
    }
    v
}

fn refusal(res: &Result<(Vec<u8>, u32, u32), DecodeError>) -> Option<String> {
    match res {
        Err(DecodeError::Unsupported(e)) => Some(e.0.clone()),
        _ => None,
    }
}

#[test]
fn tdjpg() {
    // An RGB JPEG screenshot held in memory.
    let pixels = rgb_pattern(64, 48);
    let file = jpeg_file(64, 48, image::ColorType::Rgb8, &pixels);
    let res = decode_jpg(&file);
    let (frame, (w, h)) = res.unwrap();
    assert_eq!((w, h), (64, 48));
    assert_eq!(frame.len(), 64 * 48 * 3);
}

#[test]
fn decode_any() {
    // A 16-bit RGBA PNG, which becomes 8-bit RGB.
    let mut data = Vec::new();
    for i in 0..(5 * 3 * 4) {
        data.push(0u8);
        data.push((i * 4) as u8);
    }
    let file = png_file(5, 3, png::ColorType::Rgba, png::BitDepth::Sixteen, &data);
    let (frame, w, h) = decode("/home/akitsuki/MEGAsync/test16bit.png", &file).unwrap();
    assert_eq!((w, h), (5, 3));
    assert_eq!(frame.len(), 5 * 3 * 3);
}

#[test]
fn decode_png_file_gives_exact_rgb() {
    let pixels = rgb_pattern(4, 3);
    let file = png_file(4, 3, png::ColorType::Rgb, png::BitDepth::Eight, &pixels);
    let (frame, w, h) = decode("shot.png", &file).unwrap();
    assert_eq!((w, h), (4, 3));
    assert_eq!(frame, pixels);
}

#[test]
fn decode_uppercase_extension_goes_to_image() {
    let pixels = rgb_pattern(2, 2);
    let file = png_file(2, 2, png::ColorType::Rgb, png::BitDepth::Eight, &pixels);
    let (frame, w, h) = decode("dir/SHOT.PNG", &file).unwrap();
    assert_eq!((w, h), (2, 2));
    assert_eq!(frame, pixels);
}

#[test]
fn decode_gray_png_becomes_rgb() {
    let gray = vec![0u8, 100, 200, 255];
    let file = png_file(2, 2, png::ColorType::Grayscale, png::BitDepth::Eight, &gray);
    let (frame, w, h) = decode("g.png", &file).unwrap();
    assert_eq!((w, h), (2, 2));
    assert_eq!(frame, vec![0, 0, 0, 100, 100, 100, 200, 200, 200, 255, 255, 255]);
}

#[test]
fn decode_refuses_jp2() {
    let res = decode("a/b/photo.JP2", &[1, 2, 3]);
    assert_eq!(refusal(&res).as_deref(), Some("jp2 format not support yet"));
}

#[test]
fn decode_refuses_heif() {
    let res = decode("photo.heic", &[]);
    assert_eq!(refusal(&res).as_deref(), Some("heif format not support yet"));
    let res = decode("photo.HeIf", &[9]);
    assert_eq!(refusal(&res).as_deref(), Some("heif format not support yet"));
}

#[test]
fn decode_refuses_avif() {
    let res = decode("out.avif", &[]);
    assert_eq!(refusal(&res).as_deref(), Some("avif will not process"));
}

#[test]
fn refusal_ignores_content() {
    let file = png_file(1, 1, png::ColorType::Rgb, png::BitDepth::Eight, &[1, 2, 3]);
    let a = decode("x.avif", &file);
    let b = decode("x.avif", &[0xff, 0xd8]);
    assert_eq!(refusal(&a), refusal(&b));
    assert!(refusal(&a).is_some());
}

#[test]
fn decode_unknown_extension_is_image_error() {
    let pixels = rgb_pattern(2, 2);
    let file = png_file(2, 2, png::ColorType::Rgb, png::BitDepth::Eight, &pixels);
    assert!(matches!(decode("shot.xyz", &file), Err(DecodeError::Image(_))));
}

#[test]
fn decode_broken_file_is_image_error() {
    assert!(matches!(decode("shot.png", &[1, 2, 3, 4]), Err(DecodeError::Image(_))));
    assert!(matches!(decode("shot.jpg", &[]), Err(DecodeError::Image(_))));
}

#[test]
fn decode_jpeg_by_extension() {
    let pixels = rgb_pattern(16, 8);
    let file = jpeg_file(16, 8, image::ColorType::Rgb8, &pixels);
    let (frame, w, h) = decode("p.JPEG", &file).unwrap();
    assert_eq!((w, h), (16, 8));
    assert_eq!(frame.len(), 16 * 8 * 3);
}

#[test]
fn try_decode_without_extension_is_none() {
    assert!(try_decode("README", &[1]).is_none());
    assert!(try_decode("dir.d/.hidden", &[1]).is_none());
    assert!(try_decode_route("dir/..").is_none());
    let res = try_decode("pic.jp2", &[]).unwrap();
    assert_eq!(refusal(&res).as_deref(), Some("jp2 format not support yet"));
}

#[test]
fn route_checks() {
    assert!(decode_route("a.png").is_ok());
    assert!(decode_route("a.PNG").is_ok());
    assert!(matches!(decode_route("a.Jp2"), Err(DecodeError::Unsupported(_))));
    assert!(matches!(try_decode_route("a.avif"), Some(Err(DecodeError::Unsupported(_)))));
    assert!(matches!(try_decode_route("a.tif"), Some(Ok(()))));
}

#[test]
fn route_ignores_case() {
    assert_eq!(route_of_extension(b"JP2"), DecodeRoute::Jp2k);
    assert_eq!(route_of_extension(b"jp2"), DecodeRoute::Jp2k);
    assert_eq!(route_of_extension(b"HEIC"), DecodeRoute::Heif);
    assert_eq!(route_of_extension(b"heif"), DecodeRoute::Heif);
    assert_eq!(route_of_extension(b"AvIf"), DecodeRoute::Avif);
    assert_eq!(route_of_extension(b"jp2k"), DecodeRoute::ByImage);
    assert_eq!(route_of_extension(b""), DecodeRoute::ByImage);
}

#[test]
fn ascii_lowercase_lowers_letters_only() {
    assert_eq!(ascii_lowercase(b"AbZ@[`az09"), b"abz@[`az09".to_vec());
    assert_eq!(ascii_lowercase("ÄB".as_bytes()), "Äb".as_bytes().to_vec());
    let once = ascii_lowercase(b"MiXeD");
    assert_eq!(ascii_lowercase(&once), once);
}

#[test]
fn decode_jpg_refuses_gray() {
    let gray = vec![10u8; 8 * 8];
    let file = jpeg_file(8, 8, image::ColorType::L8, &gray);
    match decode_jpg(&file) {
        Err(DecodeError::Unsupported(e)) => assert_eq!(e.0, "unsupport PixelFormat yet [gray or cmyk]"),
        _ => panic!("gray JPEG accepted"),
    }
}

#[test]
fn decode_jpg_broken_is_jpeg_error() {
    assert!(matches!(decode_jpg(&[0, 1, 2]), Err(DecodeError::Jpeg(_))));
    assert!(matches!(decode_jpg(&[]), Err(DecodeError::Jpeg(_))));
}

#[test]
fn decode_png_rgb8() {
    let pixels = rgb_pattern(3, 2);
    let file = png_file(3, 2, png::ColorType::Rgb, png::BitDepth::Eight, &pixels);
    let (frame, (w, h)) = decode_png(&file).unwrap();
    assert_eq!((w, h), (3, 2));
    assert_eq!(frame, pixels);
}

#[test]
fn decode_png_refuses_16_bit() {
    let data = vec![0u8; 2 * 2 * 6];
    let file = png_file(2, 2, png::ColorType::Rgb, png::BitDepth::Sixteen, &data);
    match decode_png(&file) {
        Err(DecodeError::Unsupported(e)) => assert_eq!(e.description(), "unsupport png bitdepth [8bit only now]"),
        _ => panic!("16-bit PNG accepted"),
    }
}

#[test]
fn decode_png_refuses_rgba() {
    let data = vec![7u8; 2 * 2 * 4];
    let file = png_file(2, 2, png::ColorType::Rgba, png::BitDepth::Eight, &data);
    match decode_png(&file) {
        Err(DecodeError::Unsupported(e)) => assert_eq!(e.description(), "unsupport png colortype [RGB only now]"),
        _ => panic!("RGBA PNG accepted"),
    }
}

#[test]
fn decode_png_broken_is_png_error() {
    assert!(matches!(decode_png(&[137, 80, 78]), Err(DecodeError::Png(_))));
}

#[test]
fn decode_err_keeps_message() {
    let e = DecodeErr::new("cannt read img info");
    assert_eq!(e.0, "cannt read img info");
    assert_eq!(e.description(), "cannt read img info");
}

#[test]
fn decode_refuses_as_route_does() {
    for path in ["a.jp2", "b.HEIF", "c.heic", "d.avif", "e.png", "f.jpg", "g.xyz"] {
        let refused_by_route = decode_route(path).is_err();
        let refused_by_decode = matches!(decode(path, &[]), Err(DecodeError::Unsupported(_)));
        assert_eq!(refused_by_route, refused_by_decode, "{}", path);
    }
}

#[test]
fn decoded_frames_hold_three_bytes_a_pixel() {
    let pixels = rgb_pattern(7, 5);
    let jpg = jpeg_file(7, 5, image::ColorType::Rgb8, &pixels);
    let (frame, (w, h)) = decode_jpg(&jpg).unwrap();
    assert_eq!(frame.len(), 3 * w as usize * h as usize);
    let png = png_file(7, 5, png::ColorType::Rgb, png::BitDepth::Eight, &pixels);
    let (frame, (w, h)) = decode_png(&png).unwrap();
    assert_eq!(frame.len(), 3 * w as usize * h as usize);
    let gray = png_file(7, 5, png::ColorType::Grayscale, png::BitDepth::Eight, &[3u8; 35]);
    let (frame, w, h) = decode("g.png", &gray).unwrap();
    assert_eq!(frame.len(), 3 * w as usize * h as usize);
}

#[test]
fn try_decode_takes_fitting_jpegs() {
    let pixels = rgb_pattern(6, 4);
    let file = jpeg_file(6, 4, image::ColorType::Rgb8, &pixels);
    let (frame, w, h) = try_decode("a/b.jpg", &file).unwrap().unwrap();
    assert_eq!((w, h), (6, 4));
    assert_eq!(frame.len(), 6 * 4 * 3);
    let gray = jpeg_file(8, 8, image::ColorType::L8, &vec![10u8; 64]);
    let (frame, w, h) = try_decode("g.JPEG", &gray).unwrap().unwrap();
    assert_eq!(frame.len(), 3 * w as usize * h as usize);
    assert!(matches!(try_decode("broken.jpg", &[1, 2, 3]), Some(Err(DecodeError::Image(_)))));
}
