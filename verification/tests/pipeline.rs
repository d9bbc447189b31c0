use hcrmi::batch::ProtoType as Batch;
use hcrmi::benchmark::{picture_label, screenshot_trials, speed_report_trials, speed_test_points, EncodeTrial, SpeedTestPoint};
use hcrmi::codecs::encoder::{to_rgb_pixels, Rgb8};
use hcrmi::naming::avif_file_name;
use hcrmi::ocr::remove_spaces;
use hcrmi::prototype::{CompressMode, ProtoType};
use hcrmi::report::ocr_report;

#[test]
fn pixels_group_triples() {
    let buf = vec![1u8, 2, 3, 4, 5, 6, 7, 8];
    let px = to_rgb_pixels(&buf);
    assert_eq!(px, vec![Rgb8 { r: 1, g: 2, b: 3 }, Rgb8 { r: 4, g: 5, b: 6 }]);
    assert!(to_rgb_pixels(&vec![1, 2]).is_empty());
    assert!(to_rgb_pixels(&Vec::new()).is_empty());
}

#[test]
fn spaces_are_removed() {
    assert_eq!(remove_spaces("你 好 世界"), "你好世界");
    assert_eq!(remove_spaces("  a  b "), "ab");
    assert_eq!(remove_spaces(""), "");
    assert_eq!(remove_spaces("tab\tstays"), "tab\tstays");
}

#[test]
fn removing_spaces_twice_changes_nothing() {
    let once = remove_spaces(" x y  z ");
    assert!(!once.contains(' '));
    assert_eq!(remove_spaces(&once), once);
}

#[test]
fn report_maps_names_to_texts() {
    let entries = vec![
        ("1.avif".to_string(), "你好".to_string()),
        ("2.avif".to_string(), "ab\"c".to_string()),
    ];
    let report = ocr_report(&entries);
    assert_eq!(report.dump(), r#"[{"1.avif":"你好"},{"2.avif":"ab\"c"}]"#);
    assert_eq!(report.len(), 2);
    assert_eq!(ocr_report(&Vec::new()).dump(), "[]");
}

#[test]
fn report_keeps_repeated_names() {
    let entries = vec![("a.avif".to_string(), "x".to_string()), ("a.avif".to_string(), "y".to_string())];
    assert_eq!(ocr_report(&entries).dump(), r#"[{"a.avif":"x"},{"a.avif":"y"}]"#);
}

#[test]
fn speed_report_schedule() {
    let t = speed_report_trials();
    assert_eq!(t.len(), 27);
    assert_eq!(t[0], EncodeTrial { frame: 1, quality: 5, speed: 2 });
    assert_eq!(t[2], EncodeTrial { frame: 1, quality: 35, speed: 2 });
    assert_eq!(t[3], EncodeTrial { frame: 1, quality: 5, speed: 3 });
    assert_eq!(t[9], EncodeTrial { frame: 0, quality: 5, speed: 2 });
    assert_eq!(t[17], EncodeTrial { frame: 0, quality: 35, speed: 5 });
    assert_eq!(t[18], EncodeTrial { frame: 2, quality: 85, speed: 2 });
    assert_eq!(t[26], EncodeTrial { frame: 2, quality: 95, speed: 5 });
}

#[test]
fn speed_test_schedule() {
    let p = speed_test_points();
    assert_eq!(p.len(), 75);
    assert_eq!(p[0], SpeedTestPoint { speed: 2, threads: 1, quality: 5 });
    assert_eq!(p[6], SpeedTestPoint { speed: 2, threads: 2, quality: 35 });
    assert_eq!(p[25], SpeedTestPoint { speed: 3, threads: 1, quality: 5 });
    assert_eq!(p[74], SpeedTestPoint { speed: 5, threads: 16, quality: 95 });
}

#[test]
fn screenshot_schedule() {
    let t = screenshot_trials();
    assert_eq!(t.len(), 18);
    assert_eq!(t[0], (5, 1));
    assert_eq!(t[8], (5, 9));
    assert_eq!(t[9], (10, 1));
    assert_eq!(t[17], (10, 9));
}

#[test]
fn prototype_steps_do_nothing() {
    ProtoType::init();
    ProtoType::input_forder();
    ProtoType::input_flie_paths();
    hcrmi::decode_jp2k("a.jp2");
    hcrmi::decode_heif("a.heic");
    assert_ne!(CompressMode::Quality, CompressMode::Storage);
}

#[test]
fn pictures_have_their_labels() {
    assert_eq!(picture_label(0), "<4k+ desktop screenshot>");
    assert_eq!(picture_label(1), "<2k+ smartphone screenshot>");
    assert_eq!(picture_label(2), "<photography>");
    let _: Option<Batch<u8>> = None;
}

fn std_avif_name(p: &str) -> Option<String> {
    let name = std::path::Path::new(p).file_name()?;
    let mut buf = std::path::PathBuf::from(name);
    buf.set_extension("avif");
    Some(buf.to_string_lossy().into_owned())
}

#[test]
fn avif_names_follow_set_extension() {
    assert_eq!(avif_file_name("dir/shot.png").as_deref(), Some("shot.avif"));
    assert_eq!(avif_file_name("/a/b/photo.JPG").as_deref(), Some("photo.avif"));
    assert_eq!(avif_file_name(".bashrc").as_deref(), Some(".bashrc.avif"));
    assert_eq!(avif_file_name("a.b.c").as_deref(), Some("a.b.avif"));
    assert_eq!(avif_file_name("foo.").as_deref(), Some("foo.avif"));
    assert_eq!(avif_file_name("noext").as_deref(), Some("noext.avif"));
    assert_eq!(avif_file_name("dir/").as_deref(), Some("dir.avif"));
    assert_eq!(avif_file_name("dir/.."), None);
    assert_eq!(avif_file_name("/"), None);
    for p in ["x/..y", "a/.b.c", "截图.png", "a..", "..x", "x/./y.tif", "q.avif"] {
        assert_eq!(avif_file_name(p), std_avif_name(p), "{}", p);
    }
}
