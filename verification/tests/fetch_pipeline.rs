use pics2wall::app_config::AppConfig;
use pics2wall::app_gui::{Activity, FetchResult, MyApp};
use pics2wall::common_utils::{
    current_image_path_for, decode_body, fetch_pic, infer_image_kind, load_image_from_path, record_fetch,
    resolve_fetch, set_test_image_from_path, show_picture, start_fetch, FallbackImage, FetchOutcome,
    ImageFile, SavedImage,
};
use pics2wall::preview::{
    codec_for, decode_image, decode_or_none, decoder_for, has_lossless_frame, Codec, FetchError,
    ImageKind, PreviewImage,
};

fn picture(width: u32, height: u32, seed: u8) -> PreviewImage {
    let len = (width * height * 4) as usize;
    let pixels: Vec<u8> = (0..len).map(|i| seed.wrapping_add(i as u8)).collect();
    PreviewImage::new(width, height, pixels).unwrap()
}

fn fallback() -> FallbackImage {
    FallbackImage { bytes: vec![0xff, 0xd8, 0xff, 0xe0, 1, 2, 3], preview: picture(3, 2, 100) }
}

fn app_with(address: &str) -> MyApp {
    let mut config = AppConfig::default();
    config.image_address = address.to_string();
    MyApp::default(config, picture(1, 1, 7))
}

fn png_bytes(width: u32, height: u32, pixels: Vec<u8>) -> Vec<u8> {
    let buffer = image::RgbaImage::from_raw(width, height, pixels).unwrap();
    let mut out = std::io::Cursor::new(Vec::new());
    image::DynamicImage::ImageRgba8(buffer)
        .write_to(&mut out, image::ImageOutputFormat::Png)
        .unwrap();
    out.into_inner()
}

fn jpeg_bytes(width: u32, height: u32) -> Vec<u8> {
    let buffer = image::RgbImage::from_pixel(width, height, image::Rgb([200, 30, 30]));
    let mut out = std::io::Cursor::new(Vec::new());
    image::DynamicImage::ImageRgb8(buffer)
        .write_to(&mut out, image::ImageOutputFormat::Jpeg(90))
        .unwrap();
    out.into_inner()
}

#[test]
fn kind_is_inferred_from_the_last_characters() {
    assert_eq!(infer_image_kind("https://example.com/a.png"), ImageKind::Png);
    assert_eq!(infer_image_kind("https://example.com/a.jpg"), ImageKind::Jpeg);
    assert_eq!(infer_image_kind("https://example.com/a.jpeg"), ImageKind::Jpeg);
    assert_eq!(infer_image_kind("https://example.com/a.gif"), ImageKind::Unknown);
    assert_eq!(infer_image_kind("https://example.com/apng"), ImageKind::Unknown);
    assert_eq!(infer_image_kind("https://example.com/a.png?x=1"), ImageKind::Unknown);
    assert_eq!(infer_image_kind("https://example.com/a.jpg.png"), ImageKind::Png);
    assert_eq!(infer_image_kind(""), ImageKind::Unknown);
}

#[test]
fn extensions_and_paths_are_spelled_out() {
    assert_eq!(ImageKind::Png.extension(), "png");
    assert_eq!(ImageKind::Jpeg.extension(), "jpg");
    assert_eq!(ImageKind::Unknown.extension(), "unknown");
    assert_eq!(current_image_path_for("png"), "data/current.png");
    assert_eq!(current_image_path_for("jpg"), "data/current.jpg");
    assert_eq!(current_image_path_for(""), "data/current.");
}

#[test]
fn picture_needs_four_bytes_per_pixel() {
    assert!(PreviewImage::new(2, 3, vec![0; 24]).is_some());
    assert!(PreviewImage::new(2, 3, vec![0; 23]).is_none());
    assert!(PreviewImage::new(2, 3, vec![0; 25]).is_none());
    assert!(PreviewImage::new(0, 3, vec![]).is_some());
    assert!(PreviewImage::new(0, 0, vec![0]).is_none());
    assert!(PreviewImage::new(u32::MAX, u32::MAX, vec![0; 4]).is_none());
    let p = PreviewImage::new(2, 1, vec![1, 2, 3, 4, 5, 6, 7, 8]).unwrap();
    assert_eq!(p.width(), 2);
    assert_eq!(p.height(), 1);
    assert_eq!(p.pixels(), &[1, 2, 3, 4, 5, 6, 7, 8]);
    assert_eq!(p.clone(), p);
}

#[test]
fn decoding_a_png_gives_its_pixels() {
    let pixels = vec![10, 20, 30, 255, 40, 50, 60, 128, 70, 80, 90, 0, 1, 2, 3, 4, 5, 6, 7, 8, 9, 10, 11, 12];
    let bytes = png_bytes(3, 2, pixels.clone());
    let decoded = decode_image(&bytes, ImageKind::Png).unwrap();
    assert_eq!(decoded.width(), 3);
    assert_eq!(decoded.height(), 2);
    assert_eq!(decoded.pixels(), &pixels[..]);
    assert_ne!(decoded.pixels(), &bytes[..]);
}

#[test]
fn decoding_a_jpeg_gives_four_bytes_per_pixel() {
    let bytes = jpeg_bytes(5, 4);
    let decoded = decode_image(&bytes, ImageKind::Jpeg).unwrap();
    assert_eq!(decoded.width(), 5);
    assert_eq!(decoded.height(), 4);
    assert_eq!(decoded.pixels().len(), 5 * 4 * 4);
    assert!(decoded.pixels().chunks(4).all(|p| p[3] == 255 && p[0] > 150 && p[1] < 100));
}

#[test]
fn decoding_fails_on_bad_bytes_wrong_kind_and_unknown_kind() {
    let png = png_bytes(1, 1, vec![1, 2, 3, 4]);
    assert_eq!(decode_image(&[], ImageKind::Png), Err(FetchError::DecodeError));
    assert_eq!(decode_image(b"not an image", ImageKind::Jpeg), Err(FetchError::DecodeError));
    assert_eq!(decode_image(&png, ImageKind::Jpeg), Err(FetchError::DecodeError));
    assert_eq!(decode_image(&png, ImageKind::Unknown), Err(FetchError::DecodeError));
    assert_eq!(decode_image(&png[..png.len() / 2], ImageKind::Png), Err(FetchError::DecodeError));
}

#[test]
fn each_kind_is_handed_to_its_own_decoder() {
    assert_eq!(codec_for(ImageKind::Png), Some(Codec::Png));
    assert_eq!(codec_for(ImageKind::Jpeg), Some(Codec::Jpeg));
    assert_eq!(codec_for(ImageKind::Unknown), None);
}

#[test]
fn lossless_frame_is_found_by_its_two_bytes() {
    assert!(!has_lossless_frame(&[]));
    assert!(!has_lossless_frame(&[0xff]));
    assert!(!has_lossless_frame(&[0xc3]));
    assert!(has_lossless_frame(&[0xff, 0xc3]));
    assert!(!has_lossless_frame(&[0xc3, 0xff]));
    assert!(!has_lossless_frame(&[0xff, 0x00, 0xc3]));
    assert!(!has_lossless_frame(&[0xff, 0xc0, 0xff, 0xc2, 0xff, 0xc4]));
    assert!(has_lossless_frame(&[0xff, 0xd8, 0xff, 0xff, 0xc3, 0x00]));
    assert!(has_lossless_frame(&[1, 2, 3, 0xff, 0xc3]));
    assert!(has_lossless_frame(&[0xff, 0xc3, 1, 2, 3]));
    assert!(!has_lossless_frame(&[0xff, 0xc7, 0xff, 0xcb, 0xff, 0xcf]));
    assert!(!has_lossless_frame(&jpeg_bytes(8, 8)));
}

#[test]
fn a_jpeg_with_a_lossless_frame_is_handed_to_no_decoder() {
    let lossless = [0xff, 0xd8, 0xff, 0xc3, 0x00, 0x0b, 0x10, 0x00, 0x01, 0x00, 0x01];
    assert_eq!(decoder_for(&lossless, ImageKind::Jpeg), None);
    assert_eq!(decoder_for(&lossless, ImageKind::Png), Some(Codec::Png));
    assert_eq!(decoder_for(&lossless, ImageKind::Unknown), None);
    assert_eq!(decoder_for(&[], ImageKind::Jpeg), Some(Codec::Jpeg));
    assert_eq!(decoder_for(&jpeg_bytes(2, 2), ImageKind::Jpeg), Some(Codec::Jpeg));
    assert_eq!(decoder_for(&jpeg_bytes(2, 2), ImageKind::Unknown), None);
}

#[test]
fn a_jpeg_that_names_a_lossless_frame_is_refused() {
    let good = jpeg_bytes(4, 4);
    assert!(decode_image(&good, ImageKind::Jpeg).is_ok());
    let mut marked = good.clone();
    marked.extend_from_slice(&[0xff, 0xc3]);
    assert_eq!(decode_image(&marked, ImageKind::Jpeg), Err(FetchError::DecodeError));
    assert_eq!(decode_or_none(&marked, ImageKind::Jpeg), None);
    assert_eq!(decode_body(&Some(marked.clone()), ImageKind::Jpeg), None);

    // Twelve bits a sample in three components, one pixel: never decoded.
    let deep = [
        0xff, 0xd8, 0xff, 0xc3, 0x00, 0x11, 0x0c, 0x00, 0x01, 0x00, 0x01, 0x03, 0x01, 0x11, 0x00,
        0x02, 0x11, 0x00, 0x03, 0x11, 0x00, 0xff, 0xd9,
    ];
    assert_eq!(decode_image(&deep, ImageKind::Jpeg), Err(FetchError::DecodeError));

    let fb = fallback();
    let mut app = app_with("https://example.com/a.jpg");
    let saved = fetch_pic(&mut app, ImageKind::Jpeg, Some(marked), &fb);
    assert_eq!(app.last_fetch_result, FetchResult::Succeeded);
    assert_eq!(app.test_image, fb.preview);
    assert_eq!(saved, SavedImage { path: "data/current.jpg".to_string(), bytes: fb.bytes.clone() });
}

#[test]
fn the_two_bytes_do_not_keep_a_png_from_decoding() {
    let mut png = png_bytes(1, 1, vec![1, 2, 3, 4]);
    png.extend_from_slice(&[0xff, 0xc3]);
    assert!(has_lossless_frame(&png));
    let decoded = decode_image(&png, ImageKind::Png).unwrap();
    assert_eq!(decoded.pixels(), &[1, 2, 3, 4]);
}

fn renderable_or_refused(bytes: &[u8], kind: ImageKind) {
    if let Ok(picture) = decode_image(bytes, kind) {
        assert_eq!(
            picture.pixels().len() as u64,
            picture.width() as u64 * picture.height() as u64 * 4
        );
    }
}

#[test]
fn damaged_jpegs_decode_or_are_refused() {
    let good = jpeg_bytes(9, 7);
    for cut in 0..good.len() {
        renderable_or_refused(&good[..cut], ImageKind::Jpeg);
    }
    for at in 0..good.len() {
        for value in [0x00, 0x01, 0x08, 0x0c, 0x10, 0x7f, 0xc0, 0xc1, 0xc2, 0xc3, 0xc4, 0xda, 0xff] {
            let mut damaged = good.clone();
            damaged[at] = value;
            renderable_or_refused(&damaged, ImageKind::Jpeg);
        }
    }
}

#[test]
fn damaged_pngs_decode_or_are_refused() {
    let good = png_bytes(5, 3, (0..60).collect());
    for cut in 0..good.len() {
        renderable_or_refused(&good[..cut], ImageKind::Png);
    }
    for at in 0..good.len() {
        for value in [0x00, 0x01, 0x02, 0x03, 0x04, 0x06, 0x08, 0x10, 0x7f, 0x80, 0xff] {
            let mut damaged = good.clone();
            damaged[at] = value;
            renderable_or_refused(&damaged, ImageKind::Png);
        }
    }
}

#[test]
fn decode_or_none_gives_the_picture_or_nothing() {
    let png = png_bytes(1, 2, vec![1, 2, 3, 4, 5, 6, 7, 8]);
    let decoded = decode_or_none(&png, ImageKind::Png).unwrap();
    assert_eq!((decoded.width(), decoded.height()), (1, 2));
    assert_eq!(decoded.pixels(), &[1, 2, 3, 4, 5, 6, 7, 8]);
    assert!(decode_or_none(&jpeg_bytes(2, 2), ImageKind::Jpeg).is_some());
    assert_eq!(decode_or_none(&png, ImageKind::Jpeg), None);
    assert_eq!(decode_or_none(&png, ImageKind::Unknown), None);
    assert_eq!(decode_or_none(b"no picture", ImageKind::Png), None);
}

#[test]
fn decode_body_needs_a_body_of_known_kind_that_decodes() {
    let png = png_bytes(1, 1, vec![9, 9, 9, 9]);
    assert_eq!(
        decode_body(&Some(png.clone()), ImageKind::Png),
        PreviewImage::new(1, 1, vec![9, 9, 9, 9])
    );
    assert_eq!(decode_body(&None, ImageKind::Png), None);
    assert_eq!(decode_body(&Some(png.clone()), ImageKind::Unknown), None);
    assert_eq!(decode_body(&Some(png), ImageKind::Jpeg), None);
    assert_eq!(decode_body(&Some(vec![]), ImageKind::Png), None);
}

#[test]
fn load_image_goes_by_the_kind_of_the_file() {
    let png = png_bytes(1, 1, vec![9, 8, 7, 6]);
    let good = ImageFile { kind: ImageKind::Png, bytes: png.clone() };
    assert_eq!(load_image_from_path(&good).unwrap().pixels(), &[9, 8, 7, 6]);
    let unknown = ImageFile { kind: ImageKind::Unknown, bytes: png };
    assert_eq!(load_image_from_path(&unknown), Err(FetchError::DecodeError));
}

#[test]
fn resolve_transport_failure_keeps_the_fallback() {
    let fb = fallback();
    let outcome = resolve_fetch(ImageKind::Png, None, None, &fb);
    assert_eq!(
        outcome,
        FetchOutcome {
            result: FetchResult::Failed,
            kind: ImageKind::Jpeg,
            bytes: fb.bytes.clone(),
            preview: fb.preview.clone(),
            error: Some(FetchError::TransportError),
        }
    );
}

#[test]
fn resolve_transport_failure_wins_over_a_decoded_picture() {
    let fb = fallback();
    let outcome = resolve_fetch(ImageKind::Png, None, Some(picture(1, 1, 0)), &fb);
    assert_eq!(outcome.result, FetchResult::Failed);
    assert_eq!(outcome.preview, fb.preview);
    assert_eq!(outcome.error, Some(FetchError::TransportError));
}

#[test]
fn resolve_decode_failure_keeps_the_fallback_but_reports_the_transfer() {
    let fb = fallback();
    let outcome = resolve_fetch(ImageKind::Png, Some(vec![1, 2, 3]), None, &fb);
    assert_eq!(
        outcome,
        FetchOutcome {
            result: FetchResult::Succeeded,
            kind: ImageKind::Jpeg,
            bytes: fb.bytes.clone(),
            preview: fb.preview.clone(),
            error: Some(FetchError::DecodeError),
        }
    );
}

#[test]
fn resolve_success_keeps_the_body_and_its_picture() {
    let fb = fallback();
    let outcome = resolve_fetch(ImageKind::Png, Some(vec![1, 2, 3]), Some(picture(2, 2, 5)), &fb);
    assert_eq!(
        outcome,
        FetchOutcome {
            result: FetchResult::Succeeded,
            kind: ImageKind::Png,
            bytes: vec![1, 2, 3],
            preview: picture(2, 2, 5),
            error: None,
        }
    );
}

#[test]
fn start_fetch_shows_the_in_progress_picture() {
    let mut app = app_with("https://example.com/a.jpeg");
    let in_progress = picture(2, 2, 50);
    let (address, kind) = start_fetch(&mut app, &in_progress);
    assert_eq!(address, "https://example.com/a.jpeg");
    assert_eq!(kind, ImageKind::Jpeg);
    assert_eq!(app.status, Activity::Fetching);
    assert_eq!(app.test_image, in_progress);
    assert_eq!(app.last_fetch_result, FetchResult::NotRun);
    assert_eq!(app.last_fetch_time, None);
}

#[test]
fn record_fetch_puts_the_outcome_on_record() {
    let mut app = app_with("https://example.com/a.png");
    app.status = Activity::Fetching;
    let outcome = FetchOutcome {
        result: FetchResult::Succeeded,
        kind: ImageKind::Png,
        bytes: vec![4, 5, 6],
        preview: picture(1, 2, 9),
        error: None,
    };
    let saved = record_fetch(&mut app, outcome, "2024-01-02 03:04:05".to_string());
    assert_eq!(saved, SavedImage { path: "data/current.png".to_string(), bytes: vec![4, 5, 6] });
    assert_eq!(app.status, Activity::Idle);
    assert_eq!(app.last_fetch_result, FetchResult::Succeeded);
    assert_eq!(app.last_fetch_time, Some("2024-01-02 03:04:05".to_string()));
    assert_eq!(app.test_image, picture(1, 2, 9));
    assert_eq!(app.config.file_type, "png");
    assert_eq!(app.config.image_address, "https://example.com/a.png");
}

#[test]
fn unreachable_host_leaves_the_failed_placeholder() {
    let fb = fallback();
    let mut app = app_with("https://unreachable.invalid/a.png");
    app.status = Activity::Fetching;
    let saved = fetch_pic(&mut app, ImageKind::Png, None, &fb);
    assert_eq!(app.last_fetch_result, FetchResult::Failed);
    assert_eq!(app.test_image, fb.preview);
    assert_eq!(saved.bytes, fb.bytes);
    assert_eq!(saved.path, "data/current.jpg");
    assert_eq!(app.config.file_type, "jpg");
    assert_eq!(app.status, Activity::Idle);
    assert!(app.last_fetch_time.is_some());
}

#[test]
fn fetch_of_a_good_png_keeps_and_shows_it() {
    let fb = fallback();
    let pixels = vec![1, 2, 3, 255, 4, 5, 6, 255];
    let body = png_bytes(2, 1, pixels.clone());
    let mut app = app_with("https://example.com/a.png");
    let saved = fetch_pic(&mut app, ImageKind::Png, Some(body.clone()), &fb);
    assert_eq!(app.last_fetch_result, FetchResult::Succeeded);
    assert_eq!(app.test_image, PreviewImage::new(2, 1, pixels).unwrap());
    assert_eq!(saved, SavedImage { path: "data/current.png".to_string(), bytes: body });
    assert_eq!(app.config.file_type, "png");
    assert_eq!(app.status, Activity::Idle);
}

#[test]
fn fetch_of_a_good_jpeg_keeps_it_as_jpg() {
    let fb = fallback();
    let body = jpeg_bytes(4, 4);
    let mut app = app_with("https://example.com/a.jpeg");
    let saved = fetch_pic(&mut app, ImageKind::Jpeg, Some(body.clone()), &fb);
    assert_eq!(app.last_fetch_result, FetchResult::Succeeded);
    assert_eq!(app.test_image.width(), 4);
    assert_eq!(app.test_image.pixels().len(), 64);
    assert_eq!(saved, SavedImage { path: "data/current.jpg".to_string(), bytes: body });
    assert_eq!(app.config.file_type, "jpg");
}

#[test]
fn fetch_of_undecodable_bytes_falls_back_but_reports_the_transfer() {
    let fb = fallback();
    let mut app = app_with("https://example.com/a.png");
    let saved = fetch_pic(&mut app, ImageKind::Png, Some(b"<html>not found</html>".to_vec()), &fb);
    assert_eq!(app.last_fetch_result, FetchResult::Succeeded);
    assert_eq!(app.test_image, fb.preview);
    assert_eq!(saved, SavedImage { path: "data/current.jpg".to_string(), bytes: fb.bytes.clone() });
    assert_eq!(app.config.file_type, "jpg");
    assert_eq!(app.status, Activity::Idle);
}

#[test]
fn fetch_of_unknown_kind_is_never_decoded() {
    let fb = fallback();
    let body = png_bytes(1, 1, vec![1, 2, 3, 4]);
    let mut app = app_with("https://example.com/picture");
    let saved = fetch_pic(&mut app, ImageKind::Unknown, Some(body), &fb);
    assert_eq!(app.last_fetch_result, FetchResult::Succeeded);
    assert_eq!(app.test_image, fb.preview);
    assert_eq!(saved.bytes, fb.bytes);
    assert_eq!(saved.path, "data/current.jpg");
}

#[test]
fn fetch_records_a_timestamp_of_date_and_time() {
    let fb = fallback();
    let mut app = app_with("https://example.com/a.png");
    fetch_pic(&mut app, ImageKind::Png, None, &fb);
    let at = app.last_fetch_time.clone().unwrap();
    let shape: String =
        at.chars().map(|c| if c.is_ascii_digit() { '9' } else { c }).collect();
    assert_eq!(shape, "9999-99-99 99:99:99");
}

#[test]
fn every_fetch_outcome_leaves_a_renderable_picture() {
    let fb = fallback();
    let bodies: Vec<Option<Vec<u8>>> = vec![
        None,
        Some(vec![]),
        Some(b"garbage".to_vec()),
        Some(png_bytes(2, 2, vec![7; 16])),
        Some(jpeg_bytes(3, 3)),
    ];
    for kind in [ImageKind::Png, ImageKind::Jpeg, ImageKind::Unknown] {
        for body in &bodies {
            let mut app = app_with("https://example.com/a.png");
            let saved = fetch_pic(&mut app, kind, body.clone(), &fb);
            let shown = &app.test_image;
            assert_eq!(
                shown.pixels().len() as u64,
                shown.width() as u64 * shown.height() as u64 * 4
            );
            assert_eq!(app.status, Activity::Idle);
            assert!(!saved.bytes.is_empty());
        }
    }
}

#[test]
fn showing_a_picture_keeps_the_configuration() {
    let fb = fallback();
    let mut app = app_with("https://example.com/a.png");
    app.config.file_type = "png".to_string();
    let kept = show_picture(&mut app, Some(picture(2, 1, 3)), &fb);
    assert_eq!(kept, None);
    assert_eq!(app.test_image, picture(2, 1, 3));
    assert_eq!(app.config.file_type, "png");
}

#[test]
fn showing_nothing_falls_back_and_keeps_the_fallback_file() {
    let fb = fallback();
    let mut app = app_with("https://example.com/a.png");
    app.config.file_type = "png".to_string();
    let kept = show_picture(&mut app, None, &fb);
    assert_eq!(
        kept,
        Some(SavedImage { path: "data/current.jpg".to_string(), bytes: fb.bytes.clone() })
    );
    assert_eq!(app.test_image, fb.preview);
    assert_eq!(app.config.file_type, "jpg");
}

#[test]
fn set_test_image_decodes_the_file_or_falls_back() {
    let fb = fallback();
    let mut app = app_with("https://example.com/a.png");
    let good = ImageFile { kind: ImageKind::Png, bytes: png_bytes(1, 1, vec![5, 6, 7, 8]) };
    assert_eq!(set_test_image_from_path(&mut app, &good, &fb), None);
    assert_eq!(app.test_image.pixels(), &[5, 6, 7, 8]);
    assert_eq!(app.config.file_type, "");

    let bad = ImageFile { kind: ImageKind::Jpeg, bytes: vec![1, 2, 3] };
    let kept = set_test_image_from_path(&mut app, &bad, &fb);
    assert_eq!(
        kept,
        Some(SavedImage { path: "data/current.jpg".to_string(), bytes: fb.bytes.clone() })
    );
    assert_eq!(app.test_image, fb.preview);
    assert_eq!(app.config.file_type, "jpg");
}
