use image::GenericImageView;
use resizer::cache::LruCache;
use resizer::coordinator::handle_resize;
use resizer::coordinator::handle_upload;
use resizer::coordinator::ResizeError;
use resizer::coordinator::ResizeParams;
use resizer::coordinator::Upload;

fn small_png() -> Vec<u8> {
    let img = image::DynamicImage::new_rgb8(4, 4);
    let mut cursor = std::io::Cursor::new(Vec::new());
    img.write_to(&mut cursor, image::ImageOutputFormat::Png)
        .unwrap();
    cursor.into_inner()
}

fn default_params() -> ResizeParams {
    ResizeParams::defaults()
}

#[test]
fn defaults_are_800_600_80() {
    let p = ResizeParams::defaults();
    assert_eq!(p.width, 800);
    assert_eq!(p.height, 600);
    assert_eq!(p.quality, 80);
}

#[test]
fn valid_png_yields_jpeg_of_requested_size() {
    // A valid upload named photo.png at 800 by 600, quality 80: the response
    // carries the attachment header and a JPEG body of exactly 800 by 600.
    let mut cache = LruCache::new(100);
    let resp = handle_resize(&mut cache, "photo.png", &small_png(), default_params()).unwrap();
    assert_eq!(
        resp.content_disposition,
        "attachment; filename=\"resized_photo.png\""
    );
    assert!(!resp.served_from_cache);
    assert_eq!(
        image::guess_format(&resp.body).unwrap(),
        image::ImageFormat::Jpeg
    );
    let out = image::load_from_memory(&resp.body).unwrap();
    assert_eq!(out.dimensions(), (800, 600));
}

#[test]
fn resized_dimensions_follow_parameters() {
    let mut cache = LruCache::new(100);
    let params = ResizeParams { width: 32, height: 48, quality: 90 };
    let resp = handle_resize(&mut cache, "photo.png", &small_png(), params).unwrap();
    let out = image::load_from_memory(&resp.body).unwrap();
    assert_eq!(out.dimensions(), (32, 48));
}

#[test]
fn repeated_request_is_served_from_cache() {
    // The same request twice: byte-identical responses, and the second is a
    // hit, so the transform did not run again.
    let mut cache = LruCache::new(100);
    let png = small_png();
    let first = handle_resize(&mut cache, "photo.png", &png, default_params()).unwrap();
    assert!(!first.served_from_cache);
    let second = handle_resize(&mut cache, "photo.png", &png, default_params()).unwrap();
    assert!(second.served_from_cache);
    assert_eq!(first.body, second.body);
    let third = handle_resize(&mut cache, "photo.png", &png, default_params()).unwrap();
    assert!(third.served_from_cache);
    assert_eq!(first.body, third.body);
}

#[test]
fn different_parameters_miss_the_cache() {
    let mut cache = LruCache::new(100);
    let png = small_png();
    let first = handle_resize(&mut cache, "photo.png", &png, default_params()).unwrap();
    assert!(!first.served_from_cache);
    let params = ResizeParams { width: 400, height: 300, quality: 80 };
    let other = handle_resize(&mut cache, "photo.png", &png, params).unwrap();
    assert!(!other.served_from_cache);
}

#[test]
fn malformed_bytes_fail_with_400_and_leave_no_entry() {
    let mut cache = LruCache::new(100);
    let garbage = vec![0u8, 1, 2, 3, 4, 5];
    let err = handle_resize(&mut cache, "bad.png", &garbage, default_params()).unwrap_err();
    assert!(matches!(err, ResizeError::Decode(_)));
    assert_eq!(err.status_code(), 400);
    assert_eq!(cache.len(), 0);
    // A later valid request under the same name still misses: nothing was
    // memoized for the failed one.
    let resp = handle_resize(&mut cache, "bad.png", &small_png(), default_params()).unwrap();
    assert!(!resp.served_from_cache);
}

#[test]
fn truncated_image_fails_with_400() {
    let mut png = small_png();
    png.truncate(8);
    let mut cache = LruCache::new(100);
    let err = handle_resize(&mut cache, "cut.png", &png, default_params()).unwrap_err();
    assert_eq!(err.status_code(), 400);
    assert_eq!(cache.len(), 0);
}

#[test]
fn missing_file_field_is_rejected() {
    let mut cache = LruCache::new(100);
    let err = handle_upload(&mut cache, None, default_params()).unwrap_err();
    assert!(matches!(err, ResizeError::NoFile));
    assert_eq!(err.status_code(), 400);
    assert_eq!(err.message(), "No image found");
    assert_eq!(cache.len(), 0);
}

#[test]
fn missing_filename_is_rejected() {
    let mut cache = LruCache::new(100);
    let upload = Upload { filename: None, data: small_png() };
    let err = handle_upload(&mut cache, Some(upload), default_params()).unwrap_err();
    assert!(matches!(err, ResizeError::NoFilename));
    assert_eq!(err.status_code(), 400);
    assert_eq!(err.message(), "Filename not found");
    assert_eq!(cache.len(), 0);
}

#[test]
fn upload_with_filename_is_resized() {
    let mut cache = LruCache::new(100);
    let upload = Upload { filename: Some("photo.png".to_string()), data: small_png() };
    let resp = handle_upload(&mut cache, Some(upload), default_params()).unwrap();
    assert_eq!(
        resp.content_disposition,
        "attachment; filename=\"resized_photo.png\""
    );
    let out = image::load_from_memory(&resp.body).unwrap();
    assert_eq!(out.dimensions(), (800, 600));
    assert_eq!(cache.len(), 1);
}
