use resizer::coordinator::disposition_header;
use resizer::coordinator::health_body;
use resizer::coordinator::jpeg_content_type;
use resizer::coordinator::ResizeError;
use resizer::keys::derive_key;
use resizer::numeral::u32_to_decimal;

#[test]
fn decimal_renders_exact_numerals() {
    assert_eq!(u32_to_decimal(0), "0");
    assert_eq!(u32_to_decimal(7), "7");
    assert_eq!(u32_to_decimal(10), "10");
    assert_eq!(u32_to_decimal(42), "42");
    assert_eq!(u32_to_decimal(800), "800");
    assert_eq!(u32_to_decimal(600), "600");
    assert_eq!(u32_to_decimal(u32::MAX), "4294967295");
}

#[test]
fn key_concatenates_name_and_parameters() {
    assert_eq!(derive_key("photo.png", 800, 600, 80), "photo.png_800_600_80");
    assert_eq!(derive_key("a", 1, 2, 3), "a_1_2_3");
    assert_eq!(derive_key("", 0, 0, 0), "_0_0_0");
}

#[test]
fn keys_distinguish_parameters() {
    let k1 = derive_key("photo.png", 800, 600, 80);
    let k2 = derive_key("photo.png", 800, 600, 81);
    let k3 = derive_key("photo.png", 801, 600, 80);
    let k4 = derive_key("other.png", 800, 600, 80);
    assert_ne!(k1, k2);
    assert_ne!(k1, k3);
    assert_ne!(k1, k4);
}

#[test]
fn disposition_names_the_resized_file() {
    assert_eq!(
        disposition_header("photo.png"),
        "attachment; filename=\"resized_photo.png\""
    );
}

#[test]
fn fixed_response_strings() {
    assert_eq!(jpeg_content_type(), "image/jpeg");
    assert_eq!(health_body(), "Healthy");
}

#[test]
fn client_errors_are_400() {
    assert_eq!(ResizeError::NoFile.status_code(), 400);
    assert_eq!(ResizeError::NoFilename.status_code(), 400);
    assert_eq!(ResizeError::Decode("bad".to_string()).status_code(), 400);
}

#[test]
fn internal_errors_are_500() {
    assert_eq!(ResizeError::Transport("lost".to_string()).status_code(), 500);
    assert_eq!(ResizeError::Encode("fail".to_string()).status_code(), 500);
}

#[test]
fn error_messages() {
    assert_eq!(ResizeError::NoFile.message(), "No image found");
    assert_eq!(ResizeError::NoFilename.message(), "Filename not found");
    assert_eq!(ResizeError::Decode("not an image".to_string()).message(), "not an image");
    assert_eq!(ResizeError::Transport("lost".to_string()).message(), "lost");
    assert_eq!(ResizeError::Encode("fail".to_string()).message(), "fail");
}
