//! Output path derivation for the path-based conversion entry point.

use image_converter::errors::ConverterError;
use image_converter::formats::ImageFormat;
use image_converter::main_converter::derive_output_path;

#[test]
fn output_path_replaces_the_extension() {
    assert_eq!(derive_output_path("photo.png", &ImageFormat::JPEG).unwrap(), "photo.jpg");
    assert_eq!(derive_output_path("photo.jpeg", &ImageFormat::JPEG).unwrap(), "photo.jpg");
    assert_eq!(derive_output_path("dir/photo.bmp", &ImageFormat::WEBP).unwrap(), "dir/photo.webp");
    assert_eq!(derive_output_path("a.tar.gif", &ImageFormat::ICO).unwrap(), "a.tar.ico");
}

#[test]
fn colliding_output_path_is_rejected_before_any_io() {
    for (name, target) in [
        ("photo.png", ImageFormat::PNG),
        ("photo.jpg", ImageFormat::JPEG),
        ("photo.webp", ImageFormat::WEBP),
        ("photo.gif", ImageFormat::GIF),
        ("photo.ico", ImageFormat::ICO),
        ("photo.bmp", ImageFormat::BMP),
    ] {
        let result = derive_output_path(name, &target);
        assert!(matches!(result, Err(ConverterError::UnsupportedFormat(_))), "{}", name);
    }
}

#[test]
fn collision_check_is_exact_on_the_extension_text() {
    // "photo.PNG" derives "photo.png", which differs from the input, so the
    // request is allowed; same-format handling then copies the bytes.
    assert_eq!(derive_output_path("photo.PNG", &ImageFormat::PNG).unwrap(), "photo.png");
    // "photo.jpeg" derives "photo.jpg": the alias does not collide.
    assert_eq!(derive_output_path("photo.jpeg", &ImageFormat::JPEG).unwrap(), "photo.jpg");
}

#[test]
fn input_without_extension_is_rejected() {
    let result = derive_output_path("photo", &ImageFormat::PNG);
    assert!(matches!(result, Err(ConverterError::UnsupportedFormat(_))));
}
