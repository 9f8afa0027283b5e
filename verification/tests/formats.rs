//! Extension lookup and canonical extensions.

use image_converter::formats::ImageFormat;

#[test]
fn extension_lookup_is_case_insensitive() {
    let cases = [
        ("photo.png", ImageFormat::PNG),
        ("photo.PNG", ImageFormat::PNG),
        ("photo.PnG", ImageFormat::PNG),
        ("photo.jpg", ImageFormat::JPEG),
        ("photo.JPG", ImageFormat::JPEG),
        ("photo.jpeg", ImageFormat::JPEG),
        ("PHOTO.JPEG", ImageFormat::JPEG),
        ("photo.webp", ImageFormat::WEBP),
        ("photo.WebP", ImageFormat::WEBP),
        ("photo.gif", ImageFormat::GIF),
        ("photo.GIF", ImageFormat::GIF),
        ("photo.ico", ImageFormat::ICO),
        ("photo.IcO", ImageFormat::ICO),
        ("photo.bmp", ImageFormat::BMP),
        ("photo.bMp", ImageFormat::BMP),
    ];
    for (name, expected) in cases {
        assert_eq!(ImageFormat::from_extension(Some(name)), Some(expected), "{}", name);
    }
}

#[test]
fn unknown_or_missing_extensions_match_nothing() {
    assert_eq!(ImageFormat::from_extension(Some("photo.txt")), None);
    assert_eq!(ImageFormat::from_extension(Some("photo.pngx")), None);
    assert_eq!(ImageFormat::from_extension(Some("photopng")), None);
    assert_eq!(ImageFormat::from_extension(Some("photo.")), None);
    assert_eq!(ImageFormat::from_extension(Some("")), None);
    assert_eq!(ImageFormat::from_extension(None), None);
}

#[test]
fn dotted_directories_use_the_last_dot() {
    assert_eq!(ImageFormat::from_extension(Some("a.tar.png")), Some(ImageFormat::PNG));
    assert_eq!(ImageFormat::from_extension(Some("a.png.txt")), None);
}

#[test]
fn canonical_extensions() {
    assert_eq!(ImageFormat::PNG.to_extension(), "png");
    assert_eq!(ImageFormat::JPEG.to_extension(), "jpg");
    assert_eq!(ImageFormat::WEBP.to_extension(), "webp");
    assert_eq!(ImageFormat::GIF.to_extension(), "gif");
    assert_eq!(ImageFormat::ICO.to_extension(), "ico");
    assert_eq!(ImageFormat::BMP.to_extension(), "bmp");
}

#[test]
fn lowercase_canonical_form_agrees_with_any_case() {
    // Every supported extension, in a scrambled case, maps exactly as its
    // lowercase canonical form does.
    let pairs = [
        ("x.PNG", "x.png"),
        ("x.JpEg", "x.jpeg"),
        ("x.JPG", "x.jpg"),
        ("x.WEBP", "x.webp"),
        ("x.GiF", "x.gif"),
        ("x.ICO", "x.ico"),
        ("x.BMP", "x.bmp"),
        ("x.TIFF", "x.tiff"),
    ];
    for (scrambled, lower) in pairs {
        assert_eq!(
            ImageFormat::from_extension(Some(scrambled)),
            ImageFormat::from_extension(Some(lower)),
            "{}",
            scrambled
        );
    }
}
