//! The conversion pipeline: identity shortcut, decode/encode round trips,
//! and the error behaviour on malformed input.

use image_converter::dispatch::{convert_to_webp, encode, encode_with, WebpPolicy};
use image_converter::errors::ConverterError;
use image_converter::formats::ImageFormat;
use image_converter::main_converter::convert_bytes;
use image_converter::normalize::decode;
use image_converter::pixel::{drop_alpha, CanonicalPixelBuffer, PixelLayout};

fn sample_buffer() -> CanonicalPixelBuffer {
    CanonicalPixelBuffer {
        width: 2,
        height: 2,
        layout: PixelLayout::Rgba8,
        data: vec![
            255, 0, 0, 255, // red, opaque
            0, 255, 0, 128, // green, half transparent
            0, 0, 255, 64, // blue, mostly transparent
            255, 255, 255, 0, // white, fully transparent
        ],
    }
}

const ALL_FORMATS: [ImageFormat; 6] = [
    ImageFormat::PNG,
    ImageFormat::JPEG,
    ImageFormat::WEBP,
    ImageFormat::GIF,
    ImageFormat::ICO,
    ImageFormat::BMP,
];

#[test]
fn same_format_conversion_returns_input_unchanged() {
    // The identity law holds for all six formats, and does not look at the
    // bytes at all.
    let bytes: Vec<u8> = vec![7, 13, 42, 0, 255, 1];
    for format in ALL_FORMATS {
        let out = convert_bytes(bytes.clone(), format, format).unwrap();
        assert_eq!(out, bytes);
    }
}

#[test]
fn round_trip_through_every_target_preserves_dimensions() {
    let buffer = sample_buffer();
    for target in ALL_FORMATS {
        let encoded = encode(&buffer, &target).unwrap();
        assert_ne!(encoded, buffer.data, "{:?}", target);
        let decoded = decode(&encoded, &target).unwrap();
        assert_eq!(decoded.width, 2, "{:?}", target);
        assert_eq!(decoded.height, 2, "{:?}", target);
        assert_eq!(decoded.layout, PixelLayout::Rgba8);
        assert_eq!(decoded.data.len(), 16);
    }
}

#[test]
fn png_round_trip_is_lossless() {
    let buffer = sample_buffer();
    let encoded = encode(&buffer, &ImageFormat::PNG).unwrap();
    let decoded = decode(&encoded, &ImageFormat::PNG).unwrap();
    assert_eq!(decoded.data, buffer.data);
}

#[test]
fn lossless_webp_round_trip_is_lossless() {
    let buffer = sample_buffer();
    let encoded = encode_with(&buffer, &ImageFormat::WEBP, &WebpPolicy::Lossless).unwrap();
    let decoded = decode(&encoded, &ImageFormat::WEBP).unwrap();
    assert_eq!(decoded.data, buffer.data);
}

#[test]
fn lossy_webp_encodes_and_decodes() {
    let buffer = sample_buffer();
    let encoded = encode_with(&buffer, &ImageFormat::WEBP, &WebpPolicy::Lossy(80)).unwrap();
    let lossless = encode_with(&buffer, &ImageFormat::WEBP, &WebpPolicy::Lossless).unwrap();
    assert_ne!(encoded, lossless);
    let decoded = decode(&encoded, &ImageFormat::WEBP).unwrap();
    assert_eq!((decoded.width, decoded.height), (2, 2));
}

#[test]
fn png_to_jpeg_to_png_keeps_width_and_height() {
    // The JPEG stage drops the alpha channel; the dimensions survive both
    // conversions.
    let buffer = sample_buffer();
    let png = encode(&buffer, &ImageFormat::PNG).unwrap();

    let jpeg = convert_bytes(png.clone(), ImageFormat::PNG, ImageFormat::JPEG).unwrap();
    let jpeg_image =
        image::load_from_memory_with_format(&jpeg, image::ImageFormat::Jpeg).unwrap();
    assert_eq!(jpeg_image.color(), image::ColorType::Rgb8);
    assert_eq!((jpeg_image.width(), jpeg_image.height()), (2, 2));

    let png_again = convert_bytes(jpeg, ImageFormat::JPEG, ImageFormat::PNG).unwrap();
    let decoded = decode(&png_again, &ImageFormat::PNG).unwrap();
    assert_eq!((decoded.width, decoded.height), (2, 2));
    assert_eq!(decoded.layout, PixelLayout::Rgba8);
}

#[test]
fn drop_alpha_keeps_color_bytes() {
    let buffer = sample_buffer();
    let rgb = drop_alpha(&buffer);
    assert_eq!(rgb.layout, PixelLayout::Rgb8);
    assert_eq!((rgb.width, rgb.height), (2, 2));
    assert_eq!(rgb.data, vec![255, 0, 0, 0, 255, 0, 0, 0, 255, 255, 255, 255]);
}

#[test]
fn cross_format_conversions_produce_valid_targets() {
    // BMP -> GIF and GIF -> BMP, through real encoded bytes.
    let buffer = sample_buffer();
    let bmp = encode(&buffer, &ImageFormat::BMP).unwrap();
    let gif = convert_bytes(bmp.clone(), ImageFormat::BMP, ImageFormat::GIF).unwrap();
    let decoded = decode(&gif, &ImageFormat::GIF).unwrap();
    assert_eq!((decoded.width, decoded.height), (2, 2));
    let back = convert_bytes(gif, ImageFormat::GIF, ImageFormat::BMP).unwrap();
    let decoded = decode(&back, &ImageFormat::BMP).unwrap();
    assert_eq!((decoded.width, decoded.height), (2, 2));
}

#[test]
fn ico_conversion_extracts_the_first_entry() {
    let buffer = sample_buffer();
    let ico = encode(&buffer, &ImageFormat::ICO).unwrap();
    let png = convert_bytes(ico, ImageFormat::ICO, ImageFormat::PNG).unwrap();
    let decoded = decode(&png, &ImageFormat::PNG).unwrap();
    assert_eq!((decoded.width, decoded.height), (2, 2));
    assert_eq!(decoded.data, sample_buffer().data);
}

#[test]
fn test_empty_ico_file() {
    let empty_data = Vec::new();
    let result = convert_bytes(empty_data, ImageFormat::ICO, ImageFormat::PNG);
    assert!(result.is_err());
}

#[test]
fn test_invalid_ico_data() {
    let invalid_data = vec![0x00, 0x01, 0x02, 0x03]; // Not a valid ICO
    let result = convert_bytes(invalid_data, ImageFormat::ICO, ImageFormat::PNG);
    assert!(result.is_err());
}

#[test]
fn ico_with_zero_entries_fails_with_conversion_error() {
    // A syntactically well-formed icon directory whose entry count is zero:
    // reserved word 0, resource type 1 (icon), count 0.
    let header = vec![0x00, 0x00, 0x01, 0x00, 0x00, 0x00];
    let result = decode(&header, &ImageFormat::ICO);
    assert!(matches!(result, Err(ConverterError::ConversionError(_))));
    let result = convert_bytes(header, ImageFormat::ICO, ImageFormat::PNG);
    assert!(matches!(result, Err(ConverterError::ConversionError(_))));
}

#[test]
fn invalid_bytes_fail_decode_with_conversion_error() {
    let junk = b"this is not an image at all".to_vec();
    for format in ALL_FORMATS {
        let result = decode(&junk, &format);
        assert!(
            matches!(result, Err(ConverterError::ConversionError(_))),
            "{:?}",
            format
        );
        let result = convert_bytes(junk.clone(), format, ImageFormat::PNG);
        if format != ImageFormat::PNG {
            assert!(matches!(result, Err(ConverterError::ConversionError(_))));
        }
    }
}

#[test]
fn empty_bytes_fail_decode() {
    for format in ALL_FORMATS {
        assert!(decode(&Vec::new(), &format).is_err(), "{:?}", format);
    }
}

#[test]
fn declared_format_must_match_content() {
    // Valid PNG bytes declared as JPEG are rejected rather than sniffed.
    let buffer = sample_buffer();
    let png = encode(&buffer, &ImageFormat::PNG).unwrap();
    let result = convert_bytes(png, ImageFormat::JPEG, ImageFormat::PNG);
    assert!(matches!(result, Err(ConverterError::ConversionError(_))));
}

#[test]
fn gif_encoder_rejects_oversized_dimensions() {
    // The GIF container caps each dimension at 65535.
    let width: u32 = 70000;
    let buffer = CanonicalPixelBuffer {
        width,
        height: 1,
        layout: PixelLayout::Rgba8,
        data: vec![0; width as usize * 4],
    };
    let result = encode(&buffer, &ImageFormat::GIF);
    assert!(matches!(result, Err(ConverterError::ConversionError(_))));
}

#[test]
fn lossy_webp_rejects_oversized_dimensions() {
    // libwebp caps each dimension at 16383; the engine reports the bound as
    // a conversion error instead of calling the encoder.
    let width: u32 = 20000;
    let buffer = CanonicalPixelBuffer {
        width,
        height: 1,
        layout: PixelLayout::Rgba8,
        data: vec![0; width as usize * 4],
    };
    let result = encode_with(&buffer, &ImageFormat::WEBP, &WebpPolicy::Lossy(80));
    assert!(matches!(result, Err(ConverterError::ConversionError(_))));
}

#[test]
fn ico_entry_with_oversized_declared_area_is_rejected() {
    // A well-formed one-entry icon directory whose BMP entry declares a
    // 33000 x 33000 image: the declared area is over the engine's cap, so
    // decode rejects it before the entry is decoded.
    let mut ico: Vec<u8> = Vec::new();
    ico.extend_from_slice(&0u16.to_le_bytes()); // reserved
    ico.extend_from_slice(&1u16.to_le_bytes()); // resource type: icon
    ico.extend_from_slice(&1u16.to_le_bytes()); // one entry
    ico.push(0); // width byte (0 = 256 or more)
    ico.push(0); // height byte
    ico.push(0); // palette size
    ico.push(0); // reserved
    ico.extend_from_slice(&1u16.to_le_bytes()); // color planes
    ico.extend_from_slice(&32u16.to_le_bytes()); // bits per pixel
    ico.extend_from_slice(&40u32.to_le_bytes()); // data size
    ico.extend_from_slice(&22u32.to_le_bytes()); // data offset
    // BITMAPINFOHEADER with the oversized dimensions (height stored doubled).
    ico.extend_from_slice(&40u32.to_le_bytes());
    ico.extend_from_slice(&33000i32.to_le_bytes());
    ico.extend_from_slice(&66000i32.to_le_bytes());
    ico.extend_from_slice(&1u16.to_le_bytes());
    ico.extend_from_slice(&32u16.to_le_bytes());
    ico.extend_from_slice(&[0u8; 24]); // compression through colors-important
    assert_eq!(ico.len(), 62);

    let result = decode(&ico, &ImageFormat::ICO);
    assert!(matches!(result, Err(ConverterError::ConversionError(_))));
    let result = convert_bytes(ico, ImageFormat::ICO, ImageFormat::PNG);
    assert!(matches!(result, Err(ConverterError::ConversionError(_))));
}

#[test]
fn convert_to_webp_without_dimensions_always_fails() {
    let result = convert_to_webp(vec![0, 0, 0, 255], &ImageFormat::WEBP);
    assert!(matches!(result, Err(ConverterError::ConversionError(_))));
}

#[test]
fn error_messages_are_carried() {
    let err = ConverterError::ReadError(String::from("gone"));
    assert_eq!(err.message(), "gone");
}
