//! The pixel normalizer: decodes an encoded byte buffer of any supported
//! format into a canonical RGBA8 pixel buffer.
//!
//! Decoding fails with `ConversionError` when the bytes are empty or not a
//! valid instance of the declared format, or when the decoded dimensions are
//! zero.  An icon bundle additionally fails when it holds no entries, when
//! its first entry declares a pixel area over the engine's cap, or when that
//! entry's pixel data does not cover its dimensions.  The icon policy is
//! first-entry-wins, stated here rather than left implicit: whatever order
//! the bundle keeps its resolutions in, entry zero is the one converted.

use vstd::prelude::*;

use crate::backend;
use crate::errors::ConverterError;
use crate::formats::ImageFormat;
use crate::pixel::CanonicalPixelBuffer;
use crate::pixel::PixelLayout;

verus! {

/// Keeps a decoder result only when its dimensions are positive.
pub open spec fn spec_accept(r: Option<(u32, u32, Seq<u8>)>) -> Option<(u32, u32, Seq<u8>)> {
    match r {
        Some((w, h, p)) => if 1 <= w && 1 <= h {
            Some((w, h, p))
        } else {
            None
        },
        None => None,
    }
}

/// What decoding an icon bundle yields: the first entry of a well-formed,
/// non-empty bundle whose declared pixel area lies under the engine's cap,
/// provided its dimensions are positive and its pixel data covers them
/// exactly.
pub open spec fn spec_decode_ico(bytes: Seq<u8>) -> Option<(u32, u32, Seq<u8>)> {
    match backend::ico_entry_count_of(bytes) {
        None => None,
        Some(n) => if n < 1 {
            None
        } else if backend::ico_first_dims_of(bytes).0 * backend::ico_first_dims_of(bytes).1
            > backend::MAX_ICON_ENTRY_PIXELS {
            None
        } else {
            match backend::ico_first_rgba_of(bytes) {
                None => None,
                Some((w, h, p)) => if 1 <= w && 1 <= h && p.len() == w * h * 4 {
                    Some((w, h, p))
                } else {
                    None
                },
            }
        },
    }
}

/// What decoding bytes declared as `format` yields: `None` when the bytes
/// are rejected, else the width, height and RGBA8 pixels of the canonical
/// buffer.
pub open spec fn spec_decode(format: ImageFormat, bytes: Seq<u8>) -> Option<(u32, u32, Seq<u8>)> {
    match format {
        ImageFormat::PNG => spec_accept(backend::png_rgba_of(bytes)),
        ImageFormat::JPEG => spec_accept(backend::jpeg_rgba_of(bytes)),
        ImageFormat::WEBP => spec_accept(backend::webp_rgba_of(bytes)),
        ImageFormat::GIF => spec_accept(backend::gif_rgba_of(bytes)),
        ImageFormat::BMP => spec_accept(backend::bmp_rgba_of(bytes)),
        ImageFormat::ICO => spec_decode_ico(bytes),
    }
}

/// Builds the canonical buffer from a decoded image whose byte length
/// already covers its dimensions, rejecting zero dimensions.
fn buffer_from_decoded(t: (u32, u32, Vec<u8>)) -> (r: Result<CanonicalPixelBuffer, ConverterError>)
    requires
        t.2@.len() == t.0 * t.1 * 4,
    ensures
        r matches Ok(b) ==> {
            &&& b.wf()
            &&& b.layout is Rgba8
            &&& b.width == t.0
            &&& b.height == t.1
            &&& b.data@ == t.2@
        },
        r is Ok <==> (1 <= t.0 && 1 <= t.1),
        r matches Err(e) ==> e is ConversionError,
{
    let (w, h, data) = t;
    if w == 0 || h == 0 {
        return Err(ConverterError::ConversionError("decoded image has zero dimensions".to_owned()));
    }
    Ok(CanonicalPixelBuffer { width: w, height: h, layout: PixelLayout::Rgba8, data })
}

/// Decodes an icon bundle to its first entry, with the defensive checks on
/// entry count, declared pixel area, dimensions and pixel data length.
fn decode_ico(bytes: &Vec<u8>) -> (r: Result<CanonicalPixelBuffer, ConverterError>)
    ensures
        r matches Ok(b) ==> {
            &&& b.wf()
            &&& b.layout is Rgba8
            &&& spec_decode_ico(bytes@) == Some((b.width, b.height, b.data@))
        },
        r is Ok <==> spec_decode_ico(bytes@) is Some,
        r matches Err(e) ==> e is ConversionError,
{
    let count = match backend::ico_entry_count(bytes.as_slice()) {
        Some(c) => c,
        None => {
            return Err(ConverterError::ConversionError("failed to read ICO file".to_owned()));
        },
    };
    if count == 0 {
        return Err(ConverterError::ConversionError("ICO file contains no icons".to_owned()));
    }
    let (dw, dh) = backend::ico_first_dims(bytes.as_slice());
    proof {
        assert((dw as int) * (dh as int) <= 0xFFFF_FFFF * 0xFFFF_FFFF) by (nonlinear_arith)
            requires
                0 <= dw as int <= 0xFFFF_FFFF,
                0 <= dh as int <= 0xFFFF_FFFF,
        ;
    }
    if (dw as u64) * (dh as u64) > backend::MAX_ICON_ENTRY_PIXELS {
        return Err(
            ConverterError::ConversionError("icon dimensions exceed the supported size".to_owned()),
        );
    }
    let (w, h, data) = match backend::ico_decode_first(bytes.as_slice()) {
        Ok(t) => t,
        Err(m) => {
            return Err(ConverterError::ConversionError(m));
        },
    };
    if w == 0 || h == 0 {
        return Err(ConverterError::ConversionError("invalid icon dimensions".to_owned()));
    }
    proof {
        assert((w as int) * (h as int) * 4 <= 0xFFFF_FFFF * 0xFFFF_FFFF * 4) by (nonlinear_arith)
            requires
                0 <= w as int <= 0xFFFF_FFFF,
                0 <= h as int <= 0xFFFF_FFFF,
        ;
    }
    let expected: u128 = (w as u128) * (h as u128) * 4;
    if (data.len() as u128) != expected {
        return Err(ConverterError::ConversionError("invalid icon pixel data length".to_owned()));
    }
    Ok(CanonicalPixelBuffer { width: w, height: h, layout: PixelLayout::Rgba8, data })
}

/// Decodes `bytes`, declared to hold a `format` image, into a canonical
/// RGBA8 buffer.  Fails with `ConversionError` exactly when the declared
/// decoder rejects the bytes, the decoded dimensions are zero, or an icon
/// bundle is empty or malformed; in particular a bundle with zero entries
/// always fails and never yields an empty buffer.
pub fn decode(bytes: &Vec<u8>, format: &ImageFormat) -> (r: Result<
    CanonicalPixelBuffer,
    ConverterError,
>)
    ensures
        r matches Ok(b) ==> {
            &&& b.wf()
            &&& b.layout is Rgba8
            &&& spec_decode(*format, bytes@) == Some((b.width, b.height, b.data@))
        },
        r is Ok <==> spec_decode(*format, bytes@) is Some,
        r matches Err(e) ==> e is ConversionError,
        *format is ICO && backend::ico_entry_count_of(bytes@) == Some(0int) ==> r is Err,
{
    match format {
        ImageFormat::PNG => {
            match backend::decode_png_rgba(bytes.as_slice()) {
                Ok(t) => buffer_from_decoded(t),
                Err(m) => Err(ConverterError::ConversionError(m)),
            }
        },
        ImageFormat::JPEG => {
            match backend::decode_jpeg_rgba(bytes.as_slice()) {
                Ok(t) => buffer_from_decoded(t),
                Err(m) => Err(ConverterError::ConversionError(m)),
            }
        },
        ImageFormat::WEBP => {
            match backend::decode_webp_rgba(bytes.as_slice()) {
                Ok(t) => buffer_from_decoded(t),
                Err(m) => Err(ConverterError::ConversionError(m)),
            }
        },
        ImageFormat::GIF => {
            match backend::decode_gif_rgba(bytes.as_slice()) {
                Ok(t) => buffer_from_decoded(t),
                Err(m) => Err(ConverterError::ConversionError(m)),
            }
        },
        ImageFormat::BMP => {
            match backend::decode_bmp_rgba(bytes.as_slice()) {
                Ok(t) => buffer_from_decoded(t),
                Err(m) => Err(ConverterError::ConversionError(m)),
            }
        },
        ImageFormat::ICO => decode_ico(bytes),
    }
}

} // verus!
