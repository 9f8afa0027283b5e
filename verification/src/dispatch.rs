//! The encoder dispatch: turns a canonical RGBA8 buffer into encoded bytes
//! for a target format.
//!
//! Each target declares the pixel model it requires.  PNG, BMP, GIF, WEBP
//! and ICO take the RGBA8 bytes as they stand; JPEG has no alpha channel, so
//! its encoder takes the buffer with the alpha bytes dropped - lossy with
//! respect to transparency, by the nature of the container.
//!
//! WebP encoding follows one policy for every caller: lossless by default,
//! with a lossy mode at a caller-chosen quality available through
//! [`WebpPolicy`], so that which code path was reached never silently picks
//! a different strategy.

use vstd::prelude::*;

use crate::backend;
use crate::errors::ConverterError;
use crate::formats::ImageFormat;
use crate::pixel::CanonicalPixelBuffer;
use crate::pixel::drop_alpha;
use crate::pixel::rgb_of;

verus! {

/// How a WebP target is encoded: without loss, or lossy at a quality on the
/// 0 to 100 scale.
#[derive(Debug, Clone, Copy, PartialEq, Eq, Structural)]
pub enum WebpPolicy {
    Lossless,
    Lossy(u8),
}

impl WebpPolicy {
    /// A lossy quality must lie on the 0 to 100 scale.
    pub open spec fn valid(self) -> bool {
        match self {
            WebpPolicy::Lossless => true,
            WebpPolicy::Lossy(q) => q <= 100,
        }
    }
}

impl Default for WebpPolicy {
    /// The one default the engine uses everywhere: lossless.
    fn default() -> (r: WebpPolicy)
        ensures
            r == WebpPolicy::Lossless,
    {
        WebpPolicy::Lossless
    }
}

/// What encoding an RGBA8 buffer for `target` yields: `None` when the
/// encoder rejects the input, else the encoded bytes.
pub open spec fn spec_encode(
    width: u32,
    height: u32,
    rgba: Seq<u8>,
    target: ImageFormat,
    webp: WebpPolicy,
) -> Option<Seq<u8>> {
    match target {
        ImageFormat::PNG => backend::png_encoded_of(width, height, rgba),
        ImageFormat::JPEG => backend::jpeg_encoded_of(width, height, rgb_of(rgba)),
        ImageFormat::WEBP => match webp {
            WebpPolicy::Lossless => backend::webp_lossless_of(width, height, rgba),
            WebpPolicy::Lossy(q) => if width <= backend::MAX_WEBP_DIMENSION && height
                <= backend::MAX_WEBP_DIMENSION {
                backend::webp_lossy_of(width, height, rgba, q)
            } else {
                None
            },
        },
        ImageFormat::GIF => backend::gif_encoded_of(width, height, rgba),
        ImageFormat::ICO => if width * height <= u32::MAX {
            backend::ico_encoded_of(width, height, rgba)
        } else {
            None
        },
        ImageFormat::BMP => backend::bmp_encoded_of(width, height, rgba),
    }
}

/// Encodes a canonical RGBA8 buffer for `target` under the given WebP
/// policy.  Fails with `ConversionError` exactly when the target's encoder
/// rejects the buffer.
pub fn encode_with(
    buffer: &CanonicalPixelBuffer,
    target: &ImageFormat,
    webp: &WebpPolicy,
) -> (r: Result<Vec<u8>, ConverterError>)
    requires
        buffer.wf(),
        buffer.layout is Rgba8,
        webp.valid(),
    ensures
        r matches Ok(v) ==> spec_encode(buffer.width, buffer.height, buffer.data@, *target, *webp)
            == Some(v@),
        r is Ok <==> spec_encode(buffer.width, buffer.height, buffer.data@, *target, *webp)
            is Some,
        r matches Err(e) ==> e is ConversionError,
{
    match target {
        ImageFormat::PNG => {
            match backend::encode_png_rgba(buffer.width, buffer.height, buffer.data.as_slice()) {
                Ok(v) => Ok(v),
                Err(m) => Err(ConverterError::ConversionError(m)),
            }
        },
        ImageFormat::JPEG => {
            let rgb = drop_alpha(buffer);
            match backend::encode_jpeg_rgb(rgb.width, rgb.height, rgb.data.as_slice()) {
                Ok(v) => Ok(v),
                Err(m) => Err(ConverterError::ConversionError(m)),
            }
        },
        ImageFormat::WEBP => {
            match webp {
                WebpPolicy::Lossless => {
                    match backend::encode_webp_lossless(
                        buffer.width,
                        buffer.height,
                        buffer.data.as_slice(),
                    ) {
                        Ok(v) => Ok(v),
                        Err(m) => Err(ConverterError::ConversionError(m)),
                    }
                },
                WebpPolicy::Lossy(q) => {
                    if buffer.width > backend::MAX_WEBP_DIMENSION || buffer.height
                        > backend::MAX_WEBP_DIMENSION {
                        return Err(
                            ConverterError::ConversionError(
                                "image too large for the lossy WebP encoder".to_owned(),
                            ),
                        );
                    }
                    match backend::encode_webp_lossy(
                        buffer.width,
                        buffer.height,
                        buffer.data.as_slice(),
                        *q,
                    ) {
                        Ok(v) => Ok(v),
                        Err(m) => Err(ConverterError::ConversionError(m)),
                    }
                },
            }
        },
        ImageFormat::GIF => {
            match backend::encode_gif_rgba(buffer.width, buffer.height, buffer.data.as_slice()) {
                Ok(v) => Ok(v),
                Err(m) => Err(ConverterError::ConversionError(m)),
            }
        },
        ImageFormat::ICO => {
            proof {
                assert((buffer.width as int) * (buffer.height as int) <= 0xFFFF_FFFF
                    * 0xFFFF_FFFF) by (nonlinear_arith)
                    requires
                        0 <= buffer.width as int <= 0xFFFF_FFFF,
                        0 <= buffer.height as int <= 0xFFFF_FFFF,
                ;
            }
            let area: u64 = (buffer.width as u64) * (buffer.height as u64);
            if area > 0xFFFF_FFFFu64 {
                return Err(
                    ConverterError::ConversionError("image too large for an icon entry".to_owned()),
                );
            }
            match backend::encode_ico_rgba(buffer.width, buffer.height, buffer.data.as_slice()) {
                Ok(v) => Ok(v),
                Err(m) => Err(ConverterError::ConversionError(m)),
            }
        },
        ImageFormat::BMP => {
            match backend::encode_bmp_rgba(buffer.width, buffer.height, buffer.data.as_slice()) {
                Ok(v) => Ok(v),
                Err(m) => Err(ConverterError::ConversionError(m)),
            }
        },
    }
}

/// Encodes a canonical RGBA8 buffer for `target` under the default policy
/// (lossless WebP).
pub fn encode(buffer: &CanonicalPixelBuffer, target: &ImageFormat) -> (r: Result<
    Vec<u8>,
    ConverterError,
>)
    requires
        buffer.wf(),
        buffer.layout is Rgba8,
    ensures
        r matches Ok(v) ==> spec_encode(
            buffer.width,
            buffer.height,
            buffer.data@,
            *target,
            WebpPolicy::Lossless,
        ) == Some(v@),
        r is Ok <==> spec_encode(
            buffer.width,
            buffer.height,
            buffer.data@,
            *target,
            WebpPolicy::Lossless,
        ) is Some,
        r matches Err(e) ==> e is ConversionError,
{
    encode_with(buffer, target, &WebpPolicy::Lossless)
}

/// Encoding raw RGBA bytes without their dimensions is not supported: the
/// byte sequence alone does not determine the image.  This entry point is
/// kept for compatibility and always fails; decode into a
/// `CanonicalPixelBuffer` and use `encode` instead.
pub fn convert_to_webp(rgba_data: Vec<u8>, _format: &ImageFormat) -> (r: Result<
    Vec<u8>,
    ConverterError,
>)
    ensures
        r matches Err(e) && e is ConversionError,
{
    let _ = rgba_data;
    Err(
        ConverterError::ConversionError(
            "raw RGBA bytes carry no dimensions; decode to a pixel buffer and encode that".to_owned(),
        ),
    )
}

} // verus!
