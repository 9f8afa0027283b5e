//! Trusted bindings to the codec crates.
//!
//! Every call out of the verified engine into a codec crate stands here, in a
//! small wrapper whose contract Verus believes.  Each decoder or encoder
//! result is a pure function of the wrapper's arguments, so it is given a
//! name (an uninterpreted spec function); the wrappers' contracts relate what
//! comes back at run time to those names, and the verified engine's own
//! contracts are stated over them.
//!
//! Where a codec's own arithmetic would overflow on extreme dimensions, the
//! wrapper's `requires` fences those inputs out, and the verified caller
//! tests the bound first and fails with the engine's error instead.

use vstd::prelude::*;

verus! {

/// libwebp rejects any picture wider or taller than this, and its stride
/// arithmetic is only safe below it.
pub const MAX_WEBP_DIMENSION: u32 = 16383;

/// The engine's cap on the pixel area of an icon bundle entry, far above any
/// real icon.  The icon decoder's row arithmetic runs in 32 bits; entries
/// whose declared area exceeds this cap are rejected before decoding.
pub const MAX_ICON_ENTRY_PIXELS: u64 = 0x0100_0000;

/// What the PNG decoder yields on given bytes: `None` when the bytes are not
/// a valid PNG image, else the width, height and raw RGBA8 bytes.
pub uninterp spec fn png_rgba_of(bytes: Seq<u8>) -> Option<(u32, u32, Seq<u8>)>;

/// What the JPEG decoder yields on given bytes (as `png_rgba_of`, for JPEG).
pub uninterp spec fn jpeg_rgba_of(bytes: Seq<u8>) -> Option<(u32, u32, Seq<u8>)>;

/// What the WebP decoder yields on given bytes (as `png_rgba_of`, for WebP).
pub uninterp spec fn webp_rgba_of(bytes: Seq<u8>) -> Option<(u32, u32, Seq<u8>)>;

/// What the GIF decoder yields on given bytes: the first frame of a valid
/// GIF (as `png_rgba_of`, for GIF).
pub uninterp spec fn gif_rgba_of(bytes: Seq<u8>) -> Option<(u32, u32, Seq<u8>)>;

/// What the BMP decoder yields on given bytes (as `png_rgba_of`, for BMP).
pub uninterp spec fn bmp_rgba_of(bytes: Seq<u8>) -> Option<(u32, u32, Seq<u8>)>;

/// What parsing an icon directory yields on given bytes: `None` when the
/// bytes are not a well-formed icon directory, else its number of entries
/// (which may be zero).
pub uninterp spec fn ico_entry_count_of(bytes: Seq<u8>) -> Option<int>;

/// The declared width and height of the first entry of a well-formed,
/// non-empty icon bundle, as the icon directory reports them before the
/// entry is decoded.
pub uninterp spec fn ico_first_dims_of(bytes: Seq<u8>) -> (u32, u32);

/// What decoding the first entry of a well-formed, non-empty icon bundle
/// yields: `None` when that entry's image data is malformed, else the
/// entry's width, height and raw RGBA8 bytes.
pub uninterp spec fn ico_first_rgba_of(bytes: Seq<u8>) -> Option<(u32, u32, Seq<u8>)>;

/// What the PNG encoder yields on an RGBA8 buffer of the given dimensions:
/// `None` when the encoder rejects the input, else the encoded bytes.
pub uninterp spec fn png_encoded_of(width: u32, height: u32, rgba: Seq<u8>) -> Option<Seq<u8>>;

/// What the GIF encoder yields on an RGBA8 buffer (as `png_encoded_of`).
pub uninterp spec fn gif_encoded_of(width: u32, height: u32, rgba: Seq<u8>) -> Option<Seq<u8>>;

/// What the BMP encoder yields on an RGBA8 buffer (as `png_encoded_of`).
pub uninterp spec fn bmp_encoded_of(width: u32, height: u32, rgba: Seq<u8>) -> Option<Seq<u8>>;

/// What the JPEG encoder yields on an RGB8 buffer of the given dimensions:
/// `None` when the encoder rejects the input, else the encoded bytes.
pub uninterp spec fn jpeg_encoded_of(width: u32, height: u32, rgb: Seq<u8>) -> Option<Seq<u8>>;

/// What the lossless WebP encoder yields on an RGBA8 buffer (as
/// `png_encoded_of`).
pub uninterp spec fn webp_lossless_of(width: u32, height: u32, rgba: Seq<u8>) -> Option<Seq<u8>>;

/// What the lossy WebP encoder yields on an RGBA8 buffer at a quality on the
/// 0 to 100 scale: `None` when libwebp reports an error, else the bytes.
pub uninterp spec fn webp_lossy_of(width: u32, height: u32, rgba: Seq<u8>, quality: u8) -> Option<
    Seq<u8>,
>;

/// What the icon encoder yields on an RGBA8 buffer: a single-entry icon
/// bundle, or `None` when the entry cannot be encoded.
pub uninterp spec fn ico_encoded_of(width: u32, height: u32, rgba: Seq<u8>) -> Option<Seq<u8>>;

/// Relies on `image::load_from_memory_with_format` with the PNG format and
/// `DynamicImage::to_rgba8`: decodes PNG bytes into an RGBA8 pixel buffer
/// whose raw length is `width * height * 4`.
#[verifier::external_body]
pub(crate) fn decode_png_rgba(bytes: &[u8]) -> (r: Result<(u32, u32, Vec<u8>), String>)
    ensures
        r matches Ok(t) ==> png_rgba_of(bytes@) == Some((t.0, t.1, t.2@)) && t.2@.len() == t.0
            * t.1 * 4,
        r is Err <==> png_rgba_of(bytes@) is None,
{
    match image::load_from_memory_with_format(bytes, image::ImageFormat::Png) {
        Ok(img) => {
            let rgba = img.to_rgba8();
            let (w, h) = (rgba.width(), rgba.height());
            Ok((w, h, rgba.into_raw()))
        },
        Err(e) => Err(e.to_string()),
    }
}

/// Relies on `image::load_from_memory_with_format` with the JPEG format and
/// `DynamicImage::to_rgba8`, as `decode_png_rgba`.
#[verifier::external_body]
pub(crate) fn decode_jpeg_rgba(bytes: &[u8]) -> (r: Result<(u32, u32, Vec<u8>), String>)
    ensures
        r matches Ok(t) ==> jpeg_rgba_of(bytes@) == Some((t.0, t.1, t.2@)) && t.2@.len() == t.0
            * t.1 * 4,
        r is Err <==> jpeg_rgba_of(bytes@) is None,
{
    match image::load_from_memory_with_format(bytes, image::ImageFormat::Jpeg) {
        Ok(img) => {
            let rgba = img.to_rgba8();
            let (w, h) = (rgba.width(), rgba.height());
            Ok((w, h, rgba.into_raw()))
        },
        Err(e) => Err(e.to_string()),
    }
}

/// Relies on `image::load_from_memory_with_format` with the WebP format and
/// `DynamicImage::to_rgba8`, as `decode_png_rgba`.
#[verifier::external_body]
pub(crate) fn decode_webp_rgba(bytes: &[u8]) -> (r: Result<(u32, u32, Vec<u8>), String>)
    ensures
        r matches Ok(t) ==> webp_rgba_of(bytes@) == Some((t.0, t.1, t.2@)) && t.2@.len() == t.0
            * t.1 * 4,
        r is Err <==> webp_rgba_of(bytes@) is None,
{
    match image::load_from_memory_with_format(bytes, image::ImageFormat::WebP) {
        Ok(img) => {
            let rgba = img.to_rgba8();
            let (w, h) = (rgba.width(), rgba.height());
            Ok((w, h, rgba.into_raw()))
        },
        Err(e) => Err(e.to_string()),
    }
}

/// Relies on `image::load_from_memory_with_format` with the GIF format and
/// `DynamicImage::to_rgba8`, as `decode_png_rgba`; a multi-frame GIF decodes
/// to its first frame.
#[verifier::external_body]
pub(crate) fn decode_gif_rgba(bytes: &[u8]) -> (r: Result<(u32, u32, Vec<u8>), String>)
    ensures
        r matches Ok(t) ==> gif_rgba_of(bytes@) == Some((t.0, t.1, t.2@)) && t.2@.len() == t.0
            * t.1 * 4,
        r is Err <==> gif_rgba_of(bytes@) is None,
{
    match image::load_from_memory_with_format(bytes, image::ImageFormat::Gif) {
        Ok(img) => {
            let rgba = img.to_rgba8();
            let (w, h) = (rgba.width(), rgba.height());
            Ok((w, h, rgba.into_raw()))
        },
        Err(e) => Err(e.to_string()),
    }
}

/// Relies on `image::load_from_memory_with_format` with the BMP format and
/// `DynamicImage::to_rgba8`, as `decode_png_rgba`; a BMP without an alpha
/// channel decodes to RGBA8 with full opacity.
#[verifier::external_body]
pub(crate) fn decode_bmp_rgba(bytes: &[u8]) -> (r: Result<(u32, u32, Vec<u8>), String>)
    ensures
        r matches Ok(t) ==> bmp_rgba_of(bytes@) == Some((t.0, t.1, t.2@)) && t.2@.len() == t.0
            * t.1 * 4,
        r is Err <==> bmp_rgba_of(bytes@) is None,
{
    match image::load_from_memory_with_format(bytes, image::ImageFormat::Bmp) {
        Ok(img) => {
            let rgba = img.to_rgba8();
            let (w, h) = (rgba.width(), rgba.height());
            Ok((w, h, rgba.into_raw()))
        },
        Err(e) => Err(e.to_string()),
    }
}

/// Relies on `ico::IconDir::read`: fails exactly when the bytes are not a
/// well-formed icon directory, and otherwise reports the entry count.
#[verifier::external_body]
pub(crate) fn ico_entry_count(bytes: &[u8]) -> (r: Option<usize>)
    ensures
        r matches Some(n) ==> ico_entry_count_of(bytes@) == Some(n as int),
        r is None <==> ico_entry_count_of(bytes@) is None,
{
    match ico::IconDir::read(std::io::Cursor::new(bytes)) {
        Ok(dir) => Some(dir.entries().len()),
        Err(_) => None,
    }
}

/// Relies on `ico::IconDir::read` and `ico::IconDirEntry::width`/`height`:
/// reports the declared dimensions of the first entry of a bundle already
/// known to parse with at least one entry.
#[verifier::external_body]
pub(crate) fn ico_first_dims(bytes: &[u8]) -> (r: (u32, u32))
    requires
        ico_entry_count_of(bytes@) matches Some(n) && n >= 1,
    ensures
        r == ico_first_dims_of(bytes@),
{
    let dir = ico::IconDir::read(std::io::Cursor::new(bytes)).unwrap();
    let entry = &dir.entries()[0];
    (entry.width(), entry.height())
}

/// Relies on `ico::IconDir::read` and `ico::IconDirEntry::decode` on the
/// first entry of a bundle already known to parse with at least one entry.
/// The decoder's row arithmetic runs in 32 bits, so the entry's declared
/// pixel area must lie under the engine's cap.
#[verifier::external_body]
pub(crate) fn ico_decode_first(bytes: &[u8]) -> (r: Result<(u32, u32, Vec<u8>), String>)
    requires
        ico_entry_count_of(bytes@) matches Some(n) && n >= 1,
        ico_first_dims_of(bytes@).0 * ico_first_dims_of(bytes@).1 <= MAX_ICON_ENTRY_PIXELS,
    ensures
        r matches Ok(t) ==> ico_first_rgba_of(bytes@) == Some((t.0, t.1, t.2@)),
        r is Err <==> ico_first_rgba_of(bytes@) is None,
{
    let dir = match ico::IconDir::read(std::io::Cursor::new(bytes)) {
        Ok(d) => d,
        Err(e) => return Err(e.to_string()),
    };
    match dir.entries()[0].decode() {
        Ok(img) => Ok((img.width(), img.height(), img.into_rgba_data())),
        Err(e) => Err(e.to_string()),
    }
}

/// Relies on `image::write_buffer_with_format` with the PNG format: encodes
/// an RGBA8 buffer of the given dimensions as PNG bytes.
#[verifier::external_body]
pub(crate) fn encode_png_rgba(width: u32, height: u32, data: &[u8]) -> (r: Result<Vec<u8>, String>)
    requires
        data@.len() == width * height * 4,
    ensures
        r matches Ok(v) ==> png_encoded_of(width, height, data@) == Some(v@),
        r is Err <==> png_encoded_of(width, height, data@) is None,
{
    let mut out = std::io::Cursor::new(Vec::new());
    let fmt = image::ImageFormat::Png;
    match image::write_buffer_with_format(&mut out, data, width, height, image::ExtendedColorType::Rgba8, fmt) {
        Ok(()) => Ok(out.into_inner()),
        Err(e) => Err(e.to_string()),
    }
}

/// Relies on `image::write_buffer_with_format` with the GIF format, as
/// `encode_png_rgba`; the buffer is written as a single frame.
#[verifier::external_body]
pub(crate) fn encode_gif_rgba(width: u32, height: u32, data: &[u8]) -> (r: Result<Vec<u8>, String>)
    requires
        data@.len() == width * height * 4,
    ensures
        r matches Ok(v) ==> gif_encoded_of(width, height, data@) == Some(v@),
        r is Err <==> gif_encoded_of(width, height, data@) is None,
{
    let mut out = std::io::Cursor::new(Vec::new());
    let fmt = image::ImageFormat::Gif;
    match image::write_buffer_with_format(&mut out, data, width, height, image::ExtendedColorType::Rgba8, fmt) {
        Ok(()) => Ok(out.into_inner()),
        Err(e) => Err(e.to_string()),
    }
}

/// Relies on `image::write_buffer_with_format` with the BMP format, as
/// `encode_png_rgba`.
#[verifier::external_body]
pub(crate) fn encode_bmp_rgba(width: u32, height: u32, data: &[u8]) -> (r: Result<Vec<u8>, String>)
    requires
        data@.len() == width * height * 4,
    ensures
        r matches Ok(v) ==> bmp_encoded_of(width, height, data@) == Some(v@),
        r is Err <==> bmp_encoded_of(width, height, data@) is None,
{
    let mut out = std::io::Cursor::new(Vec::new());
    let fmt = image::ImageFormat::Bmp;
    match image::write_buffer_with_format(&mut out, data, width, height, image::ExtendedColorType::Rgba8, fmt) {
        Ok(()) => Ok(out.into_inner()),
        Err(e) => Err(e.to_string()),
    }
}

/// Relies on `image::write_buffer_with_format` with the JPEG format: encodes
/// an RGB8 buffer (JPEG has no alpha channel) at the encoder's default
/// quality.
#[verifier::external_body]
pub(crate) fn encode_jpeg_rgb(width: u32, height: u32, data: &[u8]) -> (r: Result<Vec<u8>, String>)
    requires
        data@.len() == width * height * 3,
    ensures
        r matches Ok(v) ==> jpeg_encoded_of(width, height, data@) == Some(v@),
        r is Err <==> jpeg_encoded_of(width, height, data@) is None,
{
    let mut out = std::io::Cursor::new(Vec::new());
    let fmt = image::ImageFormat::Jpeg;
    match image::write_buffer_with_format(&mut out, data, width, height, image::ExtendedColorType::Rgb8, fmt) {
        Ok(()) => Ok(out.into_inner()),
        Err(e) => Err(e.to_string()),
    }
}

/// Relies on `image::codecs::webp::WebPEncoder::new_lossless` and its
/// `encode`: encodes an RGBA8 buffer as lossless (VP8L) WebP bytes.
#[verifier::external_body]
pub(crate) fn encode_webp_lossless(width: u32, height: u32, data: &[u8]) -> (r: Result<
    Vec<u8>,
    String,
>)
    requires
        data@.len() == width * height * 4,
    ensures
        r matches Ok(v) ==> webp_lossless_of(width, height, data@) == Some(v@),
        r is Err <==> webp_lossless_of(width, height, data@) is None,
{
    let mut out = Vec::new();
    let encoder = image::codecs::webp::WebPEncoder::new_lossless(&mut out);
    match encoder.encode(data, width, height, image::ExtendedColorType::Rgba8) {
        Ok(()) => Ok(out),
        Err(e) => Err(e.to_string()),
    }
}

/// Relies on `webp::Encoder::from_rgba` and `encode_simple` in lossy mode:
/// libwebp's encoding is deterministic, a function of the pixels, dimensions
/// and quality alone.  Its stride arithmetic runs in 32 bits, so the
/// dimensions must lie under libwebp's own maximum.
#[verifier::external_body]
pub(crate) fn encode_webp_lossy(width: u32, height: u32, data: &[u8], quality: u8) -> (r: Result<
    Vec<u8>,
    String,
>)
    requires
        data@.len() == width * height * 4,
        quality <= 100,
        width <= MAX_WEBP_DIMENSION,
        height <= MAX_WEBP_DIMENSION,
    ensures
        r matches Ok(v) ==> webp_lossy_of(width, height, data@, quality) == Some(v@),
        r is Err <==> webp_lossy_of(width, height, data@, quality) is None,
{
    let encoder = webp::Encoder::from_rgba(data, width, height);
    match encoder.encode_simple(false, quality.into()) {
        Ok(mem) => Ok(mem.to_vec()),
        Err(e) => Err(format!("lossy WebP encoding failed: {:?}", e)),
    }
}

/// Relies on `ico::IconImage::from_rgba_data`, `ico::IconDirEntry::encode`
/// and `ico::IconDir::write`: bundles one RGBA8 image as a single-entry
/// icon file.
#[verifier::external_body]
pub(crate) fn encode_ico_rgba(width: u32, height: u32, data: &[u8]) -> (r: Result<Vec<u8>, String>)
    requires
        1 <= width,
        1 <= height,
        width * height <= u32::MAX,
        data@.len() == width * height * 4,
    ensures
        r matches Ok(v) ==> ico_encoded_of(width, height, data@) == Some(v@),
        r is Err <==> ico_encoded_of(width, height, data@) is None,
{
    let img = ico::IconImage::from_rgba_data(width, height, data.to_vec());
    let entry = match ico::IconDirEntry::encode(&img) {
        Ok(e) => e,
        Err(e) => return Err(e.to_string()),
    };
    let mut dir = ico::IconDir::new(ico::ResourceType::Icon);
    dir.add_entry(entry);
    let mut out = Vec::new();
    match dir.write(&mut out) {
        Ok(()) => Ok(out),
        Err(e) => Err(e.to_string()),
    }
}

} // verus!
