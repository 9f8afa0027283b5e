//! The conversion orchestrator: decode, then encode, for any pair of
//! supported formats, with the same-format shortcut.
//!
//! `convert_bytes` is the byte-level entry point.  When source and target
//! formats are equal it returns the input unchanged, byte for byte, without
//! decoding.  Otherwise every pair routes through the pixel normalizer and
//! the encoder dispatch, and any stage failure aborts the conversion with
//! the most specific error kind.
//!
//! `derive_output_path` computes the output path the path-based entry point
//! writes to, replacing the input's extension with the target's canonical
//! one; it rejects an input whose extension already equals the target's,
//! before any I/O can happen, so that a conversion never silently
//! overwrites its own input.

use vstd::prelude::*;
use vstd::string::StrSliceExecFns;
use vstd::string::StringExecFns;

use crate::dispatch;
use crate::dispatch::WebpPolicy;
use crate::errors::ConverterError;
use crate::formats::ImageFormat;
use crate::formats::spec_ext_after_dot;
use crate::formats::spec_extension;
use crate::formats::spec_stem_with_dot;
use crate::normalize;

verus! {

/// What converting bytes from `source` to `target` yields when the formats
/// differ: the decoded canonical buffer, encoded for the target; `None`
/// when either stage rejects its input.
pub open spec fn spec_convert_bytes(
    bytes: Seq<u8>,
    source: ImageFormat,
    target: ImageFormat,
    webp: WebpPolicy,
) -> Option<Seq<u8>> {
    match normalize::spec_decode(source, bytes) {
        None => None,
        Some((w, h, p)) => dispatch::spec_encode(w, h, p, target, webp),
    }
}

/// Converts encoded bytes from `source` to `target` under the given WebP
/// policy.  Equal formats return the input unchanged; otherwise the bytes
/// are decoded and re-encoded, and every failure is a `ConversionError`.
pub fn convert_bytes_with(
    input_bytes: Vec<u8>,
    source_format: ImageFormat,
    target_format: ImageFormat,
    webp: WebpPolicy,
) -> (r: Result<Vec<u8>, ConverterError>)
    requires
        webp.valid(),
    ensures
        source_format == target_format ==> (r matches Ok(v) && v@ == input_bytes@),
        source_format != target_format ==> {
            &&& r matches Ok(v) ==> spec_convert_bytes(input_bytes@, source_format, target_format, webp)
                == Some(v@)
            &&& (r is Ok <==> spec_convert_bytes(
                input_bytes@,
                source_format,
                target_format,
                webp,
            ) is Some)
            &&& r matches Err(e) ==> e is ConversionError
        },
{
    if source_format == target_format {
        return Ok(input_bytes);
    }
    let buffer = match normalize::decode(&input_bytes, &source_format) {
        Ok(b) => b,
        Err(e) => {
            return Err(e);
        },
    };
    dispatch::encode_with(&buffer, &target_format, &webp)
}

/// Converts encoded bytes from `source` to `target` under the default WebP
/// policy (lossless).  Equal formats return the input unchanged, byte for
/// byte; otherwise the result is exactly the decoded buffer encoded for the
/// target, and the conversion fails with a `ConversionError` exactly when a
/// stage rejects its input.
pub fn convert_bytes(
    input_bytes: Vec<u8>,
    source_format: ImageFormat,
    target_format: ImageFormat,
) -> (r: Result<Vec<u8>, ConverterError>)
    ensures
        source_format == target_format ==> (r matches Ok(v) && v@ == input_bytes@),
        source_format != target_format ==> {
            &&& r matches Ok(v) ==> spec_convert_bytes(
                input_bytes@,
                source_format,
                target_format,
                WebpPolicy::Lossless,
            ) == Some(v@)
            &&& (r is Ok <==> spec_convert_bytes(
                input_bytes@,
                source_format,
                target_format,
                WebpPolicy::Lossless,
            ) is Some)
            &&& r matches Err(e) ==> e is ConversionError
        },
{
    convert_bytes_with(input_bytes, source_format, target_format, WebpPolicy::Lossless)
}

/// What replacing the extension of `s` with the target's canonical
/// extension yields: `None` when `s` has no extension or when its extension
/// already equals the target's (the derived path would be `s` itself).
pub open spec fn spec_derive_output_path(s: Seq<char>, target: ImageFormat) -> Option<Seq<char>> {
    match (spec_stem_with_dot(s), spec_ext_after_dot(s)) {
        (Some(stem), Some(e)) => if e == spec_extension(target) {
            None
        } else {
            Some(stem + spec_extension(target))
        },
        _ => None,
    }
}

/// Whether the suffix of `s` from `start` equals `lit` exactly.
fn suffix_eq(s: &str, start: usize, lit: &str) -> (r: bool)
    requires
        start <= s@.len(),
    ensures
        r == (s@.subrange(start as int, s@.len() as int) == lit@),
{
    let n = s.unicode_len();
    let m = lit.unicode_len();
    let ghost suffix = s@.subrange(start as int, s@.len() as int);
    if n - start != m {
        return false;
    }
    let mut k: usize = 0;
    while k < m
        invariant
            n - start == m,
            k <= m,
            n == s@.len(),
            m == lit@.len(),
            start <= n,
            suffix == s@.subrange(start as int, s@.len() as int),
            forall|j: int| 0 <= j < k ==> suffix[j] == lit@[j],
        decreases m - k,
    {
        let a = s.get_char(start + k);
        let b = lit.get_char(k);
        if a != b {
            assert(suffix[k as int] != lit@[k as int]);
            return false;
        }
        k = k + 1;
    }
    proof {
        assert(suffix =~= lit@);
    }
    true
}

/// Derives the output path for a conversion of `input` to `target`:
/// the input path with its extension replaced by the target's canonical
/// extension.  Fails with `UnsupportedFormat` when `input` has no extension,
/// or when its extension already equals the target's - the derived path
/// would collide with the input, so the request is rejected here, before
/// any I/O.
pub fn derive_output_path(input: &str, target: &ImageFormat) -> (r: Result<String, ConverterError>)
    ensures
        r matches Ok(p) ==> spec_derive_output_path(input@, *target) == Some(p@),
        r is Ok <==> spec_derive_output_path(input@, *target) is Some,
        r matches Err(e) ==> e is UnsupportedFormat,
        spec_ext_after_dot(input@) == Some(spec_extension(*target)) ==> r is Err,
{
    let dot = match crate::formats::find_last_dot(input) {
        Some(d) => d,
        None => {
            proof {
                crate::formats::lemma_no_dot(input@);
            }
            return Err(
                ConverterError::UnsupportedFormat("input path has no extension".to_owned()),
            );
        },
    };
    proof {
        crate::formats::lemma_last_dot(input@, dot as int);
    }
    let start = dot + 1;
    if suffix_eq(input, start, target.to_extension()) {
        return Err(
            ConverterError::UnsupportedFormat(
                "derived output path would equal the input path".to_owned(),
            ),
        );
    }
    let stem = input.substring_char(0, start);
    let derived = stem.to_owned().concat(target.to_extension());
    Ok(derived)
}

} // verus!
