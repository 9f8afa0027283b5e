//! A raster image format conversion engine.
//!
//! The library turns an encoded image in one container format into an encoded
//! image in another, across a closed set of supported formats: PNG, JPEG,
//! WEBP, GIF, BMP and ICO.  Conversion is a fixed pipeline: the source bytes
//! are decoded into a canonical RGBA8 pixel buffer, and that buffer is encoded
//! for the target format.  Converting a file to its own format short-circuits
//! and returns the bytes unchanged.
//!
//! The components, one module each:
//! - [`formats`] - the format registry: the closed enumeration and its
//!   extension lookup;
//! - [`pixel`] - the canonical pixel buffer and its pixel-model changes;
//! - [`normalize`] - the pixel normalizer: bytes of any format in, canonical
//!   RGBA8 buffer out;
//! - [`dispatch`] - the encoder dispatch: canonical buffer in, encoded bytes
//!   for a target out;
//! - [`main_converter`] - the orchestrator: the byte-level conversion entry
//!   point and output path derivation;
//! - [`backend`] - the trusted bindings to the codec crates;
//! - [`errors`] - the error taxonomy.

pub mod backend;
pub mod dispatch;
pub mod errors;
pub mod formats;
pub mod main_converter;
pub mod normalize;
pub mod pixel;
