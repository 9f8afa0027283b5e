//! The error taxonomy of the conversion engine.
//!
//! Every failure of a conversion is terminal for that request and carries the
//! most specific kind: an undetectable or unroutable format, an unreadable
//! source, a decode or encode failure, or an unwritable destination.

use vstd::prelude::*;

verus! {

/// Why a conversion failed.
#[derive(Debug)]
pub enum ConverterError {
    /// The format could not be determined from an extension, no conversion
    /// path exists for the requested pair, or a derived output path collides
    /// with the input path.
    UnsupportedFormat(String),
    /// The source could not be read.
    ReadError(String),
    /// Decoding or encoding failed on the given bytes.
    ConversionError(String),
    /// The destination could not be written.
    WriteError(String),
}

impl ConverterError {
    /// The message carried by the error.
    pub fn message(&self) -> (r: &String)
        ensures
            *self matches ConverterError::UnsupportedFormat(m) ==> r@ == m@,
            *self matches ConverterError::ReadError(m) ==> r@ == m@,
            *self matches ConverterError::ConversionError(m) ==> r@ == m@,
            *self matches ConverterError::WriteError(m) ==> r@ == m@,
    {
        match self {
            ConverterError::UnsupportedFormat(m) => m,
            ConverterError::ReadError(m) => m,
            ConverterError::ConversionError(m) => m,
            ConverterError::WriteError(m) => m,
        }
    }
}

} // verus!
