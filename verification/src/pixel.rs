//! The canonical pixel buffer: the single interchange type between the
//! decode and encode stages.
//!
//! A buffer holds a positive width and height, a pixel layout tag, and raw
//! bytes whose length is exactly `width * height * channels(layout)`.
//! Decoders always produce RGBA8; the JPEG encoder, whose container has no
//! alpha channel, drops the alpha bytes through [`drop_alpha`].

use vstd::prelude::*;

verus! {

/// The per-pixel channel layout of a canonical buffer.
#[derive(Debug, Clone, Copy, PartialEq, Eq, Structural)]
pub enum PixelLayout {
    /// Four bytes per pixel: red, green, blue, alpha.
    Rgba8,
    /// Three bytes per pixel: red, green, blue.
    Rgb8,
}

/// How many bytes one pixel takes in a layout.
pub open spec fn spec_channels(layout: PixelLayout) -> int {
    match layout {
        PixelLayout::Rgba8 => 4,
        PixelLayout::Rgb8 => 3,
    }
}

/// The format-independent in-memory image: dimensions, layout and raw bytes.
pub struct CanonicalPixelBuffer {
    pub width: u32,
    pub height: u32,
    pub layout: PixelLayout,
    pub data: Vec<u8>,
}

impl CanonicalPixelBuffer {
    /// Well-formedness: positive dimensions and a byte length that matches
    /// them exactly.
    pub open spec fn wf(self) -> bool {
        &&& self.width >= 1
        &&& self.height >= 1
        &&& self.data@.len() == self.width * self.height * spec_channels(self.layout)
    }
}

/// The RGB bytes of an RGBA byte sequence: each pixel's first three bytes,
/// with the fourth (alpha) left out.
pub open spec fn rgb_of(rgba: Seq<u8>) -> Seq<u8> {
    Seq::new((rgba.len() / 4 * 3) as nat, |i: int| rgba[i / 3 * 4 + i % 3])
}

/// Drops the alpha channel of an RGBA8 buffer, leaving an RGB8 buffer of the
/// same dimensions whose pixels keep their red, green and blue bytes.
pub fn drop_alpha(buffer: &CanonicalPixelBuffer) -> (r: CanonicalPixelBuffer)
    requires
        buffer.wf(),
        buffer.layout is Rgba8,
    ensures
        r.wf(),
        r.layout is Rgb8,
        r.width == buffer.width,
        r.height == buffer.height,
        r.data@ == rgb_of(buffer.data@),
{
    let w: usize = buffer.width as usize;
    let h: usize = buffer.height as usize;
    let len: usize = buffer.data.len();
    proof {
        assert(w * h <= len) by (nonlinear_arith)
            requires
                w * h * 4 == len,
                w >= 0,
                h >= 0,
        ;
    }
    let num_pixels: usize = w * h;
    let mut out: Vec<u8> = Vec::new();
    let mut p: usize = 0;
    while p < num_pixels
        invariant
            buffer.data@.len() == num_pixels * 4,
            num_pixels * 4 <= usize::MAX,
            p <= num_pixels,
            out@.len() == p * 3,
            forall|i: int| 0 <= i < out@.len() ==> out@[i] == rgb_of(buffer.data@)[i],
        decreases num_pixels - p,
    {
        proof {
            assert(p * 4 + 4 <= num_pixels * 4) by (nonlinear_arith)
                requires
                    p < num_pixels,
            ;
        }
        let base: usize = p * 4;
        out.push(buffer.data[base]);
        out.push(buffer.data[base + 1]);
        out.push(buffer.data[base + 2]);
        proof {
            assert forall|k: int|
                0 <= k < 3 implies #[trigger] rgb_of(buffer.data@)[p * 3 + k] == buffer.data@[p * 4
                + k] by {
                assert((p * 3 + k) / 3 == p && (p * 3 + k) % 3 == k) by (nonlinear_arith)
                    requires
                        0 <= k < 3,
                        p >= 0,
                ;
                assert(p * 3 / 3 * 4 == p * 4) by (nonlinear_arith);
            }
        }
        p = p + 1;
    }
    proof {
        assert(out@ =~= rgb_of(buffer.data@));
        assert(buffer.width * buffer.height * 4 == num_pixels * 4);
        assert(out@.len() == buffer.width * buffer.height * 3) by (nonlinear_arith)
            requires
                out@.len() == num_pixels * 3,
                buffer.width * buffer.height * 4 == num_pixels * 4,
                num_pixels >= 0,
        ;
    }
    CanonicalPixelBuffer {
        width: buffer.width,
        height: buffer.height,
        layout: PixelLayout::Rgb8,
        data: out,
    }
}

} // verus!
