//! The deterministic transcoding profile for lossy WebP output, and the
//! owned encoded image buffer.
//!
//! The encoder itself works on decoded pixel buffers and floating-point
//! quality settings, so the call into it lives outside this library; the
//! fixed parameter profile it must be driven with, and the buffer type the
//! result is carried in, are defined and checked here.

use vstd::prelude::*;

verus! {

/// The fixed lossy encoding profile: every parameter except quality and
/// autofilter is pinned, so the same image, quality and autofilter always
/// encode the same way.
pub struct WebpProfile {
    pub lossless: i32,
    pub alpha_compression: i32,
    pub alpha_filtering: i32,
    pub alpha_quality: i32,
    pub autofilter: i32,
    pub filter_sharpness: i32,
    pub filter_strength: i32,
    pub filter_type: i32,
    pub use_sharp_yuv: i32,
    pub method: i32,
}

impl WebpProfile {
    /// Whether this is the one profile the encoder may be driven with,
    /// up to the caller's autofilter choice.
    pub open spec fn is_fixed_lossy(&self, autofilter: bool) -> bool {
        &&& self.lossless == 0
        &&& self.alpha_compression == 1
        &&& self.alpha_filtering == 0
        &&& self.alpha_quality == 50
        &&& self.autofilter == (if autofilter {
            1int
        } else {
            0int
        })
        &&& self.filter_sharpness == 4
        &&& self.filter_strength == 50
        &&& self.filter_type == 0
        &&& self.use_sharp_yuv == 0
        &&& self.method == 3
    }

    /// The fixed lossy profile: lossless disabled, alpha quality 50 with
    /// alpha compression enabled and alpha filtering disabled, sharpness 4,
    /// filter strength 50, filter type 0, compression method 3, no
    /// sharp-YUV preprocessing, and autofilter as the caller chose.
    pub fn fixed_lossy(autofilter: bool) -> (p: WebpProfile)
        ensures
            p.is_fixed_lossy(autofilter),
    {
        WebpProfile {
            lossless: 0,
            alpha_compression: 1,
            alpha_filtering: 0,
            alpha_quality: 50,
            autofilter: if autofilter {
                1
            } else {
                0
            },
            filter_sharpness: 4,
            filter_strength: 50,
            filter_type: 0,
            use_sharp_yuv: 0,
            method: 3,
        }
    }
}

/// An encoded image: an opaque compressed byte buffer, immutable after
/// construction.
pub struct Webp {
    data: Vec<u8>,
}

impl Webp {
    /// The encoded bytes.
    pub closed spec fn bytes(&self) -> Seq<u8> {
        self.data@
    }

    /// Wrap an encoded byte buffer.
    pub fn new(data: Vec<u8>) -> (w: Webp)
        ensures
            w.bytes() == data@,
    {
        Webp { data }
    }

    /// Borrow the encoded bytes.
    pub fn data(&self) -> (r: &[u8])
        ensures
            r@ == self.bytes(),
    {
        self.data.as_slice()
    }
}

} // verus!
