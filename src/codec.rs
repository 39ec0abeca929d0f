use vstd::prelude::*;

use crate::color::ColorSpace;

verus! {

/// The decoder variant the engine is asked to instantiate.
#[derive(Clone, Copy, Debug, PartialEq, Eq, Structural)]
pub enum Codec {
    /// JPEG-2000 codestream.
    J2K,
    /// JP2 file format.
    JP2,
    /// JPP-stream (JPEG 2000, JPIP)
    JPP,
    /// JPT-stream (JPEG 2000, JPIP)
    JPT,
    /// JPX file format (JPEG 2000 Part-2)
    JPX,
}

/// The engine's code for each decoder variant (`OPJ_CODEC_*`).
pub open spec fn codec_code(c: Codec) -> i32 {
    match c {
        Codec::J2K => 0,
        Codec::JPT => 1,
        Codec::JP2 => 2,
        Codec::JPP => 3,
        Codec::JPX => 4,
    }
}

impl Codec {
    /// The engine's code for this decoder variant.
    pub fn to_i32(&self) -> (r: i32)
        ensures
            r == codec_code(*self),
    {
        match *self {
            Codec::J2K => 0,
            Codec::JP2 => 2,
            Codec::JPP => 3,
            Codec::JPT => 1,
            Codec::JPX => 4,
        }
    }
}

/// What the caller chooses for one decode call.
#[derive(Clone, Copy, Debug, PartialEq, Eq, Structural)]
pub struct DecodeConfig {
    /// Default color space to be used in the case of unspecified values.
    pub default_colorspace: Option<ColorSpace>,
    /// The image resolution is effectively divided by 2 to the power of
    /// the number of discarded levels.
    pub discard_level: u32,
}

impl Default for DecodeConfig {
    /// No default colour space, full resolution.
    fn default() -> (r: Self)
        ensures
            r.default_colorspace is None,
            r.discard_level == 0,
    {
        DecodeConfig { default_colorspace: None, discard_level: 0 }
    }
}

} // verus!
