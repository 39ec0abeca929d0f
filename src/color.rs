use vstd::prelude::*;

use crate::error::DecodeError;

verus! {

/// Engine code for a colour space it could not identify.
pub const CLRSPC_UNKNOWN: i32 = -1;
/// Engine code for a codestream that does not state its colour space.
pub const CLRSPC_UNSPECIFIED: i32 = 0;
/// Engine code for sRGB.
pub const CLRSPC_SRGB: i32 = 1;
/// Engine code for greyscale.
pub const CLRSPC_GRAY: i32 = 2;
/// Engine code for sYCC.
pub const CLRSPC_SYCC: i32 = 3;
/// Engine code for e-YCC.
pub const CLRSPC_EYCC: i32 = 4;
/// Engine code for CMYK.
pub const CLRSPC_CMYK: i32 = 5;

/// A determined colour space: never unspecified, never unknown.
#[derive(Clone, Copy, Debug, PartialEq, Eq, Structural)]
pub enum ColorSpace {
    CMYK,
    EYCC,
    GRAY,
    SRGB,
    SYCC,
}

/// A colour space as the engine reports it, which may be left open or be a
/// code this library does not know.
#[derive(Clone, Copy, Debug, PartialEq, Eq, Structural)]
pub enum ColorSpaceValue {
    CMYK,
    EYCC,
    GRAY,
    SRGB,
    SYCC,
    Unknown(i32),
    Unspecified,
}

/// The value that an engine code stands for.
pub open spec fn value_of_code(code: i32) -> ColorSpaceValue {
    if code == CLRSPC_CMYK {
        ColorSpaceValue::CMYK
    } else if code == CLRSPC_EYCC {
        ColorSpaceValue::EYCC
    } else if code == CLRSPC_GRAY {
        ColorSpaceValue::GRAY
    } else if code == CLRSPC_SRGB {
        ColorSpaceValue::SRGB
    } else if code == CLRSPC_SYCC {
        ColorSpaceValue::SYCC
    } else if code == CLRSPC_UNSPECIFIED {
        ColorSpaceValue::Unspecified
    } else {
        ColorSpaceValue::Unknown(code)
    }
}

/// The determined colour space of a value, if it has one.
pub open spec fn determined_of(v: ColorSpaceValue) -> Option<ColorSpace> {
    match v {
        ColorSpaceValue::CMYK => Some(ColorSpace::CMYK),
        ColorSpaceValue::EYCC => Some(ColorSpace::EYCC),
        ColorSpaceValue::GRAY => Some(ColorSpace::GRAY),
        ColorSpaceValue::SRGB => Some(ColorSpace::SRGB),
        ColorSpaceValue::SYCC => Some(ColorSpace::SYCC),
        ColorSpaceValue::Unknown(_) | ColorSpaceValue::Unspecified => None,
    }
}

/// The colour space that decoding uses for a reported value and a default.
pub open spec fn resolved_of(
    v: ColorSpaceValue,
    default: Option<ColorSpace>,
) -> Result<ColorSpace, DecodeError> {
    match v {
        ColorSpaceValue::Unspecified => match default {
            Some(c) => Ok(c),
            None => Err(DecodeError::UnspecifiedColorSpace),
        },
        ColorSpaceValue::Unknown(code) => Err(DecodeError::UnknownColorSpace(code)),
        _ => Ok(determined_of(v).unwrap()),
    }
}

impl ColorSpaceValue {
    /// Reads an engine colour space code.
    pub fn from_i32(val: i32) -> (r: ColorSpaceValue)
        ensures
            r == value_of_code(val),
    {
        if val == CLRSPC_CMYK {
            ColorSpaceValue::CMYK
        } else if val == CLRSPC_EYCC {
            ColorSpaceValue::EYCC
        } else if val == CLRSPC_GRAY {
            ColorSpaceValue::GRAY
        } else if val == CLRSPC_SRGB {
            ColorSpaceValue::SRGB
        } else if val == CLRSPC_SYCC {
            ColorSpaceValue::SYCC
        } else if val == CLRSPC_UNSPECIFIED {
            ColorSpaceValue::Unspecified
        } else {
            ColorSpaceValue::Unknown(val)
        }
    }

    /// The determined colour space, or `None` for an unspecified or unknown one.
    pub fn determined(&self) -> (r: Option<ColorSpace>)
        ensures
            r == determined_of(*self),
    {
        match *self {
            ColorSpaceValue::CMYK => Some(ColorSpace::CMYK),
            ColorSpaceValue::EYCC => Some(ColorSpace::EYCC),
            ColorSpaceValue::GRAY => Some(ColorSpace::GRAY),
            ColorSpaceValue::SRGB => Some(ColorSpace::SRGB),
            ColorSpaceValue::SYCC => Some(ColorSpace::SYCC),
            ColorSpaceValue::Unknown(_) | ColorSpaceValue::Unspecified => None,
        }
    }

    /// Resolves the value to a colour space that pixels can be built in.
    ///
    /// A determined value is kept. An unspecified one takes `default`, and
    /// fails without it. An unknown code always fails, whatever the default.
    pub fn resolve(&self, default: Option<ColorSpace>) -> (r: Result<ColorSpace, DecodeError>)
        ensures
            r == resolved_of(*self, default),
            r is Ok <==> (determined_of(*self) is Some || (*self == ColorSpaceValue::Unspecified
                && default is Some)),
    {
        match self.determined() {
            Some(c) => Ok(c),
            None => if let ColorSpaceValue::Unknown(code) = *self {
                Err(DecodeError::UnknownColorSpace(code))
            } else {
                match default {
                    Some(c) => Ok(c),
                    None => Err(DecodeError::UnspecifiedColorSpace),
                }
            },
        }
    }
}

/// The RGBA pixel that a colour space makes of four gathered samples, or
/// `None` where the colour space has no combination rule.
///
/// sRGB keeps the samples as they are; grey repeats the first sample in the
/// three colour channels and makes the pixel opaque.
pub open spec fn rgba_of(c: ColorSpace, s: [u8; 4]) -> Option<[u8; 4]> {
    match c {
        ColorSpace::SRGB => Some(s),
        ColorSpace::GRAY => Some([s[0], s[0], s[0], 255u8]),
        _ => None,
    }
}

/// Whether samples in the colour space can be combined into RGBA.
pub open spec fn combinable(c: ColorSpace) -> bool {
    c == ColorSpace::SRGB || c == ColorSpace::GRAY
}

impl ColorSpace {
    /// Whether samples in this colour space can be combined into RGBA.
    pub fn is_combinable(&self) -> (r: bool)
        ensures
            r == combinable(*self),
    {
        match self {
            ColorSpace::SRGB | ColorSpace::GRAY => true,
            _ => false,
        }
    }

    /// Combines the samples of one pixel, one per channel, into RGBA.
    ///
    /// Fails with `UnsupportedColorSpace` for CMYK, e-YCC and sYCC.
    pub fn convert_to_rgba(&self, source: [u8; 4]) -> (r: Result<[u8; 4], DecodeError>)
        ensures
            r is Ok <==> combinable(*self),
            r matches Ok(p) ==> rgba_of(*self, source) == Some(p),
            r is Err ==> r == Err::<[u8; 4], DecodeError>(DecodeError::UnsupportedColorSpace),
    {
        match self {
            ColorSpace::SRGB => Ok(source),
            ColorSpace::GRAY => Ok([source[0], source[0], source[0], 255]),
            _ => Err(DecodeError::UnsupportedColorSpace),
        }
    }
}

} // verus!
