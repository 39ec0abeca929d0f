use vstd::prelude::*;
use vstd::arithmetic::power2::{lemma2_to64, pow2};

use crate::assemble::{
    all_cover, assemble, assemble_error, ceil_div_pow2, ceil_div_pow2_spec, image_bytes,
    pixel_of, Bitmap, ComponentPlane, MAX_COMPONENTS,
};
use crate::codec::DecodeConfig;
use crate::color::{resolved_of, value_of_code, ColorSpace, ColorSpaceValue, CLRSPC_SRGB,
    CLRSPC_UNSPECIFIED};
use crate::error::DecodeError;

verus! {

/// What the engine reports of a decoded image: its area on the reference
/// grid, its colour space code, the length of its ICC profile, and one plane
/// per component.
#[derive(Clone, Debug)]
pub struct ImageDescriptor {
    /// Left edge of the image area.
    pub x0: u32,
    /// Top edge of the image area.
    pub y0: u32,
    /// Right edge of the image area, exclusive.
    pub x1: u32,
    /// Bottom edge of the image area, exclusive.
    pub y1: u32,
    /// The engine's colour space code.
    pub color_space: i32,
    /// Length in bytes of the embedded ICC profile; zero when there is none.
    pub icc_profile_len: u32,
    /// The decoded components, in channel order.
    pub components: Vec<ComponentPlane>,
}

/// Message of the error for an image area whose far edge lies before its near one.
pub const BAD_AREA: &'static str = "the image area ends before it starts";

/// The number of resolution levels by which the bitmap is reduced: the
/// first component's own reduction, or the requested one without components.
pub open spec fn reduction_of(d: ImageDescriptor, cfg: DecodeConfig) -> nat {
    if d.components@.len() > 0 {
        d.components@[0].factor as nat
    } else {
        cfg.discard_level as nat
    }
}

/// Width of the bitmap for a descriptor.
pub open spec fn out_width_of(d: ImageDescriptor, cfg: DecodeConfig) -> int {
    ceil_div_pow2_spec((d.x1 - d.x0) as nat, reduction_of(d, cfg))
}

/// Height of the bitmap for a descriptor.
pub open spec fn out_height_of(d: ImageDescriptor, cfg: DecodeConfig) -> int {
    ceil_div_pow2_spec((d.y1 - d.y0) as nat, reduction_of(d, cfg))
}

/// The colour space a descriptor resolves to under a configuration.
pub open spec fn space_of(d: ImageDescriptor, cfg: DecodeConfig) -> Result<ColorSpace, DecodeError> {
    resolved_of(value_of_code(d.color_space), cfg.default_colorspace)
}

/// The resolved colour space, where there is one.
pub open spec fn decoded_space(d: ImageDescriptor, cfg: DecodeConfig) -> ColorSpace {
    match space_of(d, cfg) {
        Ok(c) => c,
        Err(_) => ColorSpace::SRGB,
    }
}

/// The error, if any, of decoding a descriptor: colour space first, then
/// the image area, then what the assembly of the planes rejects.
pub open spec fn decode_error_of(d: ImageDescriptor, cfg: DecodeConfig) -> Option<DecodeError> {
    match space_of(d, cfg) {
        Err(e) => Some(e),
        Ok(c) => if d.x1 < d.x0 || d.y1 < d.y0 {
            Some(DecodeError::FfiError(BAD_AREA))
        } else {
            assemble_error(
                d.components@,
                c,
                out_width_of(d, cfg) as nat,
                out_height_of(d, cfg) as nat,
            )
        },
    }
}

/// The bytes of the bitmap decoded from a descriptor.
pub open spec fn decoded_bytes(d: ImageDescriptor, cfg: DecodeConfig) -> Seq<u8> {
    image_bytes(
        d.components@,
        decoded_space(d, cfg),
        out_width_of(d, cfg) as nat,
        out_height_of(d, cfg) as nat,
    )
}

/// Turns what the engine decoded into a bitmap.
///
/// The colour space is resolved against the configuration's default, the
/// bitmap takes the image area reduced by the first component's reduction
/// (rounded up), and the planes are assembled into it.
pub fn decode_image(desc: &ImageDescriptor, config: &DecodeConfig) -> (r: Result<Bitmap, DecodeError>)
    ensures
        match r {
            Ok(b) => {
                &&& decode_error_of(*desc, *config) is None
                &&& b.wf()
                &&& b.width_spec() == out_width_of(*desc, *config)
                &&& b.height_spec() == out_height_of(*desc, *config)
                &&& b.bytes_spec() == decoded_bytes(*desc, *config)
                &&& forall|x: int, y: int|
                    0 <= x < b.width_spec() && 0 <= y < b.height_spec() ==> #[trigger] b.pixel_spec(
                        x,
                        y,
                    ) == pixel_of(desc.components@, decoded_space(*desc, *config), x, y)
            },
            Err(e) => decode_error_of(*desc, *config) == Some(e),
        },
{
    let raw = ColorSpaceValue::from_i32(desc.color_space);
    let color_space = match raw.resolve(config.default_colorspace) {
        Ok(c) => c,
        Err(e) => return Err(e),
    };
    if desc.x1 < desc.x0 || desc.y1 < desc.y0 {
        return Err(DecodeError::FfiError(BAD_AREA));
    }
    let factor: u32 = if desc.components.len() > 0 {
        desc.components[0].factor
    } else {
        config.discard_level
    };
    let width = ceil_div_pow2(desc.x1 - desc.x0, factor);
    let height = ceil_div_pow2(desc.y1 - desc.y0, factor);
    assemble(&desc.components, color_space, width, height)
}

/// With the colour space stated as sRGB, the image decoded at full
/// resolution, and every plane holding a sample for each pixel of the image
/// area, decoding succeeds and the bitmap has exactly the declared extents.
pub proof fn lemma_full_resolution_extents(d: ImageDescriptor, cfg: DecodeConfig)
    requires
        d.color_space == CLRSPC_SRGB,
        cfg.discard_level == 0,
        reduction_of(d, cfg) == 0,
        d.x0 <= d.x1,
        d.y0 <= d.y1,
        d.components@.len() <= MAX_COMPONENTS,
        all_cover(d.components@, (d.x1 - d.x0) as nat, (d.y1 - d.y0) as nat),
    ensures
        decode_error_of(d, cfg) is None,
        out_width_of(d, cfg) == d.x1 - d.x0,
        out_height_of(d, cfg) == d.y1 - d.y0,
{
    lemma2_to64();
}

/// Where the engine reduced the image by the requested `k` levels, the
/// bitmap is the image area divided by `2^k`, rounded up, in each dimension.
pub proof fn lemma_reduced_extents(d: ImageDescriptor, cfg: DecodeConfig)
    requires
        reduction_of(d, cfg) == cfg.discard_level,
        d.x0 <= d.x1,
        d.y0 <= d.y1,
    ensures
        out_width_of(d, cfg) == (d.x1 - d.x0 + pow2(cfg.discard_level as nat) - 1) / (pow2(
            cfg.discard_level as nat,
        ) as int),
        out_height_of(d, cfg) == (d.y1 - d.y0 + pow2(cfg.discard_level as nat) - 1) / (pow2(
            cfg.discard_level as nat,
        ) as int),
{
}

/// A codestream that leaves its colour space unspecified fails without a
/// default, and with sRGB as the default decodes exactly as the same
/// codestream stating sRGB would.
pub proof fn lemma_unspecified_color_space(d: ImageDescriptor, k: u32)
    requires
        d.color_space == CLRSPC_UNSPECIFIED,
    ensures
        decode_error_of(d, DecodeConfig { default_colorspace: None, discard_level: k }) == Some(
            DecodeError::UnspecifiedColorSpace,
        ),
        ({
            let with_default = DecodeConfig { default_colorspace: Some(ColorSpace::SRGB), discard_level: k };
            let stated = ImageDescriptor { color_space: CLRSPC_SRGB, ..d };
            let plain = DecodeConfig { default_colorspace: None, discard_level: k };
            &&& decoded_space(d, with_default) == ColorSpace::SRGB
            &&& decode_error_of(d, with_default) == decode_error_of(stated, plain)
            &&& out_width_of(d, with_default) == out_width_of(stated, plain)
            &&& out_height_of(d, with_default) == out_height_of(stated, plain)
            &&& decoded_bytes(d, with_default) == decoded_bytes(stated, plain)
        }),
{
}

} // verus!
