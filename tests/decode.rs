use jpeg2000::assemble::{assemble, ceil_div_pow2, ComponentPlane};
use jpeg2000::codec::{Codec, DecodeConfig};
use jpeg2000::color::ColorSpace;
use jpeg2000::decode::{decode_image, ImageDescriptor, BAD_AREA};
use jpeg2000::error::DecodeError;

fn plane(width: u32, height: u32, factor: u32, data: Vec<u8>) -> ComponentPlane {
    ComponentPlane { width, height, factor, data }
}

fn descriptor(w: u32, h: u32, color_space: i32, components: Vec<ComponentPlane>) -> ImageDescriptor {
    ImageDescriptor { x0: 0, y0: 0, x1: w, y1: h, color_space, icc_profile_len: 0, components }
}

fn config(default_colorspace: Option<ColorSpace>, discard_level: u32) -> DecodeConfig {
    DecodeConfig { default_colorspace, discard_level }
}

#[test]
fn ceil_div_pow2_values() {
    assert_eq!(ceil_div_pow2(512, 0), 512);
    assert_eq!(ceil_div_pow2(512, 1), 256);
    assert_eq!(ceil_div_pow2(513, 1), 257);
    assert_eq!(ceil_div_pow2(513, 3), 65);
    assert_eq!(ceil_div_pow2(7, 2), 2);
    assert_eq!(ceil_div_pow2(0, 5), 0);
    assert_eq!(ceil_div_pow2(u32::MAX, 0), u32::MAX);
    assert_eq!(ceil_div_pow2(u32::MAX, 31), 2);
    assert_eq!(ceil_div_pow2(u32::MAX, 32), 1);
    assert_eq!(ceil_div_pow2(0, 40), 0);
}

#[test]
fn codec_codes_and_default_config() {
    assert_eq!(Codec::J2K.to_i32(), 0);
    assert_eq!(Codec::JPT.to_i32(), 1);
    assert_eq!(Codec::JP2.to_i32(), 2);
    assert_eq!(Codec::JPP.to_i32(), 3);
    assert_eq!(Codec::JPX.to_i32(), 4);
    let c = DecodeConfig::default();
    assert_eq!(c.default_colorspace, None);
    assert_eq!(c.discard_level, 0);
}

#[test]
fn gray_sample_is_replicated_and_opaque() {
    let planes = vec![plane(1, 1, 0, vec![128])];
    let b = assemble(&planes, ColorSpace::GRAY, 1, 1).unwrap();
    assert_eq!(b.pixel(0, 0), [128, 128, 128, 255]);
}

#[test]
fn srgb_without_alpha_plane_is_opaque() {
    let planes = vec![plane(1, 1, 0, vec![10]), plane(1, 1, 0, vec![20]), plane(1, 1, 0, vec![30])];
    let b = assemble(&planes, ColorSpace::SRGB, 1, 1).unwrap();
    assert_eq!(b.pixel(0, 0), [10, 20, 30, 255]);
}

#[test]
fn srgb_with_alpha_plane_keeps_alpha() {
    let planes = vec![
        plane(1, 1, 0, vec![1]),
        plane(1, 1, 0, vec![2]),
        plane(1, 1, 0, vec![3]),
        plane(1, 1, 0, vec![4]),
    ];
    let b = assemble(&planes, ColorSpace::SRGB, 1, 1).unwrap();
    assert_eq!(b.pixel(0, 0), [1, 2, 3, 4]);
}

#[test]
fn rows_are_not_flipped() {
    // 2 x 2 grey image: top row 1 2, bottom row 3 4.
    let planes = vec![plane(2, 2, 0, vec![1, 2, 3, 4])];
    let b = assemble(&planes, ColorSpace::GRAY, 2, 2).unwrap();
    assert_eq!(b.width(), 2);
    assert_eq!(b.height(), 2);
    assert_eq!(b.pixel(0, 0), [1, 1, 1, 255]);
    assert_eq!(b.pixel(1, 0), [2, 2, 2, 255]);
    assert_eq!(b.pixel(0, 1), [3, 3, 3, 255]);
    assert_eq!(b.pixel(1, 1), [4, 4, 4, 255]);
    assert_eq!(
        b.pixels(),
        &vec![1, 1, 1, 255, 2, 2, 2, 255, 3, 3, 3, 255, 4, 4, 4, 255]
    );
}

#[test]
fn each_plane_is_indexed_by_its_own_width() {
    // The second plane stores rows of 3 samples, the first rows of 2.
    let planes = vec![plane(2, 2, 0, vec![1, 2, 3, 4]), plane(3, 2, 0, vec![10, 11, 12, 13, 14, 15])];
    let b = assemble(&planes, ColorSpace::SRGB, 2, 2).unwrap();
    assert_eq!(b.pixel(0, 1), [3, 13, 0, 255]);
    assert_eq!(b.pixel(1, 1), [4, 14, 0, 255]);
}

#[test]
fn assemble_errors() {
    let five: Vec<ComponentPlane> = (0..5).map(|_| plane(1, 1, 0, vec![0])).collect();
    assert_eq!(assemble(&five, ColorSpace::SRGB, 1, 1).err(), Some(DecodeError::TooManyComponents(5)));
    let one = vec![plane(1, 1, 0, vec![0])];
    assert_eq!(assemble(&one, ColorSpace::CMYK, 1, 1).err(), Some(DecodeError::UnsupportedColorSpace));
    let short = vec![plane(2, 2, 0, vec![0, 0, 0])];
    assert!(matches!(assemble(&short, ColorSpace::GRAY, 2, 2), Err(DecodeError::FfiError(_))));
}

#[test]
fn empty_bitmap() {
    let b = assemble(&Vec::new(), ColorSpace::SRGB, 0, 0).unwrap();
    assert_eq!(b.width(), 0);
    assert_eq!(b.height(), 0);
    assert!(b.into_pixels().is_empty());
}

#[test]
fn full_resolution_keeps_declared_extents() {
    let w = 5u32;
    let h = 3u32;
    let planes: Vec<ComponentPlane> = (0..3).map(|_| plane(w, h, 0, vec![9; (w * h) as usize])).collect();
    let b = decode_image(&descriptor(w, h, 1, planes), &config(None, 0)).unwrap();
    assert_eq!((b.width(), b.height()), (5, 3));
    assert_eq!(b.pixels().len(), 4 * 5 * 3);
}

#[test]
fn reduced_extents_round_up() {
    let (w, h) = (13u32, 6u32);
    for k in 0..4u32 {
        let pw = ceil_div_pow2(w, k);
        let ph = ceil_div_pow2(h, k);
        let planes = vec![plane(pw, ph, k, vec![0; (pw * ph) as usize])];
        let b = decode_image(&descriptor(w, h, 2, planes), &config(None, k)).unwrap();
        let expected_w = (w + (1 << k) - 1) / (1 << k);
        let expected_h = (h + (1 << k) - 1) / (1 << k);
        assert_eq!((b.width(), b.height()), (expected_w, expected_h));
    }
    let planes = vec![plane(4, 2, 2, vec![0; 8])];
    let b = decode_image(&descriptor(13, 6, 2, planes), &config(None, 2)).unwrap();
    assert_eq!((b.width(), b.height()), (4, 2));
}

#[test]
fn unspecified_color_space_needs_a_default() {
    let planes = || vec![plane(1, 1, 0, vec![10]), plane(1, 1, 0, vec![20]), plane(1, 1, 0, vec![30])];
    assert_eq!(
        decode_image(&descriptor(1, 1, 0, planes()), &config(None, 0)).err(),
        Some(DecodeError::UnspecifiedColorSpace)
    );
    let b = decode_image(&descriptor(1, 1, 0, planes()), &config(Some(ColorSpace::SRGB), 0)).unwrap();
    assert_eq!(b.pixel(0, 0), [10, 20, 30, 255]);
}

#[test]
fn unknown_color_space_ignores_default() {
    let planes = vec![plane(1, 1, 0, vec![10])];
    assert_eq!(
        decode_image(&descriptor(1, 1, 42, planes), &config(Some(ColorSpace::SRGB), 0)).err(),
        Some(DecodeError::UnknownColorSpace(42))
    );
}

#[test]
fn five_components_are_rejected() {
    let planes: Vec<ComponentPlane> = (0..5).map(|_| plane(2, 2, 0, vec![0; 4])).collect();
    assert_eq!(
        decode_image(&descriptor(2, 2, 1, planes), &config(None, 0)).err(),
        Some(DecodeError::TooManyComponents(5))
    );
}

#[test]
fn inverted_area_is_an_engine_error() {
    let mut d = descriptor(4, 4, 1, vec![plane(4, 4, 0, vec![0; 16])]);
    d.x0 = 5;
    assert_eq!(decode_image(&d, &config(None, 0)).err(), Some(DecodeError::FfiError(BAD_AREA)));
}

#[test]
fn origin_offsets_the_area() {
    let mut d = descriptor(10, 8, 2, vec![plane(6, 3, 0, vec![0; 18])]);
    d.x0 = 4;
    d.y0 = 5;
    let b = decode_image(&d, &config(None, 0)).unwrap();
    assert_eq!((b.width(), b.height()), (6, 3));
}
