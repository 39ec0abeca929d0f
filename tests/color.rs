use jpeg2000::color::{ColorSpace, ColorSpaceValue};
use jpeg2000::error::DecodeError;

#[test]
fn engine_codes_map_to_values() {
    assert_eq!(ColorSpaceValue::from_i32(-1), ColorSpaceValue::Unknown(-1));
    assert_eq!(ColorSpaceValue::from_i32(0), ColorSpaceValue::Unspecified);
    assert_eq!(ColorSpaceValue::from_i32(1), ColorSpaceValue::SRGB);
    assert_eq!(ColorSpaceValue::from_i32(2), ColorSpaceValue::GRAY);
    assert_eq!(ColorSpaceValue::from_i32(3), ColorSpaceValue::SYCC);
    assert_eq!(ColorSpaceValue::from_i32(4), ColorSpaceValue::EYCC);
    assert_eq!(ColorSpaceValue::from_i32(5), ColorSpaceValue::CMYK);
    assert_eq!(ColorSpaceValue::from_i32(17), ColorSpaceValue::Unknown(17));
}

#[test]
fn determined_values() {
    assert_eq!(ColorSpaceValue::SRGB.determined(), Some(ColorSpace::SRGB));
    assert_eq!(ColorSpaceValue::CMYK.determined(), Some(ColorSpace::CMYK));
    assert_eq!(ColorSpaceValue::Unspecified.determined(), None);
    assert_eq!(ColorSpaceValue::Unknown(9).determined(), None);
}

#[test]
fn resolve_rules() {
    assert_eq!(ColorSpaceValue::GRAY.resolve(Some(ColorSpace::SRGB)), Ok(ColorSpace::GRAY));
    assert_eq!(ColorSpaceValue::Unspecified.resolve(Some(ColorSpace::SRGB)), Ok(ColorSpace::SRGB));
    assert_eq!(ColorSpaceValue::Unspecified.resolve(None), Err(DecodeError::UnspecifiedColorSpace));
    assert_eq!(
        ColorSpaceValue::Unknown(-1).resolve(Some(ColorSpace::SRGB)),
        Err(DecodeError::UnknownColorSpace(-1))
    );
}

#[test]
fn convert_gray_and_srgb() {
    assert_eq!(ColorSpace::GRAY.convert_to_rgba([128, 0, 0, 0]), Ok([128, 128, 128, 255]));
    assert_eq!(ColorSpace::SRGB.convert_to_rgba([10, 20, 30, 40]), Ok([10, 20, 30, 40]));
}

#[test]
fn convert_unsupported_spaces_fail() {
    for c in [ColorSpace::CMYK, ColorSpace::EYCC, ColorSpace::SYCC] {
        assert!(!c.is_combinable());
        assert_eq!(c.convert_to_rgba([1, 2, 3, 4]), Err(DecodeError::UnsupportedColorSpace));
    }
    assert!(ColorSpace::SRGB.is_combinable());
    assert!(ColorSpace::GRAY.is_combinable());
}

#[test]
fn error_descriptions() {
    assert_eq!(DecodeError::ReadHeader.description(), "reading the header failed");
    assert_eq!(DecodeError::NullInString.description(), "there was a null byte in the string");
    assert_eq!(
        DecodeError::TooManyComponents(5).description(),
        "there were too many components in the supplied file."
    );
    assert_eq!(DecodeError::UnspecifiedColorSpace.description(), "Color space was not specified.");
    assert_eq!(DecodeError::UnknownColorSpace(8).description(), "Color space is unknown.");
    assert_eq!(DecodeError::UnsupportedColorSpace.description(), "Color space is not supported.");
    assert_eq!(DecodeError::FfiError("engine said no").description(), "engine said no");
}
