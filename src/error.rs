use vstd::prelude::*;

verus! {

/// Every way in which one decode call can fail.
#[derive(Debug, Clone, PartialEq, Eq)]
pub enum DecodeError {
    /// The engine rejected a request (creating the codec, setting it up), or
    /// handed back data that does not describe a consistent image.
    FfiError(&'static str),
    /// The engine could not parse the codestream header.
    ReadHeader,
    /// A file path held a null byte and cannot be passed to the engine.
    NullInString,
    /// The image has more components than a pixel can hold.
    TooManyComponents(usize),
    /// The codestream leaves its colour space open and no default was given.
    UnspecifiedColorSpace,
    /// The engine reported a colour space code that is not recognised.
    UnknownColorSpace(i32),
    /// The colour space is known, but its samples cannot be combined into RGBA.
    UnsupportedColorSpace,
}

/// The fixed message of each error.
pub open spec fn description_of(e: DecodeError) -> Seq<char> {
    match e {
        DecodeError::FfiError(m) => m@,
        DecodeError::ReadHeader => "reading the header failed"@,
        DecodeError::NullInString => "there was a null byte in the string"@,
        DecodeError::TooManyComponents(_) => "there were too many components in the supplied file."@,
        DecodeError::UnspecifiedColorSpace => "Color space was not specified."@,
        DecodeError::UnknownColorSpace(_) => "Color space is unknown."@,
        DecodeError::UnsupportedColorSpace => "Color space is not supported."@,
    }
}

impl DecodeError {
    /// A short human-readable message for the error.
    pub fn description(&self) -> (r: &'static str)
        ensures
            r@ == description_of(*self),
    {
        match self {
            DecodeError::FfiError(m) => m,
            DecodeError::ReadHeader => "reading the header failed",
            DecodeError::NullInString => "there was a null byte in the string",
            DecodeError::TooManyComponents(_) => "there were too many components in the supplied file.",
            DecodeError::UnspecifiedColorSpace => "Color space was not specified.",
            DecodeError::UnknownColorSpace(_) => "Color space is unknown.",
            DecodeError::UnsupportedColorSpace => "Color space is not supported.",
        }
    }
}

} // verus!
