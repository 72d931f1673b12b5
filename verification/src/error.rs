use vstd::prelude::*;
use crate::hexcode::{describe, hex_display};

verus! {

/// Why a string of hexadecimal digits could not be decoded.
#[derive(Debug, Clone, Copy, PartialEq, Eq, Structural)]
pub enum HexError {
    /// The byte `c` at position `index` is not a hexadecimal digit.
    InvalidHexCharacter { c: char, index: usize },
    /// The number of digits is odd.
    OddLength,
    /// The digits do not fill the container they are decoded into.
    InvalidStringLength,
}

/// Everything that can go wrong inside the library.
#[derive(Debug, Clone, Copy, PartialEq, Eq, Structural)]
pub enum CoreError {
    /// A shape or tool descriptor has the wrong number of coordinates.
    InvalidShapeFormat,
    /// No physical device of the wanted kind is present.
    NoSupportedPhysicalDevice,
    /// The operation is not provided for this shape.
    Unimplemented,
    /// A colour string is not valid hexadecimal.
    FromHexError(HexError),
    /// The presentation chain could not be made anew.
    SwapchainCreationError,
    /// No image of the presentation chain could be acquired, or what was
    /// acquired is no image of the chain.
    AcquireError,
    /// The frame could not be submitted or presented.
    FlushError,
}

impl HexError {
    /// The failure in words.
    pub fn message(&self) -> (text: String)
        ensures
            text@ == hex_display(*self),
            *self == HexError::OddLength ==> text@ == "Odd number of digits"@,
            *self == HexError::InvalidStringLength ==> text@ == "Invalid string length"@,
    {
        describe(*self)
    }
}

impl CoreError {
    /// The error in words.
    pub open spec fn spec_message(self) -> Seq<char> {
        match self {
            CoreError::InvalidShapeFormat => "the provided values to shape are incorrect"@,
            CoreError::NoSupportedPhysicalDevice => "no supported physical device found"@,
            CoreError::Unimplemented => "the operation is not implemented for this shape"@,
            CoreError::FromHexError(e) => hex_display(e),
            CoreError::SwapchainCreationError => "the presentation chain could not be created"@,
            CoreError::AcquireError => "no image could be acquired for presentation"@,
            CoreError::FlushError => "the frame could not be submitted for presentation"@,
        }
    }

    /// The error in words.
    pub fn message(&self) -> (text: String)
        ensures
            text@ == self.spec_message(),
    {
        match self {
            CoreError::InvalidShapeFormat => "the provided values to shape are incorrect"
                .to_owned(),
            CoreError::NoSupportedPhysicalDevice => "no supported physical device found"
                .to_owned(),
            CoreError::Unimplemented => "the operation is not implemented for this shape"
                .to_owned(),
            CoreError::FromHexError(e) => describe(*e),
            CoreError::SwapchainCreationError => "the presentation chain could not be created"
                .to_owned(),
            CoreError::AcquireError => "no image could be acquired for presentation".to_owned(),
            CoreError::FlushError => "the frame could not be submitted for presentation"
                .to_owned(),
        }
    }

    /// The inner cause of this error, where it has one.
    pub fn source(&self) -> (cause: Option<HexError>)
        ensures
            cause == match *self {
                CoreError::FromHexError(e) => Some(e),
                _ => None,
            },
    {
        match self {
            CoreError::FromHexError(e) => Some(*e),
            _ => None,
        }
    }
}

impl From<HexError> for CoreError {
    /// The error that a colour string with the fault `err` is rejected with.
    fn from(err: HexError) -> (e: CoreError) {
        CoreError::FromHexError(err)
    }
}

impl vstd::std_specs::convert::FromSpecImpl<HexError> for CoreError {
    open spec fn obeys_from_spec() -> bool {
        true
    }

    open spec fn from_spec(err: HexError) -> CoreError {
        CoreError::FromHexError(err)
    }
}

} // verus!
