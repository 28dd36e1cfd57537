//! The fatal conditions that end a bootstrap or a frame.
use vstd::prelude::*;

verus! {

/// A condition from which the renderer does not recover.  None of them is
/// retried: the caller reports the error and stops.
#[derive(Clone, Copy, Debug, PartialEq, Eq, Structural)]
pub enum FatalError {
    /// The validation layer is not among the layers that the loader offers.
    ValidationLayerUnavailable,
    /// No physical device passed the suitability check.
    NoSuitableDevice,
    /// A shader binary is not a whole number of 32-bit words.
    MalformedShader,
    /// The window system has no surface type that this crate knows.
    UnsupportedBackend,
    /// The presentation engine handed out an image index for which no command
    /// buffer was recorded.
    ImageIndexOutOfRange,
    /// A report from the driver arrived at a point of the frame where it has
    /// no place.
    OutOfSequence,
    /// A driver call failed; the payload is the raw result code.
    DriverFailure(i32),
}

impl FatalError {
    /// The text of each error.
    pub open spec fn spec_message(self) -> Seq<char> {
        match self {
            FatalError::ValidationLayerUnavailable => "validation layer not supported"@,
            FatalError::NoSuitableDevice => "no device selected"@,
            FatalError::MalformedShader => "malformed shader binary"@,
            FatalError::UnsupportedBackend => "unsupported windowing backend"@,
            FatalError::ImageIndexOutOfRange => "acquired image has no command buffer"@,
            FatalError::OutOfSequence => "driver report out of sequence"@,
            FatalError::DriverFailure(_) => "driver call failed"@,
        }
    }

    /// A short description, for the log.
    pub fn message(&self) -> (r: String)
        ensures
            r@ == self.spec_message(),
    {
        match self {
            FatalError::ValidationLayerUnavailable => "validation layer not supported".to_owned(),
            FatalError::NoSuitableDevice => "no device selected".to_owned(),
            FatalError::MalformedShader => "malformed shader binary".to_owned(),
            FatalError::UnsupportedBackend => "unsupported windowing backend".to_owned(),
            FatalError::ImageIndexOutOfRange => "acquired image has no command buffer".to_owned(),
            FatalError::OutOfSequence => "driver report out of sequence".to_owned(),
            FatalError::DriverFailure(_) => "driver call failed".to_owned(),
        }
    }
}

} // verus!
