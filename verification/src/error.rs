use vstd::prelude::*;

verus! {

/// Error number with which the device rejects an index that is out of range.
pub const EINVAL: i32 = 22;

/// A failure reported by the device or the operating system, kept as the
/// error number that came with it.
#[derive(Clone, Copy, Debug, PartialEq, Eq, Structural)]
pub struct IoError {
    pub code: i32,
}

impl IoError {
    /// Whether the failure says that an argument, such as an enumeration
    /// index, was not valid.
    pub open spec fn invalid_argument(self) -> bool {
        self.code == EINVAL
    }

    pub fn is_invalid_argument(&self) -> (r: bool)
        ensures
            r == self.invalid_argument(),
    {
        self.code == EINVAL
    }
}

/// What can go wrong while a session is negotiated or run.
#[derive(Clone, Copy, Debug, PartialEq, Eq, Structural)]
pub enum Error {
    /// I/O error when using the camera.
    Io(IoError),
    /// Unsupported frame interval.
    BadInterval,
    /// Unsupported resolution (width and/or height).
    BadResolution,
    /// Unsupported format of pixel.
    BadFormat,
    /// Unsupported field.
    BadField,
}

impl From<IoError> for Error {
    fn from(err: IoError) -> (r: Error)
        ensures
            r == Error::Io(err),
    {
        Error::Io(err)
    }
}

impl vstd::std_specs::convert::FromSpecImpl<IoError> for Error {
    open spec fn obeys_from_spec() -> bool {
        true
    }

    open spec fn from_spec(err: IoError) -> Error {
        Error::Io(err)
    }
}

} // verus!
