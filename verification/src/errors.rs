//! Failure kinds surfaced by the capture pipeline, and the protocol-level
//! error codes of the windowing boundary.

use vstd::prelude::*;

verus! {

/// Everything that can go wrong during a capture, from connecting to the
/// windowing system through writing the output file. Cancellation by the
/// user is represented here too, although the orchestrator treats it as an
/// empty outcome rather than a failure.
#[derive(Debug)]
pub enum Error {
    ConnectionError,
    CompositorError,
    ImageError,
    InvalidRect,
    InvalidPath,
    Cancelled,
    WindowDestroyed,
    IOError(String),
}

/// Error codes reported by the windowing protocol itself.
#[derive(Debug, PartialEq, Eq, Structural)]
pub enum XError {
    BadAlloc,
    BadMatch,
    BadValue,
    BadWindow,
    ConnectionError,
}

impl Error {
    /// The short tag of this error kind.
    pub open spec fn spec_name(self) -> Seq<char> {
        match self {
            Error::ConnectionError => "ConnectionError"@,
            Error::CompositorError => "CompositorError"@,
            Error::ImageError => "ImageError"@,
            Error::InvalidRect => "InvalidRect"@,
            Error::InvalidPath => "InvalidPath"@,
            Error::Cancelled => "Aborted"@,
            Error::WindowDestroyed => "WindowDestroyed"@,
            Error::IOError(_) => "IOError"@,
        }
    }

    /// The human-readable description of this error kind; a wrapped
    /// filesystem error carries its own message through unchanged.
    pub open spec fn spec_description(self) -> Seq<char> {
        match self {
            Error::ConnectionError => "Failed to connect to X"@,
            Error::CompositorError => "A composite manager is required"@,
            Error::ImageError => "Unable to get frame buffer from X"@,
            Error::InvalidRect => "Invalid region: width or height cannot be 0px"@,
            Error::InvalidPath => "Invalid path"@,
            Error::Cancelled => "Operation aborted by user"@,
            Error::WindowDestroyed => "Window destroyed by external means"@,
            Error::IOError(e) => e@,
        }
    }

    /// The short tag of this error kind, for the outcome line printed to
    /// the user.
    pub fn name(&self) -> (r: String)
        ensures
            r@ == self.spec_name(),
    {
        match self {
            Error::ConnectionError => "ConnectionError".to_owned(),
            Error::CompositorError => "CompositorError".to_owned(),
            Error::ImageError => "ImageError".to_owned(),
            Error::InvalidRect => "InvalidRect".to_owned(),
            Error::InvalidPath => "InvalidPath".to_owned(),
            Error::Cancelled => "Aborted".to_owned(),
            Error::WindowDestroyed => "WindowDestroyed".to_owned(),
            Error::IOError(_) => "IOError".to_owned(),
        }
    }

    /// The human-readable description of this error kind.
    pub fn description(&self) -> (r: String)
        ensures
            r@ == self.spec_description(),
    {
        match self {
            Error::ConnectionError => "Failed to connect to X".to_owned(),
            Error::CompositorError => "A composite manager is required".to_owned(),
            Error::ImageError => "Unable to get frame buffer from X".to_owned(),
            Error::InvalidRect => "Invalid region: width or height cannot be 0px".to_owned(),
            Error::InvalidPath => "Invalid path".to_owned(),
            Error::Cancelled => "Operation aborted by user".to_owned(),
            Error::WindowDestroyed => "Window destroyed by external means".to_owned(),
            Error::IOError(e) => e.clone(),
        }
    }
}

impl From<XError> for Error {
    /// Every protocol-level failure surfaces as a connection failure.
    fn from(_e: XError) -> (r: Error) {
        Error::ConnectionError
    }
}

impl vstd::std_specs::convert::FromSpecImpl<XError> for Error {
    open spec fn obeys_from_spec() -> bool {
        true
    }

    open spec fn from_spec(_e: XError) -> Error {
        Error::ConnectionError
    }
}

} // verus!
