//! The error type of the window layer.
use vstd::prelude::*;
use vstd::string::*;

verus! {

/// What can go wrong while creating a window, its GPU context or a frame.
/// Variants that wrap the failure of an outside call hold that failure's
/// message.
#[derive(Debug)]
pub enum Error {
    CreateWindow(String),
    EventLoop(String),
    CreateSurface(String),
    RequestAdapter(String),
    IncompatibleAdapter,
    RequestDevice(String),
    SurfaceLost,
    SurfaceValidation,
    InvalidFrameRate,
    User(String),
    Other(String),
}

impl Error {
    /// The text that describes the error.
    pub open spec fn spec_message(&self) -> Seq<char> {
        match self {
            Error::CreateWindow(d) => "failed to create window: "@ + d@,
            Error::EventLoop(d) => "failed to create event loop: "@ + d@,
            Error::CreateSurface(d) => "failed to create wgpu surface: "@ + d@,
            Error::RequestAdapter(d) => "failed to request wgpu adapter: "@ + d@,
            Error::IncompatibleAdapter => "wgpu adapter is incompatible with the surface"@,
            Error::RequestDevice(d) => "failed to request wgpu device: "@ + d@,
            Error::SurfaceLost => "wgpu surface lost"@,
            Error::SurfaceValidation => "wgpu surface validation failed"@,
            Error::InvalidFrameRate => "window max frame rate must be greater than zero"@,
            Error::User(d) => "user callback error: "@ + d@,
            Error::Other(d) => d@,
        }
    }

    /// Renders the error as text.
    pub fn message(&self) -> (text: String)
        ensures
            text@ == self.spec_message(),
    {
        match self {
            Error::CreateWindow(d) => String::from_str("failed to create window: ").concat(d.as_str()),
            Error::EventLoop(d) => String::from_str("failed to create event loop: ").concat(d.as_str()),
            Error::CreateSurface(d) => String::from_str("failed to create wgpu surface: ").concat(
                d.as_str(),
            ),
            Error::RequestAdapter(d) => String::from_str("failed to request wgpu adapter: ").concat(
                d.as_str(),
            ),
            Error::IncompatibleAdapter => String::from_str(
                "wgpu adapter is incompatible with the surface",
            ),
            Error::RequestDevice(d) => String::from_str("failed to request wgpu device: ").concat(
                d.as_str(),
            ),
            Error::SurfaceLost => String::from_str("wgpu surface lost"),
            Error::SurfaceValidation => String::from_str("wgpu surface validation failed"),
            Error::InvalidFrameRate => String::from_str(
                "window max frame rate must be greater than zero",
            ),
            Error::User(d) => String::from_str("user callback error: ").concat(d.as_str()),
            Error::Other(d) => String::from_str(d.as_str()),
        }
    }
}

} // verus!
