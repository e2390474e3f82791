//! Window and GPU-context layer: the decisions of the event loop, of frame
//! pacing and of the per-window surface, with their contracts.
use vstd::prelude::*;

pub mod error;
pub mod pacing;
pub mod wgpu_window;
pub mod window_loop;

pub use error::Error;
pub use window_loop::WindowLoop;

verus! {

/// The package version that `version` reports.
pub open spec fn package_version() -> Seq<char> {
    "0.1.0"@
}

/// Returns the package version of this crate.
pub fn version() -> (v: &'static str)
    ensures
        v@ == package_version(),
{
    "0.1.0"
}

} // verus!
