//! The platform gate: every platform-sensitive operation is available on
//! exactly one supported platform and fails immediately, before any side
//! effect, on all others.

use vstd::prelude::*;

verus! {

/// The platform the install routine is running on, determined once at
/// process start. Only Linux is supported; every other platform is
/// collapsed into `Other`.
#[derive(Clone, Copy, PartialEq, Eq, Structural, Debug)]
pub enum Platform {
    Linux,
    Other,
}

/// The one supported platform.
pub open spec fn supported(p: Platform) -> bool {
    p is Linux
}

impl Platform {
    /// Whether platform-gated operations have a real implementation here.
    pub fn is_supported(&self) -> (r: bool)
        ensures
            r == supported(*self),
    {
        match self {
            Platform::Linux => true,
            Platform::Other => false,
        }
    }
}

} // verus!
