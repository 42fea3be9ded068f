//! The process-wide entry point: asking for a supported API version. The
//! core honours one major version and the minor versions up to the one it
//! was built with.

use crate::vs::{VAPOURSYNTH_API_MAJOR, VAPOURSYNTH_API_MINOR};
use vstd::prelude::*;

verus! {

/// Whether the host honours a request for the given API version.
pub open spec fn api_supported(major: u16, minor: u16) -> bool {
    major == VAPOURSYNTH_API_MAJOR && minor <= VAPOURSYNTH_API_MINOR
}

/// The error returned when the requested API version is not supported.
#[derive(Debug, Clone, Copy, PartialEq, Eq, Structural)]
pub struct ApiNotFound {
    pub major: u16,
    pub minor: u16,
}

impl ApiNotFound {
    /// A printable description of the error.
    pub fn message(&self) -> (r: &'static str) {
        "Request for this API version failed. Please check if the version is supported by the host."
    }
}

/// A handle to the host's entry points, at an agreed API version.
#[derive(Debug, Clone, Copy, PartialEq, Eq, Structural)]
pub struct Api {
    major: u16,
    minor: u16,
}

impl Api {
    /// The major version this handle was agreed at.
    pub closed spec fn spec_major(self) -> u16 {
        self.major
    }

    /// The minor version this handle was agreed at.
    pub closed spec fn spec_minor(self) -> u16 {
        self.minor
    }

    /// Asks for the entry points at the given version; refused exactly
    /// when the version is unsupported.
    pub fn new(major: u16, minor: u16) -> (r: Result<Api, ApiNotFound>)
        ensures
            match r {
                Ok(a) => api_supported(major, minor) && a.spec_major() == major && a.spec_minor()
                    == minor,
                Err(e) => !api_supported(major, minor) && e.major == major && e.minor == minor,
            },
    {
        if major == VAPOURSYNTH_API_MAJOR && minor <= VAPOURSYNTH_API_MINOR {
            Ok(Api { major, minor })
        } else {
            Err(ApiNotFound { major, minor })
        }
    }
}

} // verus!
