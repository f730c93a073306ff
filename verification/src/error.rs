//! The ways an operation can fail.

use vstd::prelude::*;
use vstd::string::StringExecFns;

verus! {

/// Why an operation did not reach the window. Each is returned to the caller;
/// none is fatal.
#[derive(Debug, PartialEq, Eq)]
pub enum PassthroughError {
    /// The platform has no native window styling; nothing was attempted.
    UnsupportedPlatform,
    /// The windowing layer could not give a native handle; it said why.
    HandleAccessError(String),
    /// The handle is not a Win32 window handle.
    NotWindowsWindow,
    /// The first region of a non-empty list could not be built; the window is
    /// as it was.
    RegionCreationError,
}

impl PassthroughError {
    /// The text of [`Self::message`].
    pub open spec fn spec_message(self) -> Seq<char> {
        match self {
            PassthroughError::UnsupportedPlatform => "Only supported on Windows"@,
            PassthroughError::HandleAccessError(reason) => "Failed to get window handle: "@
                + reason@,
            PassthroughError::NotWindowsWindow => "Not a Windows window"@,
            PassthroughError::RegionCreationError => "Failed to create first region"@,
        }
    }

    /// The error as the string that callers at the boundary receive.
    pub fn message(&self) -> (text: String)
        ensures
            text@ == self.spec_message(),
    {
        match self {
            PassthroughError::UnsupportedPlatform => String::from_str("Only supported on Windows"),
            PassthroughError::HandleAccessError(reason) => String::from_str(
                "Failed to get window handle: ",
            ).concat(reason.as_str()),
            PassthroughError::NotWindowsWindow => String::from_str("Not a Windows window"),
            PassthroughError::RegionCreationError => String::from_str(
                "Failed to create first region",
            ),
        }
    }
}

} // verus!
