//! The native calls an operation asks for, and what comes back from them.

use crate::handle::HandleProbe;
use crate::region::EllipseBox;
use vstd::prelude::*;
use windows::Win32::Graphics::Gdi::HRGN;

verus! {

/// One call on the window, or on the region objects that a region list is
/// built from. Region objects are named by their raw handle.
#[derive(Clone, Copy, Debug, PartialEq, Eq, Structural)]
pub enum NativeCall {
    /// Ask the windowing layer for the window's native handle.
    AcquireHandle,
    /// Read the extended style.
    ReadStyle,
    /// Replace the extended style.
    WriteStyle { bits: isize },
    /// Take the clip region off the window.
    ClearRegion,
    /// Build the region of the ellipse inscribed in `bounds`.
    CreateEllipse { bounds: EllipseBox },
    /// Make `target` the union of `target` and `other`.
    UniteRegions { target: isize, other: isize },
    /// Delete a region object that the window never got.
    ReleaseRegion { region: isize },
    /// Make `region` the window's clip region; the system owns it from then on.
    InstallRegion { region: isize },
    /// Have the frame and hit-testing recomputed, without moving, resizing,
    /// reordering or activating the window.
    Refresh,
}

/// The answer to a [`NativeCall`].
#[derive(Debug, PartialEq, Eq)]
pub enum NativeReply {
    /// To `AcquireHandle`.
    Handle(HandleProbe),
    /// To `ReadStyle`: the extended style.
    Style(isize),
    /// To `CreateEllipse`: the raw handle of the new region, valid or not.
    Region(isize),
    /// To any other call: it was made.
    Done,
    /// To any other call: it was made and reported a failure.
    Failed,
}

impl NativeReply {
    /// Whether the reply is that of a call which returns nothing to decide on.
    pub open spec fn is_completion(self) -> bool {
        self is Done || self is Failed
    }
}

/// Whether a raw region handle names no region: the null handle and -1.
pub open spec fn invalid_region(raw: isize) -> bool {
    raw == 0 || raw == -1
}

/// `HRGN::is_invalid` of the `windows` crate, on the handle with this raw
/// value: true for 0 and for -1, false for every other value.
#[verifier::external_body]
pub(crate) fn region_is_invalid(raw: isize) -> (invalid: bool)
    ensures
        invalid == invalid_region(raw),
{
    HRGN(raw).is_invalid()
}

} // verus!
