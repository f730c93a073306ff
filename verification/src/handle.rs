//! Resolving what the windowing layer hands out into a Win32 window handle.

use raw_window_handle::{HandleError, RawWindowHandle};
use vstd::prelude::*;

verus! {

#[verifier::external_type_specification]
#[verifier::external_body]
pub struct ExRawWindowHandle(RawWindowHandle);

#[verifier::external_type_specification]
#[verifier::external_body]
pub struct ExHandleError(HandleError);

/// What asking the windowing layer for the window's native handle gave.
#[derive(Debug, PartialEq, Eq)]
pub enum HandleProbe {
    /// A Win32 window, by its `HWND`.
    Win32(isize),
    /// A native handle of another windowing system.
    Foreign,
    /// No handle; the windowing layer's reason.
    Unavailable(String),
}

impl HandleProbe {
    /// A copy of the probe.
    pub fn duplicate(&self) -> (copy: HandleProbe)
        ensures
            copy == *self,
    {
        match self {
            HandleProbe::Win32(hwnd) => HandleProbe::Win32(*hwnd),
            HandleProbe::Foreign => HandleProbe::Foreign,
            HandleProbe::Unavailable(reason) => HandleProbe::Unavailable(reason.clone()),
        }
    }
}

/// The `hwnd` of a raw handle that is a Win32 window handle; `None` for a
/// handle of any other windowing system.
pub uninterp spec fn raw_win32_hwnd(raw: RawWindowHandle) -> Option<isize>;

/// The text that a handle error displays.
pub uninterp spec fn handle_error_display(error: HandleError) -> Seq<char>;

/// Tells the variants of `RawWindowHandle` apart: the `hwnd` field of a `Win32`
/// handle, `None` for any other variant. The same handle always gives the
/// same answer. The field is a `NonZeroIsize`, so the value is never 0.
#[verifier::external_body]
fn win32_hwnd(raw: &RawWindowHandle) -> (hwnd: Option<isize>)
    ensures
        hwnd == raw_win32_hwnd(*raw),
        hwnd matches Some(value) ==> value != 0,
{
    match raw {
        RawWindowHandle::Win32(handle) => Some(handle.hwnd.get()),
        _ => None,
    }
}

/// The `Display` text of a `HandleError`. The same error always gives the
/// same text; what the text is, is not claimed.
#[verifier::external_body]
fn handle_error_text(error: &HandleError) -> (text: String)
    ensures
        text@ == handle_error_display(*error),
{
    error.to_string()
}

/// The probe for what was found: a Win32 handle with its value, another kind
/// of handle, or the reason why there is none.
pub open spec fn spec_classify(found: Result<Option<isize>, String>) -> HandleProbe {
    match found {
        Ok(Some(hwnd)) => HandleProbe::Win32(hwnd),
        Ok(None) => HandleProbe::Foreign,
        Err(reason) => HandleProbe::Unavailable(reason),
    }
}

pub fn classify(found: Result<Option<isize>, String>) -> (probe: HandleProbe)
    ensures
        probe == spec_classify(found),
{
    match found {
        Ok(Some(hwnd)) => HandleProbe::Win32(hwnd),
        Ok(None) => HandleProbe::Foreign,
        Err(reason) => HandleProbe::Unavailable(reason),
    }
}

/// What [`probe_handle`] gives for the windowing layer's answer.
pub open spec fn probes_as(acquired: Result<RawWindowHandle, HandleError>, probe: HandleProbe)
    -> bool {
    match acquired {
        Ok(raw) => probe == spec_classify(Ok(raw_win32_hwnd(raw))),
        Err(error) => {
            &&& probe matches HandleProbe::Unavailable(reason)
            &&& reason@ == handle_error_display(error)
        },
    }
}

/// Resolves the windowing layer's answer: a Win32 handle to its `HWND`, which
/// is never 0, a handle of another windowing system to `Foreign`, and an
/// error to `Unavailable` with the text that the error displays.
pub fn probe_handle(acquired: Result<RawWindowHandle, HandleError>) -> (probe: HandleProbe)
    ensures
        probes_as(acquired, probe),
        acquired is Err <==> probe is Unavailable,
        probe matches HandleProbe::Win32(hwnd) ==> hwnd != 0,
{
    match acquired {
        Ok(raw) => classify(Ok(win32_hwnd(&raw))),
        Err(error) => classify(Err(handle_error_text(&error))),
    }
}

} // verus!
