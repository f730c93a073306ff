use std::num::NonZeroIsize;

use mouse_passthrough::handle::{classify, probe_handle, HandleProbe};
use raw_window_handle::{
    HandleError, RawWindowHandle, WebWindowHandle, Win32WindowHandle, XlibWindowHandle,
};

#[test]
fn a_win32_handle_resolves_to_its_hwnd() {
    let handle = Win32WindowHandle::new(NonZeroIsize::new(4242).unwrap());
    assert_eq!(probe_handle(Ok(RawWindowHandle::Win32(handle))), HandleProbe::Win32(4242));
    let negative = Win32WindowHandle::new(NonZeroIsize::new(-5).unwrap());
    assert_eq!(probe_handle(Ok(RawWindowHandle::Win32(negative))), HandleProbe::Win32(-5));
}

#[test]
fn a_handle_of_another_windowing_system_is_foreign() {
    let xlib = RawWindowHandle::Xlib(XlibWindowHandle::new(4242));
    assert_eq!(probe_handle(Ok(xlib)), HandleProbe::Foreign);
    let web = RawWindowHandle::Web(WebWindowHandle::new(1));
    assert_eq!(probe_handle(Ok(web)), HandleProbe::Foreign);
}

#[test]
fn a_missing_handle_carries_the_reason() {
    assert_eq!(
        probe_handle(Err(HandleError::Unavailable)),
        HandleProbe::Unavailable("the underlying handle is not available".to_string())
    );
    assert_eq!(
        probe_handle(Err(HandleError::NotSupported)),
        HandleProbe::Unavailable(
            "the underlying handle cannot be represented using the types in this crate"
                .to_string()
        )
    );
}

#[test]
fn classification_follows_what_was_found() {
    assert_eq!(classify(Ok(Some(9))), HandleProbe::Win32(9));
    assert_eq!(classify(Ok(None)), HandleProbe::Foreign);
    assert_eq!(
        classify(Err("gone".to_string())),
        HandleProbe::Unavailable("gone".to_string())
    );
}

#[test]
fn a_probe_is_duplicated_as_it_is() {
    for probe in [
        HandleProbe::Win32(3),
        HandleProbe::Foreign,
        HandleProbe::Unavailable("closed".to_string()),
    ] {
        assert_eq!(probe.duplicate(), probe);
    }
}
