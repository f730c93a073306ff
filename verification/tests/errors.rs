use mouse_passthrough::error::PassthroughError;

#[test]
fn unsupported_platform_message() {
    assert_eq!(PassthroughError::UnsupportedPlatform.message(), "Only supported on Windows");
}

#[test]
fn not_windows_window_message() {
    assert_eq!(PassthroughError::NotWindowsWindow.message(), "Not a Windows window");
}

#[test]
fn handle_access_message_carries_the_reason() {
    let error = PassthroughError::HandleAccessError("window was destroyed".to_string());
    assert_eq!(error.message(), "Failed to get window handle: window was destroyed");
    let empty = PassthroughError::HandleAccessError(String::new());
    assert_eq!(empty.message(), "Failed to get window handle: ");
}

#[test]
fn region_creation_message() {
    assert_eq!(PassthroughError::RegionCreationError.message(), "Failed to create first region");
}
