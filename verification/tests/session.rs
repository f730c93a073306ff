use mouse_passthrough::error::PassthroughError;
use mouse_passthrough::handle::HandleProbe;
use mouse_passthrough::native::{NativeCall, NativeReply};
use mouse_passthrough::region::{EllipseBox, InteractiveRegion};
use mouse_passthrough::session::{
    clear_interactive_regions, disable_mouse_passthrough, enable_mouse_passthrough,
    get_window_style_info, set_interactive_regions, toggle_mouse_passthrough, Completion,
    Platform, Request, Session, Stage,
};

fn all_operations(platform: Platform) -> Vec<Session> {
    vec![
        enable_mouse_passthrough(platform),
        disable_mouse_passthrough(platform),
        toggle_mouse_passthrough(platform, true),
        toggle_mouse_passthrough(platform, false),
        set_interactive_regions(platform, vec![]),
        set_interactive_regions(
            platform,
            vec![InteractiveRegion { x: 1, y: 2, width: 3, height: 4 }],
        ),
        clear_interactive_regions(platform),
        get_window_style_info(platform),
    ]
}

fn resolved(session: Session, hwnd: isize) -> Session {
    assert_eq!(session.pending(), Some(NativeCall::AcquireHandle));
    session.advance(NativeReply::Handle(HandleProbe::Win32(hwnd)))
}

#[test]
fn enable_reads_writes_and_refreshes() {
    let session = resolved(enable_mouse_passthrough(Platform::Windows), 7);
    assert_eq!(session.window, 7);
    assert_eq!(session.pending(), Some(NativeCall::ReadStyle));
    let session = session.advance(NativeReply::Style(0x100));
    assert_eq!(session.pending(), Some(NativeCall::WriteStyle { bits: 0x0008_0120 }));
    let session = session.advance(NativeReply::Done);
    assert_eq!(session.pending(), Some(NativeCall::Refresh));
    assert!(!session.is_finished());
    let session = session.advance(NativeReply::Done);
    assert!(session.is_finished());
    assert_eq!(session.pending(), None);
    assert_eq!(session.into_result(), Some(Ok(None)));
}

#[test]
fn enable_adds_the_layered_bit_only_where_it_is_missing() {
    let session = resolved(enable_mouse_passthrough(Platform::Windows), 7);
    let session = session.advance(NativeReply::Style(0x0008_0000));
    assert_eq!(session.pending(), Some(NativeCall::WriteStyle { bits: 0x0008_0020 }));
}

#[test]
fn disable_clears_the_transparent_bit_and_keeps_the_layered_bit() {
    let session = resolved(disable_mouse_passthrough(Platform::Windows), 7);
    assert_eq!(session.pending(), Some(NativeCall::ReadStyle));
    let session = session.advance(NativeReply::Style(0x0008_0020));
    assert_eq!(session.pending(), Some(NativeCall::WriteStyle { bits: 0x0008_0000 }));
    let session = session.advance(NativeReply::Done);
    assert_eq!(session.pending(), Some(NativeCall::Refresh));
    let session = session.advance(NativeReply::Done);
    assert_eq!(session.into_result(), Some(Ok(None)));
}

#[test]
fn disable_does_not_add_the_layered_bit() {
    let session = resolved(disable_mouse_passthrough(Platform::Windows), 7);
    let session = session.advance(NativeReply::Style(0x20));
    assert_eq!(session.pending(), Some(NativeCall::WriteStyle { bits: 0 }));
}

#[test]
fn toggle_is_enable_or_disable() {
    for platform in [Platform::Windows, Platform::Unsupported] {
        assert_eq!(toggle_mouse_passthrough(platform, true), enable_mouse_passthrough(platform));
        assert_eq!(toggle_mouse_passthrough(platform, false), disable_mouse_passthrough(platform));
    }
    assert_eq!(
        toggle_mouse_passthrough(Platform::Windows, true).request,
        Request::EnablePassthrough
    );
    assert_eq!(
        toggle_mouse_passthrough(Platform::Windows, false).request,
        Request::DisablePassthrough
    );
}

#[test]
fn a_failed_refresh_is_not_an_error() {
    let session = resolved(enable_mouse_passthrough(Platform::Windows), 7);
    let session = session.advance(NativeReply::Style(0));
    let session = session.advance(NativeReply::Done);
    assert_eq!(session.pending(), Some(NativeCall::Refresh));
    let session = session.advance(NativeReply::Failed);
    assert_eq!(session.into_result(), Some(Ok(None)));
}

#[test]
fn an_empty_list_clears_the_region_and_sets_the_transparent_bit() {
    let session = resolved(set_interactive_regions(Platform::Windows, vec![]), 7);
    assert_eq!(session.request, Request::PassEverywhere);
    assert_eq!(session.pending(), Some(NativeCall::ClearRegion));
    let session = session.advance(NativeReply::Done);
    assert_eq!(session.pending(), Some(NativeCall::ReadStyle));
    let session = session.advance(NativeReply::Style(0x0008_0000));
    assert_eq!(session.pending(), Some(NativeCall::WriteStyle { bits: 0x0008_0020 }));
    let session = session.advance(NativeReply::Done);
    assert_eq!(session.pending(), Some(NativeCall::Refresh));
    let session = session.advance(NativeReply::Done);
    assert_eq!(session.into_result(), Some(Ok(None)));
}

#[test]
fn an_empty_list_does_not_touch_the_layered_bit() {
    let session = resolved(set_interactive_regions(Platform::Windows, vec![]), 7);
    let session = session.advance(NativeReply::Done);
    let session = session.advance(NativeReply::Style(0));
    assert_eq!(session.pending(), Some(NativeCall::WriteStyle { bits: 0x20 }));
}

#[test]
fn a_region_list_becomes_its_boxes() {
    let regions = vec![
        InteractiveRegion { x: 10, y: 10, width: 50, height: 50 },
        InteractiveRegion { x: 0, y: 5, width: -4, height: 0 },
        InteractiveRegion { x: 100, y: 200, width: 30, height: 40 },
    ];
    let session = set_interactive_regions(Platform::Windows, regions);
    assert_eq!(
        session.request,
        Request::Restrict {
            first: EllipseBox { left: 10, top: 10, right: 60, bottom: 60 },
            rest: vec![
                EllipseBox { left: 0, top: 5, right: -4, bottom: 5 },
                EllipseBox { left: 100, top: 200, right: 130, bottom: 240 },
            ],
        }
    );
    assert_eq!(session.stage, Stage::Acquiring);
    assert_eq!(session.window, 0);
    assert_eq!(session.accumulator, 0);
}

#[test]
fn one_region_is_built_before_the_style_is_written_and_then_installed() {
    let regions = vec![InteractiveRegion { x: 10, y: 10, width: 50, height: 50 }];
    let session = resolved(set_interactive_regions(Platform::Windows, regions), 7);
    assert_eq!(
        session.pending(),
        Some(NativeCall::CreateEllipse {
            bounds: EllipseBox { left: 10, top: 10, right: 60, bottom: 60 }
        })
    );
    let session = session.advance(NativeReply::Region(900));
    assert_eq!(session.accumulator, 900);
    assert_eq!(session.pending(), Some(NativeCall::ReadStyle));
    let session = session.advance(NativeReply::Style(0x0008_0020));
    assert_eq!(session.pending(), Some(NativeCall::WriteStyle { bits: 0x0008_0000 }));
    let session = session.advance(NativeReply::Done);
    assert_eq!(session.pending(), Some(NativeCall::InstallRegion { region: 900 }));
    let session = session.advance(NativeReply::Done);
    assert_eq!(session.pending(), Some(NativeCall::Refresh));
    let session = session.advance(NativeReply::Done);
    assert_eq!(session.into_result(), Some(Ok(None)));
}

#[test]
fn later_regions_are_united_and_released_and_failed_ones_dropped() {
    let regions = vec![
        InteractiveRegion { x: 0, y: 0, width: 10, height: 10 },
        InteractiveRegion { x: 20, y: 0, width: 10, height: 10 },
        InteractiveRegion { x: 40, y: 0, width: 10, height: 10 },
        InteractiveRegion { x: 60, y: 0, width: 10, height: 10 },
    ];
    let session = resolved(set_interactive_regions(Platform::Windows, regions), 7);
    let session = session.advance(NativeReply::Region(11));
    let session = session.advance(NativeReply::Style(0));
    let session = session.advance(NativeReply::Done);
    assert_eq!(
        session.pending(),
        Some(NativeCall::CreateEllipse {
            bounds: EllipseBox { left: 20, top: 0, right: 30, bottom: 10 }
        })
    );
    let session = session.advance(NativeReply::Region(12));
    assert_eq!(session.pending(), Some(NativeCall::UniteRegions { target: 11, other: 12 }));
    let session = session.advance(NativeReply::Done);
    assert_eq!(session.pending(), Some(NativeCall::ReleaseRegion { region: 12 }));
    let session = session.advance(NativeReply::Done);
    assert_eq!(
        session.pending(),
        Some(NativeCall::CreateEllipse {
            bounds: EllipseBox { left: 40, top: 0, right: 50, bottom: 10 }
        })
    );
    let session = session.advance(NativeReply::Region(0));
    assert_eq!(
        session.pending(),
        Some(NativeCall::CreateEllipse {
            bounds: EllipseBox { left: 60, top: 0, right: 70, bottom: 10 }
        })
    );
    let session = session.advance(NativeReply::Region(13));
    assert_eq!(session.pending(), Some(NativeCall::UniteRegions { target: 11, other: 13 }));
    let session = session.advance(NativeReply::Failed);
    assert_eq!(session.pending(), Some(NativeCall::ReleaseRegion { region: 13 }));
    let session = session.advance(NativeReply::Failed);
    assert_eq!(session.pending(), Some(NativeCall::InstallRegion { region: 11 }));
    let session = session.advance(NativeReply::Done);
    assert_eq!(session.pending(), Some(NativeCall::Refresh));
    let session = session.advance(NativeReply::Done);
    assert_eq!(session.into_result(), Some(Ok(None)));
}

#[test]
fn a_later_region_with_the_other_invalid_handle_is_dropped_too() {
    let regions = vec![
        InteractiveRegion { x: 0, y: 0, width: 10, height: 10 },
        InteractiveRegion { x: 20, y: 0, width: 10, height: 10 },
    ];
    let session = resolved(set_interactive_regions(Platform::Windows, regions), 7);
    let session = session.advance(NativeReply::Region(11));
    let session = session.advance(NativeReply::Style(0));
    let session = session.advance(NativeReply::Done);
    let session = session.advance(NativeReply::Region(-1));
    assert_eq!(session.pending(), Some(NativeCall::InstallRegion { region: 11 }));
}

#[test]
fn a_first_region_that_cannot_be_built_ends_the_operation_before_any_change() {
    for invalid in [0isize, -1] {
        let regions = vec![
            InteractiveRegion { x: 0, y: 0, width: 0, height: 0 },
            InteractiveRegion { x: 20, y: 0, width: 10, height: 10 },
        ];
        let session = resolved(set_interactive_regions(Platform::Windows, regions), 7);
        assert_eq!(
            session.pending(),
            Some(NativeCall::CreateEllipse {
                bounds: EllipseBox { left: 0, top: 0, right: 0, bottom: 0 }
            })
        );
        let session = session.advance(NativeReply::Region(invalid));
        assert!(session.is_finished());
        assert_eq!(session.pending(), None);
        assert_eq!(session.accumulator, 0);
        assert_eq!(session.into_result(), Some(Err(PassthroughError::RegionCreationError)));
    }
}

#[test]
fn handles_other_than_the_two_invalid_ones_are_regions() {
    for raw in [1isize, -2, isize::MAX, isize::MIN] {
        let regions = vec![InteractiveRegion { x: 0, y: 0, width: 1, height: 1 }];
        let session = resolved(set_interactive_regions(Platform::Windows, regions), 7);
        let session = session.advance(NativeReply::Region(raw));
        assert_eq!(session.accumulator, raw);
        assert_eq!(session.pending(), Some(NativeCall::ReadStyle));
    }
}

#[test]
fn clear_takes_the_region_off_and_clears_the_transparent_bit() {
    let session = resolved(clear_interactive_regions(Platform::Windows), 7);
    assert_eq!(session.pending(), Some(NativeCall::ClearRegion));
    let session = session.advance(NativeReply::Done);
    assert_eq!(session.pending(), Some(NativeCall::ReadStyle));
    let session = session.advance(NativeReply::Style(0x0008_0020));
    assert_eq!(session.pending(), Some(NativeCall::WriteStyle { bits: 0x0008_0000 }));
    let session = session.advance(NativeReply::Done);
    assert_eq!(session.pending(), Some(NativeCall::Refresh));
    let session = session.advance(NativeReply::Done);
    assert_eq!(session.into_result(), Some(Ok(None)));
}

#[test]
fn style_info_reads_and_reports_without_writing() {
    let session = resolved(get_window_style_info(Platform::Windows), 12345);
    assert_eq!(session.pending(), Some(NativeCall::ReadStyle));
    let session = session.advance(NativeReply::Style(0x0008_0020));
    assert!(session.is_finished());
    assert_eq!(
        session.stage,
        Stage::Finished(Ok(Completion::StyleRead { style: 0x0008_0020, window: 12345 }))
    );
    assert_eq!(
        session.into_result(),
        Some(Ok(Some(
            "窗口样式 (GWL_EXSTYLE): 0x80020\n\
             - WS_EX_LAYERED (透明支持): ✅ 已启用\n\
             - WS_EX_TRANSPARENT (鼠标透传): ✅ 已启用\n\
             - HWND: HWND(12345)"
                .to_string()
        )))
    );
}

#[test]
fn every_operation_is_finished_at_once_on_an_unsupported_platform() {
    for session in all_operations(Platform::Unsupported) {
        assert_eq!(session.pending(), None);
        assert!(session.is_finished());
        assert_eq!(session.window, 0);
        assert_eq!(session.accumulator, 0);
        let result = session.into_result();
        assert_eq!(result, Some(Err(PassthroughError::UnsupportedPlatform)));
        match result {
            Some(Err(error)) => assert_eq!(error.message(), "Only supported on Windows"),
            _ => unreachable!(),
        }
    }
}

#[test]
fn a_list_is_taken_as_it_is_on_an_unsupported_platform() {
    let beyond = InteractiveRegion { x: i32::MAX, y: i32::MAX, width: 1, height: 1 };
    let session = set_interactive_regions(Platform::Unsupported, vec![beyond]);
    assert_eq!(
        session.request,
        Request::Restrict {
            first: EllipseBox { left: i32::MAX, top: i32::MAX, right: i32::MIN, bottom: i32::MIN },
            rest: vec![],
        }
    );
    assert_eq!(session.into_result(), Some(Err(PassthroughError::UnsupportedPlatform)));
    let session = set_interactive_regions(Platform::Unsupported, vec![]);
    assert_eq!(session.request, Request::PassEverywhere);
}

#[test]
fn a_region_whose_far_edge_leaves_the_coordinate_range_is_asked_for_all_the_same() {
    let regions = vec![
        InteractiveRegion { x: i32::MAX, y: 0, width: 1, height: 1 },
        InteractiveRegion { x: 0, y: i32::MIN, width: 5, height: -1 },
    ];
    let session = resolved(set_interactive_regions(Platform::Windows, regions), 7);
    assert_eq!(
        session.pending(),
        Some(NativeCall::CreateEllipse {
            bounds: EllipseBox { left: i32::MAX, top: 0, right: i32::MIN, bottom: 1 }
        })
    );
    let refused = session.advance(NativeReply::Region(0));
    assert_eq!(refused.into_result(), Some(Err(PassthroughError::RegionCreationError)));

    let regions = vec![
        InteractiveRegion { x: i32::MAX, y: 0, width: 1, height: 1 },
        InteractiveRegion { x: 0, y: i32::MIN, width: 5, height: -1 },
    ];
    let session = resolved(set_interactive_regions(Platform::Windows, regions), 7);
    let session = session.advance(NativeReply::Region(31));
    let session = session.advance(NativeReply::Style(0x20));
    assert_eq!(session.pending(), Some(NativeCall::WriteStyle { bits: 0 }));
    let session = session.advance(NativeReply::Done);
    assert_eq!(
        session.pending(),
        Some(NativeCall::CreateEllipse {
            bounds: EllipseBox { left: 0, top: i32::MIN, right: 5, bottom: i32::MAX }
        })
    );
    let session = session.advance(NativeReply::Region(32));
    let session = session.advance(NativeReply::Done);
    let session = session.advance(NativeReply::Done);
    assert_eq!(session.pending(), Some(NativeCall::InstallRegion { region: 31 }));
    let session = session.advance(NativeReply::Done);
    let session = session.advance(NativeReply::Done);
    assert_eq!(session.into_result(), Some(Ok(None)));
}

#[test]
fn every_operation_starts_by_asking_for_the_handle() {
    for session in all_operations(Platform::Windows) {
        assert_eq!(session.stage, Stage::Acquiring);
        assert_eq!(session.pending(), Some(NativeCall::AcquireHandle));
        assert!(!session.is_finished());
        assert_eq!(session.into_result(), None);
    }
}

#[test]
fn every_operation_fails_on_a_foreign_handle_before_any_call_on_the_window() {
    for session in all_operations(Platform::Windows) {
        let session = session.advance(NativeReply::Handle(HandleProbe::Foreign));
        assert_eq!(session.pending(), None);
        let result = session.into_result();
        assert_eq!(result, Some(Err(PassthroughError::NotWindowsWindow)));
        match result {
            Some(Err(error)) => assert_eq!(error.message(), "Not a Windows window"),
            _ => unreachable!(),
        }
    }
}

#[test]
fn every_operation_fails_with_the_reason_where_no_handle_is_given() {
    for session in all_operations(Platform::Windows) {
        let reply = NativeReply::Handle(HandleProbe::Unavailable("window closed".to_string()));
        let session = session.advance(reply);
        assert_eq!(session.pending(), None);
        let result = session.into_result();
        assert_eq!(
            result,
            Some(Err(PassthroughError::HandleAccessError("window closed".to_string())))
        );
        match result {
            Some(Err(error)) => {
                assert_eq!(error.message(), "Failed to get window handle: window closed")
            }
            _ => unreachable!(),
        }
    }
}

#[test]
fn a_reply_that_does_not_answer_the_pending_call_is_ignored() {
    let session = enable_mouse_passthrough(Platform::Windows);
    let session = session.advance(NativeReply::Style(5));
    assert_eq!(session, enable_mouse_passthrough(Platform::Windows));
    let session = session.advance(NativeReply::Done);
    assert_eq!(session, enable_mouse_passthrough(Platform::Windows));
    let session = session.advance(NativeReply::Region(3));
    assert_eq!(session, enable_mouse_passthrough(Platform::Windows));

    let reading = resolved(session, 7);
    let still = reading.advance(NativeReply::Done);
    assert_eq!(still.pending(), Some(NativeCall::ReadStyle));
    let still = still.advance(NativeReply::Handle(HandleProbe::Win32(8)));
    assert_eq!(still.pending(), Some(NativeCall::ReadStyle));
    assert_eq!(still.window, 7);

    let writing = still.advance(NativeReply::Style(0));
    let still = writing.advance(NativeReply::Style(1));
    assert_eq!(still.pending(), Some(NativeCall::WriteStyle { bits: 0x0008_0020 }));

    let regions = vec![InteractiveRegion { x: 0, y: 0, width: 1, height: 1 }];
    let founding = resolved(set_interactive_regions(Platform::Windows, regions), 7);
    let still = founding.advance(NativeReply::Done);
    assert_eq!(still.stage, Stage::Founding);
}

#[test]
fn a_finished_session_takes_no_reply() {
    let session = resolved(get_window_style_info(Platform::Windows), 1);
    let session = session.advance(NativeReply::Style(0));
    let end = Stage::Finished(Ok(Completion::StyleRead { style: 0, window: 1 }));
    assert_eq!(session.stage, end);
    let session = session.advance(NativeReply::Done);
    assert_eq!(session.stage, end);
    let session = session.advance(NativeReply::Style(0x20));
    assert_eq!(session.stage, end);
}

#[test]
fn begin_starts_any_request() {
    let session = Session::begin(Platform::Windows, Request::ClearRegions);
    assert_eq!(session, clear_interactive_regions(Platform::Windows));
    let session = Session::begin(Platform::Unsupported, Request::StyleInfo);
    assert_eq!(session, get_window_style_info(Platform::Unsupported));
}
