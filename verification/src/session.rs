//! The six operations, each as a session that the host drives: the session
//! names the native call to make next, the host makes it and hands the reply
//! back, until the session is finished. A session holds every decision; the
//! host holds none.

use crate::error::PassthroughError;
use crate::handle::HandleProbe;
use crate::native::{invalid_region, region_is_invalid, NativeCall, NativeReply};
use crate::region::{boxes_of, EllipseBox, InteractiveRegion};
use crate::report::{spec_style_report, style_report};
use crate::run::{brings_about, lemma_begin_brings_about};
use crate::style::{
    clear_transparent, enable_passthrough, set_transparent, with_passthrough, with_transparent,
    without_transparent,
};
use vstd::prelude::*;

verus! {

/// Whether the platform has native window styling at all.
#[derive(Clone, Copy, Debug, PartialEq, Eq, Structural)]
pub enum Platform {
    Windows,
    Unsupported,
}

/// What a session is to bring about.
#[derive(Debug, PartialEq, Eq)]
pub enum Request {
    /// Full-window passthrough: the layered and the transparent bit set.
    EnablePassthrough,
    /// The transparent bit cleared; the layered bit left alone.
    DisablePassthrough,
    /// An empty region list: no clip region, the transparent bit set.
    PassEverywhere,
    /// A non-empty region list, as the boxes of its ellipses: their union is
    /// the clip region, the transparent bit is cleared.
    Restrict { first: EllipseBox, rest: Vec<EllipseBox> },
    /// No clip region and the transparent bit cleared.
    ClearRegions,
    /// Read the style and report on it; change nothing.
    StyleInfo,
}

/// How a session that did not fail ended.
#[derive(Clone, Copy, Debug, PartialEq, Eq, Structural)]
pub enum Completion {
    /// The window was changed and refreshed.
    Done,
    /// The style was read from the window `window`.
    StyleRead { style: isize, window: isize },
}

/// Where a session stands: the call it waits on, or its end.
#[derive(Debug, PartialEq, Eq)]
pub enum Stage {
    /// Waits on `AcquireHandle`.
    Acquiring,
    /// Waits on `ClearRegion`.
    Clearing,
    /// Waits on `CreateEllipse` for the first box, which becomes the accumulator.
    Founding,
    /// Waits on `ReadStyle`.
    Reading,
    /// Waits on `WriteStyle` of `bits`.
    Writing { bits: isize },
    /// With boxes left from `cursor` on, waits on `CreateEllipse` for the box at
    /// `cursor`; with none left, on `InstallRegion` of the accumulator.
    Extending { cursor: usize },
    /// Waits on `UniteRegions` of the accumulator with `fresh`.
    Uniting { next: usize, fresh: isize },
    /// Waits on `ReleaseRegion` of `fresh`.
    Releasing { next: usize, fresh: isize },
    /// Waits on `Refresh`.
    Refreshing,
    /// Waits on nothing.
    Finished(Result<Completion, PassthroughError>),
}

/// One operation under way. `window` is the resolved `HWND` and `accumulator`
/// the region that the union is built in, each 0 until it is known.
#[derive(Debug, PartialEq, Eq)]
pub struct Session {
    pub request: Request,
    pub stage: Stage,
    pub window: isize,
    pub accumulator: isize,
}

impl Request {
    /// The first box of a region list; the empty box for any other request.
    pub open spec fn first_box(self) -> EllipseBox {
        match self {
            Request::Restrict { first, rest } => first,
            _ => EllipseBox { left: 0, top: 0, right: 0, bottom: 0 },
        }
    }

    /// The boxes of a region list after the first; none for any other request.
    pub open spec fn later_boxes(self) -> Seq<EllipseBox> {
        match self {
            Request::Restrict { first, rest } => rest@,
            _ => Seq::empty(),
        }
    }

    /// The stage that follows the handle: a region list builds its first region
    /// before anything on the window changes, the two requests that leave the
    /// window without a region take it off first, the others read the style.
    pub open spec fn entry_stage(self) -> Stage {
        match self {
            Request::Restrict { first, rest } => Stage::Founding,
            Request::PassEverywhere => Stage::Clearing,
            Request::ClearRegions => Stage::Clearing,
            _ => Stage::Reading,
        }
    }

    /// The style that the request writes, given the style that was read.
    pub open spec fn restyle(self, style: isize) -> isize {
        match self {
            Request::EnablePassthrough => with_passthrough(style),
            Request::PassEverywhere => with_transparent(style),
            _ => without_transparent(style),
        }
    }

    fn first_bounds(&self) -> (bounds: EllipseBox)
        ensures
            bounds == self.first_box(),
    {
        match self {
            Request::Restrict { first, rest } => *first,
            _ => EllipseBox { left: 0, top: 0, right: 0, bottom: 0 },
        }
    }

    fn later_count(&self) -> (count: usize)
        ensures
            count == self.later_boxes().len(),
    {
        match self {
            Request::Restrict { first, rest } => rest.len(),
            _ => 0,
        }
    }

    fn later_bounds(&self, index: usize) -> (bounds: EllipseBox)
        requires
            index < self.later_boxes().len(),
        ensures
            bounds == self.later_boxes()[index as int],
    {
        match self {
            Request::Restrict { first, rest } => rest[index],
            _ => EllipseBox { left: 0, top: 0, right: 0, bottom: 0 },
        }
    }

    fn entry(&self) -> (stage: Stage)
        ensures
            stage == self.entry_stage(),
    {
        match self {
            Request::Restrict { first, rest } => Stage::Founding,
            Request::PassEverywhere => Stage::Clearing,
            Request::ClearRegions => Stage::Clearing,
            _ => Stage::Reading,
        }
    }

    fn restyled(&self, style: isize) -> (bits: isize)
        ensures
            bits == self.restyle(style),
    {
        match self {
            Request::EnablePassthrough => enable_passthrough(style),
            Request::PassEverywhere => set_transparent(style),
            _ => clear_transparent(style),
        }
    }
}

impl Session {
    /// A session at its start: finished at once, with nothing asked of the
    /// window, where the platform has no native window styling.
    pub open spec fn spec_begin(platform: Platform, request: Request) -> Session {
        Session {
            request,
            stage: match platform {
                Platform::Windows => Stage::Acquiring,
                Platform::Unsupported => Stage::Finished(
                    Err(PassthroughError::UnsupportedPlatform),
                ),
            },
            window: 0,
            accumulator: 0,
        }
    }

    pub fn begin(platform: Platform, request: Request) -> (session: Session)
        ensures
            session == Session::spec_begin(platform, request),
    {
        let stage = match platform {
            Platform::Windows => Stage::Acquiring,
            Platform::Unsupported => Stage::Finished(Err(PassthroughError::UnsupportedPlatform)),
        };
        Session { request, stage, window: 0, accumulator: 0 }
    }

    /// The call that the session waits on; `None` once it is finished.
    pub open spec fn spec_pending(self) -> Option<NativeCall> {
        match self.stage {
            Stage::Acquiring => Some(NativeCall::AcquireHandle),
            Stage::Clearing => Some(NativeCall::ClearRegion),
            Stage::Founding => Some(NativeCall::CreateEllipse { bounds: self.request.first_box() }),
            Stage::Reading => Some(NativeCall::ReadStyle),
            Stage::Writing { bits } => Some(NativeCall::WriteStyle { bits }),
            Stage::Extending { cursor } => if cursor < self.request.later_boxes().len() {
                Some(NativeCall::CreateEllipse { bounds: self.request.later_boxes()[cursor as int] })
            } else {
                Some(NativeCall::InstallRegion { region: self.accumulator })
            },
            Stage::Uniting { next, fresh } => Some(
                NativeCall::UniteRegions { target: self.accumulator, other: fresh },
            ),
            Stage::Releasing { next, fresh } => Some(NativeCall::ReleaseRegion { region: fresh }),
            Stage::Refreshing => Some(NativeCall::Refresh),
            Stage::Finished(_) => None,
        }
    }

    pub fn pending(&self) -> (call: Option<NativeCall>)
        ensures
            call == self.spec_pending(),
    {
        match &self.stage {
            Stage::Acquiring => Some(NativeCall::AcquireHandle),
            Stage::Clearing => Some(NativeCall::ClearRegion),
            Stage::Founding => Some(NativeCall::CreateEllipse { bounds: self.request.first_bounds() }),
            Stage::Reading => Some(NativeCall::ReadStyle),
            Stage::Writing { bits } => Some(NativeCall::WriteStyle { bits: *bits }),
            Stage::Extending { cursor } => if *cursor < self.request.later_count() {
                Some(NativeCall::CreateEllipse { bounds: self.request.later_bounds(*cursor) })
            } else {
                Some(NativeCall::InstallRegion { region: self.accumulator })
            },
            Stage::Uniting { next, fresh } => Some(
                NativeCall::UniteRegions { target: self.accumulator, other: *fresh },
            ),
            Stage::Releasing { next, fresh } => Some(NativeCall::ReleaseRegion { region: *fresh }),
            Stage::Refreshing => Some(NativeCall::Refresh),
            Stage::Finished(_) => None,
        }
    }

    pub open spec fn finished(self) -> bool {
        self.stage is Finished
    }

    pub fn is_finished(&self) -> (done: bool)
        ensures
            done == self.finished(),
    {
        match &self.stage {
            Stage::Finished(_) => true,
            _ => false,
        }
    }

    /// Whether `reply` answers the pending call. A call that returns nothing to
    /// decide on is answered by `Done` and by `Failed` alike: that it failed is
    /// for the host to log, and never fatal.
    pub open spec fn accepts(self, reply: NativeReply) -> bool {
        match self.stage {
            Stage::Acquiring => reply is Handle,
            Stage::Reading => reply is Style,
            Stage::Founding => reply is Region,
            Stage::Extending { cursor } => if cursor < self.request.later_boxes().len() {
                reply is Region
            } else {
                reply.is_completion()
            },
            Stage::Finished(_) => false,
            _ => reply.is_completion(),
        }
    }

    /// The stage after the pending call was answered by an accepted `reply`.
    pub open spec fn next_stage(self, reply: NativeReply) -> Stage {
        match self.stage {
            Stage::Acquiring => match reply {
                NativeReply::Handle(HandleProbe::Win32(hwnd)) => self.request.entry_stage(),
                NativeReply::Handle(HandleProbe::Foreign) => Stage::Finished(
                    Err(PassthroughError::NotWindowsWindow),
                ),
                NativeReply::Handle(HandleProbe::Unavailable(reason)) => Stage::Finished(
                    Err(PassthroughError::HandleAccessError(reason)),
                ),
                _ => self.stage,
            },
            Stage::Clearing => Stage::Reading,
            Stage::Founding => match reply {
                NativeReply::Region(raw) => if invalid_region(raw) {
                    Stage::Finished(Err(PassthroughError::RegionCreationError))
                } else {
                    Stage::Reading
                },
                _ => self.stage,
            },
            Stage::Reading => match reply {
                NativeReply::Style(style) => if self.request is StyleInfo {
                    Stage::Finished(Ok(Completion::StyleRead { style, window: self.window }))
                } else {
                    Stage::Writing { bits: self.request.restyle(style) }
                },
                _ => self.stage,
            },
            Stage::Writing { bits } => if self.request is Restrict {
                Stage::Extending { cursor: 0 }
            } else {
                Stage::Refreshing
            },
            Stage::Extending { cursor } => match reply {
                NativeReply::Region(raw) => if invalid_region(raw) {
                    Stage::Extending { cursor: (cursor + 1) as usize }
                } else {
                    Stage::Uniting { next: (cursor + 1) as usize, fresh: raw }
                },
                _ => Stage::Refreshing,
            },
            Stage::Uniting { next, fresh } => Stage::Releasing { next, fresh },
            Stage::Releasing { next, fresh } => Stage::Extending { cursor: next },
            Stage::Refreshing => Stage::Finished(Ok(Completion::Done)),
            Stage::Finished(_) => self.stage,
        }
    }

    /// The session after `reply`: unchanged where the reply does not answer the
    /// pending call; else one stage on, with the window's handle and the
    /// accumulator's taken from the replies that bring them.
    pub open spec fn spec_advance(self, reply: NativeReply) -> Session {
        if !self.accepts(reply) {
            self
        } else {
            Session {
                request: self.request,
                stage: self.next_stage(reply),
                window: match (self.stage, reply) {
                    (Stage::Acquiring, NativeReply::Handle(HandleProbe::Win32(hwnd))) => hwnd,
                    _ => self.window,
                },
                accumulator: match (self.stage, reply) {
                    (Stage::Founding, NativeReply::Region(raw)) => if invalid_region(raw) {
                        self.accumulator
                    } else {
                        raw
                    },
                    _ => self.accumulator,
                },
            }
        }
    }

    /// Takes the reply to the pending call and moves on.
    pub fn advance(self, reply: NativeReply) -> (next: Session)
        ensures
            next == self.spec_advance(reply),
    {
        let Session { request, stage, window, accumulator } = self;
        match stage {
            Stage::Acquiring => match reply {
                NativeReply::Handle(HandleProbe::Win32(hwnd)) => {
                    let stage = request.entry();
                    Session { request, stage, window: hwnd, accumulator }
                },
                NativeReply::Handle(HandleProbe::Foreign) => Session {
                    request,
                    stage: Stage::Finished(Err(PassthroughError::NotWindowsWindow)),
                    window,
                    accumulator,
                },
                NativeReply::Handle(HandleProbe::Unavailable(reason)) => Session {
                    request,
                    stage: Stage::Finished(Err(PassthroughError::HandleAccessError(reason))),
                    window,
                    accumulator,
                },
                _ => Session { request, stage: Stage::Acquiring, window, accumulator },
            },
            Stage::Clearing => match reply {
                NativeReply::Done | NativeReply::Failed => Session {
                    request,
                    stage: Stage::Reading,
                    window,
                    accumulator,
                },
                _ => Session { request, stage: Stage::Clearing, window, accumulator },
            },
            Stage::Founding => match reply {
                NativeReply::Region(raw) => if region_is_invalid(raw) {
                    Session {
                        request,
                        stage: Stage::Finished(Err(PassthroughError::RegionCreationError)),
                        window,
                        accumulator,
                    }
                } else {
                    Session { request, stage: Stage::Reading, window, accumulator: raw }
                },
                _ => Session { request, stage: Stage::Founding, window, accumulator },
            },
            Stage::Reading => match reply {
                NativeReply::Style(style) => {
                    let stage = match &request {
                        Request::StyleInfo => Stage::Finished(
                            Ok(Completion::StyleRead { style, window }),
                        ),
                        _ => Stage::Writing { bits: request.restyled(style) },
                    };
                    Session { request, stage, window, accumulator }
                },
                _ => Session { request, stage: Stage::Reading, window, accumulator },
            },
            Stage::Writing { bits } => match reply {
                NativeReply::Done | NativeReply::Failed => {
                    let stage = match &request {
                        Request::Restrict { first, rest } => Stage::Extending { cursor: 0 },
                        _ => Stage::Refreshing,
                    };
                    Session { request, stage, window, accumulator }
                },
                _ => Session { request, stage: Stage::Writing { bits }, window, accumulator },
            },
            Stage::Extending { cursor } => if cursor < request.later_count() {
                match reply {
                    NativeReply::Region(raw) => if region_is_invalid(raw) {
                        Session {
                            request,
                            stage: Stage::Extending { cursor: cursor + 1 },
                            window,
                            accumulator,
                        }
                    } else {
                        Session {
                            request,
                            stage: Stage::Uniting { next: cursor + 1, fresh: raw },
                            window,
                            accumulator,
                        }
                    },
                    _ => Session { request, stage: Stage::Extending { cursor }, window, accumulator },
                }
            } else {
                match reply {
                    NativeReply::Done | NativeReply::Failed => Session {
                        request,
                        stage: Stage::Refreshing,
                        window,
                        accumulator,
                    },
                    _ => Session { request, stage: Stage::Extending { cursor }, window, accumulator },
                }
            },
            Stage::Uniting { next, fresh } => match reply {
                NativeReply::Done | NativeReply::Failed => Session {
                    request,
                    stage: Stage::Releasing { next, fresh },
                    window,
                    accumulator,
                },
                _ => Session { request, stage: Stage::Uniting { next, fresh }, window, accumulator },
            },
            Stage::Releasing { next, fresh } => match reply {
                NativeReply::Done | NativeReply::Failed => Session {
                    request,
                    stage: Stage::Extending { cursor: next },
                    window,
                    accumulator,
                },
                _ => Session { request, stage: Stage::Releasing { next, fresh }, window, accumulator },
            },
            Stage::Refreshing => match reply {
                NativeReply::Done | NativeReply::Failed => Session {
                    request,
                    stage: Stage::Finished(Ok(Completion::Done)),
                    window,
                    accumulator,
                },
                _ => Session { request, stage: Stage::Refreshing, window, accumulator },
            },
            Stage::Finished(end) => Session {
                request,
                stage: Stage::Finished(end),
                window,
                accumulator,
            },
        }
    }

    /// What the caller of the operation gets: nothing while the session runs;
    /// then the error, or the report where a style was read, or nothing more.
    pub fn into_result(self) -> (result: Option<Result<Option<String>, PassthroughError>>)
        ensures
            match self.stage {
                Stage::Finished(Err(error)) => result == Some(
                    Err::<Option<String>, PassthroughError>(error),
                ),
                Stage::Finished(Ok(Completion::Done)) => result == Some(
                    Ok::<Option<String>, PassthroughError>(None),
                ),
                Stage::Finished(Ok(Completion::StyleRead { style, window })) => {
                    &&& result matches Some(Ok(Some(text)))
                    &&& text@ == spec_style_report(style, window)
                },
                _ => result is None,
            },
    {
        match self.stage {
            Stage::Finished(Err(error)) => Some(Err(error)),
            Stage::Finished(Ok(Completion::Done)) => Some(Ok(None)),
            Stage::Finished(Ok(Completion::StyleRead { style, window })) => Some(
                Ok(Some(style_report(style, window))),
            ),
            _ => None,
        }
    }
}

/// Full-window passthrough: sets the layered bit, which transparency needs, and
/// the transparent bit, then refreshes.
pub fn enable_mouse_passthrough(platform: Platform) -> (session: Session)
    ensures
        session == Session::spec_begin(platform, Request::EnablePassthrough),
        brings_about(session, platform, Request::EnablePassthrough),
{
    proof {
        lemma_begin_brings_about(platform, Request::EnablePassthrough);
    }
    Session::begin(platform, Request::EnablePassthrough)
}

/// Clears the transparent bit and leaves the layered bit alone, then refreshes.
pub fn disable_mouse_passthrough(platform: Platform) -> (session: Session)
    ensures
        session == Session::spec_begin(platform, Request::DisablePassthrough),
        brings_about(session, platform, Request::DisablePassthrough),
{
    proof {
        lemma_begin_brings_about(platform, Request::DisablePassthrough);
    }
    Session::begin(platform, Request::DisablePassthrough)
}

/// The request that a toggle stands for.
pub open spec fn toggle_request(enabled: bool) -> Request {
    if enabled {
        Request::EnablePassthrough
    } else {
        Request::DisablePassthrough
    }
}

/// [`enable_mouse_passthrough`] where `enabled`, else
/// [`disable_mouse_passthrough`]: a toggle keeps no state of its own.
pub fn toggle_mouse_passthrough(platform: Platform, enabled: bool) -> (session: Session)
    ensures
        session == Session::spec_begin(platform, toggle_request(enabled)),
        brings_about(session, platform, toggle_request(enabled)),
{
    if enabled {
        enable_mouse_passthrough(platform)
    } else {
        disable_mouse_passthrough(platform)
    }
}

/// Whether `request` stands for the region list `regions`.
pub open spec fn requests_regions(request: Request, regions: Seq<InteractiveRegion>) -> bool {
    if regions.len() == 0 {
        request is PassEverywhere
    } else {
        &&& request is Restrict
        &&& request.first_box() == regions[0].spec_bounds()
        &&& request.later_boxes() == boxes_of(regions.skip(1))
    }
}

/// Makes the union of the regions' ellipses the only part of the window that
/// takes input; with an empty list, no part does. Every list is taken: no
/// field value is turned away before the geometry primitive is asked.
pub fn set_interactive_regions(platform: Platform, regions: Vec<InteractiveRegion>) -> (session:
    Session)
    ensures
        requests_regions(session.request, regions@),
        session == Session::spec_begin(platform, session.request),
        brings_about(session, platform, session.request),
{
    if regions.len() == 0 {
        proof {
            lemma_begin_brings_about(platform, Request::PassEverywhere);
        }
        return Session::begin(platform, Request::PassEverywhere);
    }
    let first = regions[0].bounds();
    let mut rest: Vec<EllipseBox> = Vec::new();
    let mut i: usize = 1;
    while i < regions.len()
        invariant
            1 <= i <= regions.len(),
            rest@ == boxes_of(regions@.subrange(1, i as int)),
        decreases regions.len() - i,
    {
        rest.push(regions[i].bounds());
        assert(rest@ =~= boxes_of(regions@.subrange(1, i + 1)));
        i = i + 1;
    }
    assert(regions@.subrange(1, i as int) =~= regions@.skip(1));
    let request = Request::Restrict { first, rest };
    proof {
        lemma_begin_brings_about(platform, request);
    }
    Session::begin(platform, request)
}

/// Takes the clip region off and clears the transparent bit: the whole
/// window takes input again.
pub fn clear_interactive_regions(platform: Platform) -> (session: Session)
    ensures
        session == Session::spec_begin(platform, Request::ClearRegions),
        brings_about(session, platform, Request::ClearRegions),
{
    proof {
        lemma_begin_brings_about(platform, Request::ClearRegions);
    }
    Session::begin(platform, Request::ClearRegions)
}

/// Reads the style and reports on it; changes nothing.
pub fn get_window_style_info(platform: Platform) -> (session: Session)
    ensures
        session == Session::spec_begin(platform, Request::StyleInfo),
        brings_about(session, platform, Request::StyleInfo),
{
    proof {
        lemma_begin_brings_about(platform, Request::StyleInfo);
    }
    Session::begin(platform, Request::StyleInfo)
}

} // verus!
