//! Sessions run to their end on the model, and what each operation leaves
//! there.

use crate::error::PassthroughError;
use crate::handle::HandleProbe;
use crate::model::{ModelWindow, WindowView};
use crate::native::NativeReply;
use crate::region::EllipseBox;
use crate::session::{Completion, Platform, Request, Session, Stage};
use crate::style::{with_passthrough, with_transparent, without_transparent};
use vstd::prelude::*;

verus! {

impl Session {
    /// A bound on the calls that the session still asks for.
    pub open spec fn steps_left(self) -> nat {
        let boxes = self.request.later_boxes().len();
        match self.stage {
            Stage::Acquiring => 3 * boxes + 6,
            Stage::Clearing => 3 * boxes + 5,
            Stage::Founding => 3 * boxes + 5,
            Stage::Reading => 3 * boxes + 4,
            Stage::Writing { bits } => 3 * boxes + 3,
            Stage::Extending { cursor } => if cursor < boxes {
                (3 * (boxes - cursor) + 2) as nat
            } else {
                2
            },
            Stage::Uniting { next, fresh } => if next <= boxes {
                (3 * (boxes - next) + 4) as nat
            } else {
                4
            },
            Stage::Releasing { next, fresh } => if next <= boxes {
                (3 * (boxes - next) + 3) as nat
            } else {
                3
            },
            Stage::Refreshing => 1,
            Stage::Finished(_) => 0,
        }
    }
}

/// The model answers every pending call with a reply that the session
/// accepts, and the session is then nearer to its end.
pub proof fn lemma_progress(window: WindowView, session: Session)
    requires
        !session.finished(),
    ensures
        session.spec_pending() is Some,
        session.accepts(window.effect(session.spec_pending()->0).1),
        session.spec_advance(window.effect(session.spec_pending()->0).1).steps_left()
            < session.steps_left(),
        session.spec_advance(window.effect(session.spec_pending()->0).1).request
            == session.request,
{
    match session.request {
        Request::Restrict { first, rest } => {
            assert(rest@.len() == rest.len());
        },
        _ => {},
    }
}

/// The window and the session once the session has run to its end on the
/// model: every pending call made, every reply taken.
pub open spec fn spec_run(window: WindowView, session: Session) -> (WindowView, Session)
    decreases session.steps_left(),
    via spec_run_decreases
{
    match session.spec_pending() {
        None => (window, session),
        Some(call) => spec_run(window.effect(call).0, session.spec_advance(window.effect(call).1)),
    }
}

#[via_fn]
proof fn spec_run_decreases(window: WindowView, session: Session) {
    if !session.finished() {
        lemma_progress(window, session);
    }
}

/// The boxes, in their order, for which a region gets built: each that the
/// geometry primitive does not refuse, as long as a raw handle is left for it.
pub open spec fn absorbed(refused: Seq<EllipseBox>, room: int, boxes: Seq<EllipseBox>) -> Seq<
    EllipseBox,
>
    decreases boxes.len(),
{
    if boxes.len() == 0 {
        Seq::empty()
    } else if !refused.contains(boxes[0]) && room > 0 {
        seq![boxes[0]] + absorbed(refused, room - 1, boxes.skip(1))
    } else {
        absorbed(refused, room, boxes.skip(1))
    }
}

/// `count` region objects that are gone.
pub open spec fn gone(count: nat) -> Seq<Option<Seq<EllipseBox>>> {
    Seq::new(count, |i: int| None::<Seq<EllipseBox>>)
}

impl WindowView {
    /// The number of raw handles left for new region objects.
    pub open spec fn room(self) -> int {
        isize::MAX - self.objects.len()
    }

    /// The window with this style, written and refreshed.
    pub open spec fn restyled(self, bits: isize) -> WindowView {
        WindowView { ex_style: bits, stale: false, ..self }
    }

    /// The window without a clip region.
    pub open spec fn unclipped(self) -> WindowView {
        WindowView { clip: None, ..self }
    }

    /// The window with the union of these boxes' ellipses as its clip region,
    /// each of the region objects that it was built from gone, the transparent
    /// bit cleared, and the frame refreshed.
    pub open spec fn clipped_to(self, united: Seq<EllipseBox>) -> WindowView {
        WindowView {
            ex_style: without_transparent(self.ex_style),
            clip: Some(united),
            objects: self.objects + gone(united.len()),
            stale: false,
            ..self
        }
    }
}

/// What a request leaves on a window, and how it ends.
///
/// Nothing changes where the platform has no native window styling, where the
/// windowing layer gives no handle or one of another kind, or where the first
/// region of a list cannot be built. Otherwise the style is rewritten as the
/// request says, the clip region is set or taken off, no region object is
/// left with the caller, and the frame is refreshed.
pub open spec fn expected(window: WindowView, platform: Platform, request: Request) -> (
    WindowView,
    Result<Completion, PassthroughError>,
) {
    match (platform, window.handle) {
        (Platform::Unsupported, _) => (window, Err(PassthroughError::UnsupportedPlatform)),
        (Platform::Windows, HandleProbe::Unavailable(reason)) => (
            window,
            Err(PassthroughError::HandleAccessError(reason)),
        ),
        (Platform::Windows, HandleProbe::Foreign) => (
            window,
            Err(PassthroughError::NotWindowsWindow),
        ),
        (Platform::Windows, HandleProbe::Win32(hwnd)) => match request {
            Request::EnablePassthrough => (
                window.restyled(with_passthrough(window.ex_style)),
                Ok(Completion::Done),
            ),
            Request::DisablePassthrough => (
                window.restyled(without_transparent(window.ex_style)),
                Ok(Completion::Done),
            ),
            Request::PassEverywhere => (
                window.unclipped().restyled(with_transparent(window.ex_style)),
                Ok(Completion::Done),
            ),
            Request::ClearRegions => (
                window.unclipped().restyled(without_transparent(window.ex_style)),
                Ok(Completion::Done),
            ),
            Request::StyleInfo => (
                window,
                Ok(Completion::StyleRead { style: window.ex_style, window: hwnd }),
            ),
            Request::Restrict { first, rest } => if window.creatable(first) {
                (
                    window.clipped_to(
                        seq![first] + absorbed(window.refused, window.room() - 1, rest@),
                    ),
                    Ok(Completion::Done),
                )
            } else {
                (window, Err(PassthroughError::RegionCreationError))
            },
        },
    }
}

/// From the point where the accumulator exists and the style is written:
/// the boxes from the cursor on are absorbed into the accumulator, which then
/// becomes the clip region; nothing built on the way is left.
proof fn lemma_extend(window: WindowView, session: Session, cursor: usize)
    requires
        session.request is Restrict,
        session.stage == (Stage::Extending { cursor }),
        cursor <= session.request.later_boxes().len(),
        window.live(session.accumulator),
    ensures
        ({
            let taken = absorbed(
                window.refused,
                window.room(),
                session.request.later_boxes().skip(cursor as int),
            );
            let end = spec_run(window, session);
            &&& end.1.stage == Stage::Finished(Ok(Completion::Done))
            &&& end.0 == (WindowView {
                clip: Some(window.shape(session.accumulator) + taken),
                objects: window.objects.update(session.accumulator - 1, None) + gone(taken.len()),
                stale: false,
                ..window
            })
        }),
    decreases session.request.later_boxes().len() - cursor,
{
    let boxes = session.request.later_boxes();
    let left = boxes.skip(cursor as int);
    let slot = session.accumulator - 1;
    match session.request {
        Request::Restrict { first, rest } => {
            assert(boxes.len() == rest.len());
        },
        _ => {},
    }
    let call = session.spec_pending()->0;
    let (w1, r1) = window.effect(call);
    let s1 = session.spec_advance(r1);
    assert(spec_run(window, session) == spec_run(w1, s1));
    if cursor == boxes.len() {
        let (w2, r2) = w1.effect(s1.spec_pending()->0);
        let s2 = s1.spec_advance(r2);
        assert(spec_run(w1, s1) == spec_run(w2, s2));
        assert(spec_run(w2, s2) == (w2, s2));
        assert(left.len() == 0);
        assert(w2.objects =~= window.objects.update(slot, None) + gone(0));
        assert(window.shape(session.accumulator) + Seq::<EllipseBox>::empty()
            =~= window.shape(session.accumulator));
    } else {
        let bounds = boxes[cursor as int];
        assert(left[0] == bounds);
        assert(left.skip(1) =~= boxes.skip(cursor + 1));
        if window.creatable(bounds) {
            let fresh = (window.objects.len() + 1) as isize;
            assert(r1 == NativeReply::Region(fresh));
            let (w2, r2) = w1.effect(s1.spec_pending()->0);
            let s2 = s1.spec_advance(r2);
            assert(spec_run(w1, s1) == spec_run(w2, s2));
            let (w3, r3) = w2.effect(s2.spec_pending()->0);
            let s3 = s2.spec_advance(r3);
            assert(spec_run(w2, s2) == spec_run(w3, s3));
            assert(s3.stage == (Stage::Extending { cursor: (cursor + 1) as usize }));
            assert(w3.live(s3.accumulator));
            lemma_extend(w3, s3, (cursor + 1) as usize);
            let later = absorbed(w3.refused, w3.room(), boxes.skip(cursor + 1));
            let taken = absorbed(window.refused, window.room(), left);
            assert(taken =~= seq![bounds] + later);
            assert(w3.shape(s3.accumulator) + later =~= window.shape(session.accumulator) + taken);
            assert(w3.objects.update(slot, None) + gone(later.len()) =~= window.objects.update(
                slot,
                None,
            ) + gone(taken.len()));
        } else {
            assert(s1.stage == (Stage::Extending { cursor: (cursor + 1) as usize }));
            lemma_extend(w1, s1, (cursor + 1) as usize);
        }
    }
}

/// A session run from its start on the model leaves what [`expected`] says.
pub proof fn lemma_run_from_start(window: WindowView, platform: Platform, request: Request)
    ensures
        spec_run(window, Session::spec_begin(platform, request)).0 == expected(
            window,
            platform,
            request,
        ).0,
        spec_run(window, Session::spec_begin(platform, request)).1.stage == Stage::Finished(
            expected(window, platform, request).1,
        ),
{
    let s0 = Session::spec_begin(platform, request);
    if platform is Unsupported {
        assert(spec_run(window, s0) == (window, s0));
    } else {
        let (w1, r1) = window.effect(s0.spec_pending()->0);
        let s1 = s0.spec_advance(r1);
        assert(spec_run(window, s0) == spec_run(w1, s1));
        if window.handle is Win32 {
            let (w2, r2) = w1.effect(s1.spec_pending()->0);
            let s2 = s1.spec_advance(r2);
            assert(spec_run(w1, s1) == spec_run(w2, s2));
            match request {
                Request::Restrict { first, rest } => {
                    if window.creatable(first) {
                        let (w3, r3) = w2.effect(s2.spec_pending()->0);
                        let s3 = s2.spec_advance(r3);
                        assert(spec_run(w2, s2) == spec_run(w3, s3));
                        let (w4, r4) = w3.effect(s3.spec_pending()->0);
                        let s4 = s3.spec_advance(r4);
                        assert(spec_run(w3, s3) == spec_run(w4, s4));
                        assert(s4.stage == (Stage::Extending { cursor: 0 }));
                        lemma_extend(w4, s4, 0);
                        assert(rest@.skip(0) =~= rest@);
                        let later = absorbed(window.refused, window.room() - 1, rest@);
                        let united = seq![first] + later;
                        assert(w4.shape(s4.accumulator) + later =~= united);
                        assert(w4.objects.update(s4.accumulator - 1, None) + gone(later.len())
                            =~= window.objects + gone(united.len()));
                    } else {
                        assert(spec_run(w2, s2) == (w2, s2));
                    }
                },
                Request::StyleInfo => {
                    assert(spec_run(w2, s2) == (w2, s2));
                },
                Request::EnablePassthrough | Request::DisablePassthrough => {
                    let (w3, r3) = w2.effect(s2.spec_pending()->0);
                    let s3 = s2.spec_advance(r3);
                    assert(spec_run(w2, s2) == spec_run(w3, s3));
                    let (w4, r4) = w3.effect(s3.spec_pending()->0);
                    let s4 = s3.spec_advance(r4);
                    assert(spec_run(w3, s3) == spec_run(w4, s4));
                    assert(spec_run(w4, s4) == (w4, s4));
                },
                Request::PassEverywhere | Request::ClearRegions => {
                    let (w3, r3) = w2.effect(s2.spec_pending()->0);
                    let s3 = s2.spec_advance(r3);
                    assert(spec_run(w2, s2) == spec_run(w3, s3));
                    let (w4, r4) = w3.effect(s3.spec_pending()->0);
                    let s4 = s3.spec_advance(r4);
                    assert(spec_run(w3, s3) == spec_run(w4, s4));
                    let (w5, r5) = w4.effect(s4.spec_pending()->0);
                    let s5 = s4.spec_advance(r5);
                    assert(spec_run(w4, s4) == spec_run(w5, s5));
                    assert(spec_run(w5, s5) == (w5, s5));
                },
            }
        } else {
            assert(spec_run(w1, s1) == (w1, s1));
        }
    }
}

/// Whether `session`, run to its end on any window, leaves there what
/// [`expected`] says of `request`, and ends as it says.
pub open spec fn brings_about(session: Session, platform: Platform, request: Request) -> bool {
    forall|window: WindowView|
        #![trigger spec_run(window, session)]
        {
            &&& spec_run(window, session).0 == expected(window, platform, request).0
            &&& spec_run(window, session).1.stage == Stage::Finished(
                expected(window, platform, request).1,
            )
        }
}

/// A session at its start brings about its request.
pub proof fn lemma_begin_brings_about(platform: Platform, request: Request)
    ensures
        brings_about(Session::spec_begin(platform, request), platform, request),
{
    assert forall|window: WindowView|
        #![trigger spec_run(window, Session::spec_begin(platform, request))]
        {
            &&& spec_run(window, Session::spec_begin(platform, request)).0 == expected(
                window,
                platform,
                request,
            ).0
            &&& spec_run(window, Session::spec_begin(platform, request)).1.stage
                == Stage::Finished(expected(window, platform, request).1)
        } by {
        lemma_run_from_start(window, platform, request);
    }
}

impl ModelWindow {
    /// Runs `session` to its end on the model: makes each call that it asks
    /// for and hands it the reply.
    pub fn run(&mut self, session: Session) -> (end: Session)
        ensures
            (final(self)@, end) == spec_run(old(self)@, session),
            end.finished(),
            end.request == session.request,
    {
        let mut current = session;
        loop
            invariant
                spec_run(self@, current) == spec_run(old(self)@, session),
                current.request == session.request,
            decreases current.steps_left(),
        {
            match current.pending() {
                None => {
                    return current;
                },
                Some(call) => {
                    proof {
                        lemma_progress(self@, current);
                    }
                    let reply = self.perform(call);
                    current = current.advance(reply);
                },
            }
        }
    }
}

} // verus!
