//! What holds of the operations on every window.

use crate::error::PassthroughError;
use crate::model::WindowView;
use crate::region::{EllipseBox, InteractiveRegion};
use crate::run::{absorbed, expected};
use crate::session::{requests_regions, toggle_request, Completion, Platform, Request, Session};
use crate::style::{
    has_layered, has_transparent, lemma_with_passthrough, lemma_with_transparent,
    lemma_without_transparent,
};
use vstd::prelude::*;

verus! {

/// The pixels that take input under a clip region united from `clip`, where
/// `raster` gives the pixels of the ellipse inscribed in a box. The system has
/// its own `raster`; what is said of a hit area is said for every one.
pub open spec fn hit_area(clip: Seq<EllipseBox>, raster: spec_fn(EllipseBox) -> Set<(int, int)>)
    -> Set<(int, int)> {
    Set::new(
        |pixel: (int, int)| exists|i: int| 0 <= i < clip.len() && raster(#[trigger] clip[i]).contains(pixel),
    )
}

/// Enabling passthrough twice leaves the window as enabling it once does.
pub proof fn law_enable_is_idempotent(window: WindowView, platform: Platform)
    ensures
        ({
            let once = expected(window, platform, Request::EnablePassthrough);
            let twice = expected(once.0, platform, Request::EnablePassthrough);
            &&& twice.0 == once.0
            &&& twice.1 == once.1
        }),
{
    lemma_with_passthrough(window.ex_style);
}

/// Disabling passthrough twice leaves the window as disabling it once does.
pub proof fn law_disable_is_idempotent(window: WindowView, platform: Platform)
    ensures
        ({
            let once = expected(window, platform, Request::DisablePassthrough);
            let twice = expected(once.0, platform, Request::DisablePassthrough);
            &&& twice.0 == once.0
            &&& twice.1 == once.1
        }),
{
    lemma_without_transparent(window.ex_style);
}

/// Style and clip region never contradict each other after the region
/// operations. Where a non-empty list was set, the transparent bit is clear
/// and a clip region of at least one ellipse is installed; where an empty
/// list was set, the transparent bit is set and there is no clip region;
/// where the regions were cleared, the transparent bit is clear and
/// there is no clip region.
pub proof fn law_style_and_region_agree(
    window: WindowView,
    platform: Platform,
    regions: Seq<InteractiveRegion>,
    request: Request,
)
    requires
        requests_regions(request, regions),
    ensures
        ({
            let set = expected(window, platform, request);
            let cleared = expected(window, platform, Request::ClearRegions);
            &&& set.1 is Ok && regions.len() > 0 ==> {
                &&& !has_transparent(set.0.ex_style)
                &&& set.0.clip matches Some(united)
                &&& united.len() > 0
            }
            &&& set.1 is Ok && regions.len() == 0 ==> {
                &&& has_transparent(set.0.ex_style)
                &&& set.0.clip is None
            }
            &&& cleared.1 is Ok ==> {
                &&& !has_transparent(cleared.0.ex_style)
                &&& cleared.0.clip is None
            }
        }),
{
    lemma_with_transparent(window.ex_style);
    lemma_without_transparent(window.ex_style);
}

/// The order of two regions does not matter: where a region can be built for
/// each of them, setting `[a, b]` and setting `[b, a]` end alike and leave the
/// same window but for the order in which the clip region lists its ellipses,
/// and so the same hit area.
pub proof fn law_union_commutes(
    window: WindowView,
    platform: Platform,
    a: InteractiveRegion,
    b: InteractiveRegion,
    forward: Request,
    backward: Request,
    raster: spec_fn(EllipseBox) -> Set<(int, int)>,
)
    requires
        requests_regions(forward, seq![a, b]),
        requests_regions(backward, seq![b, a]),
        !window.refused.contains(a.spec_bounds()),
        !window.refused.contains(b.spec_bounds()),
        window.room() >= 2,
    ensures
        ({
            let one = expected(window, platform, forward);
            let other = expected(window, platform, backward);
            &&& one.1 == other.1
            &&& one.0.ex_style == other.0.ex_style
            &&& one.0.objects == other.0.objects
            &&& one.0.stale == other.0.stale
            &&& one.0.clip is Some <==> other.0.clip is Some
            &&& one.1 is Ok ==> {
                &&& one.0.clip == Some(seq![a.spec_bounds(), b.spec_bounds()])
                &&& other.0.clip == Some(seq![b.spec_bounds(), a.spec_bounds()])
                &&& hit_area(one.0.clip->0, raster) == hit_area(other.0.clip->0, raster)
            }
        }),
{
    let first = a.spec_bounds();
    let second = b.spec_bounds();
    let ab = seq![a, b];
    let ba = seq![b, a];
    assert(ab.skip(1) =~= seq![b]);
    assert(ba.skip(1) =~= seq![a]);
    assert(forward.later_boxes() =~= seq![second]);
    assert(backward.later_boxes() =~= seq![first]);
    lemma_absorbed_one(window.refused, window.room() - 1, second);
    lemma_absorbed_one(window.refused, window.room() - 1, first);
    let forth = seq![first, second];
    let back = seq![second, first];
    assert(seq![first] + seq![second] =~= forth);
    assert(seq![second] + seq![first] =~= back);
    assert(hit_area(forth, raster) =~= hit_area(back, raster)) by {
        assert forall|pixel: (int, int)| hit_area(forth, raster).contains(pixel) implies hit_area(
            back,
            raster,
        ).contains(pixel) by {
            let i = choose|i: int| 0 <= i < forth.len() && raster(#[trigger] forth[i]).contains(pixel);
            assert(back[1 - i] == forth[i]);
        }
        assert forall|pixel: (int, int)| hit_area(back, raster).contains(pixel) implies hit_area(
            forth,
            raster,
        ).contains(pixel) by {
            let i = choose|i: int| 0 <= i < back.len() && raster(#[trigger] back[i]).contains(pixel);
            assert(forth[1 - i] == back[i]);
        }
    }
}

proof fn lemma_absorbed_one(refused: Seq<EllipseBox>, room: int, bounds: EllipseBox)
    requires
        !refused.contains(bounds),
        room > 0,
    ensures
        absorbed(refused, room, seq![bounds]) == seq![bounds],
{
    let one = seq![bounds];
    assert(one.skip(1) =~= Seq::<EllipseBox>::empty());
    assert(absorbed(refused, room - 1, one.skip(1)) =~= Seq::<EllipseBox>::empty());
    assert(absorbed(refused, room, one) =~= one);
}

/// Among the later boxes of a list, those that cannot be built are dropped
/// and the others stay, in their order: where a raw handle is left for each
/// box, the boxes absorbed are the boxes that the geometry primitive does not
/// refuse.
pub proof fn law_failed_regions_are_dropped(
    refused: Seq<EllipseBox>,
    room: int,
    boxes: Seq<EllipseBox>,
)
    requires
        room >= boxes.len(),
    ensures
        absorbed(refused, room, boxes) == boxes.filter(
            |bounds: EllipseBox| !refused.contains(bounds),
        ),
    decreases boxes.len(),
{
    let built = |bounds: EllipseBox| !refused.contains(bounds);
    if boxes.len() == 0 {
        reveal(Seq::filter);
        assert(boxes.filter(built) =~= Seq::<EllipseBox>::empty());
    } else {
        let later = boxes.skip(1);
        assert(boxes =~= seq![boxes[0]] + later);
        later.lemma_filter_prepend(boxes[0], built);
        if built(boxes[0]) {
            law_failed_regions_are_dropped(refused, room - 1, later);
        } else {
            law_failed_regions_are_dropped(refused, room, later);
        }
        assert(absorbed(refused, room, boxes) =~= boxes.filter(built));
    }
}

/// An operation that fails leaves the window as it was: its style, its clip
/// region, its frame, and the region objects of the caller.
pub proof fn law_failure_changes_nothing(window: WindowView, platform: Platform, request: Request)
    ensures
        expected(window, platform, request).1 is Err ==> expected(window, platform, request).0
            == window,
{
}

/// An operation that changed the window has had its frame refreshed, and a
/// report changes nothing.
pub proof fn law_success_refreshes(window: WindowView, platform: Platform, request: Request)
    ensures
        expected(window, platform, request).1 == Ok::<Completion, PassthroughError>(
            Completion::Done,
        ) ==> !expected(window, platform, request).0.stale,
        request is StyleInfo ==> expected(window, platform, request).0 == window,
{
}

/// No operation leaves a region object behind, and none touches one that the
/// caller had: the caller owns after it what it owned before.
pub proof fn law_no_region_object_is_left(
    window: WindowView,
    platform: Platform,
    request: Request,
    raw: isize,
)
    ensures
        expected(window, platform, request).0.live(raw) == window.live(raw),
        window.live(raw) ==> expected(window, platform, request).0.shape(raw) == window.shape(
            raw,
        ),
{
}

/// After a toggle to on the style that is read has the transparent bit set;
/// after a toggle to off that follows it the bit is clear, and the layered
/// bit is as the first toggle left it.
pub proof fn law_toggle_sets_and_clears(window: WindowView, platform: Platform)
    ensures
        ({
            let on = expected(window, platform, toggle_request(true));
            let seen_on = expected(on.0, platform, Request::StyleInfo);
            let off = expected(on.0, platform, toggle_request(false));
            let seen_off = expected(off.0, platform, Request::StyleInfo);
            &&& on.1 is Ok ==> {
                &&& seen_on.1 matches Ok(Completion::StyleRead { style, window: hwnd })
                &&& style == on.0.ex_style
                &&& has_transparent(style)
            }
            &&& on.1 is Ok ==> off.1 is Ok
            &&& off.1 is Ok ==> {
                &&& seen_off.1 matches Ok(Completion::StyleRead { style, window: hwnd })
                &&& style == off.0.ex_style
                &&& !has_transparent(style)
                &&& has_layered(style) == has_layered(on.0.ex_style)
            }
        }),
{
    lemma_with_passthrough(window.ex_style);
    lemma_without_transparent(expected(window, platform, toggle_request(true)).0.ex_style);
    lemma_without_transparent(window.ex_style);
}

/// Where the platform has no native window styling, every operation is
/// finished before it starts: it asks for no call, the window stays as it is,
/// and the caller gets `UnsupportedPlatform`.
pub proof fn law_unsupported_platform_is_inert(window: WindowView, request: Request)
    ensures
        Session::spec_begin(Platform::Unsupported, request).spec_pending() is None,
        Session::spec_begin(Platform::Unsupported, request).finished(),
        expected(window, Platform::Unsupported, request) == (
            window,
            Err::<Completion, PassthroughError>(PassthroughError::UnsupportedPlatform),
        ),
{
}

} // verus!
