//! A reference model of the window: the extended style, the clip region, the
//! region objects that the caller has made and still owns, and whether the
//! frame is behind the style and region. It answers every native call the way
//! the operations take the system to answer, and so says what an operation
//! leaves on a window.

use crate::handle::HandleProbe;
use crate::native::{NativeCall, NativeReply};
use crate::region::EllipseBox;
use vstd::prelude::*;

verus! {

/// The state of a window, as mathematics. A region object is the sequence of
/// the boxes whose ellipses were united into it; the object with raw handle
/// `h` is `objects[h - 1]`, and `None` there says that it is gone: released,
/// or handed to the window.
pub struct WindowView {
    pub handle: HandleProbe,
    pub ex_style: isize,
    pub clip: Option<Seq<EllipseBox>>,
    pub objects: Seq<Option<Seq<EllipseBox>>>,
    pub refused: Seq<EllipseBox>,
    pub stale: bool,
}

/// The model, as data. `refused` lists the boxes for which the geometry
/// primitive builds no region.
#[derive(Debug, PartialEq, Eq)]
pub struct ModelWindow {
    pub handle: HandleProbe,
    pub ex_style: isize,
    pub clip: Option<Vec<EllipseBox>>,
    pub objects: Vec<Option<Vec<EllipseBox>>>,
    pub refused: Vec<EllipseBox>,
    pub stale: bool,
}

pub open spec fn shape_view(shape: Option<Vec<EllipseBox>>) -> Option<Seq<EllipseBox>> {
    match shape {
        Some(boxes) => Some(boxes@),
        None => None,
    }
}

impl View for ModelWindow {
    type V = WindowView;

    open spec fn view(&self) -> WindowView {
        WindowView {
            handle: self.handle,
            ex_style: self.ex_style,
            clip: shape_view(self.clip),
            objects: self.objects@.map_values(|shape: Option<Vec<EllipseBox>>| shape_view(shape)),
            refused: self.refused@,
            stale: self.stale,
        }
    }
}

impl WindowView {
    /// Whether `raw` names a region object that the caller owns.
    pub open spec fn live(self, raw: isize) -> bool {
        1 <= raw <= self.objects.len() && self.objects[raw - 1] is Some
    }

    /// The boxes united in the region object `raw`.
    pub open spec fn shape(self, raw: isize) -> Seq<EllipseBox>
        recommends
            self.live(raw),
    {
        self.objects[raw - 1]->0
    }

    /// Whether a region can be built for `bounds` now: the geometry primitive
    /// takes the box, and a raw handle is left to name the region.
    pub open spec fn creatable(self, bounds: EllipseBox) -> bool {
        !self.refused.contains(bounds) && self.objects.len() < isize::MAX
    }

    /// The window after `call`, and the reply to it.
    pub open spec fn effect(self, call: NativeCall) -> (WindowView, NativeReply) {
        match call {
            NativeCall::AcquireHandle => (self, NativeReply::Handle(self.handle)),
            NativeCall::ReadStyle => (self, NativeReply::Style(self.ex_style)),
            NativeCall::WriteStyle { bits } => (
                WindowView { ex_style: bits, stale: true, ..self },
                NativeReply::Done,
            ),
            NativeCall::ClearRegion => (
                WindowView { clip: None, stale: true, ..self },
                NativeReply::Done,
            ),
            NativeCall::CreateEllipse { bounds } => if self.creatable(bounds) {
                (
                    WindowView { objects: self.objects.push(Some(seq![bounds])), ..self },
                    NativeReply::Region((self.objects.len() + 1) as isize),
                )
            } else {
                (self, NativeReply::Region(0))
            },
            NativeCall::UniteRegions { target, other } => if self.live(target) && self.live(other) {
                (
                    WindowView {
                        objects: self.objects.update(
                            target - 1,
                            Some(self.shape(target) + self.shape(other)),
                        ),
                        ..self
                    },
                    NativeReply::Done,
                )
            } else {
                (self, NativeReply::Failed)
            },
            NativeCall::ReleaseRegion { region } => if self.live(region) {
                (
                    WindowView { objects: self.objects.update(region - 1, None), ..self },
                    NativeReply::Done,
                )
            } else {
                (self, NativeReply::Failed)
            },
            NativeCall::InstallRegion { region } => if self.live(region) {
                (
                    WindowView {
                        clip: Some(self.shape(region)),
                        objects: self.objects.update(region - 1, None),
                        stale: true,
                        ..self
                    },
                    NativeReply::Done,
                )
            } else {
                (self, NativeReply::Failed)
            },
            NativeCall::Refresh => (WindowView { stale: false, ..self }, NativeReply::Done),
        }
    }
}

fn copy_boxes(source: &Vec<EllipseBox>) -> (copy: Vec<EllipseBox>)
    ensures
        copy@ == source@,
{
    let mut copy: Vec<EllipseBox> = Vec::new();
    let mut i: usize = 0;
    while i < source.len()
        invariant
            i <= source.len(),
            copy@ == source@.take(i as int),
        decreases source.len() - i,
    {
        copy.push(source[i]);
        assert(copy@ =~= source@.take(i + 1));
        i = i + 1;
    }
    assert(copy@ =~= source@);
    copy
}

fn join_boxes(head: &Vec<EllipseBox>, tail: &Vec<EllipseBox>) -> (joined: Vec<EllipseBox>)
    ensures
        joined@ == head@ + tail@,
{
    let mut joined = copy_boxes(head);
    let mut i: usize = 0;
    while i < tail.len()
        invariant
            i <= tail.len(),
            joined@ == head@ + tail@.take(i as int),
        decreases tail.len() - i,
    {
        joined.push(tail[i]);
        assert(joined@ =~= head@ + tail@.take(i + 1));
        i = i + 1;
    }
    assert(joined@ =~= head@ + tail@);
    joined
}

impl ModelWindow {
    /// A window as it is created: no style bit set, no clip region, no region
    /// object, the frame up to date, and no box that the geometry primitive
    /// refuses.
    pub fn new(handle: HandleProbe) -> (window: ModelWindow)
        ensures
            window@ == (WindowView {
                handle,
                ex_style: 0,
                clip: None,
                objects: Seq::empty(),
                refused: Seq::empty(),
                stale: false,
            }),
    {
        let window = ModelWindow {
            handle,
            ex_style: 0,
            clip: None,
            objects: Vec::new(),
            refused: Vec::new(),
            stale: false,
        };
        assert(window@.objects =~= Seq::empty());
        window
    }

    /// From now on the geometry primitive builds no region for `bounds`.
    pub fn refuse(&mut self, bounds: EllipseBox)
        ensures
            final(self)@ == (WindowView { refused: old(self)@.refused.push(bounds), ..old(self)@ }),
    {
        self.refused.push(bounds);
    }

    fn refuses(&self, bounds: EllipseBox) -> (refused: bool)
        ensures
            refused == self@.refused.contains(bounds),
    {
        let mut i: usize = 0;
        while i < self.refused.len()
            invariant
                i <= self.refused.len(),
                forall|j: int| 0 <= j < i ==> self.refused@[j] != bounds,
            decreases self.refused.len() - i,
        {
            if self.refused[i] == bounds {
                return true;
            }
            i = i + 1;
        }
        false
    }

    fn is_live(&self, raw: isize) -> (live: bool)
        ensures
            live == self@.live(raw),
            live ==> 0 <= raw - 1 < self.objects.len() && self.objects@[raw - 1] is Some,
    {
        if raw >= 1 && ((raw - 1) as usize) < self.objects.len() {
            self.objects[(raw - 1) as usize].is_some()
        } else {
            false
        }
    }

    /// Makes `call` on the model and gives the reply.
    pub fn perform(&mut self, call: NativeCall) -> (reply: NativeReply)
        ensures
            (final(self)@, reply) == old(self)@.effect(call),
    {
        match call {
            NativeCall::AcquireHandle => NativeReply::Handle(self.handle.duplicate()),
            NativeCall::ReadStyle => NativeReply::Style(self.ex_style),
            NativeCall::WriteStyle { bits } => {
                self.ex_style = bits;
                self.stale = true;
                NativeReply::Done
            },
            NativeCall::ClearRegion => {
                self.clip = None;
                self.stale = true;
                NativeReply::Done
            },
            NativeCall::CreateEllipse { bounds } => {
                if self.refuses(bounds) || self.objects.len() >= isize::MAX as usize {
                    NativeReply::Region(0)
                } else {
                    let raw = (self.objects.len() + 1) as isize;
                    let mut shape: Vec<EllipseBox> = Vec::new();
                    shape.push(bounds);
                    assert(shape@ =~= seq![bounds]);
                    self.objects.push(Some(shape));
                    assert(self@.objects =~= old(self)@.objects.push(Some(seq![bounds])));
                    NativeReply::Region(raw)
                }
            },
            NativeCall::UniteRegions { target, other } => {
                if self.is_live(target) && self.is_live(other) {
                    let at = (target - 1) as usize;
                    let from = (other - 1) as usize;
                    let joined = match (&self.objects[at], &self.objects[from]) {
                        (Some(head), Some(tail)) => join_boxes(head, tail),
                        _ => Vec::new(),
                    };
                    self.objects[at] = Some(joined);
                    assert(self@.objects =~= old(self)@.objects.update(
                        target - 1,
                        Some(old(self)@.shape(target) + old(self)@.shape(other)),
                    ));
                    NativeReply::Done
                } else {
                    NativeReply::Failed
                }
            },
            NativeCall::ReleaseRegion { region } => {
                if self.is_live(region) {
                    self.objects[(region - 1) as usize] = None;
                    assert(self@.objects =~= old(self)@.objects.update(region - 1, None));
                    NativeReply::Done
                } else {
                    NativeReply::Failed
                }
            },
            NativeCall::InstallRegion { region } => {
                if self.is_live(region) {
                    let at = (region - 1) as usize;
                    let shape = match &self.objects[at] {
                        Some(boxes) => copy_boxes(boxes),
                        None => Vec::new(),
                    };
                    self.clip = Some(shape);
                    self.objects[at] = None;
                    self.stale = true;
                    assert(self@.objects =~= old(self)@.objects.update(region - 1, None));
                    NativeReply::Done
                } else {
                    NativeReply::Failed
                }
            },
            NativeCall::Refresh => {
                self.stale = false;
                NativeReply::Done
            },
        }
    }
}

} // verus!
