//! Interactive regions and the boxes of the ellipses inscribed in them.

use vstd::prelude::*;

verus! {

/// An axis-aligned rectangle; the interactive area is the ellipse inscribed in it.
/// Width and height may be zero or negative: nothing validates them.
#[derive(Clone, Copy, Debug, PartialEq, Eq, Structural)]
pub struct InteractiveRegion {
    pub x: i32,
    pub y: i32,
    pub width: i32,
    pub height: i32,
}

/// The bounding box handed to the geometry primitive: the ellipse touches
/// `left`, `top`, `right` and `bottom`.
#[derive(Clone, Copy, Debug, PartialEq, Eq, Structural)]
pub struct EllipseBox {
    pub left: i32,
    pub top: i32,
    pub right: i32,
    pub bottom: i32,
}

impl InteractiveRegion {
    /// Whether the far edges `x + width` and `y + height` are 32-bit coordinates.
    pub open spec fn representable(self) -> bool {
        &&& i32::MIN <= self.x + self.width <= i32::MAX
        &&& i32::MIN <= self.y + self.height <= i32::MAX
    }

    /// The box from `(x, y)` to `(x + width, y + height)`. A far edge beyond
    /// the 32-bit range wraps around it, as two's complement addition does.
    pub open spec fn spec_bounds(self) -> EllipseBox {
        EllipseBox {
            left: self.x,
            top: self.y,
            right: self.x.wrapping_add(self.width),
            bottom: self.y.wrapping_add(self.height),
        }
    }

    /// Tests [`Self::representable`].
    pub fn is_representable(&self) -> (fits: bool)
        ensures
            fits == self.representable(),
    {
        self.x.checked_add(self.width).is_some() && self.y.checked_add(self.height).is_some()
    }

    /// The bounding box of the inscribed ellipse. No field value is turned
    /// away: where the region is [`Self::representable`] the far edges are the
    /// exact sums, else they wrap.
    pub fn bounds(&self) -> (bounds: EllipseBox)
        ensures
            bounds == self.spec_bounds(),
            bounds.left == self.x,
            bounds.top == self.y,
            self.representable() ==> bounds.right == self.x + self.width && bounds.bottom
                == self.y + self.height,
    {
        EllipseBox {
            left: self.x,
            top: self.y,
            right: self.x.wrapping_add(self.width),
            bottom: self.y.wrapping_add(self.height),
        }
    }
}

/// The boxes of a list of regions, in the list's order.
pub open spec fn boxes_of(regions: Seq<InteractiveRegion>) -> Seq<EllipseBox> {
    regions.map_values(|r: InteractiveRegion| r.spec_bounds())
}

} // verus!
