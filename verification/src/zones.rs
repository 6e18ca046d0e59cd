//! The zones a token can be dropped in: the two circular regions of the
//! diagram and the rectangular answer slot that belongs to each.

use crate::attributes::{VennColor, VennShape, VennSize, VennTarget};
use crate::geometry::{
    circle_contains, rect_contains, spec_circle_contains, spec_rect_contains, Point,
};
use crate::input::VennInput;
use crate::palette::{Hue, Paint};
use vstd::prelude::*;

verus! {

impl VennTarget {
    /// Whether a zone bound to this target accepts a token that displays
    /// `token`: the shapes agree or the colours agree. Size plays no part.
    pub open spec fn spec_accepts(self, token: VennTarget) -> bool {
        self.shape == token.shape || self.color == token.color
    }

    /// Whether a zone bound to this target accepts a token that displays
    /// `token`.
    pub fn accepts(&self, token: &VennTarget) -> (accepted: bool)
        ensures
            accepted == self.spec_accepts(*token),
    {
        self.shape == token.shape || self.color == token.color
    }
}

/// A rectangular answer slot with a hidden target of its own.
#[derive(Clone, Copy, Debug, PartialEq, Eq, Structural)]
pub struct VennAnswer {
    pub width: u32,
    pub height: u32,
    pub center: Point,
    /// Whether a dragged token is held over the slot.
    pub hover: bool,
    pub target: VennTarget,
}

impl VennAnswer {
    /// Whether the point lies inside the slot's rectangle.
    pub open spec fn spec_contains(self, point: Point) -> bool {
        spec_rect_contains(self.center, self.width, self.height, point)
    }

    /// Whether the slot accepts a token that displays `target`.
    pub open spec fn spec_matches(self, target: VennTarget) -> bool {
        self.target.spec_accepts(target)
    }

    /// Whether the point lies inside the slot's rectangle.
    pub fn contains(&self, point: &Point) -> (inside: bool)
        ensures
            inside == self.spec_contains(*point),
    {
        rect_contains(&self.center, self.width, self.height, point)
    }

    /// Whether the slot accepts a token that displays `target`.
    pub fn matches(&self, target: &VennTarget) -> (accepted: bool)
        ensures
            accepted == self.spec_matches(*target),
    {
        self.target.accepts(target)
    }
}

/// A circular region of the diagram, with its hidden target and its answer
/// slot.
#[derive(Clone, Copy, Debug, PartialEq, Eq, Structural)]
pub struct VennCircle {
    pub center: Point,
    pub radius: u32,
    pub color: Paint,
    /// Whether the pointer is inside the region.
    pub highlighted: bool,
    pub target: VennTarget,
    pub answer: VennAnswer,
}

impl VennCircle {
    /// A unit circle at the origin, black, with a small slot at the origin;
    /// both ask for a large blue circle.
    pub open spec fn spec_default() -> VennCircle {
        VennCircle {
            center: Point { x: 0, y: 0 },
            radius: 1,
            color: Paint::spec_solid(Hue::Black),
            highlighted: false,
            target: VennTarget {
                color: VennColor::Blue,
                shape: VennShape::Circle,
                size: VennSize::Large,
            },
            answer: VennAnswer {
                width: 40,
                height: 30,
                center: Point { x: 0, y: 0 },
                hover: false,
                target: VennTarget {
                    color: VennColor::Blue,
                    shape: VennShape::Circle,
                    size: VennSize::Large,
                },
            },
        }
    }

    /// Whether the point lies inside the region.
    pub open spec fn spec_contains(self, point: Point) -> bool {
        spec_circle_contains(self.center, self.radius, point)
    }

    /// Whether the region accepts a token that displays `target`.
    pub open spec fn spec_matches(self, target: VennTarget) -> bool {
        self.target.spec_accepts(target)
    }

    /// The region after a tick with the pointer at `cursor`: highlighted
    /// exactly when the pointer is inside it.
    pub open spec fn spec_interact(self, cursor: Point) -> VennCircle {
        VennCircle { highlighted: self.spec_contains(cursor), ..self }
    }

    /// The region with its slot's hover set to `hover`.
    pub open spec fn spec_with_hover(self, hover: bool) -> VennCircle {
        VennCircle { answer: VennAnswer { hover, ..self.answer }, ..self }
    }

    /// Whether the point lies inside the region.
    pub fn contains(&self, point: &Point) -> (inside: bool)
        ensures
            inside == self.spec_contains(*point),
    {
        circle_contains(&self.center, self.radius, point)
    }

    /// Recomputes the highlight from where the pointer is.
    pub fn interact(&mut self, input: &VennInput)
        ensures
            *final(self) == old(self).spec_interact(input.cursor_position),
    {
        self.highlighted = false;
        if self.contains(&input.cursor_position) {
            self.highlighted = true;
        }
    }

    /// Whether the region accepts a token that displays `target`.
    pub fn matches(&self, target: &VennTarget) -> (accepted: bool)
        ensures
            accepted == self.spec_matches(*target),
    {
        self.target.accepts(target)
    }
}

impl Default for VennCircle {
    fn default() -> (circle: VennCircle)
        ensures
            circle == VennCircle::spec_default(),
    {
        let target = VennTarget {
            color: VennColor::Blue,
            shape: VennShape::Circle,
            size: VennSize::Large,
        };
        VennCircle {
            center: Point { x: 0, y: 0 },
            radius: 1,
            color: Paint::solid(Hue::Black),
            highlighted: false,
            target,
            answer: VennAnswer {
                width: 40,
                height: 30,
                center: Point { x: 0, y: 0 },
                hover: false,
                target,
            },
        }
    }
}

/// Whether a zone accepts a token does not depend on the size the zone
/// itself is bound to.
pub proof fn lemma_accepts_ignores_zone_size(first: VennTarget, second: VennTarget, token: VennTarget)
    requires
        first.shape == second.shape,
        first.color == second.color,
    ensures
        first.spec_accepts(token) == second.spec_accepts(token),
{
}

/// A region and a slot decide by the same rule, and neither looks at size:
/// of two tokens that differ in size alone, both get the same answer from
/// any region and from any slot.
pub proof fn lemma_matches_ignores_size(
    region: VennCircle,
    slot: VennAnswer,
    first: VennTarget,
    second: VennTarget,
)
    requires
        first.shape == second.shape,
        first.color == second.color,
    ensures
        region.spec_matches(first) == region.spec_matches(second),
        slot.spec_matches(first) == slot.spec_matches(second),
{
}

} // verus!
