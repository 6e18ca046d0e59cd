//! The draggable tokens of the tray, and the verdict each one carries.

use crate::attributes::{VennColor, VennShape, VennSize, VennTarget};
use crate::geometry::{circle_contains, spec_circle_contains, Point};
use vstd::prelude::*;

verus! {

/// What the last release of a token decided.
#[derive(Clone, Copy, Debug, PartialEq, Eq, Structural)]
pub enum Verdict {
    /// Nothing was decided.
    Unset,
    /// The token satisfies the zone it was dropped in.
    Match,
    /// The token does not satisfy the zone it was dropped in.
    Mismatch,
}

impl Verdict {
    /// The verdict that a match result stands for.
    pub open spec fn spec_from_match(matched: bool) -> Verdict {
        if matched {
            Verdict::Match
        } else {
            Verdict::Mismatch
        }
    }

    /// The verdict that a match result stands for.
    pub fn from_match(matched: bool) -> (verdict: Verdict)
        ensures
            verdict == Self::spec_from_match(matched),
    {
        if matched {
            Verdict::Match
        } else {
            Verdict::Mismatch
        }
    }
}

/// The horizontal position of every token in the tray.
pub const TRAY_X: i32 = 20;

/// The height of one row of the tray.
pub const ROW_HEIGHT: i32 = 40;

/// The radius of every token.
pub const GUESS_RADIUS: u32 = 30;

/// The greatest tray place whose row still has a representable position.
pub const MAX_TRAY_INDEX: usize = 53_687_090;

/// A draggable token: a circle that displays a target and remembers the
/// verdict of its last release.
#[derive(Clone, Copy, Debug, PartialEq, Eq, Structural)]
pub struct VennGuess {
    pub center: Point,
    pub radius: u32,
    pub dragged: bool,
    pub target: VennTarget,
    pub verdict: Verdict,
}

impl VennGuess {
    /// The token at place `index` of the tray: at rest in its row, not
    /// dragged, nothing decided.
    pub open spec fn spec_new(
        index: int,
        shape: VennShape,
        color: VennColor,
        size: VennSize,
    ) -> VennGuess
        recommends
            0 <= index <= MAX_TRAY_INDEX,
    {
        VennGuess {
            center: Point { x: TRAY_X, y: ((index + 1) * ROW_HEIGHT) as i32 },
            radius: GUESS_RADIUS,
            dragged: false,
            target: VennTarget { color, shape, size },
            verdict: Verdict::Unset,
        }
    }

    /// Whether the point lies inside the token's circle.
    pub open spec fn spec_contains(self, point: Point) -> bool {
        spec_circle_contains(self.center, self.radius, point)
    }

    /// The token while it follows the pointer to `point`.
    pub open spec fn spec_drag_to(self, point: Point) -> VennGuess {
        VennGuess { dragged: true, center: point, ..self }
    }

    /// The token at place `index` of the tray: at rest in its row, not
    /// dragged, nothing decided.
    pub fn new(index: usize, shape: VennShape, color: VennColor, size: VennSize) -> (guess:
        VennGuess)
        requires
            index <= MAX_TRAY_INDEX,
        ensures
            guess == Self::spec_new(index as int, shape, color, size),
            guess.center.y == (index + 1) * ROW_HEIGHT,
    {
        let row: i32 = index as i32 + 1;
        VennGuess {
            center: Point { x: TRAY_X, y: row * ROW_HEIGHT },
            radius: GUESS_RADIUS,
            dragged: false,
            target: VennTarget { color, shape, size },
            verdict: Verdict::Unset,
        }
    }

    /// Moves the token to `point` and marks it as dragged.
    pub fn drag_to(&mut self, point: &Point)
        ensures
            *final(self) == old(self).spec_drag_to(*point),
    {
        self.dragged = true;
        self.center = *point;
    }

    /// Whether the point lies inside the token's circle.
    pub fn contains(&self, point: &Point) -> (inside: bool)
        ensures
            inside == self.spec_contains(*point),
    {
        circle_contains(&self.center, self.radius, point)
    }
}

} // verus!
