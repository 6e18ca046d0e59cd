//! The judgement made when a token is released: in which zone it came to
//! rest, and what that zone says of it.

use crate::geometry::Point;
use crate::guess::{VennGuess, Verdict};
use crate::zones::VennCircle;
use vstd::prelude::*;

verus! {

/// Where a released token came to rest. Regions take precedence over
/// slots, and a slot counts only when the token is inside that slot alone.
#[derive(Clone, Copy, Debug, PartialEq, Eq, Structural)]
pub enum Placement {
    /// Inside both regions.
    BothRegions,
    /// Inside the left region and outside the right one.
    LeftRegion,
    /// Inside the right region and outside the left one.
    RightRegion,
    /// Outside both regions, inside the left slot and outside the right one.
    LeftSlot,
    /// Outside both regions, inside the right slot and outside the left one.
    RightSlot,
    /// Outside both regions, and inside no slot or inside both.
    Nowhere,
}

/// The placement that four zone memberships amount to.
pub open spec fn spec_classify(
    in_left: bool,
    in_right: bool,
    in_left_slot: bool,
    in_right_slot: bool,
) -> Placement {
    if in_left && in_right {
        Placement::BothRegions
    } else if in_left {
        Placement::LeftRegion
    } else if in_right {
        Placement::RightRegion
    } else if in_left_slot && !in_right_slot {
        Placement::LeftSlot
    } else if in_right_slot && !in_left_slot {
        Placement::RightSlot
    } else {
        Placement::Nowhere
    }
}

/// The placement of a point among two regions and their slots.
pub open spec fn spec_placement(left: VennCircle, right: VennCircle, point: Point) -> Placement {
    spec_classify(
        left.spec_contains(point),
        right.spec_contains(point),
        left.answer.spec_contains(point),
        right.answer.spec_contains(point),
    )
}

/// The token as its release leaves it, but for the drag mark.
///
/// In a region the verdict is that region's answer; in both regions it is
/// a match only if both accept the token. In a slot the verdict is the
/// slot's answer and the token snaps to the slot's centre. Anywhere else
/// nothing is decided.
pub open spec fn spec_evaluate(left: VennCircle, right: VennCircle, token: VennGuess) -> VennGuess {
    match spec_placement(left, right, token.center) {
        Placement::BothRegions => VennGuess {
            verdict: Verdict::spec_from_match(
                left.spec_matches(token.target) && right.spec_matches(token.target),
            ),
            ..token
        },
        Placement::LeftRegion => VennGuess {
            verdict: Verdict::spec_from_match(left.spec_matches(token.target)),
            ..token
        },
        Placement::RightRegion => VennGuess {
            verdict: Verdict::spec_from_match(right.spec_matches(token.target)),
            ..token
        },
        Placement::LeftSlot => VennGuess {
            verdict: Verdict::spec_from_match(left.answer.spec_matches(token.target)),
            center: left.answer.center,
            ..token
        },
        Placement::RightSlot => VennGuess {
            verdict: Verdict::spec_from_match(right.answer.spec_matches(token.target)),
            center: right.answer.center,
            ..token
        },
        Placement::Nowhere => VennGuess { verdict: Verdict::Unset, ..token },
    }
}

/// The placement that four zone memberships amount to.
pub fn classify(in_left: bool, in_right: bool, in_left_slot: bool, in_right_slot: bool) -> (placement:
    Placement)
    ensures
        placement == spec_classify(in_left, in_right, in_left_slot, in_right_slot),
{
    match (in_left, in_right, in_left_slot, in_right_slot) {
        (true, true, _, _) => Placement::BothRegions,
        (true, false, _, _) => Placement::LeftRegion,
        (false, true, _, _) => Placement::RightRegion,
        (false, false, true, false) => Placement::LeftSlot,
        (false, false, false, true) => Placement::RightSlot,
        (false, false, _, _) => Placement::Nowhere,
    }
}

/// Judges a token where it was released: sets its verdict, and moves it to
/// the slot's centre if a slot took it.
pub fn evaluate(left: &VennCircle, right: &VennCircle, token: &VennGuess) -> (judged: VennGuess)
    ensures
        judged == spec_evaluate(*left, *right, *token),
{
    let placement = classify(
        left.contains(&token.center),
        right.contains(&token.center),
        left.answer.contains(&token.center),
        right.answer.contains(&token.center),
    );
    let mut judged = *token;
    match placement {
        Placement::BothRegions => {
            judged.verdict = Verdict::from_match(
                left.matches(&token.target) && right.matches(&token.target),
            );
        },
        Placement::LeftRegion => {
            judged.verdict = Verdict::from_match(left.matches(&token.target));
        },
        Placement::RightRegion => {
            judged.verdict = Verdict::from_match(right.matches(&token.target));
        },
        Placement::LeftSlot => {
            judged.verdict = Verdict::from_match(left.answer.matches(&token.target));
            judged.center = left.answer.center;
        },
        Placement::RightSlot => {
            judged.verdict = Verdict::from_match(right.answer.matches(&token.target));
            judged.center = right.answer.center;
        },
        Placement::Nowhere => {
            judged.verdict = Verdict::Unset;
        },
    }
    judged
}

/// A token released outside both regions, and not inside exactly one slot,
/// is left undecided and stays where it is.
pub proof fn lemma_release_outside_is_unset(left: VennCircle, right: VennCircle, token: VennGuess)
    requires
        !left.spec_contains(token.center),
        !right.spec_contains(token.center),
        left.answer.spec_contains(token.center) == right.answer.spec_contains(token.center),
    ensures
        spec_evaluate(left, right, token).verdict == Verdict::Unset,
        spec_evaluate(left, right, token).center == token.center,
{
}

/// Two tokens released at the same place that differ in size alone get the
/// same verdict.
pub proof fn lemma_verdict_ignores_size(
    left: VennCircle,
    right: VennCircle,
    first: VennGuess,
    second: VennGuess,
)
    requires
        first.center == second.center,
        first.target.shape == second.target.shape,
        first.target.color == second.target.color,
    ensures
        spec_evaluate(left, right, first).verdict == spec_evaluate(left, right, second).verdict,
        spec_evaluate(left, right, first).center == spec_evaluate(left, right, second).center,
{
}

/// A token released inside a region is never moved, and is always decided,
/// whatever the slots hold: regions take precedence.
pub proof fn lemma_regions_take_precedence(left: VennCircle, right: VennCircle, token: VennGuess)
    requires
        left.spec_contains(token.center) || right.spec_contains(token.center),
    ensures
        spec_evaluate(left, right, token).center == token.center,
        spec_evaluate(left, right, token).verdict != Verdict::Unset,
{
}

/// Judging changes nothing of a token but its verdict and its position.
pub proof fn lemma_evaluate_keeps_identity(left: VennCircle, right: VennCircle, token: VennGuess)
    ensures
        spec_evaluate(left, right, token).target == token.target,
        spec_evaluate(left, right, token).radius == token.radius,
        spec_evaluate(left, right, token).dragged == token.dragged,
{
}

} // verus!
