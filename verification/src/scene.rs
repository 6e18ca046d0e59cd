//! The scene: the two regions, the tray of tokens and the drag in
//! progress, together with the rules by which a tick of input changes them.

use crate::attributes::{VennColor, VennShape, VennSize, VennTarget, DOMAIN_SIZE};
use crate::geometry::Point;
use crate::guess::{VennGuess, Verdict};
use crate::palette::{Hue, Paint};
use crate::zones::{VennAnswer, VennCircle};
use rand::rngs::StdRng;
use vstd::prelude::*;

verus! {

/// The width of the board.
pub const WIDTH: i32 = 800;

/// The height of the board.
pub const HEIGHT: i32 = 600;

/// The margin kept free at the left and at the right of the board.
pub const X_MARGIN: i32 = 10;

/// The margin kept free at the top and at the bottom of the board.
pub const Y_MARGIN: i32 = 10;

/// The radius of both regions.
pub const REGION_RADIUS: u32 = 200;

/// The width of both answer slots.
pub const SLOT_WIDTH: u32 = 100;

/// The height of both answer slots.
pub const SLOT_HEIGHT: u32 = 80;

/// The gap between the top of a region and the bottom of its slot.
pub const SLOT_GAP: i32 = 15;

/// How many draws a generated puzzle uses up: three for each of its four
/// targets.
pub const DRAWS_PER_PUZZLE: usize = 12;

/// The centre of the left region: a third of the way across the free
/// width, and halfway down the free height.
pub open spec fn spec_left_center() -> Point {
    Point {
        x: (X_MARGIN + (WIDTH - 2 * X_MARGIN) / 3) as i32,
        y: (Y_MARGIN + (HEIGHT - 2 * Y_MARGIN) / 2) as i32,
    }
}

/// The centre of the right region, the mirror image of the left one.
pub open spec fn spec_right_center() -> Point {
    Point {
        x: (WIDTH - X_MARGIN - (WIDTH - 2 * X_MARGIN) / 3) as i32,
        y: (HEIGHT - Y_MARGIN - (HEIGHT - 2 * Y_MARGIN) / 2) as i32,
    }
}

/// The centre of the slot of a region centred at `region`: straight above
/// the region, clear of its top by the gap.
pub open spec fn spec_slot_center(region: Point) -> Point {
    Point { x: region.x, y: (region.y - REGION_RADIUS - SLOT_HEIGHT / 2 - SLOT_GAP) as i32 }
}

/// A region of the generated puzzle.
pub open spec fn spec_region(
    center: Point,
    color: Paint,
    target: VennTarget,
    slot_target: VennTarget,
) -> VennCircle {
    VennCircle {
        center,
        radius: REGION_RADIUS,
        color,
        target,
        answer: VennAnswer {
            center: spec_slot_center(center),
            width: SLOT_WIDTH,
            height: SLOT_HEIGHT,
            hover: false,
            target: slot_target,
        },
        ..VennCircle::spec_default()
    }
}

/// The tray of a generated puzzle: one small token for every pair of a
/// shape and a colour, shapes varying slowest, each in the row of its
/// place.
pub open spec fn spec_tray() -> Seq<VennGuess> {
    Seq::new(
        (DOMAIN_SIZE * DOMAIN_SIZE) as nat,
        |k: int|
            VennGuess::spec_new(
                k,
                VennShape::spec_all()[k / (DOMAIN_SIZE as int)],
                VennColor::spec_all()[k % (DOMAIN_SIZE as int)],
                VennSize::Small,
            ),
    )
}

/// Whether a token is being dragged, and which one.
#[derive(Clone, Copy, Debug, PartialEq, Eq, Structural)]
pub enum DragState {
    /// No token is being dragged.
    Idle,
    /// The token at this place of the tray is being dragged.
    Dragging(usize),
}

/// The whole puzzle: two regions, the tray, and the drag in progress.
#[derive(Clone, Debug, PartialEq, Eq)]
pub struct Venn {
    pub left: VennCircle,
    pub right: VennCircle,
    pub shapes: Vec<VennGuess>,
    pub drag: DragState,
}

/// The puzzle as a mathematical value.
#[verifier::ext_equal]
pub struct VennView {
    pub left: VennCircle,
    pub right: VennCircle,
    pub shapes: Seq<VennGuess>,
    pub drag: DragState,
}

impl View for Venn {
    type V = VennView;

    open spec fn view(&self) -> VennView {
        VennView { left: self.left, right: self.right, shapes: self.shapes@, drag: self.drag }
    }
}

impl VennView {
    /// Whether the held token lies over `slot`.
    pub open spec fn held_over(self, slot: VennAnswer) -> bool {
        match self.drag {
            DragState::Idle => false,
            DragState::Dragging(index) => slot.spec_contains(self.shapes[index as int].center),
        }
    }

    /// What holds of the scene at every tick.
    ///
    /// A token is marked as dragged exactly when it is the one the drag
    /// state names, which is a token of the tray; nothing is decided of a
    /// token while it is held; and a slot shows hover exactly when the held
    /// token lies over it. The tray is no longer than a machine can index.
    pub open spec fn wf(self) -> bool {
        &&& self.shapes.len() <= usize::MAX
        &&& match self.drag {
            DragState::Idle => forall|k: int|
                0 <= k < self.shapes.len() ==> !(#[trigger] self.shapes[k]).dragged,
            DragState::Dragging(index) => {
                &&& index < self.shapes.len()
                &&& forall|k: int|
                    0 <= k < self.shapes.len() ==> ((#[trigger] self.shapes[k]).dragged <==> k
                        == index)
                &&& self.shapes[index as int].verdict == Verdict::Unset
            },
        }
        &&& self.left.answer.hover == self.held_over(self.left.answer)
        &&& self.right.answer.hover == self.held_over(self.right.answer)
    }

    /// The freshly generated puzzle with the given hidden targets.
    pub open spec fn spec_with_targets(
        left: VennTarget,
        right: VennTarget,
        left_slot: VennTarget,
        right_slot: VennTarget,
    ) -> VennView {
        VennView {
            left: spec_region(spec_left_center(), Paint::spec_solid(Hue::Blue), left, left_slot),
            right: spec_region(
                spec_right_center(),
                Paint::spec_solid(Hue::Yellow),
                right,
                right_slot,
            ),
            shapes: spec_tray(),
            drag: DragState::Idle,
        }
    }

    /// The freshly generated puzzle that a sequence of draws gives.
    ///
    /// The draws are used three at a time, as shape, size and colour of one
    /// target: first the left region's, then the right region's, then the
    /// left slot's, then the right slot's.
    pub open spec fn spec_from_draws(draws: Seq<u8>) -> VennView
        recommends
            draws.len() == DRAWS_PER_PUZZLE,
            forall|k: int| 0 <= k < draws.len() ==> draws[k] < DOMAIN_SIZE,
    {
        Self::spec_with_targets(
            VennTarget::spec_from_draws(draws[0], draws[1], draws[2]),
            VennTarget::spec_from_draws(draws[3], draws[4], draws[5]),
            VennTarget::spec_from_draws(draws[6], draws[7], draws[8]),
            VennTarget::spec_from_draws(draws[9], draws[10], draws[11]),
        )
    }
}

/// Generation is a function of the draws alone: two sequences of draws
/// that agree in every place give the same puzzle, so the same targets for
/// both regions and both slots.
pub proof fn lemma_generation_is_deterministic(first: Seq<u8>, second: Seq<u8>)
    requires
        first.len() == second.len(),
        forall|k: int| 0 <= k < first.len() ==> first[k] == second[k],
    ensures
        VennView::spec_from_draws(first) == VennView::spec_from_draws(second),
        VennView::spec_from_draws(first).left.target == VennView::spec_from_draws(
            second,
        ).left.target,
        VennView::spec_from_draws(first).right.target == VennView::spec_from_draws(
            second,
        ).right.target,
{
    assert(first =~= second);
}

/// A region's target is decided by its own three draws and by no other.
pub proof fn lemma_region_targets_follow_their_draws(first: Seq<u8>, second: Seq<u8>)
    requires
        first.len() == DRAWS_PER_PUZZLE,
        second.len() == DRAWS_PER_PUZZLE,
    ensures
        first.subrange(0, 3) == second.subrange(0, 3) ==> VennView::spec_from_draws(
            first,
        ).left.target == VennView::spec_from_draws(second).left.target,
        first.subrange(3, 6) == second.subrange(3, 6) ==> VennView::spec_from_draws(
            first,
        ).right.target == VennView::spec_from_draws(second).right.target,
{
    if first.subrange(0, 3) == second.subrange(0, 3) {
        assert(first[0] == first.subrange(0, 3)[0]);
        assert(first[1] == first.subrange(0, 3)[1]);
        assert(first[2] == first.subrange(0, 3)[2]);
        assert(second[0] == second.subrange(0, 3)[0]);
        assert(second[1] == second.subrange(0, 3)[1]);
        assert(second[2] == second.subrange(0, 3)[2]);
    }
    if first.subrange(3, 6) == second.subrange(3, 6) {
        assert(first[3] == first.subrange(3, 6)[0]);
        assert(first[4] == first.subrange(3, 6)[1]);
        assert(first[5] == first.subrange(3, 6)[2]);
        assert(second[3] == second.subrange(3, 6)[0]);
        assert(second[4] == second.subrange(3, 6)[1]);
        assert(second[5] == second.subrange(3, 6)[2]);
    }
}

/// The centre of the left region.
fn left_center() -> (center: Point)
    ensures
        center == spec_left_center(),
{
    let remaining_x: i32 = WIDTH - X_MARGIN * 2;
    let remaining_y: i32 = HEIGHT - Y_MARGIN * 2;
    Point { x: X_MARGIN + remaining_x / 3, y: Y_MARGIN + remaining_y / 2 }
}

/// The centre of the right region.
fn right_center() -> (center: Point)
    ensures
        center == spec_right_center(),
{
    let remaining_x: i32 = WIDTH - X_MARGIN * 2;
    let remaining_y: i32 = HEIGHT - Y_MARGIN * 2;
    Point { x: WIDTH - X_MARGIN - remaining_x / 3, y: HEIGHT - Y_MARGIN - remaining_y / 2 }
}

/// A region of the generated puzzle, with its slot above it.
fn region(center: Point, color: Paint, target: VennTarget, slot_target: VennTarget) -> (circle:
    VennCircle)
    requires
        i32::MIN <= center.y - REGION_RADIUS - SLOT_HEIGHT / 2 - SLOT_GAP,
    ensures
        circle == spec_region(center, color, target, slot_target),
{
    let rise: i32 = REGION_RADIUS as i32 + (SLOT_HEIGHT / 2) as i32 + SLOT_GAP;
    VennCircle {
        center,
        radius: REGION_RADIUS,
        color,
        target,
        answer: VennAnswer {
            center: Point { x: center.x, y: center.y - rise },
            width: SLOT_WIDTH,
            height: SLOT_HEIGHT,
            hover: false,
            target: slot_target,
        },
        ..VennCircle::default()
    }
}

/// The tray of a generated puzzle.
fn tray() -> (shapes: Vec<VennGuess>)
    ensures
        shapes@ == spec_tray(),
{
    let all_shapes = VennShape::all();
    let all_colors = VennColor::all();
    let mut shapes: Vec<VennGuess> = Vec::new();
    let mut i: usize = 0;
    let mut s: usize = 0;
    while s < all_shapes.len()
        invariant
            all_shapes@ == VennShape::spec_all(),
            all_colors@ == VennColor::spec_all(),
            s <= 3,
            i == 3 * s,
            shapes@.len() == i,
            forall|k: int| 0 <= k < i ==> shapes@[k] == spec_tray()[k],
        decreases 3 - s,
    {
        let mut c: usize = 0;
        while c < all_colors.len()
            invariant
                all_shapes@ == VennShape::spec_all(),
                all_colors@ == VennColor::spec_all(),
                s < 3,
                c <= 3,
                i == 3 * s + c,
                shapes@.len() == i,
                forall|k: int| 0 <= k < i ==> shapes@[k] == spec_tray()[k],
            decreases 3 - c,
        {
            let size = VennSize::Small;
            shapes.push(VennGuess::new(i, all_shapes[s], all_colors[c], size));
            i += 1;
            c += 1;
        }
        s += 1;
    }
    assert(shapes@ =~= spec_tray());
    shapes
}

impl Venn {
    /// Whether the scene is as every tick leaves it.
    pub fn check_wf(&self) -> (ok: bool)
        ensures
            ok == self@.wf(),
    {
        let held: Option<usize> = match self.drag {
            DragState::Idle => None,
            DragState::Dragging(index) => Some(index),
        };
        if let Some(index) = held {
            if index >= self.shapes.len() {
                return false;
            }
            if self.shapes[index].verdict != Verdict::Unset {
                return false;
            }
        }
        let mut k: usize = 0;
        while k < self.shapes.len()
            invariant
                k <= self.shapes@.len(),
                held == match self.drag {
                    DragState::Idle => None::<usize>,
                    DragState::Dragging(index) => Some(index),
                },
                forall|j: int|
                    0 <= j < k ==> ((#[trigger] self.shapes@[j]).dragged <==> held == Some(
                        j as usize,
                    )),
            decreases self.shapes@.len() - k,
        {
            if self.shapes[k].dragged != (held == Some(k)) {
                return false;
            }
            k += 1;
        }
        let (over_left, over_right) = match held {
            Some(index) => (
                self.left.answer.contains(&self.shapes[index].center),
                self.right.answer.contains(&self.shapes[index].center),
            ),
            None => (false, false),
        };
        self.left.answer.hover == over_left && self.right.answer.hover == over_right
    }

    /// The freshly generated puzzle with the given hidden targets: both
    /// regions and their slots in place, the full tray at rest, nothing
    /// dragged.
    pub fn with_targets(
        left: VennTarget,
        right: VennTarget,
        left_slot: VennTarget,
        right_slot: VennTarget,
    ) -> (scene: Venn)
        ensures
            scene@ == VennView::spec_with_targets(left, right, left_slot, right_slot),
            scene@.wf(),
    {
        Venn {
            left: region(left_center(), Paint::solid(Hue::Blue), left, left_slot),
            right: region(right_center(), Paint::solid(Hue::Yellow), right, right_slot),
            shapes: tray(),
            drag: DragState::Idle,
        }
    }

    /// The freshly generated puzzle that twelve draws give, each draw
    /// naming a place in an attribute's enumeration.
    pub fn from_draws(draws: &[u8; DRAWS_PER_PUZZLE]) -> (scene: Venn)
        requires
            forall|k: int| 0 <= k < draws@.len() ==> draws@[k] < DOMAIN_SIZE,
        ensures
            scene@ == VennView::spec_from_draws(draws@),
            scene@.wf(),
    {
        Venn::with_targets(
            VennTarget::from_draws(draws[0], draws[1], draws[2]),
            VennTarget::from_draws(draws[3], draws[4], draws[5]),
            VennTarget::from_draws(draws[6], draws[7], draws[8]),
            VennTarget::from_draws(draws[9], draws[10], draws[11]),
        )
    }

    /// Generates a puzzle with targets drawn from `rng`: the left region's
    /// first, then the right region's, then the left slot's, then the right
    /// slot's.
    ///
    /// Whatever is drawn, the result is the freshly generated puzzle of its
    /// own four targets: the draws decide the targets and nothing else.
    pub fn load(rng: &mut StdRng) -> (scene: Venn)
        ensures
            scene@ == VennView::spec_with_targets(
                scene@.left.target,
                scene@.right.target,
                scene@.left.answer.target,
                scene@.right.answer.target,
            ),
            scene@.wf(),
    {
        let left = VennTarget::random(rng);
        let right = VennTarget::random(rng);
        let left_slot = VennTarget::random(rng);
        let right_slot = VennTarget::random(rng);
        Venn::with_targets(left, right, left_slot, right_slot)
    }
}

} // verus!
