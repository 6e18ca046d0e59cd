//! The drag controller: how one tick of pointer input changes the scene.
//!
//! Every tick recomputes both highlights. While the button is held, a
//! token is picked up if none is held yet, and the held token follows the
//! pointer. When the button is up, the held token is judged where it lies
//! and let go.

use crate::evaluator::{evaluate, spec_evaluate};
use crate::geometry::Point;
use crate::guess::{VennGuess, Verdict};
use crate::input::VennInput;
use crate::scene::{DragState, Venn, VennView};
use vstd::prelude::*;

verus! {

/// Whether the token at place `index` is the one a press at `point` picks
/// up: it contains the point, and no token after it does.
pub open spec fn is_topmost_hit(shapes: Seq<VennGuess>, point: Point, index: int) -> bool {
    &&& 0 <= index < shapes.len()
    &&& shapes[index].spec_contains(point)
    &&& forall|later: int|
        index < later < shapes.len() ==> !(#[trigger] shapes[later]).spec_contains(point)
}

/// The place of the token that a press at `point` picks up, if any: the
/// last token of the tray that contains the point.
pub open spec fn topmost_hit(shapes: Seq<VennGuess>, point: Point) -> Option<int> {
    if exists|index: int| is_topmost_hit(shapes, point, index) {
        Some(choose|index: int| is_topmost_hit(shapes, point, index))
    } else {
        None
    }
}

/// At most one token is the topmost one under a point.
pub proof fn lemma_topmost_hit_is_unique(shapes: Seq<VennGuess>, point: Point, a: int, b: int)
    requires
        is_topmost_hit(shapes, point, a),
        is_topmost_hit(shapes, point, b),
    ensures
        a == b,
{
    if a < b {
        assert(!shapes[b].spec_contains(point));
    } else if b < a {
        assert(!shapes[a].spec_contains(point));
    }
}

/// What `topmost_hit` finds: the topmost token under the point where there
/// is one, and nothing exactly when no token contains the point.
pub proof fn lemma_topmost_hit(shapes: Seq<VennGuess>, point: Point)
    ensures
        topmost_hit(shapes, point) matches Some(index) ==> is_topmost_hit(shapes, point, index),
        topmost_hit(shapes, point) is None <==> forall|k: int|
            0 <= k < shapes.len() ==> !(#[trigger] shapes[k]).spec_contains(point),
{
    if topmost_hit(shapes, point) is None {
        assert forall|k: int| 0 <= k < shapes.len() implies !(#[trigger] shapes[k]).spec_contains(
            point,
        ) by {
            if shapes[k].spec_contains(point) {
                lemma_some_hit_has_topmost(shapes, point, k);
            }
        }
    } else {
        let index = topmost_hit(shapes, point)->0;
        assert(is_topmost_hit(shapes, point, index));
        assert(shapes[index].spec_contains(point));
    }
}

/// Where some token contains the point, one of them is the topmost.
proof fn lemma_some_hit_has_topmost(shapes: Seq<VennGuess>, point: Point, k: int)
    requires
        0 <= k < shapes.len(),
        shapes[k].spec_contains(point),
    ensures
        exists|index: int| is_topmost_hit(shapes, point, index),
    decreases shapes.len() - k,
{
    if exists|later: int| k < later < shapes.len() && (#[trigger] shapes[later]).spec_contains(point) {
        let later = choose|later: int|
            k < later < shapes.len() && (#[trigger] shapes[later]).spec_contains(point);
        lemma_some_hit_has_topmost(shapes, point, later);
    } else {
        assert(is_topmost_hit(shapes, point, k));
    }
}

impl VennView {
    /// The scene with both highlights recomputed for a pointer at `cursor`.
    pub open spec fn highlight(self, cursor: Point) -> VennView {
        VennView {
            left: self.left.spec_interact(cursor),
            right: self.right.spec_interact(cursor),
            ..self
        }
    }

    /// The scene with both slots' hover recomputed for a pointer at
    /// `cursor`.
    pub open spec fn hover(self, cursor: Point) -> VennView {
        VennView {
            left: self.left.spec_with_hover(self.left.answer.spec_contains(cursor)),
            right: self.right.spec_with_hover(self.right.answer.spec_contains(cursor)),
            ..self
        }
    }

    /// The scene with neither slot showing hover.
    pub open spec fn unhover(self) -> VennView {
        VennView {
            left: self.left.spec_with_hover(false),
            right: self.right.spec_with_hover(false),
            ..self
        }
    }

    /// The scene after the token at `index` is picked up at `cursor`: its
    /// verdict is forgotten, it is marked as dragged and centred on the
    /// pointer, and the drag state names it.
    pub open spec fn grab(self, index: int, cursor: Point) -> VennView
        recommends
            0 <= index < self.shapes.len(),
    {
        VennView {
            shapes: self.shapes.update(
                index,
                VennGuess { verdict: Verdict::Unset, ..self.shapes[index] }.spec_drag_to(cursor),
            ),
            drag: DragState::Dragging(index as usize),
            ..self
        }
    }

    /// The scene after the held token, at `index`, follows the pointer to
    /// `cursor`.
    pub open spec fn carry(self, index: int, cursor: Point) -> VennView
        recommends
            0 <= index < self.shapes.len(),
    {
        VennView { shapes: self.shapes.update(index, self.shapes[index].spec_drag_to(cursor)), ..self }
    }

    /// The scene after a tick with the button held and the pointer at
    /// `cursor`, highlights apart.
    ///
    /// With no token held, the topmost token under the pointer is picked
    /// up; with none there, nothing changes. With a token held, it follows
    /// the pointer. Whenever a token is held after that, both slots' hover
    /// is recomputed.
    pub open spec fn press(self, cursor: Point) -> VennView {
        match self.drag {
            DragState::Idle => match topmost_hit(self.shapes, cursor) {
                Some(index) => self.grab(index, cursor).hover(cursor),
                None => self,
            },
            DragState::Dragging(index) => self.carry(index as int, cursor).hover(cursor),
        }
    }

    /// The scene after a tick with the button up, highlights apart.
    ///
    /// Neither slot shows hover. A held token is judged where it lies,
    /// loses its drag mark, and the drag ends.
    pub open spec fn release(self) -> VennView {
        match self.drag {
            DragState::Idle => self.unhover(),
            DragState::Dragging(index) => VennView {
                shapes: self.shapes.update(
                    index as int,
                    VennGuess {
                        dragged: false,
                        ..spec_evaluate(self.left, self.right, self.shapes[index as int])
                    },
                ),
                drag: DragState::Idle,
                ..self.unhover()
            },
        }
    }

    /// The scene after one tick of input.
    pub open spec fn step(self, input: VennInput) -> VennView {
        let lit = self.highlight(input.cursor_position);
        if input.is_mouse_pressed {
            lit.press(input.cursor_position)
        } else {
            lit.release()
        }
    }
}

/// A tick keeps the scene as every tick leaves it.
pub proof fn lemma_step_preserves_wf(scene: VennView, input: VennInput)
    requires
        scene.wf(),
    ensures
        scene.step(input).wf(),
{
    let cursor = input.cursor_position;
    let lit = scene.highlight(cursor);
    assert(lit.wf());
    if input.is_mouse_pressed {
        lemma_press_preserves_wf(lit, cursor);
    } else {
        lemma_release_preserves_wf(lit);
    }
}

/// A tick with the button held keeps the scene as every tick leaves it.
proof fn lemma_press_preserves_wf(scene: VennView, cursor: Point)
    requires
        scene.wf(),
    ensures
        scene.press(cursor).wf(),
{
    match scene.drag {
        DragState::Idle => {
            lemma_topmost_hit(scene.shapes, cursor);
            match topmost_hit(scene.shapes, cursor) {
                Some(index) => {
                    let after = scene.grab(index, cursor).hover(cursor);
                    assert(after.shapes[index].center == cursor);
                    assert(after.wf());
                },
                None => {},
            }
        },
        DragState::Dragging(index) => {
            let after = scene.carry(index as int, cursor).hover(cursor);
            assert(after.shapes[index as int].center == cursor);
            assert(after.wf());
        },
    }
}

/// A tick with the button up keeps the scene as every tick leaves it.
proof fn lemma_release_preserves_wf(scene: VennView)
    requires
        scene.wf(),
    ensures
        scene.release().wf(),
{
}

/// How many tokens of a tray are marked as dragged.
pub open spec fn dragged_count(shapes: Seq<VennGuess>) -> nat
    decreases shapes.len(),
{
    if shapes.len() == 0 {
        0
    } else {
        dragged_count(shapes.drop_last()) + if shapes.last().dragged {
            1nat
        } else {
            0nat
        }
    }
}

/// A tray in which no token is marked as dragged counts none.
proof fn lemma_none_dragged(shapes: Seq<VennGuess>)
    requires
        forall|k: int| 0 <= k < shapes.len() ==> !(#[trigger] shapes[k]).dragged,
    ensures
        dragged_count(shapes) == 0,
    decreases shapes.len(),
{
    if shapes.len() > 0 {
        lemma_none_dragged(shapes.drop_last());
    }
}

/// A tray in which the token at `index` alone is marked as dragged counts
/// one.
proof fn lemma_one_dragged(shapes: Seq<VennGuess>, index: int)
    requires
        0 <= index < shapes.len(),
        forall|k: int| 0 <= k < shapes.len() ==> ((#[trigger] shapes[k]).dragged <==> k == index),
    ensures
        dragged_count(shapes) == 1,
    decreases shapes.len(),
{
    if index == shapes.len() - 1 {
        lemma_none_dragged(shapes.drop_last());
    } else {
        lemma_one_dragged(shapes.drop_last(), index);
    }
}

/// At every tick the number of tokens marked as dragged is one while a
/// drag is in progress and none otherwise.
pub proof fn lemma_dragged_count(scene: VennView)
    requires
        scene.wf(),
    ensures
        dragged_count(scene.shapes) == (if scene.drag is Dragging {
            1nat
        } else {
            0nat
        }),
{
    match scene.drag {
        DragState::Idle => lemma_none_dragged(scene.shapes),
        DragState::Dragging(index) => lemma_one_dragged(scene.shapes, index as int),
    }
}

/// The scene after a sequence of ticks, one for each input in turn.
pub open spec fn run(scene: VennView, inputs: Seq<VennInput>) -> VennView
    decreases inputs.len(),
{
    if inputs.len() == 0 {
        scene
    } else {
        run(scene, inputs.drop_last()).step(inputs.last())
    }
}

/// Whatever the inputs, every tick leaves the scene as every tick leaves
/// it: one token dragged while a drag is in progress, and none otherwise.
pub proof fn lemma_run_preserves_wf(scene: VennView, inputs: Seq<VennInput>)
    requires
        scene.wf(),
    ensures
        run(scene, inputs).wf(),
        dragged_count(run(scene, inputs).shapes) == (if run(scene, inputs).drag is Dragging {
            1nat
        } else {
            0nat
        }),
    decreases inputs.len(),
{
    if inputs.len() > 0 {
        lemma_run_preserves_wf(scene, inputs.drop_last());
        lemma_step_preserves_wf(run(scene, inputs.drop_last()), inputs.last());
    }
    lemma_dragged_count(run(scene, inputs));
}

/// A tick never adds, removes or reorders tokens, and never changes what a
/// token displays or how large it is.
pub proof fn lemma_step_keeps_tray(scene: VennView, input: VennInput)
    requires
        scene.wf(),
    ensures
        scene.step(input).shapes.len() == scene.shapes.len(),
        forall|k: int|
            0 <= k < scene.shapes.len() ==> {
                &&& (#[trigger] scene.step(input).shapes[k]).target == scene.shapes[k].target
                &&& scene.step(input).shapes[k].radius == scene.shapes[k].radius
            },
{
    lemma_topmost_hit(scene.shapes, input.cursor_position);
}

/// Both highlights follow the pointer at every tick, whatever the drag
/// state and the button.
pub proof fn lemma_step_highlights(scene: VennView, input: VennInput)
    requires
        scene.wf(),
    ensures
        scene.step(input).left.highlighted == scene.left.spec_contains(input.cursor_position),
        scene.step(input).right.highlighted == scene.right.spec_contains(input.cursor_position),
{
    lemma_topmost_hit(scene.shapes, input.cursor_position);
}

/// A verdict changes only at the two ends of a drag: it is forgotten when
/// the token is picked up, and set anew when the token is released.
pub proof fn lemma_verdict_changes_at_drag_ends(scene: VennView, input: VennInput, k: int)
    requires
        scene.wf(),
        0 <= k < scene.shapes.len(),
        scene.step(input).shapes[k].verdict != scene.shapes[k].verdict,
    ensures
        input.is_mouse_pressed ==> {
            &&& scene.drag is Idle
            &&& scene.step(input).drag == DragState::Dragging(k as usize)
            &&& scene.step(input).shapes[k].verdict == Verdict::Unset
        },
        !input.is_mouse_pressed ==> {
            &&& scene.drag == DragState::Dragging(k as usize)
            &&& scene.step(input).drag is Idle
        },
{
    lemma_topmost_hit(scene.shapes, input.cursor_position);
}

/// Releasing the held token outside both regions, and not inside exactly
/// one slot, leaves it undecided where it lies and ends the drag.
pub proof fn lemma_release_outside_yields_unset(scene: VennView, input: VennInput, index: int)
    requires
        scene.wf(),
        !input.is_mouse_pressed,
        scene.drag == DragState::Dragging(index as usize),
        0 <= index < scene.shapes.len(),
        !scene.left.spec_contains(scene.shapes[index].center),
        !scene.right.spec_contains(scene.shapes[index].center),
        scene.left.answer.spec_contains(scene.shapes[index].center)
            == scene.right.answer.spec_contains(scene.shapes[index].center),
    ensures
        scene.step(input).shapes[index].verdict == Verdict::Unset,
        scene.step(input).shapes[index].center == scene.shapes[index].center,
        !scene.step(input).shapes[index].dragged,
        scene.step(input).drag is Idle,
{
}

impl Venn {
    /// The place of the token that a press at `point` picks up, if any.
    /// The tray is searched from its last token to its first.
    pub fn hit_test(&self, point: &Point) -> (hit: Option<usize>)
        ensures
            hit matches Some(index) ==> topmost_hit(self@.shapes, *point) == Some(index as int),
            hit is None ==> topmost_hit(self@.shapes, *point) is None,
    {
        let mut k: usize = self.shapes.len();
        while k > 0
            invariant
                k <= self.shapes@.len(),
                forall|later: int|
                    k <= later < self.shapes@.len() ==> !(#[trigger] self.shapes@[later]).spec_contains(
                        *point,
                    ),
            decreases k,
        {
            k -= 1;
            if self.shapes[k].contains(point) {
                proof {
                    assert(is_topmost_hit(self@.shapes, *point, k as int));
                    let found = topmost_hit(self@.shapes, *point)->0;
                    lemma_topmost_hit_is_unique(self@.shapes, *point, k as int, found);
                }
                return Some(k);
            }
        }
        proof {
            lemma_topmost_hit(self@.shapes, *point);
        }
        None
    }

    /// Picks up the token at `index` with the pointer at `cursor`.
    fn grab(&mut self, index: usize, cursor: &Point)
        requires
            index < old(self)@.shapes.len(),
        ensures
            final(self)@ == old(self)@.grab(index as int, *cursor),
    {
        self.shapes[index].verdict = Verdict::Unset;
        self.shapes[index].drag_to(cursor);
        self.drag = DragState::Dragging(index);
    }

    /// Lets the held token, at `index`, follow the pointer to `cursor`.
    fn carry(&mut self, index: usize, cursor: &Point)
        requires
            index < old(self)@.shapes.len(),
        ensures
            final(self)@ == old(self)@.carry(index as int, *cursor),
    {
        self.shapes[index].drag_to(cursor);
    }

    /// Recomputes both slots' hover for a pointer at `cursor`.
    fn hover(&mut self, cursor: &Point)
        ensures
            final(self)@ == old(self)@.hover(*cursor),
    {
        self.left.answer.hover = self.left.answer.contains(cursor);
        self.right.answer.hover = self.right.answer.contains(cursor);
    }

    /// Ends the drag, if there is one: judges the held token where it lies
    /// and lets it go.
    fn release(&mut self)
        requires
            old(self)@.drag matches DragState::Dragging(index) ==> index < old(self)@.shapes.len(),
        ensures
            final(self)@ == old(self)@.release(),
    {
        self.left.answer.hover = false;
        self.right.answer.hover = false;
        match self.drag {
            DragState::Dragging(index) => {
                let mut judged = evaluate(&self.left, &self.right, &self.shapes[index]);
                judged.dragged = false;
                self.shapes[index] = judged;
                self.drag = DragState::Idle;
            },
            DragState::Idle => {},
        }
    }

    /// Advances the scene by one tick of input.
    pub fn interact(&mut self, input: &VennInput)
        requires
            old(self)@.wf(),
        ensures
            final(self)@ == old(self)@.step(*input),
            final(self)@.wf(),
    {
        proof {
            lemma_step_preserves_wf(self@, *input);
        }
        self.left.interact(input);
        self.right.interact(input);
        if input.is_mouse_pressed {
            match self.drag {
                DragState::Idle => {
                    if let Some(index) = self.hit_test(&input.cursor_position) {
                        proof {
                            lemma_topmost_hit(self@.shapes, input.cursor_position);
                        }
                        self.grab(index, &input.cursor_position);
                    }
                },
                DragState::Dragging(index) => {
                    self.carry(index, &input.cursor_position);
                },
            }
            if let DragState::Dragging(_) = self.drag {
                self.hover(&input.cursor_position);
            }
        } else {
            self.release();
        }
    }
}

} // verus!
