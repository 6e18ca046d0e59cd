//! What the scene looks like: the list of draw calls that paints it, for
//! whatever surface the caller draws on.

use crate::attributes::VennShape;
use crate::geometry::Point;
use crate::guess::{VennGuess, Verdict};
use crate::palette::{Hue, Paint, OPAQUE};
use crate::scene::{Venn, VennView};
use crate::zones::{VennAnswer, VennCircle};
use vstd::prelude::*;

verus! {

/// A corner of a polyline. Its coordinates are wide enough to hold any
/// point of the board moved by any extent.
#[derive(Clone, Copy, Debug, PartialEq, Eq, Structural)]
pub struct Vertex {
    pub x: i64,
    pub y: i64,
}

/// A figure to paint.
#[derive(Clone, Copy, Debug, PartialEq, Eq)]
pub enum Outline {
    /// The axis-aligned rectangle of this width and height around `center`.
    Rectangle { center: Point, width: u32, height: u32 },
    /// The circle of this radius around `center`.
    Circle { center: Point, radius: u32 },
    /// The line through these corners, in turn.
    Polyline { points: [Vertex; 4] },
}

/// One call on the drawing surface.
#[derive(Clone, Copy, Debug, PartialEq, Eq)]
pub enum DrawCall {
    /// Paint the whole surface.
    Clear { paint: Paint },
    /// Paint the inside of a figure.
    Fill { outline: Outline, paint: Paint },
    /// Paint the border of a figure, with a line of this width.
    Stroke { outline: Outline, paint: Paint, width: u16 },
}

/// Half the extent of the mark that shows a token's shape.
pub const MARK_HALF: u32 = 10;

/// The opacity of a token while it is dragged, in tenths.
pub const DRAGGED_OPACITY: u8 = 7;

/// The opacity of a region that is not highlighted, in tenths.
pub const REGION_OPACITY: u8 = 1;

/// The opacity of a highlighted region, in tenths.
pub const HIGHLIGHT_OPACITY: u8 = 3;

/// The opacity of the fill of a slot that shows hover, in tenths.
pub const HOVER_OPACITY: u8 = 1;

/// The width of the border of a slot.
pub const SLOT_BORDER: u16 = 2;

/// The width of every other border.
pub const THIN_BORDER: u16 = 1;

/// The corner that lies `dx` to the right of `center` and `dy` below it.
pub open spec fn spec_corner(center: Point, dx: int, dy: int) -> Vertex
    recommends
        -0x8000_0000 <= dx <= 0x8000_0000,
        -0x8000_0000 <= dy <= 0x8000_0000,
{
    Vertex { x: (center.x + dx) as i64, y: (center.y + dy) as i64 }
}

/// The mark that shows a shape on a token centred at `center`: a circle, a
/// square, or a triangle that stands on its base, each of the same
/// half extent.
pub open spec fn spec_mark(shape: VennShape, center: Point) -> Outline {
    match shape {
        VennShape::Circle => Outline::Circle { center, radius: MARK_HALF },
        VennShape::Square => Outline::Rectangle {
            center,
            width: (2 * MARK_HALF) as u32,
            height: (2 * MARK_HALF) as u32,
        },
        VennShape::Triangle => Outline::Polyline {
            points: [
                spec_corner(center, 0, -MARK_HALF),
                spec_corner(center, -MARK_HALF, MARK_HALF as int),
                spec_corner(center, MARK_HALF as int, MARK_HALF as int),
                spec_corner(center, 0, -MARK_HALF),
            ],
        },
    }
}

/// The hue that stands for each verdict. Gray says that nothing is decided,
/// green that the token matched, red that it did not.
pub open spec fn spec_verdict_hue(verdict: Verdict) -> Hue {
    match verdict {
        Verdict::Unset => Hue::Gray,
        Verdict::Match => Hue::Green,
        Verdict::Mismatch => Hue::Red,
    }
}

impl VennAnswer {
    /// The rectangle of the slot.
    pub open spec fn spec_outline(self) -> Outline {
        Outline::Rectangle { center: self.center, width: self.width, height: self.height }
    }

    /// The calls that paint the slot: a faint yellow fill while it shows
    /// hover, then its black border.
    pub open spec fn spec_draw(self) -> Seq<DrawCall> {
        let border = DrawCall::Stroke {
            outline: self.spec_outline(),
            paint: Paint::spec_solid(Hue::Black),
            width: SLOT_BORDER,
        };
        if self.hover {
            seq![
                DrawCall::Fill {
                    outline: self.spec_outline(),
                    paint: Paint { hue: Hue::Yellow, opacity: HOVER_OPACITY },
                },
                border,
            ]
        } else {
            seq![border]
        }
    }

    /// Adds the calls that paint the slot to `mesh`.
    pub fn draw(&self, mesh: &mut Vec<DrawCall>)
        ensures
            final(mesh)@ == old(mesh)@ + self.spec_draw(),
    {
        let outline = Outline::Rectangle {
            center: self.center,
            width: self.width,
            height: self.height,
        };
        if self.hover {
            let color = Paint::solid(Hue::Yellow).with_opacity(HOVER_OPACITY);
            mesh.push(DrawCall::Fill { outline, paint: color });
        }
        mesh.push(DrawCall::Stroke { outline, paint: Paint::solid(Hue::Black), width: SLOT_BORDER });
        assert(mesh@ =~= old(mesh)@ + self.spec_draw());
    }
}

impl VennGuess {
    /// The circle of the token.
    pub open spec fn spec_outline(self) -> Outline {
        Outline::Circle { center: self.center, radius: self.radius }
    }

    /// The colour of the token's disc: the hue of its verdict, solid at
    /// rest and fainter while it is dragged.
    pub open spec fn spec_disc_paint(self) -> Paint {
        Paint {
            hue: spec_verdict_hue(self.verdict),
            opacity: if self.dragged {
                DRAGGED_OPACITY
            } else {
                OPAQUE
            },
        }
    }

    /// The calls that paint the token: its disc and the disc's border, then
    /// the mark of its shape in its colour and the mark's border.
    pub open spec fn spec_draw(self) -> Seq<DrawCall> {
        seq![
            DrawCall::Fill { outline: self.spec_outline(), paint: self.spec_disc_paint() },
            DrawCall::Stroke {
                outline: self.spec_outline(),
                paint: Paint::spec_solid(Hue::Black),
                width: THIN_BORDER,
            },
            DrawCall::Fill {
                outline: spec_mark(self.target.shape, self.center),
                paint: self.target.color.spec_to_color(),
            },
            DrawCall::Stroke {
                outline: spec_mark(self.target.shape, self.center),
                paint: Paint::spec_solid(Hue::Black),
                width: THIN_BORDER,
            },
        ]
    }

    /// Adds the calls that paint the token to `mesh`.
    pub fn draw(&self, mesh: &mut Vec<DrawCall>)
        ensures
            final(mesh)@ == old(mesh)@ + self.spec_draw(),
    {
        let hue = match self.verdict {
            Verdict::Unset => Hue::Gray,
            Verdict::Match => Hue::Green,
            Verdict::Mismatch => Hue::Red,
        };
        let mut color = Paint::solid(hue);
        if self.dragged {
            color.opacity = DRAGGED_OPACITY;
        }
        let disc = Outline::Circle { center: self.center, radius: self.radius };
        mesh.push(DrawCall::Fill { outline: disc, paint: color });
        mesh.push(DrawCall::Stroke { outline: disc, paint: Paint::solid(Hue::Black), width: THIN_BORDER });
        let shape = mark(self.target.shape, &self.center);
        mesh.push(DrawCall::Fill { outline: shape, paint: self.target.color.to_color() });
        mesh.push(DrawCall::Stroke { outline: shape, paint: Paint::solid(Hue::Black), width: THIN_BORDER });
        assert(mesh@ =~= old(mesh)@ + self.spec_draw());
    }
}

impl VennCircle {
    /// The circle of the region.
    pub open spec fn spec_outline(self) -> Outline {
        Outline::Circle { center: self.center, radius: self.radius }
    }

    /// The colour of the region's disc: its own hue, faint, and less faint
    /// while the region is highlighted.
    pub open spec fn spec_disc_paint(self) -> Paint {
        Paint {
            hue: self.color.hue,
            opacity: if self.highlighted {
                HIGHLIGHT_OPACITY
            } else {
                REGION_OPACITY
            },
        }
    }

    /// The calls that paint the region: its slot first, then its disc and
    /// the disc's border.
    pub open spec fn spec_draw(self) -> Seq<DrawCall> {
        self.answer.spec_draw() + seq![
            DrawCall::Fill { outline: self.spec_outline(), paint: self.spec_disc_paint() },
            DrawCall::Stroke {
                outline: self.spec_outline(),
                paint: Paint::spec_solid(Hue::Black),
                width: THIN_BORDER,
            },
        ]
    }

    /// Adds the calls that paint the region to `mesh`.
    pub fn draw(&self, mesh: &mut Vec<DrawCall>)
        ensures
            final(mesh)@ == old(mesh)@ + self.spec_draw(),
    {
        self.answer.draw(mesh);
        let mut color = self.color;
        color.opacity = REGION_OPACITY;
        if self.highlighted {
            color.opacity = HIGHLIGHT_OPACITY;
        }
        let disc = Outline::Circle { center: self.center, radius: self.radius };
        mesh.push(DrawCall::Fill { outline: disc, paint: color });
        mesh.push(DrawCall::Stroke { outline: disc, paint: Paint::solid(Hue::Black), width: THIN_BORDER });
        assert(mesh@ =~= old(mesh)@ + self.spec_draw());
    }
}

/// The mark that shows a shape on a token centred at `center`.
pub fn mark(shape: VennShape, center: &Point) -> (outline: Outline)
    ensures
        outline == spec_mark(shape, *center),
{
    match shape {
        VennShape::Circle => Outline::Circle { center: *center, radius: MARK_HALF },
        VennShape::Square => Outline::Rectangle {
            center: *center,
            width: MARK_HALF * 2,
            height: MARK_HALF * 2,
        },
        VennShape::Triangle => {
            let x: i64 = center.x as i64;
            let y: i64 = center.y as i64;
            let half: i64 = MARK_HALF as i64;
            Outline::Polyline {
                points: [
                    Vertex { x, y: y - half },
                    Vertex { x: x - half, y: y + half },
                    Vertex { x: x + half, y: y + half },
                    Vertex { x, y: y - half },
                ],
            }
        },
    }
}

/// The calls that paint the tokens of a tray, first token first.
pub open spec fn spec_draw_tray(shapes: Seq<VennGuess>) -> Seq<DrawCall>
    decreases shapes.len(),
{
    if shapes.len() == 0 {
        Seq::empty()
    } else {
        spec_draw_tray(shapes.drop_last()) + shapes.last().spec_draw()
    }
}

impl VennView {
    /// The calls that paint the scene: a white ground, the left region, the
    /// right region, then the tokens in tray order, so that a later token
    /// lies over an earlier one.
    pub open spec fn spec_draw(self) -> Seq<DrawCall> {
        seq![DrawCall::Clear { paint: Paint::spec_solid(Hue::White) }] + self.left.spec_draw()
            + self.right.spec_draw() + spec_draw_tray(self.shapes)
    }
}

impl Venn {
    /// The calls that paint the scene, in the order in which to make them.
    pub fn draw(&self) -> (mesh: Vec<DrawCall>)
        ensures
            mesh@ == self@.spec_draw(),
    {
        let mut mesh: Vec<DrawCall> = Vec::new();
        mesh.push(DrawCall::Clear { paint: Paint::solid(Hue::White) });
        self.left.draw(&mut mesh);
        self.right.draw(&mut mesh);
        let ghost ground = mesh@;
        assert(ground =~= seq![DrawCall::Clear { paint: Paint::spec_solid(Hue::White) }]
            + self.left.spec_draw() + self.right.spec_draw());
        let mut k: usize = 0;
        while k < self.shapes.len()
            invariant
                k <= self.shapes@.len(),
                mesh@ == ground + spec_draw_tray(self.shapes@.take(k as int)),
            decreases self.shapes@.len() - k,
        {
            assert(self.shapes@.take(k + 1).drop_last() =~= self.shapes@.take(k as int));
            self.shapes[k].draw(&mut mesh);
            k += 1;
        }
        assert(self.shapes@.take(k as int) =~= self.shapes@);
        mesh
    }
}

} // verus!
