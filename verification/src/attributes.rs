//! The closed attribute domain: colour, size and shape, and the target that
//! combines one value of each.

use vstd::prelude::*;

verus! {

/// The colour a token displays, or a zone asks for.
#[derive(Clone, Copy, Debug, PartialEq, Eq, Structural)]
pub enum VennColor {
    Yellow,
    Blue,
    Purple,
}

/// The size a token displays, or a zone asks for.
#[derive(Clone, Copy, Debug, PartialEq, Eq, Structural)]
pub enum VennSize {
    Small,
    Medium,
    Large,
}

/// The shape a token displays, or a zone asks for.
#[derive(Clone, Copy, Debug, PartialEq, Eq, Structural)]
pub enum VennShape {
    Circle,
    Triangle,
    Square,
}

/// One value of each attribute. Two targets are equal when all three
/// components are.
#[derive(Clone, Copy, Debug, PartialEq, Eq, Structural)]
pub struct VennTarget {
    pub color: VennColor,
    pub shape: VennShape,
    pub size: VennSize,
}

/// How many values each attribute has.
pub const DOMAIN_SIZE: u8 = 3;

impl VennColor {
    /// Every colour, in enumeration order.
    pub open spec fn spec_all() -> Seq<VennColor> {
        seq![VennColor::Yellow, VennColor::Blue, VennColor::Purple]
    }

    /// The colour that stands at `index` in the enumeration order.
    pub open spec fn spec_from_index(index: u8) -> VennColor
        recommends
            index < DOMAIN_SIZE,
    {
        Self::spec_all()[index as int]
    }

    /// Every colour, in enumeration order.
    pub fn all() -> (colors: Vec<VennColor>)
        ensures
            colors@ == Self::spec_all(),
    {
        let mut colors: Vec<VennColor> = Vec::new();
        colors.push(VennColor::Yellow);
        colors.push(VennColor::Blue);
        colors.push(VennColor::Purple);
        assert(colors@ =~= Self::spec_all());
        colors
    }

    /// The colour that stands at `index` in the enumeration order.
    pub fn from_index(index: u8) -> (color: VennColor)
        requires
            index < DOMAIN_SIZE,
        ensures
            color == Self::spec_from_index(index),
    {
        if index == 0 {
            VennColor::Yellow
        } else if index == 1 {
            VennColor::Blue
        } else {
            VennColor::Purple
        }
    }
}

impl VennSize {
    /// Every size, in enumeration order.
    pub open spec fn spec_all() -> Seq<VennSize> {
        seq![VennSize::Small, VennSize::Medium, VennSize::Large]
    }

    /// The size that stands at `index` in the enumeration order.
    pub open spec fn spec_from_index(index: u8) -> VennSize
        recommends
            index < DOMAIN_SIZE,
    {
        Self::spec_all()[index as int]
    }

    /// Every size, in enumeration order.
    pub fn all() -> (sizes: Vec<VennSize>)
        ensures
            sizes@ == Self::spec_all(),
    {
        let mut sizes: Vec<VennSize> = Vec::new();
        sizes.push(VennSize::Small);
        sizes.push(VennSize::Medium);
        sizes.push(VennSize::Large);
        assert(sizes@ =~= Self::spec_all());
        sizes
    }

    /// The size that stands at `index` in the enumeration order.
    pub fn from_index(index: u8) -> (size: VennSize)
        requires
            index < DOMAIN_SIZE,
        ensures
            size == Self::spec_from_index(index),
    {
        if index == 0 {
            VennSize::Small
        } else if index == 1 {
            VennSize::Medium
        } else {
            VennSize::Large
        }
    }
}

impl VennShape {
    /// Every shape, in enumeration order: circle, then square, then triangle.
    pub open spec fn spec_all() -> Seq<VennShape> {
        seq![VennShape::Circle, VennShape::Square, VennShape::Triangle]
    }

    /// The shape that stands at `index` in the enumeration order.
    pub open spec fn spec_from_index(index: u8) -> VennShape
        recommends
            index < DOMAIN_SIZE,
    {
        Self::spec_all()[index as int]
    }

    /// Every shape, in enumeration order: circle, then square, then triangle.
    pub fn all() -> (shapes: Vec<VennShape>)
        ensures
            shapes@ == Self::spec_all(),
    {
        let mut shapes: Vec<VennShape> = Vec::new();
        shapes.push(VennShape::Circle);
        shapes.push(VennShape::Square);
        shapes.push(VennShape::Triangle);
        assert(shapes@ =~= Self::spec_all());
        shapes
    }

    /// The shape that stands at `index` in the enumeration order.
    pub fn from_index(index: u8) -> (shape: VennShape)
        requires
            index < DOMAIN_SIZE,
        ensures
            shape == Self::spec_from_index(index),
    {
        if index == 0 {
            VennShape::Circle
        } else if index == 1 {
            VennShape::Square
        } else {
            VennShape::Triangle
        }
    }
}

impl VennTarget {
    /// The target whose components stand at the given places of their
    /// enumerations.
    pub open spec fn spec_from_draws(shape: u8, size: u8, color: u8) -> VennTarget
        recommends
            shape < DOMAIN_SIZE,
            size < DOMAIN_SIZE,
            color < DOMAIN_SIZE,
    {
        VennTarget {
            color: VennColor::spec_from_index(color),
            shape: VennShape::spec_from_index(shape),
            size: VennSize::spec_from_index(size),
        }
    }

    /// Builds a target out of one draw per attribute, each naming a place in
    /// that attribute's enumeration.
    pub fn from_draws(shape: u8, size: u8, color: u8) -> (target: VennTarget)
        requires
            shape < DOMAIN_SIZE,
            size < DOMAIN_SIZE,
            color < DOMAIN_SIZE,
        ensures
            target == Self::spec_from_draws(shape, size, color),
    {
        VennTarget {
            color: VennColor::from_index(color),
            shape: VennShape::from_index(shape),
            size: VennSize::from_index(size),
        }
    }
}

} // verus!
