//! Random attribute values, drawn from a generator that the caller hands
//! in, so that a seeded generator gives the same puzzle again.

use crate::attributes::{VennColor, VennShape, VennSize, VennTarget, DOMAIN_SIZE};
use rand::rngs::StdRng;
use vstd::prelude::*;

verus! {

/// Makes `rand::rngs::StdRng` known as a type. Nothing is said of what a
/// generator holds.
#[verifier::external_type_specification]
#[verifier::external_body]
pub struct ExStdRng(rand::rngs::StdRng);

/// One call of `rand::Rng::gen_range` on the generator, with `low` and
/// `high` as its bounds.
///
/// Trusted, not proved: the call returns a value that is at least `low`
/// and less than `high`. It panics unless `low < high`, which is why that
/// is required. Which value comes back is left open, and two calls on the
/// same bounds may differ.
#[verifier::external_body]
fn draw_in_range(rng: &mut StdRng, low: u8, high: u8) -> (drawn: u8)
    requires
        low < high,
    ensures
        low <= drawn < high,
{
    rand::Rng::gen_range(rng, low, high)
}

impl VennColor {
    /// A colour drawn from the generator; every colour can come out.
    pub fn random(rng: &mut StdRng) -> VennColor {
        VennColor::from_index(draw_in_range(rng, 0, DOMAIN_SIZE))
    }
}

impl VennSize {
    /// A size drawn from the generator; every size can come out.
    pub fn random(rng: &mut StdRng) -> VennSize {
        VennSize::from_index(draw_in_range(rng, 0, DOMAIN_SIZE))
    }
}

impl VennShape {
    /// A shape drawn from the generator; every shape can come out.
    pub fn random(rng: &mut StdRng) -> VennShape {
        VennShape::from_index(draw_in_range(rng, 0, DOMAIN_SIZE))
    }
}

impl VennTarget {
    /// A target drawn from the generator: first its shape, then its size,
    /// then its colour, each by a draw of its own.
    pub fn random(rng: &mut StdRng) -> VennTarget {
        let shape = VennShape::random(rng);
        let size = VennSize::random(rng);
        let color = VennColor::random(rng);
        VennTarget { color, shape, size }
    }
}

} // verus!
