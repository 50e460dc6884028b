//! Scaling factors.

use vstd::prelude::*;
use crate::ratio::Ratio;

verus! {

/// One multiplier for the width and one for the height.
#[derive(Debug, Clone, Copy, PartialEq, PartialOrd)]
pub struct NonUniformScalingFactor {
    pub x: Ratio,
    pub y: Ratio,
}

impl Default for NonUniformScalingFactor {
    fn default() -> (factor: Self)
        ensures
            factor.x == Ratio::unit(),
            factor.y == Ratio::unit(),
    {
        NonUniformScalingFactor { x: Ratio::one(), y: Ratio::one() }
    }
}

/// By how much a size is multiplied: by one number on both axes, or by one
/// number on each.
#[derive(Debug, Clone, Copy, PartialEq, PartialOrd)]
pub enum ScalingFactor {
    NonUniform(NonUniformScalingFactor),
    Uniform(Ratio),
}

impl ScalingFactor {
    /// The multiplier of the width.
    pub open spec fn horizontal(self) -> Ratio {
        match self {
            ScalingFactor::NonUniform(factor) => factor.x,
            ScalingFactor::Uniform(factor) => factor,
        }
    }

    /// The multiplier of the height.
    pub open spec fn vertical(self) -> Ratio {
        match self {
            ScalingFactor::NonUniform(factor) => factor.y,
            ScalingFactor::Uniform(factor) => factor,
        }
    }

    /// Whether both multipliers stand for numbers.
    pub open spec fn wf(self) -> bool {
        self.horizontal().wf() && self.vertical().wf()
    }

    /// Whether one multiplier serves both axes.
    #[must_use]
    pub fn is_uniform(&self) -> (uniform: bool)
        ensures
            uniform == (*self is Uniform),
    {
        match self {
            ScalingFactor::NonUniform(_) => false,
            ScalingFactor::Uniform(_) => true,
        }
    }

    /// The multiplier of a uniform factor.
    #[must_use]
    pub fn as_uniform(&self) -> (factor: Option<Ratio>)
        ensures
            factor == match *self {
                ScalingFactor::NonUniform(_) => None::<Ratio>,
                ScalingFactor::Uniform(ratio) => Some(ratio),
            },
    {
        match self {
            ScalingFactor::NonUniform(_) => None,
            ScalingFactor::Uniform(ratio) => Some(*ratio),
        }
    }

    /// Answers as `as_uniform` does: the multiplier of a uniform factor, and
    /// nothing for a non-uniform one, whose two multipliers are read with `x`
    /// and `y`.
    #[must_use]
    pub fn as_non_uniform(&self) -> (factor: Option<Ratio>)
        ensures
            factor == match *self {
                ScalingFactor::NonUniform(_) => None::<Ratio>,
                ScalingFactor::Uniform(ratio) => Some(ratio),
            },
    {
        match self {
            ScalingFactor::NonUniform(_) => None,
            ScalingFactor::Uniform(ratio) => Some(*ratio),
        }
    }

    /// The multiplier of the width.
    #[must_use]
    pub fn x(&self) -> (factor: Ratio)
        ensures
            factor == self.horizontal(),
    {
        match self {
            ScalingFactor::NonUniform(factor) => factor.x,
            ScalingFactor::Uniform(factor) => *factor,
        }
    }

    /// The multiplier of the height.
    #[must_use]
    pub fn y(&self) -> (factor: Ratio)
        ensures
            factor == self.vertical(),
    {
        match self {
            ScalingFactor::NonUniform(factor) => factor.y,
            ScalingFactor::Uniform(factor) => *factor,
        }
    }
}

} // verus!
