//! The scaling engine: from a size and its bounds to what is to be done.

use vstd::prelude::*;
use crate::bounds::Bounds;
use crate::error::ArithmeticError;
use crate::factor::{NonUniformScalingFactor, ScalingFactor};
use crate::mode::ScalingMode;
use crate::ratio::Ratio;
use crate::size::Size;

verus! {

/// How a product of a dimension and a multiplier becomes a whole number.
#[derive(Debug, Clone, Copy, PartialEq, Eq, Hash, Structural)]
pub enum Rounding {
    /// Up, to the next whole number that is not smaller.
    Ceil,
    /// Down, to the next whole number that is not larger.
    Floor,
    /// To the nearest whole number.
    Round,
}

/// What scaling a size comes to.
#[derive(Debug, Clone, Copy, PartialEq)]
pub enum Scaling {
    /// This is the scaled size.
    Done(Size),
    /// The scaled size is the source with its width multiplied by the
    /// factor's `x` and its height by the factor's `y`, each product rounded
    /// as `rounding` says.
    Multiply { factor: ScalingFactor, rounding: Rounding },
}

impl Size {
    /// The factor that takes `self` to `target` under `mode`, or the failure
    /// of the first division that has none: the width's, then the height's.
    pub open spec fn factor_to(self, target: Size, mode: ScalingMode) -> Result<
        ScalingFactor,
        ArithmeticError,
    > {
        if self.width == 0 {
            Err(ArithmeticError::DivideByZero { dividend: target.width })
        } else if self.height == 0 {
            Err(ArithmeticError::DivideByZero { dividend: target.height })
        } else {
            let x = Ratio { numerator: target.width, denominator: self.width };
            let y = Ratio { numerator: target.height, denominator: self.height };
            Ok(
                match mode {
                    ScalingMode::Exact => ScalingFactor::NonUniform(
                        NonUniformScalingFactor { x, y },
                    ),
                    ScalingMode::Cover => ScalingFactor::Uniform(x.greater(y)),
                    ScalingMode::Fit => ScalingFactor::Uniform(x.lesser(y)),
                    ScalingMode::Contain => ScalingFactor::Uniform(
                        x.lesser(y).lesser(Ratio::unit()),
                    ),
                },
            )
        }
    }

    /// What scaling `self` to `target` under `mode` comes to.
    pub open spec fn scaling_to(self, target: Size, mode: ScalingMode) -> Result<
        Scaling,
        ArithmeticError,
    > {
        if mode == ScalingMode::Exact {
            Ok(Scaling::Done(target))
        } else {
            match self.factor_to(target, mode) {
                Ok(factor) => Ok(Scaling::Multiply { factor, rounding: Rounding::Ceil }),
                Err(error) => Err(error),
            }
        }
    }

    /// What scaling `self` to `bounds` comes to.
    pub open spec fn scaling(self, bounds: Bounds) -> Result<Scaling, ArithmeticError> {
        if bounds.is_unbounded() {
            Ok(Scaling::Done(self))
        } else {
            self.scaling_to(bounds.target(self), bounds.effective_mode())
        }
    }

    /// The aspect ratio, width to height.
    ///
    /// # Errors
    /// Where the height is zero.
    pub fn aspect_ratio(&self) -> (ratio: Result<Ratio, ArithmeticError>)
        ensures
            self.height == 0 ==> ratio == Err::<Ratio, ArithmeticError>(
                ArithmeticError::DivideByZero { dividend: self.width },
            ),
            self.height != 0 ==> ratio == Ok::<Ratio, ArithmeticError>(
                Ratio { numerator: self.width, denominator: self.height },
            ),
    {
        Ratio::new(self.width, self.height)
    }

    /// The factor that scales `self` to `target` under `mode`.
    ///
    /// # Errors
    /// Where the width or the height of `self` is zero.
    pub fn scaling_factor(&self, target: Size, mode: ScalingMode) -> (factor: Result<
        ScalingFactor,
        ArithmeticError,
    >)
        ensures
            factor == self.factor_to(target, mode),
            factor is Err <==> self.width == 0 || self.height == 0,
            factor matches Ok(f) ==> f.wf(),
    {
        let width_ratio = match Ratio::new(target.width, self.width) {
            Ok(ratio) => ratio,
            Err(error) => { return Err(error); },
        };
        let height_ratio = match Ratio::new(target.height, self.height) {
            Ok(ratio) => ratio,
            Err(error) => { return Err(error); },
        };
        let factor = match mode {
            ScalingMode::Exact => ScalingFactor::NonUniform(
                NonUniformScalingFactor { x: width_ratio, y: height_ratio },
            ),
            ScalingMode::Cover => ScalingFactor::Uniform(width_ratio.max(height_ratio)),
            ScalingMode::Fit => ScalingFactor::Uniform(width_ratio.min(height_ratio)),
            ScalingMode::Contain => ScalingFactor::Uniform(
                width_ratio.min(height_ratio).min(Ratio::one()),
            ),
        };
        Ok(factor)
    }

    /// Scale `self` to `target` under `mode`.
    ///
    /// # Errors
    /// Where the mode is not `Exact` and the width or the height of `self` is
    /// zero.
    pub fn scale_to(self, target: Size, mode: ScalingMode) -> (scaling: Result<
        Scaling,
        ArithmeticError,
    >)
        ensures
            scaling == self.scaling_to(target, mode),
    {
        if mode == ScalingMode::Exact {
            return Ok(Scaling::Done(target));
        }
        match self.scaling_factor(target, mode) {
            Ok(factor) => Ok(Scaling::Multiply { factor, rounding: Rounding::Ceil }),
            Err(error) => Err(error),
        }
    }

    /// Scale `self` to `bounds`.
    ///
    /// No size is refused for being empty: bounds of zero under `Exact` give
    /// a dimension of zero.
    ///
    /// # Errors
    /// Where a dimension is bounded, the mode is not `Exact` and the width or
    /// the height of `self` is zero.
    pub fn scale(self, bounds: Bounds) -> (scaling: Result<Scaling, ArithmeticError>)
        ensures
            scaling == self.scaling(bounds),
    {
        let mode = match bounds.mode {
            Some(mode) => mode,
            None => ScalingMode::default(),
        };
        match (bounds.width, bounds.height) {
            // unbounded
            (None, None) => Ok(Scaling::Done(self)),
            // single dimension is bounded
            (None, Some(height)) => self.scale_to(Size { width: self.width, height }, mode),
            (Some(width), None) => self.scale_to(Size { width, height: self.height }, mode),
            // all dimensions bounded
            (Some(width), Some(height)) => self.scale_to(Size { width, height }, mode),
        }
    }
}

} // verus!
