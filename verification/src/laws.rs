//! What holds of the scaling engine on every input.

use vstd::prelude::*;
use crate::bounds::Bounds;
use crate::error::ArithmeticError;
use crate::factor::ScalingFactor;
use crate::mode::ScalingMode;
use crate::ratio::Ratio;
use crate::scale::{Rounding, Scaling};
use crate::size::Size;

verus! {

/// Without a bound on either dimension a size stays as it is, whatever the
/// mode, given or not.
pub proof fn unbounded_is_identity(size: Size, mode: Option<ScalingMode>)
    ensures
        size.scaling(Bounds { width: None, height: None, mode }) == Ok::<Scaling, ArithmeticError>(
            Scaling::Done(size),
        ),
{
}

/// Under `Exact`, bounds on both dimensions are the scaled size, whatever the
/// source and its aspect ratio.
pub proof fn exact_takes_bounds(size: Size, width: u32, height: u32)
    ensures
        size.scaling(
            Bounds { width: Some(width), height: Some(height), mode: Some(ScalingMode::Exact) },
        ) == Ok::<Scaling, ArithmeticError>(Scaling::Done(Size { width, height })),
{
}

/// Under `Exact`, scaling always gives a size outright, and scaling that size
/// to the same bounds once more gives it again.
pub proof fn exact_is_idempotent(size: Size, bounds: Bounds)
    requires
        bounds.mode == Some(ScalingMode::Exact),
    ensures
        size.scaling(bounds) == Ok::<Scaling, ArithmeticError>(
            Scaling::Done(bounds.target(size)),
        ),
        bounds.target(size).scaling(bounds) == size.scaling(bounds),
{
}

/// Scaling fails exactly where a division by a zero dimension of the source
/// is called for: where a dimension is bounded, the mode is not `Exact`, and
/// the source's width or height is zero. The failure is then the division by
/// zero, of the target's width where the source's width is zero, else of the
/// target's height.
pub proof fn fails_on_zero_dimension_only(size: Size, bounds: Bounds)
    ensures
        size.scaling(bounds) is Err <==> !bounds.is_unbounded() && bounds.effective_mode()
            != ScalingMode::Exact && (size.width == 0 || size.height == 0),
        size.scaling(bounds) is Err ==> size.scaling(bounds) == Err::<Scaling, ArithmeticError>(
            ArithmeticError::DivideByZero {
                dividend: if size.width == 0 {
                    bounds.target(size).width
                } else {
                    bounds.target(size).height
                },
            },
        ),
{
}

/// Where a factor is called for, the products are rounded up.
pub proof fn rounds_up(size: Size, bounds: Bounds)
    ensures
        size.scaling(bounds) matches Ok(Scaling::Multiply { rounding, .. }) ==> rounding
            == Rounding::Ceil,
{
}

/// Every mode but `Exact` keeps the aspect ratio: its factor is one
/// multiplier for both axes. `Exact` has one for each axis, which takes the
/// source's width to the target's width and its height to the target's.
pub proof fn uniform_unless_exact(size: Size, target: Size, mode: ScalingMode)
    requires
        size.width != 0,
        size.height != 0,
    ensures
        size.factor_to(target, mode) matches Ok(factor) && factor.wf() && (factor is Uniform
            <==> mode != ScalingMode::Exact) && (mode == ScalingMode::Exact ==> factor.horizontal()
            == Ratio { numerator: target.width, denominator: size.width } && factor.vertical()
            == Ratio { numerator: target.height, denominator: size.height }),
{
}

/// The factor of `Fit` is the ratio of one axis and at most the ratio of
/// either: the scaled size fits inside the target on both axes.
pub proof fn fit_fits(size: Size, target: Size)
    requires
        size.width != 0,
        size.height != 0,
    ensures
        ({
            let x = Ratio { numerator: target.width, denominator: size.width };
            let y = Ratio { numerator: target.height, denominator: size.height };
            &&& size.factor_to(target, ScalingMode::Fit) matches Ok(ScalingFactor::Uniform(factor))
            &&& factor == x || factor == y
            &&& factor.at_most(x)
            &&& factor.at_most(y)
        }),
{
}

/// The factor of `Cover` is the ratio of one axis and at least the ratio of
/// either: the scaled size covers the target on both axes.
pub proof fn cover_covers(size: Size, target: Size)
    requires
        size.width != 0,
        size.height != 0,
    ensures
        ({
            let x = Ratio { numerator: target.width, denominator: size.width };
            let y = Ratio { numerator: target.height, denominator: size.height };
            &&& size.factor_to(target, ScalingMode::Cover) matches Ok(
                ScalingFactor::Uniform(factor),
            )
            &&& factor == x || factor == y
            &&& x.at_most(factor)
            &&& y.at_most(factor)
        }),
{
}

/// `Contain` never enlarges: its factor is at most one and at most the ratio
/// of either axis. It is the factor of `Fit` where that is at most one, and
/// one otherwise.
pub proof fn contain_never_enlarges(size: Size, target: Size)
    requires
        size.width != 0,
        size.height != 0,
    ensures
        ({
            let x = Ratio { numerator: target.width, denominator: size.width };
            let y = Ratio { numerator: target.height, denominator: size.height };
            &&& size.factor_to(target, ScalingMode::Contain) matches Ok(
                ScalingFactor::Uniform(factor),
            )
            &&& size.factor_to(target, ScalingMode::Fit) matches Ok(ScalingFactor::Uniform(fit))
            &&& factor.numerator <= factor.denominator
            &&& factor.at_most(x)
            &&& factor.at_most(y)
            &&& factor == if fit.numerator <= fit.denominator {
                fit
            } else {
                Ratio::unit()
            }
        }),
{
    let x = Ratio { numerator: target.width, denominator: size.width };
    let y = Ratio { numerator: target.height, denominator: size.height };
    let fit = x.lesser(y);
    x.lesser_is_lower_bound(y);
    if !fit.at_most(Ratio::unit()) {
        Ratio::unit().at_most_transitive(fit, x);
        Ratio::unit().at_most_transitive(fit, y);
    }
}

/// A source that already lies within the target on both axes is left at its
/// own size by `Contain`: the factor is the number one.
pub proof fn contain_keeps_what_fits(size: Size, target: Size)
    requires
        size.width != 0,
        size.height != 0,
        size.width <= target.width,
        size.height <= target.height,
    ensures
        size.factor_to(target, ScalingMode::Contain) matches Ok(ScalingFactor::Uniform(factor))
            && factor.numerator == factor.denominator,
{
    let x = Ratio { numerator: target.width, denominator: size.width };
    let y = Ratio { numerator: target.height, denominator: size.height };
    let fit = x.lesser(y);
    assert(fit.numerator >= fit.denominator);
}

/// Under `Contain`, or with no mode given, a bound on one dimension alone
/// scales both by the same factor: the bound over that dimension where the
/// bound is smaller, and the number one where the source already lies within
/// it.
pub proof fn one_bound_contains_by_its_ratio(size: Size, bounds: Bounds)
    requires
        size.width != 0,
        size.height != 0,
        bounds.effective_mode() == ScalingMode::Contain,
        (bounds.width is None) != (bounds.height is None),
    ensures
        size.scaling(bounds) == Ok::<Scaling, ArithmeticError>(
            Scaling::Multiply {
                factor: ScalingFactor::Uniform(
                    match (bounds.width, bounds.height) {
                        (Some(width), _) => if width <= size.width {
                            Ratio { numerator: width, denominator: size.width }
                        } else {
                            Ratio { numerator: size.height, denominator: size.height }
                        },
                        (_, Some(height)) => if height < size.height {
                            Ratio { numerator: height, denominator: size.height }
                        } else {
                            Ratio { numerator: size.width, denominator: size.width }
                        },
                        _ => Ratio::unit(),
                    },
                ),
                rounding: Rounding::Ceil,
            },
        ),
{
    match (bounds.width, bounds.height) {
        (Some(width), _) => {
            assert(width * size.height <= size.height * size.width <==> width <= size.width)
                by (nonlinear_arith)
                requires
                    size.height > 0,
            ;
        },
        (_, Some(height)) => {
            assert(size.width * size.height <= height * size.width <==> size.height <= height)
                by (nonlinear_arith)
                requires
                    size.width > 0,
            ;
        },
        _ => {},
    }
}

} // verus!
