//! The data model: modes, bounds, sizes, ratios and factors.

use std::cmp::Ordering;

use aspect_ratio::{
    ArithmeticError, Bounds, IntoOption, NonUniformScalingFactor, Ratio, Scaling, ScalingFactor,
    ScalingMode, Size,
};

#[test]
fn modes_come_in_declaration_order() {
    let modes = ScalingMode::iter();
    assert_eq!(
        modes,
        vec![ScalingMode::Exact, ScalingMode::Fit, ScalingMode::Cover, ScalingMode::Contain]
    );
    assert_eq!(ScalingMode::iter(), modes);
    assert_eq!(ScalingMode::iter(), ScalingMode::iter());
}

#[test]
fn default_mode_is_contain() {
    assert_eq!(ScalingMode::default(), ScalingMode::Contain);
}

#[test]
fn given_and_optional_values() {
    let given: Option<u32> = 7u32.into_option();
    assert_eq!(given, Some(7));
    let kept: Option<u32> = Some(7u32).into_option();
    assert_eq!(kept, Some(7));
    let open: Option<u32> = None::<u32>.into_option();
    assert_eq!(open, None);
    let mode: Option<ScalingMode> = ScalingMode::Fit.into_option();
    assert_eq!(mode, Some(ScalingMode::Fit));
    let nested: Option<Option<u32>> = Some(7u32).into_option();
    assert_eq!(nested, Some(Some(7)));
}

#[test]
fn new_bounds_are_open() {
    let open = Bounds { width: None, height: None, mode: None };
    assert_eq!(Bounds::new(), open);
    assert_eq!(Bounds::default(), open);
}

#[test]
fn bounds_of_each_mode() {
    assert_eq!(Bounds::fit().mode, Some(ScalingMode::Fit));
    assert_eq!(Bounds::cover().mode, Some(ScalingMode::Cover));
    assert_eq!(Bounds::contain().mode, Some(ScalingMode::Contain));
    assert_eq!(Bounds::exact().mode, Some(ScalingMode::Exact));
    for bounds in [Bounds::fit(), Bounds::cover(), Bounds::contain(), Bounds::exact()] {
        assert_eq!(bounds.width, None);
        assert_eq!(bounds.height, None);
    }
}

#[test]
fn bounds_setters_change_one_field() {
    let bounds = Bounds::fit().w(300);
    assert_eq!(bounds, Bounds { width: Some(300), height: None, mode: Some(ScalingMode::Fit) });
    let bounds = bounds.h(600);
    assert_eq!(
        bounds,
        Bounds { width: Some(300), height: Some(600), mode: Some(ScalingMode::Fit) }
    );
    let bounds = bounds.mode(ScalingMode::Cover);
    assert_eq!(
        bounds,
        Bounds { width: Some(300), height: Some(600), mode: Some(ScalingMode::Cover) }
    );
}

#[test]
fn bounds_setters_overwrite_and_clear() {
    let bounds = Bounds::new().w(300).w(200).h(Some(50)).mode(ScalingMode::Fit);
    assert_eq!(bounds.width, Some(200));
    assert_eq!(bounds.height, Some(50));
    let bounds = bounds.w(None).mode(None);
    assert_eq!(bounds, Bounds { width: None, height: Some(50), mode: None });
}

#[test]
fn max_width_and_max_height_set_width_and_height() {
    assert_eq!(Bounds::new().max_width(300), Bounds::new().w(300));
    assert_eq!(Bounds::new().max_height(600), Bounds::new().h(600));
    assert_eq!(Bounds::new().w(1).max_width(None), Bounds::new());
}

#[test]
fn max_dimension_caps_both() {
    let bounds = Bounds::cover().max_dimension(512);
    assert_eq!(
        bounds,
        Bounds { width: Some(512), height: Some(512), mode: Some(ScalingMode::Cover) }
    );
    assert_eq!(Bounds::cover().max_dim(512), bounds);
    assert_eq!(bounds.max_dim(None), Bounds::cover());
    // a width of zero is taken as it is
    assert_eq!(Bounds::new().max_dimension(0).width, Some(0));
}

#[test]
fn size_setters() {
    let size = Size::new(200, 400);
    assert_eq!(size, Size { width: 200, height: 400 });
    assert_eq!(size.w(1), Size { width: 1, height: 400 });
    assert_eq!(size.h(2), Size { width: 200, height: 2 });
    assert_eq!(size.width(3), Size { width: 3, height: 400 });
    assert_eq!(size.height(4), Size { width: 200, height: 4 });
    assert_eq!(size.w(5).h(6), Size::new(5, 6));
}

#[test]
fn largest_and_smallest_dimension() {
    assert_eq!(Size::new(200, 400).max_dim(), 400);
    assert_eq!(Size::new(200, 400).min_dim(), 200);
    assert_eq!(Size::new(400, 200).max_dim(), 400);
    assert_eq!(Size::new(400, 200).min_dim(), 200);
    assert_eq!(Size::new(7, 7).max_dim(), 7);
    assert_eq!(Size::new(7, 7).min_dim(), 7);
    assert_eq!(Size::new(0, u32::MAX).max_dim(), u32::MAX);
    assert_eq!(Size::new(0, u32::MAX).min_dim(), 0);
}

#[test]
fn size_as_text() {
    assert_eq!(Size::new(300, 600).to_string(), "300x600");
    assert_eq!(Size::new(0, 0).to_string(), "0x0");
    assert_eq!(Size::new(10, 9).to_string(), "10x9");
    assert_eq!(Size::new(u32::MAX, 1_000_000).to_string(), "4294967295x1000000");
    assert_eq!(Size::new(1905, 7).to_string(), format!("{}x{}", 1905, 7));
}

#[test]
fn aspect_ratio_is_width_to_height() {
    assert_eq!(
        Size::new(1920, 1080).aspect_ratio(),
        Ok(Ratio { numerator: 1920, denominator: 1080 })
    );
    assert_eq!(Size::new(1920, 1080).aspect_ratio(), Ok(Ratio { numerator: 16, denominator: 9 }));
    // no width is the ratio zero
    let ratio = Size::new(0, 200).aspect_ratio().unwrap();
    assert_eq!(ratio, Ratio { numerator: 0, denominator: 1 });
}

#[test]
fn aspect_ratio_of_no_height_fails() {
    assert_eq!(
        Size::new(200, 0).aspect_ratio(),
        Err(ArithmeticError::DivideByZero { dividend: 200 })
    );
    assert_eq!(Size::new(0, 0).aspect_ratio(), Err(ArithmeticError::DivideByZero { dividend: 0 }));
}

#[test]
fn checked_division() {
    let ratio = Ratio::new(3, 4).unwrap();
    assert_eq!(ratio.numerator, 3);
    assert_eq!(ratio.denominator, 4);
    assert_eq!(Ratio::new(3, 0), Err(ArithmeticError::DivideByZero { dividend: 3 }));
    assert_eq!(Ratio::one().numerator, 1);
    assert_eq!(Ratio::one().denominator, 1);
}

#[test]
fn ratios_compare_as_numbers() {
    let half = Ratio { numerator: 1, denominator: 2 };
    let third = Ratio { numerator: 1, denominator: 3 };
    assert_eq!(half, Ratio { numerator: 100, denominator: 200 });
    assert_ne!(half, third);
    assert!(third < half);
    assert!(half > third);
    assert!(half <= Ratio { numerator: 2, denominator: 4 });
    assert_eq!(half.partial_cmp(&third), Some(Ordering::Greater));
    assert_eq!(third.partial_cmp(&half), Some(Ordering::Less));
    assert_eq!(half.partial_cmp(&Ratio { numerator: 3, denominator: 6 }), Some(Ordering::Equal));
    // products beyond 32 bits
    let large = Ratio { numerator: u32::MAX, denominator: u32::MAX - 1 };
    let larger = Ratio { numerator: u32::MAX - 1, denominator: u32::MAX - 2 };
    assert!(large < larger);
    assert_eq!(large.partial_cmp(&large), Some(Ordering::Equal));
}

#[test]
fn ratio_without_denominator_is_no_number() {
    let none = Ratio { numerator: 1, denominator: 0 };
    let half = Ratio { numerator: 1, denominator: 2 };
    assert_ne!(none, none);
    assert_ne!(none, half);
    assert_eq!(none.partial_cmp(&half), None);
    assert_eq!(half.partial_cmp(&none), None);
    assert!(!(none < half) && !(none > half));
}

#[test]
fn smaller_and_larger_ratio() {
    let half = Ratio { numerator: 1, denominator: 2 };
    let third = Ratio { numerator: 1, denominator: 3 };
    for (a, b) in [(half, third), (third, half)] {
        let (min, max) = (a.min(b), a.max(b));
        assert_eq!((min.numerator, min.denominator), (1, 3));
        assert_eq!((max.numerator, max.denominator), (1, 2));
    }
    // of two forms of one number, the smaller is the first and the larger the second
    let same = Ratio { numerator: 2, denominator: 4 };
    assert_eq!(half.min(same).numerator, 1);
    assert_eq!(half.max(same).numerator, 2);
}

#[test]
fn factor_of_each_mode() {
    let size = Size::new(200, 400);
    let target = Size::new(100, 600);
    let x = Ratio { numerator: 100, denominator: 200 };
    let y = Ratio { numerator: 600, denominator: 400 };
    assert_eq!(
        size.scaling_factor(target, ScalingMode::Exact),
        Ok(ScalingFactor::NonUniform(NonUniformScalingFactor { x, y }))
    );
    assert_eq!(size.scaling_factor(target, ScalingMode::Cover), Ok(ScalingFactor::Uniform(y)));
    assert_eq!(size.scaling_factor(target, ScalingMode::Fit), Ok(ScalingFactor::Uniform(x)));
    assert_eq!(size.scaling_factor(target, ScalingMode::Contain), Ok(ScalingFactor::Uniform(x)));
    // which form of the number is kept
    let factor = size.scaling_factor(target, ScalingMode::Cover).unwrap().x();
    assert_eq!((factor.numerator, factor.denominator), (600, 400));
}

#[test]
fn contain_caps_the_factor_at_one() {
    let size = Size::new(200, 400);
    let target = Size::new(300, 800);
    assert_eq!(
        size.scaling_factor(target, ScalingMode::Fit),
        Ok(ScalingFactor::Uniform(Ratio { numerator: 3, denominator: 2 }))
    );
    let contain = size.scaling_factor(target, ScalingMode::Contain).unwrap();
    assert_eq!(contain, ScalingFactor::Uniform(Ratio::one()));
    let factor = contain.as_uniform().unwrap();
    assert_eq!((factor.numerator, factor.denominator), (1, 1));
}

#[test]
fn factor_of_a_source_without_width_or_height_fails() {
    let target = Size::new(100, 50);
    for mode in ScalingMode::iter() {
        assert_eq!(
            Size::new(0, 400).scaling_factor(target, mode),
            Err(ArithmeticError::DivideByZero { dividend: 100 })
        );
        assert_eq!(
            Size::new(200, 0).scaling_factor(target, mode),
            Err(ArithmeticError::DivideByZero { dividend: 50 })
        );
        // the width is divided first
        assert_eq!(
            Size::new(0, 0).scaling_factor(target, mode),
            Err(ArithmeticError::DivideByZero { dividend: 100 })
        );
    }
}

#[test]
fn scale_to_under_exact_is_the_target() {
    let target = Size::new(3, 4);
    assert_eq!(Size::new(0, 7).scale_to(target, ScalingMode::Exact), Ok(Scaling::Done(target)));
    assert_eq!(
        Size::new(0, 7).scale_to(target, ScalingMode::Fit),
        Err(ArithmeticError::DivideByZero { dividend: 3 })
    );
}

#[test]
fn uniform_factor_accessors() {
    let half = Ratio { numerator: 1, denominator: 2 };
    let factor = ScalingFactor::Uniform(half);
    assert!(factor.is_uniform());
    assert_eq!(factor.as_uniform(), Some(half));
    assert_eq!(factor.as_non_uniform(), Some(half));
    assert_eq!(factor.x(), half);
    assert_eq!(factor.y(), half);
}

#[test]
fn non_uniform_factor_accessors() {
    let x = Ratio { numerator: 1, denominator: 2 };
    let y = Ratio { numerator: 3, denominator: 1 };
    let factor = ScalingFactor::NonUniform(NonUniformScalingFactor { x, y });
    assert!(!factor.is_uniform());
    assert_eq!(factor.as_uniform(), None);
    assert_eq!(factor.as_non_uniform(), None);
    assert_eq!(factor.x(), x);
    assert_eq!(factor.y(), y);
}

#[test]
fn default_non_uniform_factor_is_identity() {
    let factor = NonUniformScalingFactor::default();
    assert_eq!((factor.x.numerator, factor.x.denominator), (1, 1));
    assert_eq!((factor.y.numerator, factor.y.denominator), (1, 1));
}
