//! Bounds on a size.

use vstd::prelude::*;
use crate::mode::ScalingMode;
use crate::optional::IntoOption;
use crate::size::Size;

verus! {

/// What a caller asks of the scaled size: a width, a height and a mode, each
/// of which may be left open.
#[derive(Debug, Clone, Copy, PartialEq, Eq, PartialOrd, Ord, Hash, Structural)]
pub struct Bounds {
    /// width of the image
    pub width: Option<u32>,
    /// height of the image
    pub height: Option<u32>,
    /// mode of scaling
    pub mode: Option<ScalingMode>,
}

impl Default for Bounds {
    fn default() -> (bounds: Self)
        ensures
            bounds == Bounds::open(),
    {
        Bounds { width: None, height: None, mode: None }
    }
}

impl Bounds {
    /// The bounds that leave everything open.
    pub open spec fn open() -> Bounds {
        Bounds { width: None, height: None, mode: None }
    }

    /// Whether neither dimension is bounded.
    pub open spec fn is_unbounded(self) -> bool {
        self.width is None && self.height is None
    }

    /// The mode that applies: the one given, else `Contain`.
    pub open spec fn effective_mode(self) -> ScalingMode {
        match self.mode {
            Some(mode) => mode,
            None => ScalingMode::Contain,
        }
    }

    /// The size that the bounds ask for when applied to `source`: a dimension
    /// left open is taken from `source`.
    pub open spec fn target(self, source: Size) -> Size {
        Size {
            width: match self.width {
                Some(width) => width,
                None => source.width,
            },
            height: match self.height {
                Some(height) => height,
                None => source.height,
            },
        }
    }
    /// Bounds that leave everything open.
    #[must_use]
    pub fn new() -> (bounds: Self)
        ensures
            bounds == Bounds::open(),
    {
        Bounds { width: None, height: None, mode: None }
    }

    /// Open bounds under `Fit`.
    #[must_use]
    pub fn fit() -> (bounds: Self)
        ensures
            bounds == (Bounds { mode: Some(ScalingMode::Fit), ..Bounds::open() }),
    {
        Bounds::new().mode(ScalingMode::Fit)
    }

    /// Open bounds under `Cover`.
    #[must_use]
    pub fn cover() -> (bounds: Self)
        ensures
            bounds == (Bounds { mode: Some(ScalingMode::Cover), ..Bounds::open() }),
    {
        Bounds::new().mode(ScalingMode::Cover)
    }

    /// Open bounds under `Contain`.
    #[must_use]
    pub fn contain() -> (bounds: Self)
        ensures
            bounds == (Bounds { mode: Some(ScalingMode::Contain), ..Bounds::open() }),
    {
        Bounds::new().mode(ScalingMode::Contain)
    }

    /// Open bounds under `Exact`.
    #[must_use]
    pub fn exact() -> (bounds: Self)
        ensures
            bounds == (Bounds { mode: Some(ScalingMode::Exact), ..Bounds::open() }),
    {
        Bounds::new().mode(ScalingMode::Exact)
    }

    /// The same bounds with the mode set, or left open again.
    #[must_use]
    pub fn mode<M: IntoOption<ScalingMode>>(self, mode: M) -> (bounds: Self)
        ensures
            bounds == (Bounds { mode: mode.option(), ..self }),
    {
        Bounds { width: self.width, height: self.height, mode: mode.into_option() }
    }

    /// The same bounds with the width set, or left open again.
    #[must_use]
    pub fn w<W: IntoOption<u32>>(self, width: W) -> (bounds: Self)
        ensures
            bounds == (Bounds { width: width.option(), ..self }),
    {
        Bounds { width: width.into_option(), height: self.height, mode: self.mode }
    }

    /// The same bounds with the height set, or left open again.
    #[must_use]
    pub fn h<H: IntoOption<u32>>(self, height: H) -> (bounds: Self)
        ensures
            bounds == (Bounds { height: height.option(), ..self }),
    {
        Bounds { width: self.width, height: height.into_option(), mode: self.mode }
    }

    /// The same bounds with the width set, or left open again.
    #[must_use]
    pub fn max_width<W: IntoOption<u32>>(self, width: W) -> (bounds: Self)
        ensures
            bounds == (Bounds { width: width.option(), ..self }),
    {
        self.w(width)
    }

    /// The same bounds with the height set, or left open again.
    #[must_use]
    pub fn max_height<H: IntoOption<u32>>(self, height: H) -> (bounds: Self)
        ensures
            bounds == (Bounds { height: height.option(), ..self }),
    {
        self.h(height)
    }

    /// The same bounds with width and height both set to `dim`, or both left
    /// open again.
    #[must_use]
    pub fn max_dim<D: IntoOption<u32>>(self, dim: D) -> (bounds: Self)
        ensures
            bounds == (Bounds { width: dim.option(), height: dim.option(), ..self }),
    {
        self.max_dimension(dim)
    }

    /// The same bounds with width and height both set to `dim`, or both left
    /// open again.
    #[must_use]
    pub fn max_dimension<D: IntoOption<u32>>(self, dim: D) -> (bounds: Self)
        ensures
            bounds == (Bounds { width: dim.option(), height: dim.option(), ..self }),
    {
        let dim = dim.into_option();
        self.w(dim).h(dim)
    }
}

} // verus!
