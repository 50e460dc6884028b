//! The scaling modes.

use vstd::prelude::*;

verus! {

/// How a size is brought to its bounds.
#[derive(Debug, Clone, Copy, PartialEq, Eq, PartialOrd, Ord, Hash, Structural)]
pub enum ScalingMode {
    /// Take the bounds as the new size; where both dimensions are bounded the
    /// aspect ratio is given up.
    Exact,
    /// Keep the aspect ratio and scale up or down until the size just fits
    /// inside the bounds.
    Fit,
    /// Keep the aspect ratio and scale up or down until the size just covers
    /// the bounds.
    Cover,
    /// Keep the aspect ratio and scale down until the size fits inside the
    /// bounds; a size that already fits is left alone.
    Contain,
}

impl Default for ScalingMode {
    fn default() -> (mode: Self)
        ensures
            mode == ScalingMode::Contain,
    {
        ScalingMode::Contain
    }
}

impl ScalingMode {
    /// The modes in the order of their declaration.
    pub open spec fn all() -> Seq<ScalingMode> {
        seq![ScalingMode::Exact, ScalingMode::Fit, ScalingMode::Cover, ScalingMode::Contain]
    }

    /// Every mode, once, in the order of declaration; each call gives the same
    /// sequence.
    #[must_use]
    pub fn iter() -> (modes: Vec<ScalingMode>)
        ensures
            modes@ == Self::all(),
    {
        let modes = vec![ScalingMode::Exact, ScalingMode::Fit, ScalingMode::Cover, ScalingMode::Contain];
        assert(modes@ =~= Self::all());
        modes
    }
}

} // verus!
