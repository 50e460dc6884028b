//! Decides how a rectangle of whole-numbered width and height is resized to
//! meet optional bounds on its width and height under a scaling mode.
//!
//! Every multiplier is kept as an exact ratio of two dimensions, so that each
//! decision of the engine is a statement about whole numbers. Where a size is
//! to be multiplied, the engine names the factor and the rounding and leaves
//! the products to its caller.

pub mod bounds;
pub mod error;
pub mod factor;
pub mod laws;
pub mod mode;
pub mod optional;
pub mod ratio;
pub mod scale;
pub mod size;

pub use bounds::Bounds;
pub use error::ArithmeticError;
pub use factor::{NonUniformScalingFactor, ScalingFactor};
pub use mode::ScalingMode;
pub use optional::IntoOption;
pub use ratio::Ratio;
pub use scale::{Rounding, Scaling};
pub use size::Size;
