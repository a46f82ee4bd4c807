//! Color components and the generic color algebra, with machine-checked
//! contracts.
//!
//! Every component type knows its maximum displayable intensity and whether
//! its range is limited; conversion between component types rescales by the
//! ratio of the two maxima and clamps where the destination is limited.
pub mod algebra;
pub mod component;
pub mod encoding;

pub use algebra::{ComponentWise, GetHue, Hue, Limited, Mix, Saturate, Shade};
pub use component::{clamp, Component, Intensity};
pub use encoding::{Linear, LinearFn};
