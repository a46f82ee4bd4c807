//! The operations that colors share: validity, mixing, shading, hue,
//! saturation and per-component arithmetic.
use vstd::prelude::*;

verus! {

/// A trait for clamping and checking if colors are within their ranges.
pub trait Limited: Sized {
    /// Check if the color's components are within the expected ranges.
    fn is_valid(&self) -> bool;

    /// Return a new color where the components have been clamped to the nearest
    /// valid values.
    fn clamp(&self) -> Self;

    /// Clamp the color's components to the nearest valid values.
    fn clamp_self(&mut self);
}

/// A trait for linear color interpolation.
pub trait Mix: Sized {
    /// The type of the mixing factor.
    type Scalar;

    /// Mix the color with an other color, by `factor`.
    ///
    /// `factor` should be between `0.0` and `1.0`, where `0.0` will result in
    /// the same color as `self` and `1.0` will result in the same color as
    /// `other`.
    fn mix(&self, other: &Self, factor: Self::Scalar) -> Self;
}

/// The `Shade` trait allows a color to be lightened or darkened.
pub trait Shade: Sized {
    /// The type of the lighten/darken amount.
    type Scalar;

    /// Lighten the color by `amount`.
    fn lighten(&self, amount: Self::Scalar) -> Self;

    /// Darken the color by `amount`: the same as lightening it by the
    /// negated amount.
    fn darken(&self, amount: Self::Scalar) -> Self;
}

/// A trait for colors where a hue may be calculated.
pub trait GetHue {
    /// The kind of hue unit this color space uses.
    ///
    /// The hue is most commonly calculated as an angle around a color circle
    /// and may not always be uniform between color spaces. It's therefore not
    /// recommended to take one type of hue and apply it to a color space that
    /// expects an other.
    type Hue;

    /// Calculate a hue if possible.
    ///
    /// Colors in the gray scale has no well defined hue and should preferably
    /// return `None`.
    fn get_hue(&self) -> Option<Self::Hue>;
}

/// A trait for colors where the hue can be manipulated without conversion.
pub trait Hue: GetHue + Sized {
    /// Return a new copy of `self`, but with a specific hue.
    fn with_hue<H: Into<Self::Hue>>(&self, hue: H) -> Self;

    /// Return a new copy of `self`, but with the hue shifted by `amount`.
    fn shift_hue<H: Into<Self::Hue>>(&self, amount: H) -> Self;
}

/// A trait for colors where the saturation (or chroma) can be manipulated
/// without conversion.
pub trait Saturate: Sized {
    /// The type of the (de)saturation factor.
    type Scalar;

    /// Increase the saturation by `factor`.
    fn saturate(&self, factor: Self::Scalar) -> Self;

    /// Decrease the saturation by `factor`: the same as saturating by the
    /// negated factor.
    fn desaturate(&self, factor: Self::Scalar) -> Self;
}

/// Perform a unary or binary operation on each component of a color.
pub trait ComponentWise: Sized {
    /// The scalar type for color components.
    type Scalar;

    /// Perform a binary operation on this and an other color.
    fn component_wise<F: FnMut(Self::Scalar, Self::Scalar) -> Self::Scalar>(
        &self,
        other: &Self,
        f: F,
    ) -> Self;

    /// Perform a unary operation on this color.
    fn component_wise_self<F: FnMut(Self::Scalar) -> Self::Scalar>(&self, f: F) -> Self;
}

} // verus!
