//! Component types and the scaling between them.
use vstd::prelude::*;
use vstd::std_specs::cmp::PartialOrdSpec;
use core::cmp::Ordering;

verus! {

/// What `clamp(v, min, max)` returns, stated over the ordering of the type.
pub open spec fn clamped<T: PartialOrd + PartialOrdSpec>(v: T, min: T, max: T) -> T {
    if v.partial_cmp_spec(&min) == Some(Ordering::Less) {
        min
    } else if v.partial_cmp_spec(&max) == Some(Ordering::Greater) {
        max
    } else {
        v
    }
}

/// Limits `v` to `min` from below and to `max` from above.
///
/// A value below `min` gives `min`, one above `max` gives `max`, and any other
/// value (one within the bounds, or one that does not compare) is returned
/// as it is.
pub fn clamp<T: PartialOrd + PartialOrdSpec>(v: T, min: T, max: T) -> (r: T)
    ensures
        T::obeys_partial_cmp_spec() ==> r == clamped(v, min, max),
{
    if v < min {
        min
    } else if v > max {
        max
    } else {
        v
    }
}

/// What a value of intensity `v` becomes in a type whose maximum is `to_max`,
/// coming from a type whose maximum is `from_max`: `v * to_max / from_max`,
/// rounded down, and clamped to `[0, to_max]` where the destination is
/// limited.
pub open spec fn rescaled(v: int, from_max: int, to_max: int, limited: bool) -> int {
    let s = v * to_max / from_max;
    if limited {
        if s < 0 {
            0
        } else if s > to_max {
            to_max
        } else {
            s
        }
    } else {
        s
    }
}

/// A numeric type whose values stand for intensities in `[0, max]`: what a
/// color component is, apart from conversion.
pub trait Intensity: Copy + PartialOrd + PartialOrdSpec + Sized {
    /// True if the max intensity is also the highest possible value of the
    /// type. Conversion to limited types requires clamping.
    const LIMITED: bool;

    /// The intensity that a value stands for.
    spec fn intensity(&self) -> int;

    /// The highest displayable intensity of the type.
    spec fn max_intensity_spec() -> int;

    /// Whether the type is limited, as `LIMITED` says.
    spec fn limited_spec() -> bool;

    /// Every value lies in `[0, max]`, and the maximum is positive and fits in
    /// 64 bits.
    proof fn lemma_range(v: Self)
        ensures
            0 <= v.intensity() <= Self::max_intensity_spec(),
            0 < Self::max_intensity_spec() <= u64::MAX,
    ;

    /// Values are ordered, and told apart, by their intensities.
    proof fn lemma_order(a: Self, b: Self)
        ensures
            Self::obeys_partial_cmp_spec(),
            a.partial_cmp_spec(&b) == intensity_order(a.intensity(), b.intensity()),
            a.intensity() == b.intensity() ==> a == b,
    ;

    /// The constant `LIMITED` is what `limited_spec` says.
    fn is_limited() -> (r: bool)
        ensures
            r == Self::limited_spec(),
    ;

    /// The highest displayable value this component type can reach.
    fn max_intensity() -> (r: Self)
        ensures
            r.intensity() == Self::max_intensity_spec(),
    ;

    /// The intensity, widened to 128 bits.
    fn to_wide(&self) -> (r: u128)
        ensures
            r == self.intensity(),
    ;

    /// The value of intensity `v`.
    fn from_wide(v: u128) -> (r: Self)
        requires
            v <= Self::max_intensity_spec(),
        ensures
            r.intensity() == v,
    ;
}

/// How two intensities compare.
pub open spec fn intensity_order(a: int, b: int) -> Option<Ordering> {
    if a < b {
        Some(Ordering::Less)
    } else if a > b {
        Some(Ordering::Greater)
    } else {
        Some(Ordering::Equal)
    }
}

/// Clamping a component is idempotent, and with `min <= max` its result is
/// within `[min, max]`: clamping to a component's valid range always gives a
/// valid value, and clamping that again changes nothing.
pub proof fn lemma_clamp_idempotent<T: Intensity>(v: T, min: T, max: T)
    requires
        min.intensity() <= max.intensity(),
    ensures
        clamped(clamped(v, min, max), min, max) == clamped(v, min, max),
        min.intensity() <= clamped(v, min, max).intensity() <= max.intensity(),
{
    let c = clamped(v, min, max);
    T::lemma_order(v, min);
    T::lemma_order(v, max);
    T::lemma_order(c, min);
    T::lemma_order(c, max);
}

/// Common trait for color components.
pub trait Component: Intensity {
    /// Convert into another color component type, including scaling.
    ///
    /// The intensity is multiplied by the ratio of the destination's maximum
    /// to the source's maximum (rounded down), and clamped to the
    /// destination's range where that is limited.
    fn convert<T: Intensity>(&self) -> (r: T)
        ensures
            r.intensity() == rescaled(
                self.intensity(),
                Self::max_intensity_spec(),
                T::max_intensity_spec(),
                T::limited_spec(),
            ),
    ;
}

/// Scales `v` from the range of `S` to the range of `T`; the work of
/// `Component::convert` for every component type.
pub fn rescale<S: Intensity, T: Intensity>(v: &S) -> (r: T)
    ensures
        r.intensity() == rescaled(
            v.intensity(),
            S::max_intensity_spec(),
            T::max_intensity_spec(),
            T::limited_spec(),
        ),
{
    let to_top = T::max_intensity();
    proof {
        S::lemma_range(*v);
        T::lemma_range(to_top);
    }
    let x = v.to_wide();
    let from_max = S::max_intensity().to_wide();
    let to_max = to_top.to_wide();
    proof {
        lemma_scaled_fits(x as int, from_max as int, to_max as int);
    }
    let scaled: u128 = x * to_max / from_max;
    if T::is_limited() {
        T::from_wide(clamp(scaled, 0, to_max))
    } else {
        T::from_wide(scaled)
    }
}

/// A value within `[0, from_max]` scales to one within `[0, to_max]`, and the
/// product on the way fits in 128 bits.
proof fn lemma_scaled_fits(v: int, from_max: int, to_max: int)
    requires
        0 <= v <= from_max,
        0 < from_max <= u64::MAX,
        0 < to_max <= u64::MAX,
    ensures
        0 <= v * to_max <= u128::MAX,
        0 <= v * to_max / from_max <= to_max,
{
    assert(0 <= v * to_max <= u64::MAX * u64::MAX) by (nonlinear_arith)
        requires
            0 <= v <= u64::MAX,
            0 < to_max <= u64::MAX,
    ;
    assert(v * to_max <= from_max * to_max) by (nonlinear_arith)
        requires
            0 <= v <= from_max,
            0 < to_max,
    ;
    vstd::arithmetic::div_mod::lemma_div_is_ordered(v * to_max, from_max * to_max, from_max);
    vstd::arithmetic::div_mod::lemma_div_multiples_vanish(to_max, from_max);
    vstd::arithmetic::div_mod::lemma_div_pos_is_pos(v * to_max, from_max);
}

impl Intensity for u8 {
    const LIMITED: bool = true;

    open spec fn intensity(&self) -> int {
        *self as int
    }

    open spec fn max_intensity_spec() -> int {
        u8::MAX as int
    }

    open spec fn limited_spec() -> bool {
        true
    }

    proof fn lemma_range(v: Self) {
    }

    proof fn lemma_order(a: Self, b: Self) {
    }

    fn is_limited() -> (r: bool) {
        Self::LIMITED
    }

    fn max_intensity() -> (r: Self) {
        u8::MAX
    }

    fn to_wide(&self) -> (r: u128) {
        *self as u128
    }

    fn from_wide(v: u128) -> (r: Self) {
        v as u8
    }
}

impl Component for u8 {
    fn convert<T: Intensity>(&self) -> (r: T) {
        rescale(self)
    }
}

impl Intensity for u16 {
    const LIMITED: bool = true;

    open spec fn intensity(&self) -> int {
        *self as int
    }

    open spec fn max_intensity_spec() -> int {
        u16::MAX as int
    }

    open spec fn limited_spec() -> bool {
        true
    }

    proof fn lemma_range(v: Self) {
    }

    proof fn lemma_order(a: Self, b: Self) {
    }

    fn is_limited() -> (r: bool) {
        Self::LIMITED
    }

    fn max_intensity() -> (r: Self) {
        u16::MAX
    }

    fn to_wide(&self) -> (r: u128) {
        *self as u128
    }

    fn from_wide(v: u128) -> (r: Self) {
        v as u16
    }
}

impl Component for u16 {
    fn convert<T: Intensity>(&self) -> (r: T) {
        rescale(self)
    }
}

impl Intensity for u32 {
    const LIMITED: bool = true;

    open spec fn intensity(&self) -> int {
        *self as int
    }

    open spec fn max_intensity_spec() -> int {
        u32::MAX as int
    }

    open spec fn limited_spec() -> bool {
        true
    }

    proof fn lemma_range(v: Self) {
    }

    proof fn lemma_order(a: Self, b: Self) {
    }

    fn is_limited() -> (r: bool) {
        Self::LIMITED
    }

    fn max_intensity() -> (r: Self) {
        u32::MAX
    }

    fn to_wide(&self) -> (r: u128) {
        *self as u128
    }

    fn from_wide(v: u128) -> (r: Self) {
        v as u32
    }
}

impl Component for u32 {
    fn convert<T: Intensity>(&self) -> (r: T) {
        rescale(self)
    }
}

impl Intensity for u64 {
    const LIMITED: bool = true;

    open spec fn intensity(&self) -> int {
        *self as int
    }

    open spec fn max_intensity_spec() -> int {
        u64::MAX as int
    }

    open spec fn limited_spec() -> bool {
        true
    }

    proof fn lemma_range(v: Self) {
    }

    proof fn lemma_order(a: Self, b: Self) {
    }

    fn is_limited() -> (r: bool) {
        Self::LIMITED
    }

    fn max_intensity() -> (r: Self) {
        u64::MAX
    }

    fn to_wide(&self) -> (r: u128) {
        *self as u128
    }

    fn from_wide(v: u128) -> (r: Self) {
        v as u64
    }
}

impl Component for u64 {
    fn convert<T: Intensity>(&self) -> (r: T) {
        rescale(self)
    }
}

} // verus!
