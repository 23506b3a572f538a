use vstd::prelude::*;

verus! {

/// The complex arithmetic that the escape-time iteration runs on.
///
/// The engine stores values of the number type, hands them back to these
/// operations and acts on the verdicts they return; it never reads a value
/// itself. Each operation is a function of its arguments: its result is the
/// spec function of the same name, which the contracts of the engine speak
/// of. Nothing else is assumed of the operations: the engine reasons about
/// any number type, for which those spec functions stay abstract. The
/// default bodies only spare implementations outside Verus (such as one on
/// `f64`) from spelling them out.
pub trait ComplexArith: Sized + Copy {
    /// `0 + 0i`, where every orbit starts.
    const ZERO: Self;

    /// `1 + 0i`, the seed of the derivative and its constant input.
    const ONE: Self;

    /// The sample point of pixel column `x` of `width` and row `y` of
    /// `height` (row 0 at the top) in the rectangle with lower-left corner
    /// `min` and upper-right corner `max`: with `nx = x / width` and
    /// `ny = 1 - y / height`, the point
    /// `nx * max.re + (1 - nx) * min.re + (ny * max.im + (1 - ny) * min.im) i`.
    open spec fn spec_frame_point(min: Self, max: Self, x: u32, width: u32, y: u32, height: u32) -> Self {
        arbitrary()
    }

    /// `a + b`
    open spec fn spec_add(a: Self, b: Self) -> Self {
        arbitrary()
    }

    /// `a * b`
    open spec fn spec_mul(a: Self, b: Self) -> Self {
        arbitrary()
    }

    /// `2 * a`
    open spec fn spec_double(a: Self) -> Self {
        arbitrary()
    }

    /// Whether `|a|^2 > bound`.
    open spec fn spec_norm_sqr_exceeds(a: Self, bound: u32) -> bool {
        arbitrary()
    }

    fn frame_point(min: Self, max: Self, x: u32, width: u32, y: u32, height: u32) -> (r: Self)
        ensures
            r == Self::spec_frame_point(min, max, x, width, y, height),
    ;

    fn add(a: Self, b: Self) -> (r: Self)
        ensures
            r == Self::spec_add(a, b),
    ;

    fn mul(a: Self, b: Self) -> (r: Self)
        ensures
            r == Self::spec_mul(a, b),
    ;

    fn double(a: Self) -> (r: Self)
        ensures
            r == Self::spec_double(a),
    ;

    fn norm_sqr_exceeds(a: Self, bound: u32) -> (r: bool)
        ensures
            r == Self::spec_norm_sqr_exceeds(a, bound),
    ;
}

} // verus!
