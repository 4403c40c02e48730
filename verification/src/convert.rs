//! The unit-converter's core abstractions: a carrier of one typed
//! value, and a unit of some dimension that converts to and from the
//! dimension's default unit. The numeric instances live outside the
//! verified core.

use vstd::prelude::*;

verus! {

/// A carrier of one value of the underlying numeric type.
pub trait TypedValue<T>: Send + Sized + Sync {
    fn value(&self) -> T;
}

/// A unit of measure of some dimension: every unit converts to and
/// from the dimension's default unit. The default unit carries the
/// same numeric type; the verifier refuses the cycle of also bounding
/// it by this trait itself.
pub trait DimensionUnit<T>: TypedValue<T> {
    type DefaultUnit: TypedValue<T>;

    fn to_default(&self) -> Self::DefaultUnit;

    fn from_default(val: Self::DefaultUnit) -> Self;
}

} // verus!
