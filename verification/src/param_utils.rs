//! Parameter normalization for resolutions.
//!
//! A caller may hand a producer its parameter as nothing (`()`), as a
//! one-element tuple, or as a plain value of a marked type; every form is
//! normalized to the producer's parameter type through one trait.

use vstd::prelude::*;

verus! {

/// A type whose values can be handed to a resolution directly, without a
/// tuple around them.  Marking a type this way keeps the direct form from
/// overlapping with the tuple and unit forms.
pub trait DirectParam {

}

impl DirectParam for u8 {

}

impl DirectParam for u16 {

}

impl DirectParam for u32 {

}

impl DirectParam for u64 {

}

impl DirectParam for u128 {

}

impl DirectParam for usize {

}

impl DirectParam for i8 {

}

impl DirectParam for i16 {

}

impl DirectParam for i32 {

}

impl DirectParam for i64 {

}

impl DirectParam for i128 {

}

impl DirectParam for isize {

}

impl DirectParam for bool {

}

impl DirectParam for char {

}

impl DirectParam for String {

}

impl<'a> DirectParam for &'a str {

}

/// Normalizes the different parameter forms a caller may use to the
/// producer's parameter type.
pub trait IntoProviderParam {
    /// The parameter type after normalization.
    type Param;

    /// What the normalized parameter is.
    spec fn spec_param(self) -> Self::Param;

    /// Converts the input into the parameter the producer expects.
    fn into_param(self) -> (r: Self::Param)
        ensures
            r == self.spec_param(),
    ;
}

impl IntoProviderParam for () {
    type Param = ();

    open spec fn spec_param(self) -> () {
        ()
    }

    fn into_param(self) -> (r: ()) {
    }
}

impl<T> IntoProviderParam for (T,) {
    type Param = T;

    open spec fn spec_param(self) -> T {
        self.0
    }

    fn into_param(self) -> (r: T) {
        self.0
    }
}

impl<T: DirectParam> IntoProviderParam for T {
    type Param = T;

    open spec fn spec_param(self) -> T {
        self
    }

    fn into_param(self) -> (r: T) {
        self
    }
}

} // verus!
