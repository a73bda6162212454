use vstd::prelude::*;

verus! {

/// A type with a binary operation that combines two of its values into one.
///
/// * `combine_owned(x, y)` takes both values by move.
/// * `combine(x, y)` borrows both and leaves them usable.
///
/// Both give the same result: a value `r` with `combines_to(x, y, r)`.
pub trait Semigroup<A>: Sized {
    /// Whether `x` and `y` can be combined: false only where the result would not
    /// fit the type. By default every pair can.
    open spec fn combinable(x: Self, y: Self) -> bool {
        true
    }

    /// Whether `r` is the combination of `x` with `y`. By default nothing is
    /// claimed of the result.
    open spec fn combines_to(x: Self, y: Self, r: Self) -> bool {
        true
    }

    fn combine_owned(x: Self, y: Self) -> (r: Self)
        requires
            Self::combinable(x, y),
        ensures
            Self::combines_to(x, y, r),
    ;

    fn combine(x: &Self, y: &Self) -> (r: Self)
        requires
            Self::combinable(*x, *y),
        ensures
            Self::combines_to(*x, *y, r),
    ;
}

/// A type with an associative binary operation and an identity element for it.
///
/// * `combine_owned(x, y)` combines two values into a new one.
/// * `id()` gives the identity element: combining any value with it, on either
///   side, gives that value back.
///
/// The laws themselves are not enforced by the trait; `laws::is_monoid_law_complete`
/// checks them on sample values.
pub trait Monoid<A>: Sized {
    /// Whether `x` and `y` can be combined: false only where the result would not
    /// fit the type. By default every pair can.
    open spec fn combinable(x: Self, y: Self) -> bool {
        true
    }

    /// Whether `r` is the combination of `x` with `y`. By default nothing is
    /// claimed of the result.
    open spec fn combines_to(x: Self, y: Self, r: Self) -> bool {
        true
    }

    /// Whether `e` is the identity element of the type. By default nothing is
    /// claimed of it.
    open spec fn is_identity(e: Self) -> bool {
        true
    }

    fn combine_owned(x: Self, y: Self) -> (r: Self)
        requires
            Self::combinable(x, y),
        ensures
            Self::combines_to(x, y, r),
    ;

    fn id() -> (e: Self)
        ensures
            Self::is_identity(e),
    ;
}

/// A type constructor: `Typet` is the type it carries.
pub trait Gen {
    type Typet;
}

/// A type constructor applied to the type `T`.
pub trait NewGen<T>: Gen {
    type Type;
}

/// A type constructor whose contents can be mapped by a function.
pub trait Functor: Gen {
    fn fmap<R, F: Fn(<Self as NewGen<R>>::Type) -> R>(&self, f: F) -> <Self as NewGen<R>>::Type where
        Self: NewGen<R>,
    ;
}

} // verus!
