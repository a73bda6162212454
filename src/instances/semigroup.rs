use vstd::prelude::*;
use std::ops::Add;
use vstd::std_specs::ops::AddSpec;
use crate::type_classes::Semigroup;

verus! {

/// A semigroup over any type with addition: values combine by `+`.
#[verifier::reject_recursive_types(A)]
#[derive(Debug, PartialOrd, PartialEq)]
pub struct SemigroupInstance<A> where A: Add<Output = A> {
    value: A,
}

impl<A> View for SemigroupInstance<A> where A: Add<Output = A> {
    type V = A;

    closed spec fn view(&self) -> A {
        self.value
    }
}

impl<A> SemigroupInstance<A> where A: Add<Output = A> {
    /// The wrapped value, by reference.
    pub fn value(&self) -> (r: &A)
        ensures
            *r == self@,
    {
        &self.value
    }

    pub fn new(value: A) -> (r: Self)
        ensures
            r@ == value,
    {
        SemigroupInstance { value }
    }
}

/// Combining adds the two values with the type's own `+`.
impl<A> Semigroup<A> for SemigroupInstance<A> where A: Add<Output = A> + Copy {
    open spec fn combinable(x: Self, y: Self) -> bool {
        A::obeys_add_spec() && x@.add_req(y@)
    }

    open spec fn combines_to(x: Self, y: Self, r: Self) -> bool {
        r@ == x@.add_spec(y@)
    }

    fn combine_owned(x: Self, y: Self) -> (r: Self) {
        SemigroupInstance { value: x.value.add(y.value) }
    }

    fn combine(x: &Self, y: &Self) -> (r: Self) {
        SemigroupInstance { value: x.value.add(y.value) }
    }
}

} // verus!
