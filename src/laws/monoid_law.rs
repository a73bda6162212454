use vstd::prelude::*;
use vstd::laws_eq::obeys_concrete_eq;
use vstd::pervasive::strictly_cloned;
use crate::Monoid;

verus! {

/// `clone` on `A` gives back a value equal to the original.
pub open spec fn clone_is_exact<A: Clone>() -> bool {
    forall|a: A, b: A| #[trigger] strictly_cloned(a, b) ==> a == b
}

/// Combining is a function of its operands, and there is one identity element.
pub open spec fn is_deterministic<T, A: Monoid<T>>() -> bool {
    &&& forall|x: A, y: A, r1: A, r2: A|
        #![trigger A::combines_to(x, y, r1), A::combines_to(x, y, r2)]
        A::combines_to(x, y, r1) && A::combines_to(x, y, r2) ==> r1 == r2
    &&& forall|e1: A, e2: A|
        #![trigger A::is_identity(e1), A::is_identity(e2)]
        A::is_identity(e1) && A::is_identity(e2) ==> e1 == e2
}

/// Every combination that the law check makes on `m1`, `m2`, `m3` fits the type.
pub open spec fn sample_combinable<T, A: Monoid<T>>(m1: A, m2: A, m3: A) -> bool {
    &&& forall|e: A| #[trigger] A::is_identity(e) ==> A::combinable(m1, e) && A::combinable(e, m1)
    &&& A::combinable(m1, m2)
    &&& A::combinable(m2, m3)
    &&& forall|a: A| #[trigger] A::combines_to(m1, m2, a) ==> A::combinable(a, m3)
    &&& forall|b: A| #[trigger] A::combines_to(m2, m3, b) ==> A::combinable(m1, b)
}

/// Combining `m` with the identity, on either side, gives `m` back.
pub open spec fn identity_law<T, A: Monoid<T>>(m: A) -> bool {
    &&& forall|e: A, r: A|
        #![trigger A::is_identity(e), A::combines_to(m, e, r)]
        A::is_identity(e) && A::combines_to(m, e, r) ==> r == m
    &&& forall|e: A, r: A|
        #![trigger A::is_identity(e), A::combines_to(e, m, r)]
        A::is_identity(e) && A::combines_to(e, m, r) ==> r == m
}

/// Combining `m1`, `m2`, `m3` gives the same value however the three are grouped.
pub open spec fn associativity_law<T, A: Monoid<T>>(m1: A, m2: A, m3: A) -> bool {
    forall|a: A, l: A, b: A, r: A|
        #![trigger A::combines_to(a, m3, l), A::combines_to(m1, b, r)]
        A::combines_to(m1, m2, a) && A::combines_to(a, m3, l) && A::combines_to(m2, m3, b)
            && A::combines_to(m1, b, r) ==> l == r
}

/// A copy of `x`, made with `clone`.
fn copy_of<A: Clone>(x: &A) -> (r: A)
    requires
        clone_is_exact::<A>(),
    ensures
        r == *x,
{
    let r = x.clone();
    assert(strictly_cloned(*x, r));
    r
}

/// Takes three values of a monoid and tells whether the identity law holds of `m1`
/// and the associativity law of `m1`, `m2`, `m3`.
///
/// The type needs `PartialEq` and `Clone`, since each value is read several times;
/// its `==` must be equality of values and its `clone` an exact copy.
/// This is a check on one sample, not a proof: run it over varied samples.
pub fn is_monoid_law_complete<A: Monoid<T> + PartialEq + Clone, T>(m1: A, m2: A, m3: A) -> (r: bool)
    requires
        obeys_concrete_eq::<A>(),
        clone_is_exact::<A>(),
        is_deterministic::<T, A>(),
        sample_combinable::<T, A>(m1, m2, m3),
    ensures
        r == (identity_law::<T, A>(m1) && associativity_law::<T, A>(m1, m2, m3)),
{
    proof {
        reveal(obeys_concrete_eq);
    }
    let c1 = copy_of(&m1);
    let e1 = A::id();
    let right_id = A::combine_owned(c1, e1);
    let e2 = A::id();
    let c2 = copy_of(&m1);
    let left_id = A::combine_owned(e2, c2);
    let id_complete = if right_id == left_id {
        let c3 = copy_of(&m1);
        let e3 = A::id();
        let right_again = A::combine_owned(c3, e3);
        let c4 = copy_of(&m1);
        right_again == c4
    } else {
        false
    };
    let c5 = copy_of(&m1);
    let c6 = copy_of(&m2);
    let first_two = A::combine_owned(c5, c6);
    let c7 = copy_of(&m3);
    let grouped_left = A::combine_owned(first_two, c7);
    let c8 = copy_of(&m2);
    let c9 = copy_of(&m3);
    let last_two = A::combine_owned(c8, c9);
    let c10 = copy_of(&m1);
    let grouped_right = A::combine_owned(c10, last_two);
    let assoc_complete = grouped_left == grouped_right;
    id_complete && assoc_complete
}

} // verus!
