use categorial::instances::monoid::MonoidInstance;
use categorial::instances::semigroup::SemigroupInstance;
use categorial::{Monoid, Semigroup};
use std::ops::Add;

/// A text semigroup and monoid written by a user of the library.
#[derive(Debug, PartialEq)]
struct Example {
    value: String,
}

impl Semigroup<String> for Example {
    fn combine_owned(x: Self, y: Self) -> Self {
        Example { value: x.value.clone().add(&y.value) }
    }

    fn combine(x: &Self, y: &Self) -> Self {
        Example { value: x.value.clone().add(&y.value) }
    }
}

impl Monoid<String> for Example {
    fn combine_owned(x: Self, y: Self) -> Self {
        Example { value: x.value.clone().add(&y.value) }
    }

    fn id() -> Self {
        Example { value: "".to_owned() }
    }
}

#[test]
fn main_semigroup_example_test() {
    let e1 = Example { value: "hello ".to_owned() };
    let e2 = Example { value: "world".to_owned() };
    assert_eq!(<Example as Semigroup<String>>::combine_owned(e1, e2), Example { value: "hello world".to_owned() });
}

#[test]
fn semigroup_outer_semigroup_example_test() {
    let e1 = Example { value: "hello ".to_owned() };
    let e2 = Example { value: "world".to_owned() };
    assert_eq!(Semigroup::combine(&e1, &e2), Example { value: "hello world".to_owned() });
    assert_eq!(<Example as Semigroup<String>>::combine_owned(e1, e2), Example { value: "hello world".to_owned() });
}

#[test]
fn semigroup_instance_example_test() {
    let e1 = SemigroupInstance::new(5);
    let e2 = SemigroupInstance::new(20);
    assert_eq!(Semigroup::combine(&e1, &e2), SemigroupInstance::new(25));
    assert_eq!(Semigroup::combine_owned(e1, e2), SemigroupInstance::new(25));
}

#[test]
fn monoid_combine_example_test() {
    let e1 = Example { value: "hello ".to_owned() };
    let e2 = Example { value: "world".to_owned() };
    assert_eq!(<Example as Monoid<String>>::combine_owned(e1, e2), Example { value: "hello world".to_owned() });
}

#[test]
fn monoid_identity_example_test() {
    let e1 = Example { value: "hello".to_owned() };
    assert_eq!(<Example as Monoid<String>>::combine_owned(e1, Example::id()), Example { value: "hello".to_owned() });
}

#[test]
fn monoid_instance_combine_example_test() {
    let e1 = MonoidInstance::new(11);
    let e2 = MonoidInstance::new(12);
    assert_eq!(Monoid::combine_owned(e1, e2), MonoidInstance::new(23));
}

#[test]
fn monoid_instance_id_example_test() {
    let e1 = MonoidInstance::new(11);
    assert_eq!(Monoid::combine_owned(e1, MonoidInstance::id()), MonoidInstance::new(11));
}
