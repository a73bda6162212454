use categorial::instances::monoid::{MonoidInstance, MonoidInumber, MonoidString, MonoidUnumber, MonoidVec};
use categorial::instances::semigroup::SemigroupInstance;
use categorial::laws::is_monoid_law_complete;
use categorial::{Monoid, Semigroup};
use std::ops::Add;

/// Combining repeats the left operand before appending the right one.
#[derive(Clone, PartialEq, Debug)]
struct DoublingMonoid {
    value: String,
}

impl Monoid<String> for DoublingMonoid {
    fn combine_owned(x: Self, y: Self) -> Self {
        DoublingMonoid { value: x.value.clone().add(&x.value).add(&y.value) }
    }

    fn id() -> Self {
        DoublingMonoid { value: String::new() }
    }
}

fn text(s: &str) -> MonoidString {
    MonoidString::new(s.to_owned())
}

#[test]
fn numeric_sum_scenario() {
    let r = Monoid::combine_owned(MonoidUnumber::new(12), MonoidUnumber::new(14));
    assert_eq!(r.value(), 26);
    let r = Monoid::combine_owned(MonoidUnumber::new(12), MonoidUnumber::id());
    assert_eq!(r.value(), 12);
    let r = Monoid::combine_owned(MonoidInstance::new(12u64), MonoidInstance::new(14u64));
    assert_eq!(*r.value(), 26u64);
}

#[test]
fn text_scenario() {
    let r = Monoid::combine_owned(text("Hello"), text("World"));
    assert_eq!(r.value(), "HelloWorld");
    let right = Monoid::combine_owned(text("Hello "), Monoid::combine_owned(text("beautiful "), text("world!")));
    let left = Monoid::combine_owned(Monoid::combine_owned(text("Hello "), text("beautiful ")), text("world!"));
    assert_eq!(right, left);
    assert_eq!(right.value(), "Hello beautiful world!");
}

#[test]
fn sequence_scenario() {
    let r = Monoid::combine_owned(MonoidVec::new(vec![1, 2, 3, 4]), MonoidVec::new(vec![5, 6, 7, 8]));
    assert_eq!(r.value(), &vec![1, 2, 3, 4, 5, 6, 7, 8]);
    let r = Monoid::combine_owned(MonoidVec::id(), MonoidVec::new(vec![1, 2, 3]));
    assert_eq!(r.value(), &vec![1, 2, 3]);
}

#[test]
fn signed_wrapper_scenario() {
    let r = Monoid::combine_owned(MonoidInumber::new(-12), MonoidInumber::new(23));
    assert_eq!(r.value(), 11);
    let r = Monoid::combine_owned(MonoidInumber::new(-12), MonoidInumber::id());
    assert_eq!(r.value(), -12);
    let r = Monoid::combine_owned(MonoidInstance::new(-12i32), MonoidInstance::new(23i32));
    assert_eq!(*r.value(), 11);
    let r = Monoid::combine_owned(MonoidInstance::new(-12i64), MonoidInstance::id());
    assert_eq!(*r.value(), -12);
}

#[test]
fn identity_on_both_sides() {
    let m = text("abc");
    assert_eq!(Monoid::combine_owned(m.clone(), MonoidString::id()), m);
    assert_eq!(Monoid::combine_owned(MonoidString::id(), m.clone()), m);
    let v = MonoidVec::new(vec!['x', 'y']);
    assert_eq!(Monoid::combine_owned(v.clone(), MonoidVec::id()), v);
    assert_eq!(Monoid::combine_owned(MonoidVec::id(), v.clone()), v);
    let n = MonoidInstance::new(7i16);
    assert_eq!(Monoid::combine_owned(MonoidInstance::id(), MonoidInstance::new(7i16)), n);
}

#[test]
fn associativity_on_numbers() {
    let (a, b, c) = (MonoidInumber::new(5), MonoidInumber::new(-9), MonoidInumber::new(40));
    let left = Monoid::combine_owned(Monoid::combine_owned(a, b), c);
    let right = Monoid::combine_owned(a, Monoid::combine_owned(b, c));
    assert_eq!(left, right);
    assert_eq!(left.value(), 36);
}

#[test]
fn law_check_passes_on_instances() {
    assert!(is_monoid_law_complete(MonoidUnumber::new(1), MonoidUnumber::new(2), MonoidUnumber::new(3)));
    assert!(is_monoid_law_complete(MonoidInumber::new(-4), MonoidInumber::new(0), MonoidInumber::new(9)));
    assert!(is_monoid_law_complete(text("a"), text(""), text("bc")));
    assert!(is_monoid_law_complete(
        MonoidVec::new(vec![1u8]),
        MonoidVec::new(vec![2u8, 3u8]),
        MonoidVec::new(vec![])
    ));
}

#[test]
fn law_check_fails_on_doubling_combine() {
    let m1 = DoublingMonoid { value: "a".to_owned() };
    let m2 = DoublingMonoid { value: "b".to_owned() };
    let m3 = DoublingMonoid { value: "c".to_owned() };
    assert!(!is_monoid_law_complete(m1, m2, m3));
}

#[test]
fn law_check_on_doubling_combine_with_identity_sample() {
    let e = DoublingMonoid { value: String::new() };
    assert!(is_monoid_law_complete(e.clone(), e.clone(), e));
}

#[test]
fn empty_operands() {
    let r = Monoid::combine_owned(text(""), text(""));
    assert_eq!(r.value(), "");
    let r: MonoidVec<u32> = Monoid::combine_owned(MonoidVec::id(), MonoidVec::id());
    assert!(r.value().is_empty());
}

#[test]
fn largest_values() {
    let r = Monoid::combine_owned(MonoidUnumber::new(usize::MAX), MonoidUnumber::id());
    assert_eq!(r.value(), usize::MAX);
    let r = Monoid::combine_owned(MonoidUnumber::new(usize::MAX - 1), MonoidUnumber::new(1));
    assert_eq!(r.value(), usize::MAX);
    let r = Monoid::combine_owned(MonoidInumber::new(isize::MIN), MonoidInumber::new(0));
    assert_eq!(r.value(), isize::MIN);
    let r = Monoid::combine_owned(MonoidInstance::new(u8::MAX - 5), MonoidInstance::new(5u8));
    assert_eq!(*r.value(), u8::MAX);
}

#[test]
fn default_is_zero() {
    let d: MonoidInstance<u32> = MonoidInstance::default();
    assert_eq!(*d.value(), 0);
    assert_eq!(MonoidUnumber::id().value(), 0);
    assert_eq!(MonoidInumber::id().value(), 0);
    assert_eq!(MonoidString::id().value(), "");
}

#[test]
fn semigroup_combine_borrows() {
    let a = SemigroupInstance::new(-3i64);
    let b = SemigroupInstance::new(10i64);
    let r = Semigroup::combine(&a, &b);
    assert_eq!(*r.value(), 7);
    assert_eq!(*a.value(), -3);
    assert_eq!(*b.value(), 10);
    let r = Semigroup::combine_owned(a, b);
    assert_eq!(*r.value(), 7);
}

#[test]
fn accessors_return_what_was_given() {
    assert_eq!(text("kept").value(), "kept");
    assert_eq!(MonoidVec::new(vec![3, 1, 2]).value(), &vec![3, 1, 2]);
    assert_eq!(MonoidUnumber::new(41).value(), 41);
    assert_eq!(MonoidInumber::new(-41).value(), -41);
    assert_eq!(*MonoidInstance::new(9u16).value(), 9u16);
    assert_eq!(*SemigroupInstance::new(9u16).value(), 9u16);
}
