use vstd::prelude::*;
use crate::instances::number::Number;
use crate::Monoid;

verus! {

/// A monoid over any primitive integer type: values combine by addition and the
/// identity is zero.
#[verifier::reject_recursive_types(A)]
#[derive(Debug, PartialOrd, PartialEq)]
pub struct MonoidInstance<A> where A: Number {
    value: A,
}

impl<A> View for MonoidInstance<A> where A: Number {
    type V = int;

    closed spec fn view(&self) -> int {
        self.value.as_int()
    }
}

impl<A> MonoidInstance<A> where A: Number {
    /// The wrapped value, as it was given.
    pub closed spec fn inner(&self) -> A {
        self.value
    }

    /// The wrapped value, by reference.
    pub fn value(&self) -> (r: &A)
        ensures
            *r == self.inner(),
            r.as_int() == self@,
    {
        &self.value
    }

    pub fn new(value: A) -> (r: Self)
        ensures
            r.inner() == value,
            r@ == value.as_int(),
    {
        MonoidInstance { value }
    }
}

impl<A> Default for MonoidInstance<A> where A: Number {
    /// The identity: zero.
    fn default() -> (r: Self)
        ensures
            r@ == 0,
    {
        MonoidInstance { value: A::zero() }
    }
}

/// Combining adds; the identity is zero.
impl<A> Monoid<A> for MonoidInstance<A> where A: Number {
    open spec fn combinable(x: Self, y: Self) -> bool {
        A::fits(x@ + y@)
    }

    open spec fn combines_to(x: Self, y: Self, r: Self) -> bool {
        r@ == x@ + y@
    }

    open spec fn is_identity(e: Self) -> bool {
        e@ == 0
    }

    fn combine_owned(x: Self, y: Self) -> (r: Self) {
        MonoidInstance { value: x.value.plus(y.value) }
    }

    fn id() -> (e: Self) {
        MonoidInstance::default()
    }
}

/// A monoid over text: values combine by concatenation and the identity is the
/// empty string.
#[derive(Debug, Default, Ord, PartialOrd, Eq, PartialEq, Hash, Clone)]
pub struct MonoidString {
    value: String,
}

impl View for MonoidString {
    type V = Seq<char>;

    closed spec fn view(&self) -> Seq<char> {
        self.value@
    }
}

impl MonoidString {
    /// The text, borrowed.
    pub fn value(&self) -> (r: &str)
        ensures
            r@ == self@,
    {
        self.value.as_str()
    }

    pub fn new(value: String) -> (r: Self)
        ensures
            r@ == value@,
    {
        MonoidString { value }
    }
}

/// Combining concatenates: the left operand's characters, then the right's.
impl Monoid<String> for MonoidString {
    open spec fn combinable(x: Self, y: Self) -> bool {
        true
    }

    open spec fn combines_to(x: Self, y: Self, r: Self) -> bool {
        r@ == x@ + y@
    }

    open spec fn is_identity(e: Self) -> bool {
        e@ == Seq::<char>::empty()
    }

    fn combine_owned(x: Self, y: Self) -> (r: Self) {
        let mut value = x.value;
        value.append(y.value.as_str());
        MonoidString { value }
    }

    fn id() -> (e: Self) {
        MonoidString { value: String::new() }
    }
}

/// A monoid over `usize`: values combine by addition and the identity is zero.
#[derive(Debug, Default, Ord, PartialOrd, Eq, PartialEq, Hash, Clone, Copy)]
pub struct MonoidUnumber {
    value: usize,
}

impl View for MonoidUnumber {
    type V = int;

    closed spec fn view(&self) -> int {
        self.value as int
    }
}

impl MonoidUnumber {
    pub fn new(value: usize) -> (r: Self)
        ensures
            r@ == value as int,
    {
        MonoidUnumber { value }
    }

    pub fn value(&self) -> (r: usize)
        ensures
            r as int == self@,
    {
        self.value
    }
}

/// Combining adds; the identity is zero.
impl Monoid<usize> for MonoidUnumber {
    open spec fn combinable(x: Self, y: Self) -> bool {
        x@ + y@ <= usize::MAX
    }

    open spec fn combines_to(x: Self, y: Self, r: Self) -> bool {
        r@ == x@ + y@
    }

    open spec fn is_identity(e: Self) -> bool {
        e@ == 0
    }

    fn combine_owned(x: Self, y: Self) -> (r: Self) {
        MonoidUnumber { value: x.value + y.value }
    }

    fn id() -> (e: Self) {
        MonoidUnumber { value: 0 }
    }
}

/// A monoid over `isize`: values combine by addition and the identity is zero.
#[derive(Debug, Default, Ord, PartialOrd, Eq, PartialEq, Hash, Clone, Copy)]
pub struct MonoidInumber {
    value: isize,
}

impl View for MonoidInumber {
    type V = int;

    closed spec fn view(&self) -> int {
        self.value as int
    }
}

impl MonoidInumber {
    pub fn new(value: isize) -> (r: Self)
        ensures
            r@ == value as int,
    {
        MonoidInumber { value }
    }

    pub fn value(&self) -> (r: isize)
        ensures
            r as int == self@,
    {
        self.value
    }
}

/// Combining adds; the identity is zero.
impl Monoid<isize> for MonoidInumber {
    open spec fn combinable(x: Self, y: Self) -> bool {
        isize::MIN <= x@ + y@ <= isize::MAX
    }

    open spec fn combines_to(x: Self, y: Self, r: Self) -> bool {
        r@ == x@ + y@
    }

    open spec fn is_identity(e: Self) -> bool {
        e@ == 0
    }

    fn combine_owned(x: Self, y: Self) -> (r: Self) {
        MonoidInumber { value: x.value + y.value }
    }

    fn id() -> (e: Self) {
        MonoidInumber { value: 0 }
    }
}

/// A monoid over vectors: values combine by appending, in order, and the identity
/// is the empty vector.
#[derive(Clone, Debug, PartialEq)]
pub struct MonoidVec<T> where T: Clone + std::fmt::Debug + PartialEq {
    value: Vec<T>,
}

impl<T> View for MonoidVec<T> where T: Clone + std::fmt::Debug + PartialEq {
    type V = Seq<T>;

    closed spec fn view(&self) -> Seq<T> {
        self.value@
    }
}

impl<T> MonoidVec<T> where T: Clone + std::fmt::Debug + PartialEq {
    pub fn new(value: Vec<T>) -> (r: Self)
        ensures
            r@ == value@,
    {
        MonoidVec { value }
    }

    /// The elements, borrowed.
    pub fn value(&self) -> (r: &Vec<T>)
        ensures
            r@ == self@,
    {
        &self.value
    }
}

/// Combining appends: the left operand's elements, then the right's.
impl<T> Monoid<Vec<T>> for MonoidVec<T> where T: Clone + std::fmt::Debug + PartialEq {
    open spec fn combinable(x: Self, y: Self) -> bool {
        true
    }

    open spec fn combines_to(x: Self, y: Self, r: Self) -> bool {
        r@ == x@ + y@
    }

    open spec fn is_identity(e: Self) -> bool {
        e@ == Seq::<T>::empty()
    }

    fn combine_owned(x: Self, y: Self) -> (r: Self) {
        let mut value = x.value;
        let mut rest = y.value;
        value.append(&mut rest);
        MonoidVec { value }
    }

    fn id() -> (e: Self) {
        let value: Vec<T> = Vec::new();
        MonoidVec { value }
    }
}

/// Combining a number with the identity, on either side, gives a number equal to it.
pub proof fn lemma_instance_identity<A: Number>(m: MonoidInstance<A>, e: MonoidInstance<A>, r: MonoidInstance<A>)
    requires
        <MonoidInstance<A> as Monoid<A>>::is_identity(e),
        <MonoidInstance<A> as Monoid<A>>::combines_to(m, e, r) || <MonoidInstance<A> as Monoid<A>>::combines_to(e, m, r),
    ensures
        r@ == m@,
{}

/// Combining three values gives equal results however they are grouped.
pub proof fn lemma_instance_associative<A: Number>(
    m1: MonoidInstance<A>,
    m2: MonoidInstance<A>,
    m3: MonoidInstance<A>,
    a: MonoidInstance<A>,
    l: MonoidInstance<A>,
    b: MonoidInstance<A>,
    r: MonoidInstance<A>,
)
    requires
        <MonoidInstance<A> as Monoid<A>>::combines_to(m1, m2, a),
        <MonoidInstance<A> as Monoid<A>>::combines_to(a, m3, l),
        <MonoidInstance<A> as Monoid<A>>::combines_to(m2, m3, b),
        <MonoidInstance<A> as Monoid<A>>::combines_to(m1, b, r),
    ensures
        l@ == r@,
{}

/// Combining a text with the identity, on either side, gives a text equal to it.
pub proof fn lemma_string_identity(m: MonoidString, e: MonoidString, r: MonoidString)
    requires
        <MonoidString as Monoid<String>>::is_identity(e),
        <MonoidString as Monoid<String>>::combines_to(m, e, r) || <MonoidString as Monoid<String>>::combines_to(e, m, r),
    ensures
        r@ == m@,
{
    assert(m@ + Seq::<char>::empty() =~= m@);
    assert(Seq::<char>::empty() + m@ =~= m@);
}

/// Combining three values gives equal results however they are grouped.
pub proof fn lemma_string_associative(
    m1: MonoidString,
    m2: MonoidString,
    m3: MonoidString,
    a: MonoidString,
    l: MonoidString,
    b: MonoidString,
    r: MonoidString,
)
    requires
        <MonoidString as Monoid<String>>::combines_to(m1, m2, a),
        <MonoidString as Monoid<String>>::combines_to(a, m3, l),
        <MonoidString as Monoid<String>>::combines_to(m2, m3, b),
        <MonoidString as Monoid<String>>::combines_to(m1, b, r),
    ensures
        l@ == r@,
{
    assert((m1@ + m2@) + m3@ =~= m1@ + (m2@ + m3@));
}

/// Combining a number with the identity, on either side, gives a number equal to it.
pub proof fn lemma_unumber_identity(m: MonoidUnumber, e: MonoidUnumber, r: MonoidUnumber)
    requires
        <MonoidUnumber as Monoid<usize>>::is_identity(e),
        <MonoidUnumber as Monoid<usize>>::combines_to(m, e, r) || <MonoidUnumber as Monoid<usize>>::combines_to(e, m, r),
    ensures
        r@ == m@,
{}

/// Combining three values gives equal results however they are grouped.
pub proof fn lemma_unumber_associative(
    m1: MonoidUnumber,
    m2: MonoidUnumber,
    m3: MonoidUnumber,
    a: MonoidUnumber,
    l: MonoidUnumber,
    b: MonoidUnumber,
    r: MonoidUnumber,
)
    requires
        <MonoidUnumber as Monoid<usize>>::combines_to(m1, m2, a),
        <MonoidUnumber as Monoid<usize>>::combines_to(a, m3, l),
        <MonoidUnumber as Monoid<usize>>::combines_to(m2, m3, b),
        <MonoidUnumber as Monoid<usize>>::combines_to(m1, b, r),
    ensures
        l@ == r@,
{}

/// Combining a number with the identity, on either side, gives a number equal to it.
pub proof fn lemma_inumber_identity(m: MonoidInumber, e: MonoidInumber, r: MonoidInumber)
    requires
        <MonoidInumber as Monoid<isize>>::is_identity(e),
        <MonoidInumber as Monoid<isize>>::combines_to(m, e, r) || <MonoidInumber as Monoid<isize>>::combines_to(e, m, r),
    ensures
        r@ == m@,
{}

/// Combining three values gives equal results however they are grouped.
pub proof fn lemma_inumber_associative(
    m1: MonoidInumber,
    m2: MonoidInumber,
    m3: MonoidInumber,
    a: MonoidInumber,
    l: MonoidInumber,
    b: MonoidInumber,
    r: MonoidInumber,
)
    requires
        <MonoidInumber as Monoid<isize>>::combines_to(m1, m2, a),
        <MonoidInumber as Monoid<isize>>::combines_to(a, m3, l),
        <MonoidInumber as Monoid<isize>>::combines_to(m2, m3, b),
        <MonoidInumber as Monoid<isize>>::combines_to(m1, b, r),
    ensures
        l@ == r@,
{}

/// Combining a vector with the identity, on either side, gives a vector equal to it.
pub proof fn lemma_vec_identity<T: Clone + std::fmt::Debug + PartialEq>(m: MonoidVec<T>, e: MonoidVec<T>, r: MonoidVec<T>)
    requires
        <MonoidVec<T> as Monoid<Vec<T>>>::is_identity(e),
        <MonoidVec<T> as Monoid<Vec<T>>>::combines_to(m, e, r) || <MonoidVec<T> as Monoid<Vec<T>>>::combines_to(e, m, r),
    ensures
        r@ == m@,
{
    assert(m@ + Seq::<T>::empty() =~= m@);
    assert(Seq::<T>::empty() + m@ =~= m@);
}

/// Combining three values gives equal results however they are grouped.
pub proof fn lemma_vec_associative<T: Clone + std::fmt::Debug + PartialEq>(
    m1: MonoidVec<T>,
    m2: MonoidVec<T>,
    m3: MonoidVec<T>,
    a: MonoidVec<T>,
    l: MonoidVec<T>,
    b: MonoidVec<T>,
    r: MonoidVec<T>,
)
    requires
        <MonoidVec<T> as Monoid<Vec<T>>>::combines_to(m1, m2, a),
        <MonoidVec<T> as Monoid<Vec<T>>>::combines_to(a, m3, l),
        <MonoidVec<T> as Monoid<Vec<T>>>::combines_to(m2, m3, b),
        <MonoidVec<T> as Monoid<Vec<T>>>::combines_to(m1, b, r),
    ensures
        l@ == r@,
{
    assert((m1@ + m2@) + m3@ =~= m1@ + (m2@ + m3@));
}

} // verus!
