use vstd::prelude::*;

verus! {

/// A primitive integer type as the generic monoid wrapper uses it: a zero and an
/// addition that is exact wherever the sum fits the type.
pub trait Number: Sized {
    /// The value as a mathematical integer.
    spec fn as_int(self) -> int;

    /// Whether the type can hold the integer `v`.
    spec fn fits(v: int) -> bool;

    fn zero() -> (r: Self)
        ensures
            r.as_int() == 0,
    ;

    fn plus(self, other: Self) -> (r: Self)
        requires
            Self::fits(self.as_int() + other.as_int()),
        ensures
            r.as_int() == self.as_int() + other.as_int(),
    ;
}

impl Number for i8 {
    open spec fn as_int(self) -> int {
        self as int
    }

    open spec fn fits(v: int) -> bool {
        i8::MIN <= v <= i8::MAX
    }

    fn zero() -> (r: i8) {
        0
    }

    fn plus(self, other: i8) -> (r: i8) {
        self + other
    }
}

impl Number for i16 {
    open spec fn as_int(self) -> int {
        self as int
    }

    open spec fn fits(v: int) -> bool {
        i16::MIN <= v <= i16::MAX
    }

    fn zero() -> (r: i16) {
        0
    }

    fn plus(self, other: i16) -> (r: i16) {
        self + other
    }
}

impl Number for i32 {
    open spec fn as_int(self) -> int {
        self as int
    }

    open spec fn fits(v: int) -> bool {
        i32::MIN <= v <= i32::MAX
    }

    fn zero() -> (r: i32) {
        0
    }

    fn plus(self, other: i32) -> (r: i32) {
        self + other
    }
}

impl Number for i64 {
    open spec fn as_int(self) -> int {
        self as int
    }

    open spec fn fits(v: int) -> bool {
        i64::MIN <= v <= i64::MAX
    }

    fn zero() -> (r: i64) {
        0
    }

    fn plus(self, other: i64) -> (r: i64) {
        self + other
    }
}

impl Number for isize {
    open spec fn as_int(self) -> int {
        self as int
    }

    open spec fn fits(v: int) -> bool {
        isize::MIN <= v <= isize::MAX
    }

    fn zero() -> (r: isize) {
        0
    }

    fn plus(self, other: isize) -> (r: isize) {
        self + other
    }
}

impl Number for u8 {
    open spec fn as_int(self) -> int {
        self as int
    }

    open spec fn fits(v: int) -> bool {
        u8::MIN <= v <= u8::MAX
    }

    fn zero() -> (r: u8) {
        0
    }

    fn plus(self, other: u8) -> (r: u8) {
        self + other
    }
}

impl Number for u16 {
    open spec fn as_int(self) -> int {
        self as int
    }

    open spec fn fits(v: int) -> bool {
        u16::MIN <= v <= u16::MAX
    }

    fn zero() -> (r: u16) {
        0
    }

    fn plus(self, other: u16) -> (r: u16) {
        self + other
    }
}

impl Number for u32 {
    open spec fn as_int(self) -> int {
        self as int
    }

    open spec fn fits(v: int) -> bool {
        u32::MIN <= v <= u32::MAX
    }

    fn zero() -> (r: u32) {
        0
    }

    fn plus(self, other: u32) -> (r: u32) {
        self + other
    }
}

impl Number for u64 {
    open spec fn as_int(self) -> int {
        self as int
    }

    open spec fn fits(v: int) -> bool {
        u64::MIN <= v <= u64::MAX
    }

    fn zero() -> (r: u64) {
        0
    }

    fn plus(self, other: u64) -> (r: u64) {
        self + other
    }
}

impl Number for usize {
    open spec fn as_int(self) -> int {
        self as int
    }

    open spec fn fits(v: int) -> bool {
        usize::MIN <= v <= usize::MAX
    }

    fn zero() -> (r: usize) {
        0
    }

    fn plus(self, other: usize) -> (r: usize) {
        self + other
    }
}

} // verus!
