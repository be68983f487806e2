use vstd::prelude::*;

verus! {

/// Capability bound for threshold values: copyable, order-comparable integer
/// types of 8, 16 and 32 bits, signed and unsigned. `as_math` gives a value's
/// mathematical meaning, and every contract in the crate speaks of it; the
/// comparison methods are the order capability, pinned to that meaning.
pub trait FixedWidth: Sized + Copy {
    /// The value as a mathematical integer.
    spec fn as_math(self) -> int;

    /// Whether `self` is strictly below `other`.
    fn is_less(self, other: Self) -> (r: bool)
        ensures
            r == (self.as_math() < other.as_math()),
    ;

    /// Whether `self` is strictly above `other`.
    fn is_greater(self, other: Self) -> (r: bool)
        ensures
            r == (self.as_math() > other.as_math()),
    ;
}

impl FixedWidth for u8 {
    open spec fn as_math(self) -> int {
        self as int
    }

    fn is_less(self, other: Self) -> (r: bool) {
        self < other
    }

    fn is_greater(self, other: Self) -> (r: bool) {
        self > other
    }
}

impl FixedWidth for u16 {
    open spec fn as_math(self) -> int {
        self as int
    }

    fn is_less(self, other: Self) -> (r: bool) {
        self < other
    }

    fn is_greater(self, other: Self) -> (r: bool) {
        self > other
    }
}

impl FixedWidth for u32 {
    open spec fn as_math(self) -> int {
        self as int
    }

    fn is_less(self, other: Self) -> (r: bool) {
        self < other
    }

    fn is_greater(self, other: Self) -> (r: bool) {
        self > other
    }
}

impl FixedWidth for i8 {
    open spec fn as_math(self) -> int {
        self as int
    }

    fn is_less(self, other: Self) -> (r: bool) {
        self < other
    }

    fn is_greater(self, other: Self) -> (r: bool) {
        self > other
    }
}

impl FixedWidth for i16 {
    open spec fn as_math(self) -> int {
        self as int
    }

    fn is_less(self, other: Self) -> (r: bool) {
        self < other
    }

    fn is_greater(self, other: Self) -> (r: bool) {
        self > other
    }
}

impl FixedWidth for i32 {
    open spec fn as_math(self) -> int {
        self as int
    }

    fn is_less(self, other: Self) -> (r: bool) {
        self < other
    }

    fn is_greater(self, other: Self) -> (r: bool) {
        self > other
    }
}

} // verus!
