//! Making a number odd.

use vstd::prelude::*;

verus! {

/// Numbers that can be turned into odd numbers.
pub trait EnsureOdd: Sized {
    /// `self` where it is odd, else the number after it.
    spec fn next_odd(self) -> Self;

    /// Returns `self` if `self` is odd, otherwise returns `self + 1`.
    fn ensure_odd(self) -> (odd: Self)
        ensures
            odd == self.next_odd(),
    ;
}

impl EnsureOdd for u16 {
    open spec fn next_odd(self) -> u16 {
        if self % 2 == 0 {
            (self + 1) as u16
        } else {
            self
        }
    }

    fn ensure_odd(self) -> (odd: u16)
        ensures
            odd % 2 == 1,
            self <= odd <= self + 1,
    {
        if self % 2 == 0 {
            self + 1
        } else {
            self
        }
    }
}

impl EnsureOdd for u32 {
    open spec fn next_odd(self) -> u32 {
        if self % 2 == 0 {
            (self + 1) as u32
        } else {
            self
        }
    }

    fn ensure_odd(self) -> (odd: u32)
        ensures
            odd % 2 == 1,
            self <= odd <= self + 1,
    {
        if self % 2 == 0 {
            self + 1
        } else {
            self
        }
    }
}

impl EnsureOdd for isize {
    open spec fn next_odd(self) -> isize {
        if self % 2 == 0 {
            (self + 1) as isize
        } else {
            self
        }
    }

    fn ensure_odd(self) -> (odd: isize)
        ensures
            odd % 2 == 1,
            self <= odd <= self + 1,
    {
        if self % 2 == 0 {
            self + 1
        } else {
            self
        }
    }
}

impl EnsureOdd for usize {
    open spec fn next_odd(self) -> usize {
        if self % 2 == 0 {
            (self + 1) as usize
        } else {
            self
        }
    }

    fn ensure_odd(self) -> (odd: usize)
        ensures
            odd % 2 == 1,
            self <= odd <= self + 1,
    {
        if self % 2 == 0 {
            self + 1
        } else {
            self
        }
    }
}

} // verus!
