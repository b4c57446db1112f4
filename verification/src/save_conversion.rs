//! Conversions between integer types and arithmetic that report a value that
//! does not fit instead of wrapping.

use vstd::prelude::*;
use crate::error::DimensionTooLargerError;

verus! {

/// Conversion to another integer type that fails when the value does not fit.
pub trait SafeConversion: Sized {
    /// The number that the value stands for.
    spec fn value(self) -> int;

    fn try_usize(self) -> (r: Result<usize, DimensionTooLargerError>)
        ensures
            r is Ok <==> 0 <= self.value() <= usize::MAX,
            r is Ok ==> r->Ok_0 == self.value(),
    ;

    fn try_i32(self) -> (r: Result<i32, DimensionTooLargerError>)
        ensures
            r is Ok <==> i32::MIN <= self.value() <= i32::MAX,
            r is Ok ==> r->Ok_0 == self.value(),
    ;

    fn try_u32(self) -> (r: Result<u32, DimensionTooLargerError>)
        ensures
            r is Ok <==> 0 <= self.value() <= u32::MAX,
            r is Ok ==> r->Ok_0 == self.value(),
    ;

    fn try_i64(self) -> (r: Result<i64, DimensionTooLargerError>)
        ensures
            r is Ok <==> i64::MIN <= self.value() <= i64::MAX,
            r is Ok ==> r->Ok_0 == self.value(),
    ;

    fn try_u64(self) -> (r: Result<u64, DimensionTooLargerError>)
        ensures
            r is Ok <==> 0 <= self.value() <= u64::MAX,
            r is Ok ==> r->Ok_0 == self.value(),
    ;
}

impl SafeConversion for usize {
    open spec fn value(self) -> int {
        self as int
    }

    fn try_usize(self) -> (r: Result<usize, DimensionTooLargerError>) {
        Ok(self)
    }

    fn try_i32(self) -> (r: Result<i32, DimensionTooLargerError>) {
        if self as u64 <= 0x7fff_ffff {
            Ok(self as i32)
        } else {
            Err(DimensionTooLargerError)
        }
    }

    fn try_u32(self) -> (r: Result<u32, DimensionTooLargerError>) {
        if self as u64 <= 0xffff_ffff {
            Ok(self as u32)
        } else {
            Err(DimensionTooLargerError)
        }
    }

    fn try_i64(self) -> (r: Result<i64, DimensionTooLargerError>) {
        if self as u64 <= 0x7fff_ffff_ffff_ffff {
            Ok(self as i64)
        } else {
            Err(DimensionTooLargerError)
        }
    }

    fn try_u64(self) -> (r: Result<u64, DimensionTooLargerError>) {
        Ok(self as u64)
    }
}

impl SafeConversion for u32 {
    open spec fn value(self) -> int {
        self as int
    }

    fn try_usize(self) -> (r: Result<usize, DimensionTooLargerError>) {
        Ok(self as usize)
    }

    fn try_i32(self) -> (r: Result<i32, DimensionTooLargerError>) {
        if self <= 0x7fff_ffff {
            Ok(self as i32)
        } else {
            Err(DimensionTooLargerError)
        }
    }

    fn try_u32(self) -> (r: Result<u32, DimensionTooLargerError>) {
        Ok(self)
    }

    fn try_i64(self) -> (r: Result<i64, DimensionTooLargerError>) {
        Ok(self as i64)
    }

    fn try_u64(self) -> (r: Result<u64, DimensionTooLargerError>) {
        Ok(self as u64)
    }
}

impl SafeConversion for i32 {
    open spec fn value(self) -> int {
        self as int
    }

    fn try_usize(self) -> (r: Result<usize, DimensionTooLargerError>) {
        if self >= 0 {
            Ok(self as usize)
        } else {
            Err(DimensionTooLargerError)
        }
    }

    fn try_i32(self) -> (r: Result<i32, DimensionTooLargerError>) {
        Ok(self)
    }

    fn try_u32(self) -> (r: Result<u32, DimensionTooLargerError>) {
        if self >= 0 {
            Ok(self as u32)
        } else {
            Err(DimensionTooLargerError)
        }
    }

    fn try_i64(self) -> (r: Result<i64, DimensionTooLargerError>) {
        Ok(self as i64)
    }

    fn try_u64(self) -> (r: Result<u64, DimensionTooLargerError>) {
        if self >= 0 {
            Ok(self as u64)
        } else {
            Err(DimensionTooLargerError)
        }
    }
}

/// Arithmetic that fails when the exact result does not fit the type.
pub trait SafeMath: Sized {
    /// The number that the value stands for.
    spec fn number(self) -> int;

    /// The largest number of the type.
    spec fn limit() -> int;

    /// Product, or an error when it is larger than the type's limit.
    fn smul(self, rhs: Self) -> (r: Result<Self, DimensionTooLargerError>)
        ensures
            r is Ok <==> self.number() * rhs.number() <= Self::limit(),
            r is Ok ==> r->Ok_0.number() == self.number() * rhs.number(),
    ;

    /// Sum, or an error when it is larger than the type's limit.
    fn sadd(self, rhs: Self) -> (r: Result<Self, DimensionTooLargerError>)
        ensures
            r is Ok <==> self.number() + rhs.number() <= Self::limit(),
            r is Ok ==> r->Ok_0.number() == self.number() + rhs.number(),
    ;

    /// Remainder, or an error when the divisor is zero.
    fn srem(self, rhs: Self) -> (r: Result<Self, DimensionTooLargerError>)
        ensures
            r is Ok <==> rhs.number() != 0,
            r is Ok ==> r->Ok_0.number() == self.number() % rhs.number(),
    ;
}

impl SafeMath for u32 {
    open spec fn number(self) -> int {
        self as int
    }

    open spec fn limit() -> int {
        u32::MAX as int
    }

    fn smul(self, rhs: Self) -> (r: Result<Self, DimensionTooLargerError>) {
        match self.checked_mul(rhs) {
            Some(v) => Ok(v),
            None => Err(DimensionTooLargerError),
        }
    }

    fn sadd(self, rhs: Self) -> (r: Result<Self, DimensionTooLargerError>) {
        match self.checked_add(rhs) {
            Some(v) => Ok(v),
            None => Err(DimensionTooLargerError),
        }
    }

    fn srem(self, rhs: Self) -> (r: Result<Self, DimensionTooLargerError>) {
        if rhs == 0 {
            Err(DimensionTooLargerError)
        } else {
            Ok(self % rhs)
        }
    }
}

impl SafeMath for usize {
    open spec fn number(self) -> int {
        self as int
    }

    open spec fn limit() -> int {
        usize::MAX as int
    }

    fn smul(self, rhs: Self) -> (r: Result<Self, DimensionTooLargerError>) {
        match self.checked_mul(rhs) {
            Some(v) => Ok(v),
            None => Err(DimensionTooLargerError),
        }
    }

    fn sadd(self, rhs: Self) -> (r: Result<Self, DimensionTooLargerError>) {
        match self.checked_add(rhs) {
            Some(v) => Ok(v),
            None => Err(DimensionTooLargerError),
        }
    }

    fn srem(self, rhs: Self) -> (r: Result<Self, DimensionTooLargerError>) {
        if rhs == 0 {
            Err(DimensionTooLargerError)
        } else {
            Ok(self % rhs)
        }
    }
}

} // verus!
