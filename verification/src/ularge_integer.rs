//! A 64-bit unsigned integer viewed as high and low 32-bit halves, with
//! wrapping arithmetic and bitwise operators.

use vstd::prelude::*;
use vstd::wrapping::u64_specs;

verus! {

/// A 64-bit unsigned integer that can be read as its high and low 32-bit
/// halves.
#[derive(Debug, Clone, Copy, PartialEq, Eq, Structural, PartialOrd, Ord, Hash)]
pub struct ULargeInteger {
    /// The 64-bit value.
    pub value: u64,
}

impl ULargeInteger {
    /// The integer with the given 64-bit value.
    pub fn new(value: u64) -> (r: Self)
        ensures
            r == (ULargeInteger { value }),
    {
        ULargeInteger { value }
    }

    /// The upper 32 bits.
    pub fn to_u32_high(&self) -> (r: u32)
        ensures
            r == (self.value >> 32) as u32,
    {
        (self.value >> 32u64) as u32
    }

    /// The lower 32 bits.
    pub fn to_u32_low(&self) -> (r: u32)
        ensures
            r == self.value as u32,
    {
        #[verifier::truncate] (self.value as u32)
    }

    /// The pair (high, low) of 32-bit halves.
    pub fn split(&self) -> (r: (u32, u32))
        ensures
            r.0 == (self.value >> 32) as u32,
            r.1 == self.value as u32,
    {
        (self.to_u32_high(), self.to_u32_low())
    }

    /// The whole 64-bit value.
    pub fn to_u64(&self) -> (r: u64)
        ensures
            r == self.value,
    {
        self.value
    }
}

impl core::ops::Add for ULargeInteger {
    type Output = ULargeInteger;

    /// Wrapping addition of the 64-bit values.
    fn add(self, rhs: Self) -> (r: Self) {
        ULargeInteger { value: self.value.wrapping_add(rhs.value) }
    }
}

impl vstd::std_specs::ops::AddSpecImpl for ULargeInteger {
    open spec fn obeys_add_spec() -> bool {
        true
    }

    open spec fn add_req(self, rhs: Self) -> bool {
        true
    }

    open spec fn add_spec(self, rhs: Self) -> Self {
        ULargeInteger { value: u64_specs::wrapping_add(self.value, rhs.value) }
    }
}

impl core::ops::Sub for ULargeInteger {
    type Output = ULargeInteger;

    /// Wrapping subtraction of the 64-bit values.
    fn sub(self, rhs: Self) -> (r: Self) {
        ULargeInteger { value: self.value.wrapping_sub(rhs.value) }
    }
}

impl vstd::std_specs::ops::SubSpecImpl for ULargeInteger {
    open spec fn obeys_sub_spec() -> bool {
        true
    }

    open spec fn sub_req(self, rhs: Self) -> bool {
        true
    }

    open spec fn sub_spec(self, rhs: Self) -> Self {
        ULargeInteger { value: u64_specs::wrapping_sub(self.value, rhs.value) }
    }
}

impl core::ops::Mul for ULargeInteger {
    type Output = ULargeInteger;

    /// Wrapping multiplication of the 64-bit values.
    fn mul(self, rhs: Self) -> (r: Self) {
        ULargeInteger { value: self.value.wrapping_mul(rhs.value) }
    }
}

impl vstd::std_specs::ops::MulSpecImpl for ULargeInteger {
    open spec fn obeys_mul_spec() -> bool {
        true
    }

    open spec fn mul_req(self, rhs: Self) -> bool {
        true
    }

    open spec fn mul_spec(self, rhs: Self) -> Self {
        ULargeInteger { value: u64_specs::wrapping_mul(self.value, rhs.value) }
    }
}

impl core::ops::Div for ULargeInteger {
    type Output = ULargeInteger;

    /// Division of the 64-bit values; the divisor must not be zero.
    fn div(self, rhs: Self) -> (r: Self) {
        ULargeInteger { value: self.value / rhs.value }
    }
}

impl vstd::std_specs::ops::DivSpecImpl for ULargeInteger {
    open spec fn obeys_div_spec() -> bool {
        true
    }

    open spec fn div_req(self, rhs: Self) -> bool {
        rhs.value != 0
    }

    open spec fn div_spec(self, rhs: Self) -> Self {
        ULargeInteger { value: self.value / rhs.value }
    }
}

impl core::ops::Rem for ULargeInteger {
    type Output = ULargeInteger;

    /// Remainder of the 64-bit values; the divisor must not be zero.
    fn rem(self, rhs: Self) -> (r: Self) {
        ULargeInteger { value: self.value % rhs.value }
    }
}

impl vstd::std_specs::ops::RemSpecImpl for ULargeInteger {
    open spec fn obeys_rem_spec() -> bool {
        true
    }

    open spec fn rem_req(self, rhs: Self) -> bool {
        rhs.value != 0
    }

    open spec fn rem_spec(self, rhs: Self) -> Self {
        ULargeInteger { value: self.value % rhs.value }
    }
}

impl core::ops::BitAnd for ULargeInteger {
    type Output = ULargeInteger;

    /// Bitwise conjunction of the 64-bit values.
    fn bitand(self, rhs: Self) -> (r: Self) {
        ULargeInteger { value: self.value & rhs.value }
    }
}

impl vstd::std_specs::ops::BitAndSpecImpl for ULargeInteger {
    open spec fn obeys_bitand_spec() -> bool {
        true
    }

    open spec fn bitand_req(self, rhs: Self) -> bool {
        true
    }

    open spec fn bitand_spec(self, rhs: Self) -> Self {
        ULargeInteger { value: self.value & rhs.value }
    }
}

impl core::ops::BitOr for ULargeInteger {
    type Output = ULargeInteger;

    /// Bitwise disjunction of the 64-bit values.
    fn bitor(self, rhs: Self) -> (r: Self) {
        ULargeInteger { value: self.value | rhs.value }
    }
}

impl vstd::std_specs::ops::BitOrSpecImpl for ULargeInteger {
    open spec fn obeys_bitor_spec() -> bool {
        true
    }

    open spec fn bitor_req(self, rhs: Self) -> bool {
        true
    }

    open spec fn bitor_spec(self, rhs: Self) -> Self {
        ULargeInteger { value: self.value | rhs.value }
    }
}

impl core::ops::BitXor for ULargeInteger {
    type Output = ULargeInteger;

    /// Bitwise exclusive disjunction of the 64-bit values.
    fn bitxor(self, rhs: Self) -> (r: Self) {
        ULargeInteger { value: self.value ^ rhs.value }
    }
}

impl vstd::std_specs::ops::BitXorSpecImpl for ULargeInteger {
    open spec fn obeys_bitxor_spec() -> bool {
        true
    }

    open spec fn bitxor_req(self, rhs: Self) -> bool {
        true
    }

    open spec fn bitxor_spec(self, rhs: Self) -> Self {
        ULargeInteger { value: self.value ^ rhs.value }
    }
}

impl core::ops::Not for ULargeInteger {
    type Output = ULargeInteger;

    /// Bitwise complement of the 64-bit value.
    fn not(self) -> (r: Self) {
        ULargeInteger { value: !self.value }
    }
}

impl vstd::std_specs::ops::NotSpecImpl for ULargeInteger {
    open spec fn obeys_not_spec() -> bool {
        true
    }

    open spec fn not_req(self) -> bool {
        true
    }

    open spec fn not_spec(self) -> Self {
        ULargeInteger { value: !self.value }
    }
}

impl core::ops::Shl<u32> for ULargeInteger {
    type Output = ULargeInteger;

    /// Left shift of the 64-bit value, the shift taken modulo 64.
    fn shl(self, rhs: u32) -> (r: Self) {
        ULargeInteger { value: self.value.wrapping_shl(rhs) }
    }
}

impl vstd::std_specs::ops::ShlSpecImpl<u32> for ULargeInteger {
    open spec fn obeys_shl_spec() -> bool {
        true
    }

    open spec fn shl_req(self, rhs: u32) -> bool {
        true
    }

    open spec fn shl_spec(self, rhs: u32) -> Self {
        ULargeInteger { value: u64_specs::wrapping_shl(self.value, rhs) }
    }
}

impl core::ops::Shr<u32> for ULargeInteger {
    type Output = ULargeInteger;

    /// Right shift of the 64-bit value, the shift taken modulo 64.
    fn shr(self, rhs: u32) -> (r: Self) {
        ULargeInteger { value: self.value.wrapping_shr(rhs) }
    }
}

impl vstd::std_specs::ops::ShrSpecImpl<u32> for ULargeInteger {
    open spec fn obeys_shr_spec() -> bool {
        true
    }

    open spec fn shr_req(self, rhs: u32) -> bool {
        true
    }

    open spec fn shr_spec(self, rhs: u32) -> Self {
        ULargeInteger { value: u64_specs::wrapping_shr(self.value, rhs) }
    }
}

} // verus!
