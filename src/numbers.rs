use vstd::prelude::*;
use crate::percentage::{clamp, saturate, scaled, signed, Percentage};

verus! {

/// Numbers that read as a percentage: `50` is `50%`.
pub trait Percent: Sized {
    /// This number as a mathematical integer.
    spec fn number(&self) -> int;

    /// This number as a percentage, exactly: `50.percent()` is `50%`.
    fn percent(self) -> (r: Percentage)
        ensures
            r@ == self.number() * 100,
    ;
}

impl Percentage {
    /// `value` percent, exactly: `Percentage::new(50)` is `50%`.
    pub fn new<T: Percent>(value: T) -> (r: Percentage)
        ensures
            r@ == value.number() * 100,
    {
        value.percent()
    }
}

/// The sign and magnitude of `x`.
fn parts_of(x: i128) -> (r: (bool, u128))
    ensures
        r.0 == (x < 0),
        signed(r.0, r.1 as int) == x,
{
    if x < 0 {
        (true, (-(x + 1)) as u128 + 1)
    } else {
        (false, x as u128)
    }
}

impl Percent for usize {
    open spec fn number(&self) -> int {
        *self as int
    }

    fn percent(self) -> (r: Percentage) {
        let (negative, n) = (false, self as u128);
        Percentage::from_percent_parts(negative, n)
    }
}

impl core::ops::Add<Percentage> for usize {
    type Output = Percentage;

    /// `rhs` plus this number as a whole (`1` adds `100%`), saturated
    /// only past the largest percentage.
    fn add(self, rhs: Percentage) -> (r: Percentage)
        ensures
            r@ == saturate(rhs@ + self as int * 10000),
    {
        let (negative, n) = (false, self as u128);
        rhs.plus_whole_parts(negative, n)
    }
}

impl vstd::std_specs::ops::AddSpecImpl<Percentage> for usize {
    open spec fn obeys_add_spec() -> bool {
        true
    }

    open spec fn add_req(self, rhs: Percentage) -> bool {
        true
    }

    open spec fn add_spec(self, rhs: Percentage) -> Percentage {
        Percentage::canonical(saturate(rhs@ + self as int * 10000))
    }
}

impl core::ops::Mul<Percentage> for usize {
    type Output = usize;

    /// `rhs` of this number, rounded toward zero and saturated at the
    /// bounds of `usize`: `12 * 50.percent()` is `6`.
    fn mul(self, rhs: Percentage) -> (r: usize)
        ensures
            r == clamp(scaled(self as int, rhs@), usize::MIN as int, usize::MAX as int),
    {
        let (negative, n) = (false, self as u128);
        let (negative, m) = rhs.scale_parts(negative, n, 0, usize::MAX as u128);
        if negative {
            0
        } else {
            m as usize
        }
    }
}

impl vstd::std_specs::ops::MulSpecImpl<Percentage> for usize {
    open spec fn obeys_mul_spec() -> bool {
        true
    }

    open spec fn mul_req(self, rhs: Percentage) -> bool {
        true
    }

    open spec fn mul_spec(self, rhs: Percentage) -> usize {
        clamp(scaled(self as int, rhs@), usize::MIN as int, usize::MAX as int) as usize
    }
}

impl core::ops::MulAssign<Percentage> for usize {
    /// Replaces this number by `rhs` of it, as `*` does.
    fn mul_assign(&mut self, rhs: Percentage)
        ensures
            *final(self) == clamp(scaled(*old(self) as int, rhs@), usize::MIN as int, usize::MAX as int),
    {
        *self = *self * rhs;
    }
}

impl core::ops::AddAssign<usize> for Percentage {
    /// Adds `rhs` as a whole (`1` adds `100%`), saturated.
    fn add_assign(&mut self, rhs: usize)
        ensures
            final(self)@ == saturate(old(self)@ + rhs as int * 10000),
    {
        let (negative, n) = (false, rhs as u128);
        *self = self.plus_whole_parts(negative, n);
    }
}

impl Percent for u8 {
    open spec fn number(&self) -> int {
        *self as int
    }

    fn percent(self) -> (r: Percentage) {
        let (negative, n) = (false, self as u128);
        Percentage::from_percent_parts(negative, n)
    }
}

impl core::ops::Add<Percentage> for u8 {
    type Output = Percentage;

    /// `rhs` plus this number as a whole (`1` adds `100%`), saturated
    /// only past the largest percentage.
    fn add(self, rhs: Percentage) -> (r: Percentage)
        ensures
            r@ == saturate(rhs@ + self as int * 10000),
    {
        let (negative, n) = (false, self as u128);
        rhs.plus_whole_parts(negative, n)
    }
}

impl vstd::std_specs::ops::AddSpecImpl<Percentage> for u8 {
    open spec fn obeys_add_spec() -> bool {
        true
    }

    open spec fn add_req(self, rhs: Percentage) -> bool {
        true
    }

    open spec fn add_spec(self, rhs: Percentage) -> Percentage {
        Percentage::canonical(saturate(rhs@ + self as int * 10000))
    }
}

impl core::ops::Mul<Percentage> for u8 {
    type Output = u8;

    /// `rhs` of this number, rounded toward zero and saturated at the
    /// bounds of `u8`: `12 * 50.percent()` is `6`.
    fn mul(self, rhs: Percentage) -> (r: u8)
        ensures
            r == clamp(scaled(self as int, rhs@), u8::MIN as int, u8::MAX as int),
    {
        let (negative, n) = (false, self as u128);
        let (negative, m) = rhs.scale_parts(negative, n, 0, u8::MAX as u128);
        if negative {
            0
        } else {
            m as u8
        }
    }
}

impl vstd::std_specs::ops::MulSpecImpl<Percentage> for u8 {
    open spec fn obeys_mul_spec() -> bool {
        true
    }

    open spec fn mul_req(self, rhs: Percentage) -> bool {
        true
    }

    open spec fn mul_spec(self, rhs: Percentage) -> u8 {
        clamp(scaled(self as int, rhs@), u8::MIN as int, u8::MAX as int) as u8
    }
}

impl core::ops::MulAssign<Percentage> for u8 {
    /// Replaces this number by `rhs` of it, as `*` does.
    fn mul_assign(&mut self, rhs: Percentage)
        ensures
            *final(self) == clamp(scaled(*old(self) as int, rhs@), u8::MIN as int, u8::MAX as int),
    {
        *self = *self * rhs;
    }
}

impl core::ops::AddAssign<u8> for Percentage {
    /// Adds `rhs` as a whole (`1` adds `100%`), saturated.
    fn add_assign(&mut self, rhs: u8)
        ensures
            final(self)@ == saturate(old(self)@ + rhs as int * 10000),
    {
        let (negative, n) = (false, rhs as u128);
        *self = self.plus_whole_parts(negative, n);
    }
}

impl Percent for u16 {
    open spec fn number(&self) -> int {
        *self as int
    }

    fn percent(self) -> (r: Percentage) {
        let (negative, n) = (false, self as u128);
        Percentage::from_percent_parts(negative, n)
    }
}

impl core::ops::Add<Percentage> for u16 {
    type Output = Percentage;

    /// `rhs` plus this number as a whole (`1` adds `100%`), saturated
    /// only past the largest percentage.
    fn add(self, rhs: Percentage) -> (r: Percentage)
        ensures
            r@ == saturate(rhs@ + self as int * 10000),
    {
        let (negative, n) = (false, self as u128);
        rhs.plus_whole_parts(negative, n)
    }
}

impl vstd::std_specs::ops::AddSpecImpl<Percentage> for u16 {
    open spec fn obeys_add_spec() -> bool {
        true
    }

    open spec fn add_req(self, rhs: Percentage) -> bool {
        true
    }

    open spec fn add_spec(self, rhs: Percentage) -> Percentage {
        Percentage::canonical(saturate(rhs@ + self as int * 10000))
    }
}

impl core::ops::Mul<Percentage> for u16 {
    type Output = u16;

    /// `rhs` of this number, rounded toward zero and saturated at the
    /// bounds of `u16`: `12 * 50.percent()` is `6`.
    fn mul(self, rhs: Percentage) -> (r: u16)
        ensures
            r == clamp(scaled(self as int, rhs@), u16::MIN as int, u16::MAX as int),
    {
        let (negative, n) = (false, self as u128);
        let (negative, m) = rhs.scale_parts(negative, n, 0, u16::MAX as u128);
        if negative {
            0
        } else {
            m as u16
        }
    }
}

impl vstd::std_specs::ops::MulSpecImpl<Percentage> for u16 {
    open spec fn obeys_mul_spec() -> bool {
        true
    }

    open spec fn mul_req(self, rhs: Percentage) -> bool {
        true
    }

    open spec fn mul_spec(self, rhs: Percentage) -> u16 {
        clamp(scaled(self as int, rhs@), u16::MIN as int, u16::MAX as int) as u16
    }
}

impl core::ops::MulAssign<Percentage> for u16 {
    /// Replaces this number by `rhs` of it, as `*` does.
    fn mul_assign(&mut self, rhs: Percentage)
        ensures
            *final(self) == clamp(scaled(*old(self) as int, rhs@), u16::MIN as int, u16::MAX as int),
    {
        *self = *self * rhs;
    }
}

impl core::ops::AddAssign<u16> for Percentage {
    /// Adds `rhs` as a whole (`1` adds `100%`), saturated.
    fn add_assign(&mut self, rhs: u16)
        ensures
            final(self)@ == saturate(old(self)@ + rhs as int * 10000),
    {
        let (negative, n) = (false, rhs as u128);
        *self = self.plus_whole_parts(negative, n);
    }
}

impl Percent for u32 {
    open spec fn number(&self) -> int {
        *self as int
    }

    fn percent(self) -> (r: Percentage) {
        let (negative, n) = (false, self as u128);
        Percentage::from_percent_parts(negative, n)
    }
}

impl core::ops::Add<Percentage> for u32 {
    type Output = Percentage;

    /// `rhs` plus this number as a whole (`1` adds `100%`), saturated
    /// only past the largest percentage.
    fn add(self, rhs: Percentage) -> (r: Percentage)
        ensures
            r@ == saturate(rhs@ + self as int * 10000),
    {
        let (negative, n) = (false, self as u128);
        rhs.plus_whole_parts(negative, n)
    }
}

impl vstd::std_specs::ops::AddSpecImpl<Percentage> for u32 {
    open spec fn obeys_add_spec() -> bool {
        true
    }

    open spec fn add_req(self, rhs: Percentage) -> bool {
        true
    }

    open spec fn add_spec(self, rhs: Percentage) -> Percentage {
        Percentage::canonical(saturate(rhs@ + self as int * 10000))
    }
}

impl core::ops::Mul<Percentage> for u32 {
    type Output = u32;

    /// `rhs` of this number, rounded toward zero and saturated at the
    /// bounds of `u32`: `12 * 50.percent()` is `6`.
    fn mul(self, rhs: Percentage) -> (r: u32)
        ensures
            r == clamp(scaled(self as int, rhs@), u32::MIN as int, u32::MAX as int),
    {
        let (negative, n) = (false, self as u128);
        let (negative, m) = rhs.scale_parts(negative, n, 0, u32::MAX as u128);
        if negative {
            0
        } else {
            m as u32
        }
    }
}

impl vstd::std_specs::ops::MulSpecImpl<Percentage> for u32 {
    open spec fn obeys_mul_spec() -> bool {
        true
    }

    open spec fn mul_req(self, rhs: Percentage) -> bool {
        true
    }

    open spec fn mul_spec(self, rhs: Percentage) -> u32 {
        clamp(scaled(self as int, rhs@), u32::MIN as int, u32::MAX as int) as u32
    }
}

impl core::ops::MulAssign<Percentage> for u32 {
    /// Replaces this number by `rhs` of it, as `*` does.
    fn mul_assign(&mut self, rhs: Percentage)
        ensures
            *final(self) == clamp(scaled(*old(self) as int, rhs@), u32::MIN as int, u32::MAX as int),
    {
        *self = *self * rhs;
    }
}

impl core::ops::AddAssign<u32> for Percentage {
    /// Adds `rhs` as a whole (`1` adds `100%`), saturated.
    fn add_assign(&mut self, rhs: u32)
        ensures
            final(self)@ == saturate(old(self)@ + rhs as int * 10000),
    {
        let (negative, n) = (false, rhs as u128);
        *self = self.plus_whole_parts(negative, n);
    }
}

impl Percent for u64 {
    open spec fn number(&self) -> int {
        *self as int
    }

    fn percent(self) -> (r: Percentage) {
        let (negative, n) = (false, self as u128);
        Percentage::from_percent_parts(negative, n)
    }
}

impl core::ops::Add<Percentage> for u64 {
    type Output = Percentage;

    /// `rhs` plus this number as a whole (`1` adds `100%`), saturated
    /// only past the largest percentage.
    fn add(self, rhs: Percentage) -> (r: Percentage)
        ensures
            r@ == saturate(rhs@ + self as int * 10000),
    {
        let (negative, n) = (false, self as u128);
        rhs.plus_whole_parts(negative, n)
    }
}

impl vstd::std_specs::ops::AddSpecImpl<Percentage> for u64 {
    open spec fn obeys_add_spec() -> bool {
        true
    }

    open spec fn add_req(self, rhs: Percentage) -> bool {
        true
    }

    open spec fn add_spec(self, rhs: Percentage) -> Percentage {
        Percentage::canonical(saturate(rhs@ + self as int * 10000))
    }
}

impl core::ops::Mul<Percentage> for u64 {
    type Output = u64;

    /// `rhs` of this number, rounded toward zero and saturated at the
    /// bounds of `u64`: `12 * 50.percent()` is `6`.
    fn mul(self, rhs: Percentage) -> (r: u64)
        ensures
            r == clamp(scaled(self as int, rhs@), u64::MIN as int, u64::MAX as int),
    {
        let (negative, n) = (false, self as u128);
        let (negative, m) = rhs.scale_parts(negative, n, 0, u64::MAX as u128);
        if negative {
            0
        } else {
            m as u64
        }
    }
}

impl vstd::std_specs::ops::MulSpecImpl<Percentage> for u64 {
    open spec fn obeys_mul_spec() -> bool {
        true
    }

    open spec fn mul_req(self, rhs: Percentage) -> bool {
        true
    }

    open spec fn mul_spec(self, rhs: Percentage) -> u64 {
        clamp(scaled(self as int, rhs@), u64::MIN as int, u64::MAX as int) as u64
    }
}

impl core::ops::MulAssign<Percentage> for u64 {
    /// Replaces this number by `rhs` of it, as `*` does.
    fn mul_assign(&mut self, rhs: Percentage)
        ensures
            *final(self) == clamp(scaled(*old(self) as int, rhs@), u64::MIN as int, u64::MAX as int),
    {
        *self = *self * rhs;
    }
}

impl core::ops::AddAssign<u64> for Percentage {
    /// Adds `rhs` as a whole (`1` adds `100%`), saturated.
    fn add_assign(&mut self, rhs: u64)
        ensures
            final(self)@ == saturate(old(self)@ + rhs as int * 10000),
    {
        let (negative, n) = (false, rhs as u128);
        *self = self.plus_whole_parts(negative, n);
    }
}

impl Percent for u128 {
    open spec fn number(&self) -> int {
        *self as int
    }

    fn percent(self) -> (r: Percentage) {
        let (negative, n) = (false, self as u128);
        Percentage::from_percent_parts(negative, n)
    }
}

impl core::ops::Add<Percentage> for u128 {
    type Output = Percentage;

    /// `rhs` plus this number as a whole (`1` adds `100%`), saturated
    /// only past the largest percentage.
    fn add(self, rhs: Percentage) -> (r: Percentage)
        ensures
            r@ == saturate(rhs@ + self as int * 10000),
    {
        let (negative, n) = (false, self as u128);
        rhs.plus_whole_parts(negative, n)
    }
}

impl vstd::std_specs::ops::AddSpecImpl<Percentage> for u128 {
    open spec fn obeys_add_spec() -> bool {
        true
    }

    open spec fn add_req(self, rhs: Percentage) -> bool {
        true
    }

    open spec fn add_spec(self, rhs: Percentage) -> Percentage {
        Percentage::canonical(saturate(rhs@ + self as int * 10000))
    }
}

impl core::ops::Mul<Percentage> for u128 {
    type Output = u128;

    /// `rhs` of this number, rounded toward zero and saturated at the
    /// bounds of `u128`: `12 * 50.percent()` is `6`.
    fn mul(self, rhs: Percentage) -> (r: u128)
        ensures
            r == clamp(scaled(self as int, rhs@), u128::MIN as int, u128::MAX as int),
    {
        let (negative, n) = (false, self as u128);
        let (negative, m) = rhs.scale_parts(negative, n, 0, u128::MAX as u128);
        if negative {
            0
        } else {
            m as u128
        }
    }
}

impl vstd::std_specs::ops::MulSpecImpl<Percentage> for u128 {
    open spec fn obeys_mul_spec() -> bool {
        true
    }

    open spec fn mul_req(self, rhs: Percentage) -> bool {
        true
    }

    open spec fn mul_spec(self, rhs: Percentage) -> u128 {
        clamp(scaled(self as int, rhs@), u128::MIN as int, u128::MAX as int) as u128
    }
}

impl core::ops::MulAssign<Percentage> for u128 {
    /// Replaces this number by `rhs` of it, as `*` does.
    fn mul_assign(&mut self, rhs: Percentage)
        ensures
            *final(self) == clamp(scaled(*old(self) as int, rhs@), u128::MIN as int, u128::MAX as int),
    {
        *self = *self * rhs;
    }
}

impl core::ops::AddAssign<u128> for Percentage {
    /// Adds `rhs` as a whole (`1` adds `100%`), saturated.
    fn add_assign(&mut self, rhs: u128)
        ensures
            final(self)@ == saturate(old(self)@ + rhs as int * 10000),
    {
        let (negative, n) = (false, rhs as u128);
        *self = self.plus_whole_parts(negative, n);
    }
}

impl Percent for isize {
    open spec fn number(&self) -> int {
        *self as int
    }

    fn percent(self) -> (r: Percentage) {
        let (negative, n) = parts_of(self as i128);
        Percentage::from_percent_parts(negative, n)
    }
}

impl core::ops::Add<Percentage> for isize {
    type Output = Percentage;

    /// `rhs` plus this number as a whole (`1` adds `100%`), saturated
    /// only past the largest percentage.
    fn add(self, rhs: Percentage) -> (r: Percentage)
        ensures
            r@ == saturate(rhs@ + self as int * 10000),
    {
        let (negative, n) = parts_of(self as i128);
        rhs.plus_whole_parts(negative, n)
    }
}

impl vstd::std_specs::ops::AddSpecImpl<Percentage> for isize {
    open spec fn obeys_add_spec() -> bool {
        true
    }

    open spec fn add_req(self, rhs: Percentage) -> bool {
        true
    }

    open spec fn add_spec(self, rhs: Percentage) -> Percentage {
        Percentage::canonical(saturate(rhs@ + self as int * 10000))
    }
}

impl core::ops::Mul<Percentage> for isize {
    type Output = isize;

    /// `rhs` of this number, rounded toward zero and saturated at the
    /// bounds of `isize`: `12 * 50.percent()` is `6`.
    fn mul(self, rhs: Percentage) -> (r: isize)
        ensures
            r == clamp(scaled(self as int, rhs@), isize::MIN as int, isize::MAX as int),
    {
        let (negative, n) = parts_of(self as i128);
        let (negative, m) = rhs.scale_parts(negative, n, isize::MAX as u128 + 1, isize::MAX as u128);
        if negative {
            if m == isize::MAX as u128 + 1 {
                isize::MIN
            } else {
                -(m as isize)
            }
        } else {
            m as isize
        }
    }
}

impl vstd::std_specs::ops::MulSpecImpl<Percentage> for isize {
    open spec fn obeys_mul_spec() -> bool {
        true
    }

    open spec fn mul_req(self, rhs: Percentage) -> bool {
        true
    }

    open spec fn mul_spec(self, rhs: Percentage) -> isize {
        clamp(scaled(self as int, rhs@), isize::MIN as int, isize::MAX as int) as isize
    }
}

impl core::ops::MulAssign<Percentage> for isize {
    /// Replaces this number by `rhs` of it, as `*` does.
    fn mul_assign(&mut self, rhs: Percentage)
        ensures
            *final(self) == clamp(scaled(*old(self) as int, rhs@), isize::MIN as int, isize::MAX as int),
    {
        *self = *self * rhs;
    }
}

impl core::ops::AddAssign<isize> for Percentage {
    /// Adds `rhs` as a whole (`1` adds `100%`), saturated.
    fn add_assign(&mut self, rhs: isize)
        ensures
            final(self)@ == saturate(old(self)@ + rhs as int * 10000),
    {
        let (negative, n) = parts_of(rhs as i128);
        *self = self.plus_whole_parts(negative, n);
    }
}

impl Percent for i8 {
    open spec fn number(&self) -> int {
        *self as int
    }

    fn percent(self) -> (r: Percentage) {
        let (negative, n) = parts_of(self as i128);
        Percentage::from_percent_parts(negative, n)
    }
}

impl core::ops::Add<Percentage> for i8 {
    type Output = Percentage;

    /// `rhs` plus this number as a whole (`1` adds `100%`), saturated
    /// only past the largest percentage.
    fn add(self, rhs: Percentage) -> (r: Percentage)
        ensures
            r@ == saturate(rhs@ + self as int * 10000),
    {
        let (negative, n) = parts_of(self as i128);
        rhs.plus_whole_parts(negative, n)
    }
}

impl vstd::std_specs::ops::AddSpecImpl<Percentage> for i8 {
    open spec fn obeys_add_spec() -> bool {
        true
    }

    open spec fn add_req(self, rhs: Percentage) -> bool {
        true
    }

    open spec fn add_spec(self, rhs: Percentage) -> Percentage {
        Percentage::canonical(saturate(rhs@ + self as int * 10000))
    }
}

impl core::ops::Mul<Percentage> for i8 {
    type Output = i8;

    /// `rhs` of this number, rounded toward zero and saturated at the
    /// bounds of `i8`: `12 * 50.percent()` is `6`.
    fn mul(self, rhs: Percentage) -> (r: i8)
        ensures
            r == clamp(scaled(self as int, rhs@), i8::MIN as int, i8::MAX as int),
    {
        let (negative, n) = parts_of(self as i128);
        let (negative, m) = rhs.scale_parts(negative, n, i8::MAX as u128 + 1, i8::MAX as u128);
        if negative {
            if m == i8::MAX as u128 + 1 {
                i8::MIN
            } else {
                -(m as i8)
            }
        } else {
            m as i8
        }
    }
}

impl vstd::std_specs::ops::MulSpecImpl<Percentage> for i8 {
    open spec fn obeys_mul_spec() -> bool {
        true
    }

    open spec fn mul_req(self, rhs: Percentage) -> bool {
        true
    }

    open spec fn mul_spec(self, rhs: Percentage) -> i8 {
        clamp(scaled(self as int, rhs@), i8::MIN as int, i8::MAX as int) as i8
    }
}

impl core::ops::MulAssign<Percentage> for i8 {
    /// Replaces this number by `rhs` of it, as `*` does.
    fn mul_assign(&mut self, rhs: Percentage)
        ensures
            *final(self) == clamp(scaled(*old(self) as int, rhs@), i8::MIN as int, i8::MAX as int),
    {
        *self = *self * rhs;
    }
}

impl core::ops::AddAssign<i8> for Percentage {
    /// Adds `rhs` as a whole (`1` adds `100%`), saturated.
    fn add_assign(&mut self, rhs: i8)
        ensures
            final(self)@ == saturate(old(self)@ + rhs as int * 10000),
    {
        let (negative, n) = parts_of(rhs as i128);
        *self = self.plus_whole_parts(negative, n);
    }
}

impl Percent for i16 {
    open spec fn number(&self) -> int {
        *self as int
    }

    fn percent(self) -> (r: Percentage) {
        let (negative, n) = parts_of(self as i128);
        Percentage::from_percent_parts(negative, n)
    }
}

impl core::ops::Add<Percentage> for i16 {
    type Output = Percentage;

    /// `rhs` plus this number as a whole (`1` adds `100%`), saturated
    /// only past the largest percentage.
    fn add(self, rhs: Percentage) -> (r: Percentage)
        ensures
            r@ == saturate(rhs@ + self as int * 10000),
    {
        let (negative, n) = parts_of(self as i128);
        rhs.plus_whole_parts(negative, n)
    }
}

impl vstd::std_specs::ops::AddSpecImpl<Percentage> for i16 {
    open spec fn obeys_add_spec() -> bool {
        true
    }

    open spec fn add_req(self, rhs: Percentage) -> bool {
        true
    }

    open spec fn add_spec(self, rhs: Percentage) -> Percentage {
        Percentage::canonical(saturate(rhs@ + self as int * 10000))
    }
}

impl core::ops::Mul<Percentage> for i16 {
    type Output = i16;

    /// `rhs` of this number, rounded toward zero and saturated at the
    /// bounds of `i16`: `12 * 50.percent()` is `6`.
    fn mul(self, rhs: Percentage) -> (r: i16)
        ensures
            r == clamp(scaled(self as int, rhs@), i16::MIN as int, i16::MAX as int),
    {
        let (negative, n) = parts_of(self as i128);
        let (negative, m) = rhs.scale_parts(negative, n, i16::MAX as u128 + 1, i16::MAX as u128);
        if negative {
            if m == i16::MAX as u128 + 1 {
                i16::MIN
            } else {
                -(m as i16)
            }
        } else {
            m as i16
        }
    }
}

impl vstd::std_specs::ops::MulSpecImpl<Percentage> for i16 {
    open spec fn obeys_mul_spec() -> bool {
        true
    }

    open spec fn mul_req(self, rhs: Percentage) -> bool {
        true
    }

    open spec fn mul_spec(self, rhs: Percentage) -> i16 {
        clamp(scaled(self as int, rhs@), i16::MIN as int, i16::MAX as int) as i16
    }
}

impl core::ops::MulAssign<Percentage> for i16 {
    /// Replaces this number by `rhs` of it, as `*` does.
    fn mul_assign(&mut self, rhs: Percentage)
        ensures
            *final(self) == clamp(scaled(*old(self) as int, rhs@), i16::MIN as int, i16::MAX as int),
    {
        *self = *self * rhs;
    }
}

impl core::ops::AddAssign<i16> for Percentage {
    /// Adds `rhs` as a whole (`1` adds `100%`), saturated.
    fn add_assign(&mut self, rhs: i16)
        ensures
            final(self)@ == saturate(old(self)@ + rhs as int * 10000),
    {
        let (negative, n) = parts_of(rhs as i128);
        *self = self.plus_whole_parts(negative, n);
    }
}

impl Percent for i32 {
    open spec fn number(&self) -> int {
        *self as int
    }

    fn percent(self) -> (r: Percentage) {
        let (negative, n) = parts_of(self as i128);
        Percentage::from_percent_parts(negative, n)
    }
}

impl core::ops::Add<Percentage> for i32 {
    type Output = Percentage;

    /// `rhs` plus this number as a whole (`1` adds `100%`), saturated
    /// only past the largest percentage.
    fn add(self, rhs: Percentage) -> (r: Percentage)
        ensures
            r@ == saturate(rhs@ + self as int * 10000),
    {
        let (negative, n) = parts_of(self as i128);
        rhs.plus_whole_parts(negative, n)
    }
}

impl vstd::std_specs::ops::AddSpecImpl<Percentage> for i32 {
    open spec fn obeys_add_spec() -> bool {
        true
    }

    open spec fn add_req(self, rhs: Percentage) -> bool {
        true
    }

    open spec fn add_spec(self, rhs: Percentage) -> Percentage {
        Percentage::canonical(saturate(rhs@ + self as int * 10000))
    }
}

impl core::ops::Mul<Percentage> for i32 {
    type Output = i32;

    /// `rhs` of this number, rounded toward zero and saturated at the
    /// bounds of `i32`: `12 * 50.percent()` is `6`.
    fn mul(self, rhs: Percentage) -> (r: i32)
        ensures
            r == clamp(scaled(self as int, rhs@), i32::MIN as int, i32::MAX as int),
    {
        let (negative, n) = parts_of(self as i128);
        let (negative, m) = rhs.scale_parts(negative, n, i32::MAX as u128 + 1, i32::MAX as u128);
        if negative {
            if m == i32::MAX as u128 + 1 {
                i32::MIN
            } else {
                -(m as i32)
            }
        } else {
            m as i32
        }
    }
}

impl vstd::std_specs::ops::MulSpecImpl<Percentage> for i32 {
    open spec fn obeys_mul_spec() -> bool {
        true
    }

    open spec fn mul_req(self, rhs: Percentage) -> bool {
        true
    }

    open spec fn mul_spec(self, rhs: Percentage) -> i32 {
        clamp(scaled(self as int, rhs@), i32::MIN as int, i32::MAX as int) as i32
    }
}

impl core::ops::MulAssign<Percentage> for i32 {
    /// Replaces this number by `rhs` of it, as `*` does.
    fn mul_assign(&mut self, rhs: Percentage)
        ensures
            *final(self) == clamp(scaled(*old(self) as int, rhs@), i32::MIN as int, i32::MAX as int),
    {
        *self = *self * rhs;
    }
}

impl core::ops::AddAssign<i32> for Percentage {
    /// Adds `rhs` as a whole (`1` adds `100%`), saturated.
    fn add_assign(&mut self, rhs: i32)
        ensures
            final(self)@ == saturate(old(self)@ + rhs as int * 10000),
    {
        let (negative, n) = parts_of(rhs as i128);
        *self = self.plus_whole_parts(negative, n);
    }
}

impl Percent for i64 {
    open spec fn number(&self) -> int {
        *self as int
    }

    fn percent(self) -> (r: Percentage) {
        let (negative, n) = parts_of(self as i128);
        Percentage::from_percent_parts(negative, n)
    }
}

impl core::ops::Add<Percentage> for i64 {
    type Output = Percentage;

    /// `rhs` plus this number as a whole (`1` adds `100%`), saturated
    /// only past the largest percentage.
    fn add(self, rhs: Percentage) -> (r: Percentage)
        ensures
            r@ == saturate(rhs@ + self as int * 10000),
    {
        let (negative, n) = parts_of(self as i128);
        rhs.plus_whole_parts(negative, n)
    }
}

impl vstd::std_specs::ops::AddSpecImpl<Percentage> for i64 {
    open spec fn obeys_add_spec() -> bool {
        true
    }

    open spec fn add_req(self, rhs: Percentage) -> bool {
        true
    }

    open spec fn add_spec(self, rhs: Percentage) -> Percentage {
        Percentage::canonical(saturate(rhs@ + self as int * 10000))
    }
}

impl core::ops::Mul<Percentage> for i64 {
    type Output = i64;

    /// `rhs` of this number, rounded toward zero and saturated at the
    /// bounds of `i64`: `12 * 50.percent()` is `6`.
    fn mul(self, rhs: Percentage) -> (r: i64)
        ensures
            r == clamp(scaled(self as int, rhs@), i64::MIN as int, i64::MAX as int),
    {
        let (negative, n) = parts_of(self as i128);
        let (negative, m) = rhs.scale_parts(negative, n, i64::MAX as u128 + 1, i64::MAX as u128);
        if negative {
            if m == i64::MAX as u128 + 1 {
                i64::MIN
            } else {
                -(m as i64)
            }
        } else {
            m as i64
        }
    }
}

impl vstd::std_specs::ops::MulSpecImpl<Percentage> for i64 {
    open spec fn obeys_mul_spec() -> bool {
        true
    }

    open spec fn mul_req(self, rhs: Percentage) -> bool {
        true
    }

    open spec fn mul_spec(self, rhs: Percentage) -> i64 {
        clamp(scaled(self as int, rhs@), i64::MIN as int, i64::MAX as int) as i64
    }
}

impl core::ops::MulAssign<Percentage> for i64 {
    /// Replaces this number by `rhs` of it, as `*` does.
    fn mul_assign(&mut self, rhs: Percentage)
        ensures
            *final(self) == clamp(scaled(*old(self) as int, rhs@), i64::MIN as int, i64::MAX as int),
    {
        *self = *self * rhs;
    }
}

impl core::ops::AddAssign<i64> for Percentage {
    /// Adds `rhs` as a whole (`1` adds `100%`), saturated.
    fn add_assign(&mut self, rhs: i64)
        ensures
            final(self)@ == saturate(old(self)@ + rhs as int * 10000),
    {
        let (negative, n) = parts_of(rhs as i128);
        *self = self.plus_whole_parts(negative, n);
    }
}

impl Percent for i128 {
    open spec fn number(&self) -> int {
        *self as int
    }

    fn percent(self) -> (r: Percentage) {
        let (negative, n) = parts_of(self as i128);
        Percentage::from_percent_parts(negative, n)
    }
}

impl core::ops::Add<Percentage> for i128 {
    type Output = Percentage;

    /// `rhs` plus this number as a whole (`1` adds `100%`), saturated
    /// only past the largest percentage.
    fn add(self, rhs: Percentage) -> (r: Percentage)
        ensures
            r@ == saturate(rhs@ + self as int * 10000),
    {
        let (negative, n) = parts_of(self as i128);
        rhs.plus_whole_parts(negative, n)
    }
}

impl vstd::std_specs::ops::AddSpecImpl<Percentage> for i128 {
    open spec fn obeys_add_spec() -> bool {
        true
    }

    open spec fn add_req(self, rhs: Percentage) -> bool {
        true
    }

    open spec fn add_spec(self, rhs: Percentage) -> Percentage {
        Percentage::canonical(saturate(rhs@ + self as int * 10000))
    }
}

impl core::ops::Mul<Percentage> for i128 {
    type Output = i128;

    /// `rhs` of this number, rounded toward zero and saturated at the
    /// bounds of `i128`: `12 * 50.percent()` is `6`.
    fn mul(self, rhs: Percentage) -> (r: i128)
        ensures
            r == clamp(scaled(self as int, rhs@), i128::MIN as int, i128::MAX as int),
    {
        let (negative, n) = parts_of(self as i128);
        let (negative, m) = rhs.scale_parts(negative, n, i128::MAX as u128 + 1, i128::MAX as u128);
        if negative {
            if m == i128::MAX as u128 + 1 {
                i128::MIN
            } else {
                -(m as i128)
            }
        } else {
            m as i128
        }
    }
}

impl vstd::std_specs::ops::MulSpecImpl<Percentage> for i128 {
    open spec fn obeys_mul_spec() -> bool {
        true
    }

    open spec fn mul_req(self, rhs: Percentage) -> bool {
        true
    }

    open spec fn mul_spec(self, rhs: Percentage) -> i128 {
        clamp(scaled(self as int, rhs@), i128::MIN as int, i128::MAX as int) as i128
    }
}

impl core::ops::MulAssign<Percentage> for i128 {
    /// Replaces this number by `rhs` of it, as `*` does.
    fn mul_assign(&mut self, rhs: Percentage)
        ensures
            *final(self) == clamp(scaled(*old(self) as int, rhs@), i128::MIN as int, i128::MAX as int),
    {
        *self = *self * rhs;
    }
}

impl core::ops::AddAssign<i128> for Percentage {
    /// Adds `rhs` as a whole (`1` adds `100%`), saturated.
    fn add_assign(&mut self, rhs: i128)
        ensures
            final(self)@ == saturate(old(self)@ + rhs as int * 10000),
    {
        let (negative, n) = parts_of(rhs as i128);
        *self = self.plus_whole_parts(negative, n);
    }
}

} // verus!
