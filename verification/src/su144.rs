use vstd::prelude::*;

use crate::codec::{integer_text, parse_spec, parse_integer, format_signed_magnitude, SeximalError};
use crate::codec::lemma_parse_integer_text;
use crate::si12::Si12;
use crate::si144::Si144;
use crate::si24::Si24;
use crate::si332::Si332;
use crate::si52::Si52;
use crate::sisize::Sisize;
use crate::su12::Su12;
use crate::su24::Su24;
use crate::su332::Su332;
use crate::su52::Su52;
use crate::susize::Susize;

verus! {

/// `Su144` is the seximal equivalent of `u64`.
#[derive(Copy, Clone, Debug, PartialEq, Eq, PartialOrd, Ord)]
pub struct Su144 {
    value: u64,
}

impl View for Su144 {
    type V = int;

    closed spec fn view(&self) -> int {
        self.value as int
    }
}

impl Su144 {
    /// Returns a new instance of `Su144` with the given value.
    pub fn new(value: u64) -> (r: Su144)
        ensures
            r@ == value as int,
    {
        Su144 { value }
    }

    /// Returns a result containing a new instance of `Su144` parsed from a
    /// string representation of the value in seximal form.
    pub fn from(input: &str) -> (r: Result<Su144, SeximalError>)
        ensures
            match parse_spec(input@, false, u64::MAX as nat, u64::MAX as nat) {
                Ok(p) => r matches Ok(v) && v@ == p.1 as int,
                Err(e) => r matches Err(e2) && e2 == e,
            },
    {
        match parse_integer(input, false, u64::MAX as u128, u64::MAX as u128) {
            Ok(p) => Ok(Su144 { value: p.1 as u64 }),
            Err(e) => Err(e),
        }
    }

    /// Returns the value of the instance in decimal form.
    pub fn value(&self) -> (r: u64)
        ensures
            r as int == self@,
    {
        self.value
    }

    /// Returns the seximal text of the value.
    pub fn to_string(&self) -> (r: String)
        ensures
            r@ == integer_text(self@),
    {
        format_signed_magnitude(false, self.value as u128)
    }

    /// Returns an instance of `Sisize` with the value of this instance,
    /// following native cast semantics on overflow.
    pub fn as_sisize(&self) -> (r: Sisize)
        ensures
            self@ <= isize::MAX ==> r@ == self@,
    {
        Sisize::new(#[verifier::truncate] (self.value as isize))
    }

    /// Returns an instance of `Si332` with the value of this instance.
    pub fn as_si332(&self) -> (r: Si332)
        ensures
            r@ == self@,
    {
        Si332::new(self.value as i128)
    }

    /// Returns an instance of `Si144` with the value of this instance,
    /// following native cast semantics on overflow.
    pub fn as_si144(&self) -> (r: Si144)
        ensures
            self@ <= i64::MAX ==> r@ == self@,
    {
        Si144::new(#[verifier::truncate] (self.value as i64))
    }

    /// Returns an instance of `Si52` with the value of this instance,
    /// following native cast semantics on overflow.
    pub fn as_si52(&self) -> (r: Si52)
        ensures
            self@ <= i32::MAX ==> r@ == self@,
    {
        Si52::new(#[verifier::truncate] (self.value as i32))
    }

    /// Returns an instance of `Si24` with the value of this instance,
    /// following native cast semantics on overflow.
    pub fn as_si24(&self) -> (r: Si24)
        ensures
            self@ <= i16::MAX ==> r@ == self@,
    {
        Si24::new(#[verifier::truncate] (self.value as i16))
    }

    /// Returns an instance of `Si12` with the value of this instance,
    /// following native cast semantics on overflow.
    pub fn as_si12(&self) -> (r: Si12)
        ensures
            self@ <= i8::MAX ==> r@ == self@,
    {
        Si12::new(#[verifier::truncate] (self.value as i8))
    }

    /// Returns an instance of `Susize` with the value of this instance,
    /// following native cast semantics on overflow.
    pub fn as_susize(&self) -> (r: Susize)
        ensures
            self@ <= usize::MAX ==> r@ == self@,
    {
        Susize::new(#[verifier::truncate] (self.value as usize))
    }

    /// Returns an instance of `Su332` with the value of this instance.
    pub fn as_su332(&self) -> (r: Su332)
        ensures
            r@ == self@,
    {
        Su332::new(self.value as u128)
    }

    /// Returns an instance of `Su52` with the value of this instance,
    /// following native cast semantics on overflow.
    pub fn as_su52(&self) -> (r: Su52)
        ensures
            self@ <= u32::MAX ==> r@ == self@,
    {
        Su52::new(#[verifier::truncate] (self.value as u32))
    }

    /// Returns an instance of `Su24` with the value of this instance,
    /// following native cast semantics on overflow.
    pub fn as_su24(&self) -> (r: Su24)
        ensures
            self@ <= u16::MAX ==> r@ == self@,
    {
        Su24::new(#[verifier::truncate] (self.value as u16))
    }

    /// Returns an instance of `Su12` with the value of this instance,
    /// following native cast semantics on overflow.
    pub fn as_su12(&self) -> (r: Su12)
        ensures
            self@ <= u8::MAX ==> r@ == self@,
    {
        Su12::new(#[verifier::truncate] (self.value as u8))
    }
}

// ----- Native Arithmetic Operators -----

impl core::ops::Add for Su144 {
    type Output = Su144;

    fn add(self, rhs: Su144) -> Su144 {
        Su144 { value: self.value + rhs.value }
    }
}

impl vstd::std_specs::ops::AddSpecImpl for Su144 {
    open spec fn obeys_add_spec() -> bool {
        true
    }

    open spec fn add_req(self, rhs: Su144) -> bool {
        self@ + rhs@ <= u64::MAX
    }

    closed spec fn add_spec(self, rhs: Su144) -> Su144 {
        Su144 { value: (self@ + rhs@) as u64 }
    }
}

impl core::ops::Sub for Su144 {
    type Output = Su144;

    fn sub(self, rhs: Su144) -> Su144 {
        Su144 { value: self.value - rhs.value }
    }
}

impl vstd::std_specs::ops::SubSpecImpl for Su144 {
    open spec fn obeys_sub_spec() -> bool {
        true
    }

    open spec fn sub_req(self, rhs: Su144) -> bool {
        self@ - rhs@ >= 0
    }

    closed spec fn sub_spec(self, rhs: Su144) -> Su144 {
        Su144 { value: (self@ - rhs@) as u64 }
    }
}

impl core::ops::Mul for Su144 {
    type Output = Su144;

    fn mul(self, rhs: Su144) -> Su144 {
        Su144 { value: self.value * rhs.value }
    }
}

impl vstd::std_specs::ops::MulSpecImpl for Su144 {
    open spec fn obeys_mul_spec() -> bool {
        true
    }

    open spec fn mul_req(self, rhs: Su144) -> bool {
        self@ * rhs@ <= u64::MAX
    }

    closed spec fn mul_spec(self, rhs: Su144) -> Su144 {
        Su144 { value: (self@ * rhs@) as u64 }
    }
}

impl core::ops::Div for Su144 {
    type Output = Su144;

    fn div(self, rhs: Su144) -> Su144 {
        Su144 { value: self.value / rhs.value }
    }
}

impl vstd::std_specs::ops::DivSpecImpl for Su144 {
    open spec fn obeys_div_spec() -> bool {
        true
    }

    open spec fn div_req(self, rhs: Su144) -> bool {
        rhs@ != 0
    }

    closed spec fn div_spec(self, rhs: Su144) -> Su144 {
        Su144 { value: (self@ / rhs@) as u64 }
    }
}

impl core::ops::Rem for Su144 {
    type Output = Su144;

    fn rem(self, rhs: Su144) -> Su144 {
        Su144 { value: self.value % rhs.value }
    }
}

impl vstd::std_specs::ops::RemSpecImpl for Su144 {
    open spec fn obeys_rem_spec() -> bool {
        true
    }

    open spec fn rem_req(self, rhs: Su144) -> bool {
        rhs@ != 0
    }

    closed spec fn rem_spec(self, rhs: Su144) -> Su144 {
        Su144 { value: (self@ % rhs@) as u64 }
    }
}

// ----- Decimal Arithmetic Operators -----

impl core::ops::Add<u64> for Su144 {
    type Output = Su144;

    fn add(self, rhs: u64) -> Su144 {
        Su144 { value: self.value + rhs }
    }
}

impl vstd::std_specs::ops::AddSpecImpl<u64> for Su144 {
    open spec fn obeys_add_spec() -> bool {
        true
    }

    open spec fn add_req(self, rhs: u64) -> bool {
        self@ + rhs <= u64::MAX
    }

    closed spec fn add_spec(self, rhs: u64) -> Su144 {
        Su144 { value: (self@ + rhs) as u64 }
    }
}

impl core::ops::Sub<u64> for Su144 {
    type Output = Su144;

    fn sub(self, rhs: u64) -> Su144 {
        Su144 { value: self.value - rhs }
    }
}

impl vstd::std_specs::ops::SubSpecImpl<u64> for Su144 {
    open spec fn obeys_sub_spec() -> bool {
        true
    }

    open spec fn sub_req(self, rhs: u64) -> bool {
        self@ - rhs >= 0
    }

    closed spec fn sub_spec(self, rhs: u64) -> Su144 {
        Su144 { value: (self@ - rhs) as u64 }
    }
}

impl core::ops::Mul<u64> for Su144 {
    type Output = Su144;

    fn mul(self, rhs: u64) -> Su144 {
        Su144 { value: self.value * rhs }
    }
}

impl vstd::std_specs::ops::MulSpecImpl<u64> for Su144 {
    open spec fn obeys_mul_spec() -> bool {
        true
    }

    open spec fn mul_req(self, rhs: u64) -> bool {
        self@ * rhs <= u64::MAX
    }

    closed spec fn mul_spec(self, rhs: u64) -> Su144 {
        Su144 { value: (self@ * rhs) as u64 }
    }
}

impl core::ops::Div<u64> for Su144 {
    type Output = Su144;

    fn div(self, rhs: u64) -> Su144 {
        Su144 { value: self.value / rhs }
    }
}

impl vstd::std_specs::ops::DivSpecImpl<u64> for Su144 {
    open spec fn obeys_div_spec() -> bool {
        true
    }

    open spec fn div_req(self, rhs: u64) -> bool {
        rhs != 0
    }

    closed spec fn div_spec(self, rhs: u64) -> Su144 {
        Su144 { value: (self@ / rhs as int) as u64 }
    }
}

impl core::ops::Rem<u64> for Su144 {
    type Output = Su144;

    fn rem(self, rhs: u64) -> Su144 {
        Su144 { value: self.value % rhs }
    }
}

impl vstd::std_specs::ops::RemSpecImpl<u64> for Su144 {
    open spec fn obeys_rem_spec() -> bool {
        true
    }

    open spec fn rem_req(self, rhs: u64) -> bool {
        rhs != 0
    }

    closed spec fn rem_spec(self, rhs: u64) -> Su144 {
        Su144 { value: (self@ % rhs as int) as u64 }
    }
}

/// Law: every representable `u64` round-trips: parsing the seximal text that
/// `to_string` produces yields back the value.
pub proof fn lemma_su144_round_trip(v: u64)
    ensures
        parse_spec(integer_text(v as int), false, u64::MAX as nat, u64::MAX as nat) == Ok::<
            (bool, nat),
            SeximalError,
        >((false, v as nat)),
{
    lemma_parse_integer_text(v as int, false, u64::MAX as nat, u64::MAX as nat);
}

} // verus!
