use vstd::prelude::*;

use crate::codec::{integer_text, parse_spec, parse_integer, format_signed_magnitude, SeximalError};
use crate::codec::lemma_parse_integer_text;
use crate::si12::Si12;
use crate::si144::Si144;
use crate::si24::Si24;
use crate::si332::Si332;
use crate::si52::Si52;
use crate::sisize::Sisize;
use crate::su12::Su12;
use crate::su144::Su144;
use crate::su332::Su332;
use crate::su52::Su52;
use crate::susize::Susize;

verus! {

/// `Su24` is the seximal equivalent of `u16`.
#[derive(Copy, Clone, Debug, PartialEq, Eq, PartialOrd, Ord)]
pub struct Su24 {
    value: u16,
}

impl View for Su24 {
    type V = int;

    closed spec fn view(&self) -> int {
        self.value as int
    }
}

impl Su24 {
    /// Returns a new instance of `Su24` with the given value.
    pub fn new(value: u16) -> (r: Su24)
        ensures
            r@ == value as int,
    {
        Su24 { value }
    }

    /// Returns a result containing a new instance of `Su24` parsed from a
    /// string representation of the value in seximal form.
    pub fn from(input: &str) -> (r: Result<Su24, SeximalError>)
        ensures
            match parse_spec(input@, false, u16::MAX as nat, u16::MAX as nat) {
                Ok(p) => r matches Ok(v) && v@ == p.1 as int,
                Err(e) => r matches Err(e2) && e2 == e,
            },
    {
        match parse_integer(input, false, u16::MAX as u128, u16::MAX as u128) {
            Ok(p) => Ok(Su24 { value: p.1 as u16 }),
            Err(e) => Err(e),
        }
    }

    /// Returns the value of the instance in decimal form.
    pub fn value(&self) -> (r: u16)
        ensures
            r as int == self@,
    {
        self.value
    }

    /// Returns the seximal text of the value.
    pub fn to_string(&self) -> (r: String)
        ensures
            r@ == integer_text(self@),
    {
        format_signed_magnitude(false, self.value as u128)
    }

    /// Returns an instance of `Sisize` with the value of this instance.
    pub fn as_sisize(&self) -> (r: Sisize)
        ensures
            r@ == self@,
    {
        Sisize::new(self.value as isize)
    }

    /// Returns an instance of `Si332` with the value of this instance.
    pub fn as_si332(&self) -> (r: Si332)
        ensures
            r@ == self@,
    {
        Si332::new(self.value as i128)
    }

    /// Returns an instance of `Si144` with the value of this instance.
    pub fn as_si144(&self) -> (r: Si144)
        ensures
            r@ == self@,
    {
        Si144::new(self.value as i64)
    }

    /// Returns an instance of `Si52` with the value of this instance.
    pub fn as_si52(&self) -> (r: Si52)
        ensures
            r@ == self@,
    {
        Si52::new(self.value as i32)
    }

    /// Returns an instance of `Si24` with the value of this instance,
    /// following native cast semantics on overflow.
    pub fn as_si24(&self) -> (r: Si24)
        ensures
            self@ <= i16::MAX ==> r@ == self@,
    {
        Si24::new(#[verifier::truncate] (self.value as i16))
    }

    /// Returns an instance of `Si12` with the value of this instance,
    /// following native cast semantics on overflow.
    pub fn as_si12(&self) -> (r: Si12)
        ensures
            self@ <= i8::MAX ==> r@ == self@,
    {
        Si12::new(#[verifier::truncate] (self.value as i8))
    }

    /// Returns an instance of `Susize` with the value of this instance.
    pub fn as_susize(&self) -> (r: Susize)
        ensures
            r@ == self@,
    {
        Susize::new(self.value as usize)
    }

    /// Returns an instance of `Su332` with the value of this instance.
    pub fn as_su332(&self) -> (r: Su332)
        ensures
            r@ == self@,
    {
        Su332::new(self.value as u128)
    }

    /// Returns an instance of `Su144` with the value of this instance.
    pub fn as_su144(&self) -> (r: Su144)
        ensures
            r@ == self@,
    {
        Su144::new(self.value as u64)
    }

    /// Returns an instance of `Su52` with the value of this instance.
    pub fn as_su52(&self) -> (r: Su52)
        ensures
            r@ == self@,
    {
        Su52::new(self.value as u32)
    }

    /// Returns an instance of `Su12` with the value of this instance,
    /// following native cast semantics on overflow.
    pub fn as_su12(&self) -> (r: Su12)
        ensures
            self@ <= u8::MAX ==> r@ == self@,
    {
        Su12::new(#[verifier::truncate] (self.value as u8))
    }
}

// ----- Native Arithmetic Operators -----

impl core::ops::Add for Su24 {
    type Output = Su24;

    fn add(self, rhs: Su24) -> Su24 {
        Su24 { value: self.value + rhs.value }
    }
}

impl vstd::std_specs::ops::AddSpecImpl for Su24 {
    open spec fn obeys_add_spec() -> bool {
        true
    }

    open spec fn add_req(self, rhs: Su24) -> bool {
        self@ + rhs@ <= u16::MAX
    }

    closed spec fn add_spec(self, rhs: Su24) -> Su24 {
        Su24 { value: (self@ + rhs@) as u16 }
    }
}

impl core::ops::Sub for Su24 {
    type Output = Su24;

    fn sub(self, rhs: Su24) -> Su24 {
        Su24 { value: self.value - rhs.value }
    }
}

impl vstd::std_specs::ops::SubSpecImpl for Su24 {
    open spec fn obeys_sub_spec() -> bool {
        true
    }

    open spec fn sub_req(self, rhs: Su24) -> bool {
        self@ - rhs@ >= 0
    }

    closed spec fn sub_spec(self, rhs: Su24) -> Su24 {
        Su24 { value: (self@ - rhs@) as u16 }
    }
}

impl core::ops::Mul for Su24 {
    type Output = Su24;

    fn mul(self, rhs: Su24) -> Su24 {
        Su24 { value: self.value * rhs.value }
    }
}

impl vstd::std_specs::ops::MulSpecImpl for Su24 {
    open spec fn obeys_mul_spec() -> bool {
        true
    }

    open spec fn mul_req(self, rhs: Su24) -> bool {
        self@ * rhs@ <= u16::MAX
    }

    closed spec fn mul_spec(self, rhs: Su24) -> Su24 {
        Su24 { value: (self@ * rhs@) as u16 }
    }
}

impl core::ops::Div for Su24 {
    type Output = Su24;

    fn div(self, rhs: Su24) -> Su24 {
        Su24 { value: self.value / rhs.value }
    }
}

impl vstd::std_specs::ops::DivSpecImpl for Su24 {
    open spec fn obeys_div_spec() -> bool {
        true
    }

    open spec fn div_req(self, rhs: Su24) -> bool {
        rhs@ != 0
    }

    closed spec fn div_spec(self, rhs: Su24) -> Su24 {
        Su24 { value: (self@ / rhs@) as u16 }
    }
}

impl core::ops::Rem for Su24 {
    type Output = Su24;

    fn rem(self, rhs: Su24) -> Su24 {
        Su24 { value: self.value % rhs.value }
    }
}

impl vstd::std_specs::ops::RemSpecImpl for Su24 {
    open spec fn obeys_rem_spec() -> bool {
        true
    }

    open spec fn rem_req(self, rhs: Su24) -> bool {
        rhs@ != 0
    }

    closed spec fn rem_spec(self, rhs: Su24) -> Su24 {
        Su24 { value: (self@ % rhs@) as u16 }
    }
}

// ----- Decimal Arithmetic Operators -----

impl core::ops::Add<u16> for Su24 {
    type Output = Su24;

    fn add(self, rhs: u16) -> Su24 {
        Su24 { value: self.value + rhs }
    }
}

impl vstd::std_specs::ops::AddSpecImpl<u16> for Su24 {
    open spec fn obeys_add_spec() -> bool {
        true
    }

    open spec fn add_req(self, rhs: u16) -> bool {
        self@ + rhs <= u16::MAX
    }

    closed spec fn add_spec(self, rhs: u16) -> Su24 {
        Su24 { value: (self@ + rhs) as u16 }
    }
}

impl core::ops::Sub<u16> for Su24 {
    type Output = Su24;

    fn sub(self, rhs: u16) -> Su24 {
        Su24 { value: self.value - rhs }
    }
}

impl vstd::std_specs::ops::SubSpecImpl<u16> for Su24 {
    open spec fn obeys_sub_spec() -> bool {
        true
    }

    open spec fn sub_req(self, rhs: u16) -> bool {
        self@ - rhs >= 0
    }

    closed spec fn sub_spec(self, rhs: u16) -> Su24 {
        Su24 { value: (self@ - rhs) as u16 }
    }
}

impl core::ops::Mul<u16> for Su24 {
    type Output = Su24;

    fn mul(self, rhs: u16) -> Su24 {
        Su24 { value: self.value * rhs }
    }
}

impl vstd::std_specs::ops::MulSpecImpl<u16> for Su24 {
    open spec fn obeys_mul_spec() -> bool {
        true
    }

    open spec fn mul_req(self, rhs: u16) -> bool {
        self@ * rhs <= u16::MAX
    }

    closed spec fn mul_spec(self, rhs: u16) -> Su24 {
        Su24 { value: (self@ * rhs) as u16 }
    }
}

impl core::ops::Div<u16> for Su24 {
    type Output = Su24;

    fn div(self, rhs: u16) -> Su24 {
        Su24 { value: self.value / rhs }
    }
}

impl vstd::std_specs::ops::DivSpecImpl<u16> for Su24 {
    open spec fn obeys_div_spec() -> bool {
        true
    }

    open spec fn div_req(self, rhs: u16) -> bool {
        rhs != 0
    }

    closed spec fn div_spec(self, rhs: u16) -> Su24 {
        Su24 { value: (self@ / rhs as int) as u16 }
    }
}

impl core::ops::Rem<u16> for Su24 {
    type Output = Su24;

    fn rem(self, rhs: u16) -> Su24 {
        Su24 { value: self.value % rhs }
    }
}

impl vstd::std_specs::ops::RemSpecImpl<u16> for Su24 {
    open spec fn obeys_rem_spec() -> bool {
        true
    }

    open spec fn rem_req(self, rhs: u16) -> bool {
        rhs != 0
    }

    closed spec fn rem_spec(self, rhs: u16) -> Su24 {
        Su24 { value: (self@ % rhs as int) as u16 }
    }
}

/// Law: every representable `u16` round-trips: parsing the seximal text that
/// `to_string` produces yields back the value.
pub proof fn lemma_su24_round_trip(v: u16)
    ensures
        parse_spec(integer_text(v as int), false, u16::MAX as nat, u16::MAX as nat) == Ok::<
            (bool, nat),
            SeximalError,
        >((false, v as nat)),
{
    lemma_parse_integer_text(v as int, false, u16::MAX as nat, u16::MAX as nat);
}

} // verus!
