use vstd::prelude::*;

use crate::codec::{integer_text, parse_spec, parse_integer, format_signed_magnitude, SeximalError};
use crate::codec::lemma_parse_integer_text;
use crate::si12::Si12;
use crate::si144::Si144;
use crate::si24::Si24;
use crate::si332::Si332;
use crate::si52::Si52;
use crate::sisize::Sisize;
use crate::su12::Su12;
use crate::su144::Su144;
use crate::su24::Su24;
use crate::su332::Su332;
use crate::su52::Su52;

verus! {

/// `Susize` is the seximal equivalent of `usize`.
#[derive(Copy, Clone, Debug, PartialEq, Eq, PartialOrd, Ord)]
pub struct Susize {
    value: usize,
}

impl View for Susize {
    type V = int;

    closed spec fn view(&self) -> int {
        self.value as int
    }
}

impl Susize {
    /// Returns a new instance of `Susize` with the given value.
    pub fn new(value: usize) -> (r: Susize)
        ensures
            r@ == value as int,
    {
        Susize { value }
    }

    /// Returns a result containing a new instance of `Susize` parsed from a
    /// string representation of the value in seximal form.
    pub fn from(input: &str) -> (r: Result<Susize, SeximalError>)
        ensures
            match parse_spec(input@, false, usize::MAX as nat, usize::MAX as nat) {
                Ok(p) => r matches Ok(v) && v@ == p.1 as int,
                Err(e) => r matches Err(e2) && e2 == e,
            },
    {
        match parse_integer(input, false, usize::MAX as u128, usize::MAX as u128) {
            Ok(p) => Ok(Susize { value: p.1 as usize }),
            Err(e) => Err(e),
        }
    }

    /// Returns the value of the instance in decimal form.
    pub fn value(&self) -> (r: usize)
        ensures
            r as int == self@,
    {
        self.value
    }

    /// Returns the seximal text of the value.
    pub fn to_string(&self) -> (r: String)
        ensures
            r@ == integer_text(self@),
    {
        format_signed_magnitude(false, self.value as u128)
    }

    /// Returns an instance of `Sisize` with the value of this instance,
    /// following native cast semantics on overflow.
    pub fn as_sisize(&self) -> (r: Sisize)
        ensures
            self@ <= isize::MAX ==> r@ == self@,
    {
        Sisize::new(#[verifier::truncate] (self.value as isize))
    }

    /// Returns an instance of `Si332` with the value of this instance.
    pub fn as_si332(&self) -> (r: Si332)
        ensures
            r@ == self@,
    {
        Si332::new(self.value as i128)
    }

    /// Returns an instance of `Si144` with the value of this instance,
    /// following native cast semantics on overflow.
    pub fn as_si144(&self) -> (r: Si144)
        ensures
            self@ <= i64::MAX ==> r@ == self@,
    {
        Si144::new(#[verifier::truncate] (self.value as i64))
    }

    /// Returns an instance of `Si52` with the value of this instance,
    /// following native cast semantics on overflow.
    pub fn as_si52(&self) -> (r: Si52)
        ensures
            self@ <= i32::MAX ==> r@ == self@,
    {
        Si52::new(#[verifier::truncate] (self.value as i32))
    }

    /// Returns an instance of `Si24` with the value of this instance,
    /// following native cast semantics on overflow.
    pub fn as_si24(&self) -> (r: Si24)
        ensures
            self@ <= i16::MAX ==> r@ == self@,
    {
        Si24::new(#[verifier::truncate] (self.value as i16))
    }

    /// Returns an instance of `Si12` with the value of this instance,
    /// following native cast semantics on overflow.
    pub fn as_si12(&self) -> (r: Si12)
        ensures
            self@ <= i8::MAX ==> r@ == self@,
    {
        Si12::new(#[verifier::truncate] (self.value as i8))
    }

    /// Returns an instance of `Su332` with the value of this instance.
    pub fn as_su332(&self) -> (r: Su332)
        ensures
            r@ == self@,
    {
        Su332::new(self.value as u128)
    }

    /// Returns an instance of `Su144` with the value of this instance.
    pub fn as_su144(&self) -> (r: Su144)
        ensures
            r@ == self@,
    {
        Su144::new(self.value as u64)
    }

    /// Returns an instance of `Su52` with the value of this instance,
    /// following native cast semantics on overflow.
    pub fn as_su52(&self) -> (r: Su52)
        ensures
            self@ <= u32::MAX ==> r@ == self@,
    {
        Su52::new(#[verifier::truncate] (self.value as u32))
    }

    /// Returns an instance of `Su24` with the value of this instance,
    /// following native cast semantics on overflow.
    pub fn as_su24(&self) -> (r: Su24)
        ensures
            self@ <= u16::MAX ==> r@ == self@,
    {
        Su24::new(#[verifier::truncate] (self.value as u16))
    }

    /// Returns an instance of `Su12` with the value of this instance,
    /// following native cast semantics on overflow.
    pub fn as_su12(&self) -> (r: Su12)
        ensures
            self@ <= u8::MAX ==> r@ == self@,
    {
        Su12::new(#[verifier::truncate] (self.value as u8))
    }
}

// ----- Native Arithmetic Operators -----

impl core::ops::Add for Susize {
    type Output = Susize;

    fn add(self, rhs: Susize) -> Susize {
        Susize { value: self.value + rhs.value }
    }
}

impl vstd::std_specs::ops::AddSpecImpl for Susize {
    open spec fn obeys_add_spec() -> bool {
        true
    }

    open spec fn add_req(self, rhs: Susize) -> bool {
        self@ + rhs@ <= usize::MAX
    }

    closed spec fn add_spec(self, rhs: Susize) -> Susize {
        Susize { value: (self@ + rhs@) as usize }
    }
}

impl core::ops::Sub for Susize {
    type Output = Susize;

    fn sub(self, rhs: Susize) -> Susize {
        Susize { value: self.value - rhs.value }
    }
}

impl vstd::std_specs::ops::SubSpecImpl for Susize {
    open spec fn obeys_sub_spec() -> bool {
        true
    }

    open spec fn sub_req(self, rhs: Susize) -> bool {
        self@ - rhs@ >= 0
    }

    closed spec fn sub_spec(self, rhs: Susize) -> Susize {
        Susize { value: (self@ - rhs@) as usize }
    }
}

impl core::ops::Mul for Susize {
    type Output = Susize;

    fn mul(self, rhs: Susize) -> Susize {
        Susize { value: self.value * rhs.value }
    }
}

impl vstd::std_specs::ops::MulSpecImpl for Susize {
    open spec fn obeys_mul_spec() -> bool {
        true
    }

    open spec fn mul_req(self, rhs: Susize) -> bool {
        self@ * rhs@ <= usize::MAX
    }

    closed spec fn mul_spec(self, rhs: Susize) -> Susize {
        Susize { value: (self@ * rhs@) as usize }
    }
}

impl core::ops::Div for Susize {
    type Output = Susize;

    fn div(self, rhs: Susize) -> Susize {
        Susize { value: self.value / rhs.value }
    }
}

impl vstd::std_specs::ops::DivSpecImpl for Susize {
    open spec fn obeys_div_spec() -> bool {
        true
    }

    open spec fn div_req(self, rhs: Susize) -> bool {
        rhs@ != 0
    }

    closed spec fn div_spec(self, rhs: Susize) -> Susize {
        Susize { value: (self@ / rhs@) as usize }
    }
}

impl core::ops::Rem for Susize {
    type Output = Susize;

    fn rem(self, rhs: Susize) -> Susize {
        Susize { value: self.value % rhs.value }
    }
}

impl vstd::std_specs::ops::RemSpecImpl for Susize {
    open spec fn obeys_rem_spec() -> bool {
        true
    }

    open spec fn rem_req(self, rhs: Susize) -> bool {
        rhs@ != 0
    }

    closed spec fn rem_spec(self, rhs: Susize) -> Susize {
        Susize { value: (self@ % rhs@) as usize }
    }
}

// ----- Decimal Arithmetic Operators -----

impl core::ops::Add<usize> for Susize {
    type Output = Susize;

    fn add(self, rhs: usize) -> Susize {
        Susize { value: self.value + rhs }
    }
}

impl vstd::std_specs::ops::AddSpecImpl<usize> for Susize {
    open spec fn obeys_add_spec() -> bool {
        true
    }

    open spec fn add_req(self, rhs: usize) -> bool {
        self@ + rhs <= usize::MAX
    }

    closed spec fn add_spec(self, rhs: usize) -> Susize {
        Susize { value: (self@ + rhs) as usize }
    }
}

impl core::ops::Sub<usize> for Susize {
    type Output = Susize;

    fn sub(self, rhs: usize) -> Susize {
        Susize { value: self.value - rhs }
    }
}

impl vstd::std_specs::ops::SubSpecImpl<usize> for Susize {
    open spec fn obeys_sub_spec() -> bool {
        true
    }

    open spec fn sub_req(self, rhs: usize) -> bool {
        self@ - rhs >= 0
    }

    closed spec fn sub_spec(self, rhs: usize) -> Susize {
        Susize { value: (self@ - rhs) as usize }
    }
}

impl core::ops::Mul<usize> for Susize {
    type Output = Susize;

    fn mul(self, rhs: usize) -> Susize {
        Susize { value: self.value * rhs }
    }
}

impl vstd::std_specs::ops::MulSpecImpl<usize> for Susize {
    open spec fn obeys_mul_spec() -> bool {
        true
    }

    open spec fn mul_req(self, rhs: usize) -> bool {
        self@ * rhs <= usize::MAX
    }

    closed spec fn mul_spec(self, rhs: usize) -> Susize {
        Susize { value: (self@ * rhs) as usize }
    }
}

impl core::ops::Div<usize> for Susize {
    type Output = Susize;

    fn div(self, rhs: usize) -> Susize {
        Susize { value: self.value / rhs }
    }
}

impl vstd::std_specs::ops::DivSpecImpl<usize> for Susize {
    open spec fn obeys_div_spec() -> bool {
        true
    }

    open spec fn div_req(self, rhs: usize) -> bool {
        rhs != 0
    }

    closed spec fn div_spec(self, rhs: usize) -> Susize {
        Susize { value: (self@ / rhs as int) as usize }
    }
}

impl core::ops::Rem<usize> for Susize {
    type Output = Susize;

    fn rem(self, rhs: usize) -> Susize {
        Susize { value: self.value % rhs }
    }
}

impl vstd::std_specs::ops::RemSpecImpl<usize> for Susize {
    open spec fn obeys_rem_spec() -> bool {
        true
    }

    open spec fn rem_req(self, rhs: usize) -> bool {
        rhs != 0
    }

    closed spec fn rem_spec(self, rhs: usize) -> Susize {
        Susize { value: (self@ % rhs as int) as usize }
    }
}

/// Law: every representable `usize` round-trips: parsing the seximal text that
/// `to_string` produces yields back the value.
pub proof fn lemma_susize_round_trip(v: usize)
    ensures
        parse_spec(integer_text(v as int), false, usize::MAX as nat, usize::MAX as nat) == Ok::<
            (bool, nat),
            SeximalError,
        >((false, v as nat)),
{
    lemma_parse_integer_text(v as int, false, usize::MAX as nat, usize::MAX as nat);
}

} // verus!
