use vstd::prelude::*;

use crate::codec::{integer_text, parse_spec, parse_integer, format_signed_magnitude, SeximalError};
use crate::codec::{seximal_digits, pow6, lemma_seximal_digits_canonical, lemma_magnitude_lower_bound, lemma_pow6_increases, lemma_parse_integer_text};
use crate::si144::Si144;
use crate::si24::Si24;
use crate::si332::Si332;
use crate::si52::Si52;
use crate::sisize::Sisize;
use crate::su12::Su12;
use crate::su144::Su144;
use crate::su24::Su24;
use crate::su332::Su332;
use crate::su52::Su52;
use crate::susize::Susize;

verus! {

/// `Si12` is the seximal equivalent of `i8`.
#[derive(Copy, Clone, Debug, PartialEq, Eq, PartialOrd, Ord)]
pub struct Si12 {
    value: i8,
}

impl View for Si12 {
    type V = int;

    closed spec fn view(&self) -> int {
        self.value as int
    }
}

impl Si12 {
    /// Returns a new instance of `Si12` with the given value.
    pub fn new(value: i8) -> (r: Si12)
        ensures
            r@ == value as int,
    {
        Si12 { value }
    }

    /// Returns a result containing a new instance of `Si12` parsed from a
    /// string representation of the value in seximal form.
    pub fn from(input: &str) -> (r: Result<Si12, SeximalError>)
        ensures
            match parse_spec(input@, true, i8::MAX as nat, i8::MAX as nat + 1) {
                Ok(p) => r matches Ok(v) && v@ == (if p.0 {
                    -(p.1 as int)
                } else {
                    p.1 as int
                }),
                Err(e) => r matches Err(e2) && e2 == e,
            },
    {
        match parse_integer(input, true, i8::MAX as u128, i8::MAX as u128 + 1) {
            Ok((neg, m)) => {
                if neg {
                    if m > i8::MAX as u128 {
                        Ok(Si12 { value: i8::MIN })
                    } else {
                        Ok(Si12 { value: -(m as i8) })
                    }
                } else {
                    Ok(Si12 { value: m as i8 })
                }
            },
            Err(e) => Err(e),
        }
    }

    /// Returns the value of the instance in decimal form.
    pub fn value(&self) -> (r: i8)
        ensures
            r as int == self@,
    {
        self.value
    }

    /// Returns the seximal text of the value.
    pub fn to_string(&self) -> (r: String)
        ensures
            r@ == integer_text(self@),
    {
        if self.value < 0 {
            let m = -(self.value as i128);
            format_signed_magnitude(true, m as u128)
        } else {
            format_signed_magnitude(false, self.value as u128)
        }
    }

    /// Returns an instance of `Sisize` with the value of this instance.
    pub fn as_sisize(&self) -> (r: Sisize)
        ensures
            r@ == self@,
    {
        Sisize::new(self.value as isize)
    }

    /// Returns an instance of `Si332` with the value of this instance.
    pub fn as_si332(&self) -> (r: Si332)
        ensures
            r@ == self@,
    {
        Si332::new(self.value as i128)
    }

    /// Returns an instance of `Si144` with the value of this instance.
    pub fn as_si144(&self) -> (r: Si144)
        ensures
            r@ == self@,
    {
        Si144::new(self.value as i64)
    }

    /// Returns an instance of `Si52` with the value of this instance.
    pub fn as_si52(&self) -> (r: Si52)
        ensures
            r@ == self@,
    {
        Si52::new(self.value as i32)
    }

    /// Returns an instance of `Si24` with the value of this instance.
    pub fn as_si24(&self) -> (r: Si24)
        ensures
            r@ == self@,
    {
        Si24::new(self.value as i16)
    }

    /// Returns an instance of `Susize` with the value of this instance,
    /// following native cast semantics for negative values.
    pub fn as_susize(&self) -> (r: Susize)
        ensures
            0 <= self@ ==> r@ == self@,
    {
        Susize::new(#[verifier::truncate] (self.value as usize))
    }

    /// Returns an instance of `Su332` with the value of this instance,
    /// following native cast semantics for negative values.
    pub fn as_su332(&self) -> (r: Su332)
        ensures
            0 <= self@ ==> r@ == self@,
    {
        Su332::new(#[verifier::truncate] (self.value as u128))
    }

    /// Returns an instance of `Su144` with the value of this instance,
    /// following native cast semantics for negative values.
    pub fn as_su144(&self) -> (r: Su144)
        ensures
            0 <= self@ ==> r@ == self@,
    {
        Su144::new(#[verifier::truncate] (self.value as u64))
    }

    /// Returns an instance of `Su52` with the value of this instance,
    /// following native cast semantics for negative values.
    pub fn as_su52(&self) -> (r: Su52)
        ensures
            0 <= self@ ==> r@ == self@,
    {
        Su52::new(#[verifier::truncate] (self.value as u32))
    }

    /// Returns an instance of `Su24` with the value of this instance,
    /// following native cast semantics for negative values.
    pub fn as_su24(&self) -> (r: Su24)
        ensures
            0 <= self@ ==> r@ == self@,
    {
        Su24::new(#[verifier::truncate] (self.value as u16))
    }

    /// Returns an instance of `Su12` with the value of this instance,
    /// following native cast semantics for negative values.
    pub fn as_su12(&self) -> (r: Su12)
        ensures
            0 <= self@ ==> r@ == self@,
    {
        Su12::new(#[verifier::truncate] (self.value as u8))
    }
}

// ----- Native Arithmetic Operators -----

impl core::ops::Add for Si12 {
    type Output = Si12;

    fn add(self, rhs: Si12) -> Si12 {
        Si12 { value: self.value + rhs.value }
    }
}

impl vstd::std_specs::ops::AddSpecImpl for Si12 {
    open spec fn obeys_add_spec() -> bool {
        true
    }

    open spec fn add_req(self, rhs: Si12) -> bool {
        i8::MIN <= self@ + rhs@ <= i8::MAX
    }

    closed spec fn add_spec(self, rhs: Si12) -> Si12 {
        Si12 { value: (self@ + rhs@) as i8 }
    }
}

impl core::ops::Sub for Si12 {
    type Output = Si12;

    fn sub(self, rhs: Si12) -> Si12 {
        Si12 { value: self.value - rhs.value }
    }
}

impl vstd::std_specs::ops::SubSpecImpl for Si12 {
    open spec fn obeys_sub_spec() -> bool {
        true
    }

    open spec fn sub_req(self, rhs: Si12) -> bool {
        i8::MIN <= self@ - rhs@ <= i8::MAX
    }

    closed spec fn sub_spec(self, rhs: Si12) -> Si12 {
        Si12 { value: (self@ - rhs@) as i8 }
    }
}

impl core::ops::Mul for Si12 {
    type Output = Si12;

    fn mul(self, rhs: Si12) -> Si12 {
        Si12 { value: self.value * rhs.value }
    }
}

impl vstd::std_specs::ops::MulSpecImpl for Si12 {
    open spec fn obeys_mul_spec() -> bool {
        true
    }

    open spec fn mul_req(self, rhs: Si12) -> bool {
        i8::MIN <= self@ * rhs@ <= i8::MAX
    }

    closed spec fn mul_spec(self, rhs: Si12) -> Si12 {
        Si12 { value: (self@ * rhs@) as i8 }
    }
}

impl core::ops::Div for Si12 {
    type Output = Si12;

    fn div(self, rhs: Si12) -> Si12 {
        Si12 { value: self.value / rhs.value }
    }
}

impl vstd::std_specs::ops::DivSpecImpl for Si12 {
    open spec fn obeys_div_spec() -> bool {
        true
    }

    open spec fn div_req(self, rhs: Si12) -> bool {
        rhs@ != 0 && !(self@ == i8::MIN && rhs@ == -1)
    }

    closed spec fn div_spec(self, rhs: Si12) -> Si12 {
        Si12 {
            value: (if self@ >= 0 {
                self@ / rhs@
            } else {
                -((-self@) / rhs@)
            }) as i8,
        }
    }
}

impl core::ops::Rem for Si12 {
    type Output = Si12;

    fn rem(self, rhs: Si12) -> Si12 {
        Si12 { value: self.value % rhs.value }
    }
}

impl vstd::std_specs::ops::RemSpecImpl for Si12 {
    open spec fn obeys_rem_spec() -> bool {
        true
    }

    open spec fn rem_req(self, rhs: Si12) -> bool {
        rhs@ != 0 && !(self@ == i8::MIN && rhs@ == -1)
    }

    closed spec fn rem_spec(self, rhs: Si12) -> Si12 {
        Si12 {
            value: (if self@ >= 0 {
                self@ % rhs@
            } else {
                -((-self@) % rhs@)
            }) as i8,
        }
    }
}

// ----- Decimal Arithmetic Operators -----

impl core::ops::Add<i8> for Si12 {
    type Output = Si12;

    fn add(self, rhs: i8) -> Si12 {
        Si12 { value: self.value + rhs }
    }
}

impl vstd::std_specs::ops::AddSpecImpl<i8> for Si12 {
    open spec fn obeys_add_spec() -> bool {
        true
    }

    open spec fn add_req(self, rhs: i8) -> bool {
        i8::MIN <= self@ + rhs <= i8::MAX
    }

    closed spec fn add_spec(self, rhs: i8) -> Si12 {
        Si12 { value: (self@ + rhs) as i8 }
    }
}

impl core::ops::Sub<i8> for Si12 {
    type Output = Si12;

    fn sub(self, rhs: i8) -> Si12 {
        Si12 { value: self.value - rhs }
    }
}

impl vstd::std_specs::ops::SubSpecImpl<i8> for Si12 {
    open spec fn obeys_sub_spec() -> bool {
        true
    }

    open spec fn sub_req(self, rhs: i8) -> bool {
        i8::MIN <= self@ - rhs <= i8::MAX
    }

    closed spec fn sub_spec(self, rhs: i8) -> Si12 {
        Si12 { value: (self@ - rhs) as i8 }
    }
}

impl core::ops::Mul<i8> for Si12 {
    type Output = Si12;

    fn mul(self, rhs: i8) -> Si12 {
        Si12 { value: self.value * rhs }
    }
}

impl vstd::std_specs::ops::MulSpecImpl<i8> for Si12 {
    open spec fn obeys_mul_spec() -> bool {
        true
    }

    open spec fn mul_req(self, rhs: i8) -> bool {
        i8::MIN <= self@ * rhs <= i8::MAX
    }

    closed spec fn mul_spec(self, rhs: i8) -> Si12 {
        Si12 { value: (self@ * rhs) as i8 }
    }
}

impl core::ops::Div<i8> for Si12 {
    type Output = Si12;

    fn div(self, rhs: i8) -> Si12 {
        Si12 { value: self.value / rhs }
    }
}

impl vstd::std_specs::ops::DivSpecImpl<i8> for Si12 {
    open spec fn obeys_div_spec() -> bool {
        true
    }

    open spec fn div_req(self, rhs: i8) -> bool {
        rhs != 0 && !(self@ == i8::MIN && rhs == -1)
    }

    closed spec fn div_spec(self, rhs: i8) -> Si12 {
        Si12 {
            value: (if self@ >= 0 {
                self@ / rhs as int
            } else {
                -((-self@) / rhs as int)
            }) as i8,
        }
    }
}

impl core::ops::Rem<i8> for Si12 {
    type Output = Si12;

    fn rem(self, rhs: i8) -> Si12 {
        Si12 { value: self.value % rhs }
    }
}

impl vstd::std_specs::ops::RemSpecImpl<i8> for Si12 {
    open spec fn obeys_rem_spec() -> bool {
        true
    }

    open spec fn rem_req(self, rhs: i8) -> bool {
        rhs != 0 && !(self@ == i8::MIN && rhs == -1)
    }

    closed spec fn rem_spec(self, rhs: i8) -> Si12 {
        Si12 {
            value: (if self@ >= 0 {
                self@ % rhs as int
            } else {
                -((-self@) % rhs as int)
            }) as i8,
        }
    }
}

/// Law: every representable `i8` round-trips: parsing the seximal text that
/// `to_string` produces yields back the sign and magnitude of the value.
pub proof fn lemma_si12_round_trip(v: i8)
    ensures
        parse_spec(integer_text(v as int), true, i8::MAX as nat, i8::MAX as nat + 1) == Ok::<
            (bool, nat),
            SeximalError,
        >((v < 0, (if v < 0 {
            -(v as int)
        } else {
            v as int
        }) as nat)),
{
    if v < 0 {
        let m = (-(v as int)) as nat;
        lemma_seximal_digits_canonical(m);
        let s = seximal_digits(m);
        let e = (s.len() - 1) as nat;
        lemma_magnitude_lower_bound(s);
        assert(pow6(2) == 36 && pow6(3) == 216) by {
            reveal_with_fuel(pow6, 4);
        }
        if e <= 2 {
            lemma_pow6_increases(e, 2);
        } else {
            lemma_pow6_increases(3, e);
        }
    }
    lemma_parse_integer_text(v as int, true, i8::MAX as nat, i8::MAX as nat + 1);
}

} // verus!
