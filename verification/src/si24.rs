use vstd::prelude::*;

use crate::codec::{integer_text, parse_spec, parse_integer, format_signed_magnitude, SeximalError};
use crate::codec::{seximal_digits, pow6, lemma_seximal_digits_canonical, lemma_magnitude_lower_bound, lemma_pow6_increases, lemma_parse_integer_text};
use crate::si12::Si12;
use crate::si144::Si144;
use crate::si332::Si332;
use crate::si52::Si52;
use crate::sisize::Sisize;
use crate::su12::Su12;
use crate::su144::Su144;
use crate::su24::Su24;
use crate::su332::Su332;
use crate::su52::Su52;
use crate::susize::Susize;

verus! {

/// `Si24` is the seximal equivalent of `i16`.
#[derive(Copy, Clone, Debug, PartialEq, Eq, PartialOrd, Ord)]
pub struct Si24 {
    value: i16,
}

impl View for Si24 {
    type V = int;

    closed spec fn view(&self) -> int {
        self.value as int
    }
}

impl Si24 {
    /// Returns a new instance of `Si24` with the given value.
    pub fn new(value: i16) -> (r: Si24)
        ensures
            r@ == value as int,
    {
        Si24 { value }
    }

    /// Returns a result containing a new instance of `Si24` parsed from a
    /// string representation of the value in seximal form.
    pub fn from(input: &str) -> (r: Result<Si24, SeximalError>)
        ensures
            match parse_spec(input@, true, i16::MAX as nat, i16::MAX as nat + 1) {
                Ok(p) => r matches Ok(v) && v@ == (if p.0 {
                    -(p.1 as int)
                } else {
                    p.1 as int
                }),
                Err(e) => r matches Err(e2) && e2 == e,
            },
    {
        match parse_integer(input, true, i16::MAX as u128, i16::MAX as u128 + 1) {
            Ok((neg, m)) => {
                if neg {
                    if m > i16::MAX as u128 {
                        Ok(Si24 { value: i16::MIN })
                    } else {
                        Ok(Si24 { value: -(m as i16) })
                    }
                } else {
                    Ok(Si24 { value: m as i16 })
                }
            },
            Err(e) => Err(e),
        }
    }

    /// Returns the value of the instance in decimal form.
    pub fn value(&self) -> (r: i16)
        ensures
            r as int == self@,
    {
        self.value
    }

    /// Returns the seximal text of the value.
    pub fn to_string(&self) -> (r: String)
        ensures
            r@ == integer_text(self@),
    {
        if self.value < 0 {
            let m = -(self.value as i128);
            format_signed_magnitude(true, m as u128)
        } else {
            format_signed_magnitude(false, self.value as u128)
        }
    }

    /// Returns an instance of `Sisize` with the value of this instance.
    pub fn as_sisize(&self) -> (r: Sisize)
        ensures
            r@ == self@,
    {
        Sisize::new(self.value as isize)
    }

    /// Returns an instance of `Si332` with the value of this instance.
    pub fn as_si332(&self) -> (r: Si332)
        ensures
            r@ == self@,
    {
        Si332::new(self.value as i128)
    }

    /// Returns an instance of `Si144` with the value of this instance.
    pub fn as_si144(&self) -> (r: Si144)
        ensures
            r@ == self@,
    {
        Si144::new(self.value as i64)
    }

    /// Returns an instance of `Si52` with the value of this instance.
    pub fn as_si52(&self) -> (r: Si52)
        ensures
            r@ == self@,
    {
        Si52::new(self.value as i32)
    }

    /// Returns an instance of `Si12` with the value of this instance,
    /// following native cast semantics on overflow.
    pub fn as_si12(&self) -> (r: Si12)
        ensures
            i8::MIN <= self@ <= i8::MAX ==> r@ == self@,
    {
        Si12::new(#[verifier::truncate] (self.value as i8))
    }

    /// Returns an instance of `Susize` with the value of this instance,
    /// following native cast semantics for negative values.
    pub fn as_susize(&self) -> (r: Susize)
        ensures
            0 <= self@ ==> r@ == self@,
    {
        Susize::new(#[verifier::truncate] (self.value as usize))
    }

    /// Returns an instance of `Su332` with the value of this instance,
    /// following native cast semantics for negative values.
    pub fn as_su332(&self) -> (r: Su332)
        ensures
            0 <= self@ ==> r@ == self@,
    {
        Su332::new(#[verifier::truncate] (self.value as u128))
    }

    /// Returns an instance of `Su144` with the value of this instance,
    /// following native cast semantics for negative values.
    pub fn as_su144(&self) -> (r: Su144)
        ensures
            0 <= self@ ==> r@ == self@,
    {
        Su144::new(#[verifier::truncate] (self.value as u64))
    }

    /// Returns an instance of `Su52` with the value of this instance,
    /// following native cast semantics for negative values.
    pub fn as_su52(&self) -> (r: Su52)
        ensures
            0 <= self@ ==> r@ == self@,
    {
        Su52::new(#[verifier::truncate] (self.value as u32))
    }

    /// Returns an instance of `Su24` with the value of this instance,
    /// following native cast semantics for negative values.
    pub fn as_su24(&self) -> (r: Su24)
        ensures
            0 <= self@ ==> r@ == self@,
    {
        Su24::new(#[verifier::truncate] (self.value as u16))
    }

    /// Returns an instance of `Su12` with the value of this instance,
    /// following native cast semantics on overflow.
    pub fn as_su12(&self) -> (r: Su12)
        ensures
            0 <= self@ <= u8::MAX ==> r@ == self@,
    {
        Su12::new(#[verifier::truncate] (self.value as u8))
    }
}

// ----- Native Arithmetic Operators -----

impl core::ops::Add for Si24 {
    type Output = Si24;

    fn add(self, rhs: Si24) -> Si24 {
        Si24 { value: self.value + rhs.value }
    }
}

impl vstd::std_specs::ops::AddSpecImpl for Si24 {
    open spec fn obeys_add_spec() -> bool {
        true
    }

    open spec fn add_req(self, rhs: Si24) -> bool {
        i16::MIN <= self@ + rhs@ <= i16::MAX
    }

    closed spec fn add_spec(self, rhs: Si24) -> Si24 {
        Si24 { value: (self@ + rhs@) as i16 }
    }
}

impl core::ops::Sub for Si24 {
    type Output = Si24;

    fn sub(self, rhs: Si24) -> Si24 {
        Si24 { value: self.value - rhs.value }
    }
}

impl vstd::std_specs::ops::SubSpecImpl for Si24 {
    open spec fn obeys_sub_spec() -> bool {
        true
    }

    open spec fn sub_req(self, rhs: Si24) -> bool {
        i16::MIN <= self@ - rhs@ <= i16::MAX
    }

    closed spec fn sub_spec(self, rhs: Si24) -> Si24 {
        Si24 { value: (self@ - rhs@) as i16 }
    }
}

impl core::ops::Mul for Si24 {
    type Output = Si24;

    fn mul(self, rhs: Si24) -> Si24 {
        Si24 { value: self.value * rhs.value }
    }
}

impl vstd::std_specs::ops::MulSpecImpl for Si24 {
    open spec fn obeys_mul_spec() -> bool {
        true
    }

    open spec fn mul_req(self, rhs: Si24) -> bool {
        i16::MIN <= self@ * rhs@ <= i16::MAX
    }

    closed spec fn mul_spec(self, rhs: Si24) -> Si24 {
        Si24 { value: (self@ * rhs@) as i16 }
    }
}

impl core::ops::Div for Si24 {
    type Output = Si24;

    fn div(self, rhs: Si24) -> Si24 {
        Si24 { value: self.value / rhs.value }
    }
}

impl vstd::std_specs::ops::DivSpecImpl for Si24 {
    open spec fn obeys_div_spec() -> bool {
        true
    }

    open spec fn div_req(self, rhs: Si24) -> bool {
        rhs@ != 0 && !(self@ == i16::MIN && rhs@ == -1)
    }

    closed spec fn div_spec(self, rhs: Si24) -> Si24 {
        Si24 {
            value: (if self@ >= 0 {
                self@ / rhs@
            } else {
                -((-self@) / rhs@)
            }) as i16,
        }
    }
}

impl core::ops::Rem for Si24 {
    type Output = Si24;

    fn rem(self, rhs: Si24) -> Si24 {
        Si24 { value: self.value % rhs.value }
    }
}

impl vstd::std_specs::ops::RemSpecImpl for Si24 {
    open spec fn obeys_rem_spec() -> bool {
        true
    }

    open spec fn rem_req(self, rhs: Si24) -> bool {
        rhs@ != 0 && !(self@ == i16::MIN && rhs@ == -1)
    }

    closed spec fn rem_spec(self, rhs: Si24) -> Si24 {
        Si24 {
            value: (if self@ >= 0 {
                self@ % rhs@
            } else {
                -((-self@) % rhs@)
            }) as i16,
        }
    }
}

// ----- Decimal Arithmetic Operators -----

impl core::ops::Add<i16> for Si24 {
    type Output = Si24;

    fn add(self, rhs: i16) -> Si24 {
        Si24 { value: self.value + rhs }
    }
}

impl vstd::std_specs::ops::AddSpecImpl<i16> for Si24 {
    open spec fn obeys_add_spec() -> bool {
        true
    }

    open spec fn add_req(self, rhs: i16) -> bool {
        i16::MIN <= self@ + rhs <= i16::MAX
    }

    closed spec fn add_spec(self, rhs: i16) -> Si24 {
        Si24 { value: (self@ + rhs) as i16 }
    }
}

impl core::ops::Sub<i16> for Si24 {
    type Output = Si24;

    fn sub(self, rhs: i16) -> Si24 {
        Si24 { value: self.value - rhs }
    }
}

impl vstd::std_specs::ops::SubSpecImpl<i16> for Si24 {
    open spec fn obeys_sub_spec() -> bool {
        true
    }

    open spec fn sub_req(self, rhs: i16) -> bool {
        i16::MIN <= self@ - rhs <= i16::MAX
    }

    closed spec fn sub_spec(self, rhs: i16) -> Si24 {
        Si24 { value: (self@ - rhs) as i16 }
    }
}

impl core::ops::Mul<i16> for Si24 {
    type Output = Si24;

    fn mul(self, rhs: i16) -> Si24 {
        Si24 { value: self.value * rhs }
    }
}

impl vstd::std_specs::ops::MulSpecImpl<i16> for Si24 {
    open spec fn obeys_mul_spec() -> bool {
        true
    }

    open spec fn mul_req(self, rhs: i16) -> bool {
        i16::MIN <= self@ * rhs <= i16::MAX
    }

    closed spec fn mul_spec(self, rhs: i16) -> Si24 {
        Si24 { value: (self@ * rhs) as i16 }
    }
}

impl core::ops::Div<i16> for Si24 {
    type Output = Si24;

    fn div(self, rhs: i16) -> Si24 {
        Si24 { value: self.value / rhs }
    }
}

impl vstd::std_specs::ops::DivSpecImpl<i16> for Si24 {
    open spec fn obeys_div_spec() -> bool {
        true
    }

    open spec fn div_req(self, rhs: i16) -> bool {
        rhs != 0 && !(self@ == i16::MIN && rhs == -1)
    }

    closed spec fn div_spec(self, rhs: i16) -> Si24 {
        Si24 {
            value: (if self@ >= 0 {
                self@ / rhs as int
            } else {
                -((-self@) / rhs as int)
            }) as i16,
        }
    }
}

impl core::ops::Rem<i16> for Si24 {
    type Output = Si24;

    fn rem(self, rhs: i16) -> Si24 {
        Si24 { value: self.value % rhs }
    }
}

impl vstd::std_specs::ops::RemSpecImpl<i16> for Si24 {
    open spec fn obeys_rem_spec() -> bool {
        true
    }

    open spec fn rem_req(self, rhs: i16) -> bool {
        rhs != 0 && !(self@ == i16::MIN && rhs == -1)
    }

    closed spec fn rem_spec(self, rhs: i16) -> Si24 {
        Si24 {
            value: (if self@ >= 0 {
                self@ % rhs as int
            } else {
                -((-self@) % rhs as int)
            }) as i16,
        }
    }
}

/// Law: every representable `i16` round-trips: parsing the seximal text that
/// `to_string` produces yields back the sign and magnitude of the value.
pub proof fn lemma_si24_round_trip(v: i16)
    ensures
        parse_spec(integer_text(v as int), true, i16::MAX as nat, i16::MAX as nat + 1) == Ok::<
            (bool, nat),
            SeximalError,
        >((v < 0, (if v < 0 {
            -(v as int)
        } else {
            v as int
        }) as nat)),
{
    if v < 0 {
        let m = (-(v as int)) as nat;
        lemma_seximal_digits_canonical(m);
        let s = seximal_digits(m);
        let e = (s.len() - 1) as nat;
        lemma_magnitude_lower_bound(s);
        assert(pow6(5) == 7776 && pow6(6) == 46656) by {
            reveal_with_fuel(pow6, 7);
        }
        if e <= 5 {
            lemma_pow6_increases(e, 5);
        } else {
            lemma_pow6_increases(6, e);
        }
    }
    lemma_parse_integer_text(v as int, true, i16::MAX as nat, i16::MAX as nat + 1);
}

} // verus!
