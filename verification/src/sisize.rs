use vstd::prelude::*;

use crate::codec::{integer_text, parse_spec, parse_integer, format_signed_magnitude, SeximalError};
use crate::codec::{seximal_digits, pow6, lemma_seximal_digits_canonical, lemma_magnitude_lower_bound, lemma_pow6_increases, lemma_parse_integer_text};
use crate::si12::Si12;
use crate::si144::Si144;
use crate::si24::Si24;
use crate::si332::Si332;
use crate::si52::Si52;
use crate::su12::Su12;
use crate::su144::Su144;
use crate::su24::Su24;
use crate::su332::Su332;
use crate::su52::Su52;
use crate::susize::Susize;

verus! {

/// `Sisize` is the seximal equivalent of `isize`.
#[derive(Copy, Clone, Debug, PartialEq, Eq, PartialOrd, Ord)]
pub struct Sisize {
    value: isize,
}

impl View for Sisize {
    type V = int;

    closed spec fn view(&self) -> int {
        self.value as int
    }
}

impl Sisize {
    /// Returns a new instance of `Sisize` with the given value.
    pub fn new(value: isize) -> (r: Sisize)
        ensures
            r@ == value as int,
    {
        Sisize { value }
    }

    /// Returns a result containing a new instance of `Sisize` parsed from a
    /// string representation of the value in seximal form.
    pub fn from(input: &str) -> (r: Result<Sisize, SeximalError>)
        ensures
            match parse_spec(input@, true, isize::MAX as nat, isize::MAX as nat + 1) {
                Ok(p) => r matches Ok(v) && v@ == (if p.0 {
                    -(p.1 as int)
                } else {
                    p.1 as int
                }),
                Err(e) => r matches Err(e2) && e2 == e,
            },
    {
        match parse_integer(input, true, isize::MAX as u128, isize::MAX as u128 + 1) {
            Ok((neg, m)) => {
                if neg {
                    if m > isize::MAX as u128 {
                        Ok(Sisize { value: isize::MIN })
                    } else {
                        Ok(Sisize { value: -(m as isize) })
                    }
                } else {
                    Ok(Sisize { value: m as isize })
                }
            },
            Err(e) => Err(e),
        }
    }

    /// Returns the value of the instance in decimal form.
    pub fn value(&self) -> (r: isize)
        ensures
            r as int == self@,
    {
        self.value
    }

    /// Returns the seximal text of the value.
    pub fn to_string(&self) -> (r: String)
        ensures
            r@ == integer_text(self@),
    {
        if self.value < 0 {
            let m = -(self.value as i128);
            format_signed_magnitude(true, m as u128)
        } else {
            format_signed_magnitude(false, self.value as u128)
        }
    }

    /// Returns an instance of `Si332` with the value of this instance.
    pub fn as_si332(&self) -> (r: Si332)
        ensures
            r@ == self@,
    {
        Si332::new(self.value as i128)
    }

    /// Returns an instance of `Si144` with the value of this instance.
    pub fn as_si144(&self) -> (r: Si144)
        ensures
            r@ == self@,
    {
        Si144::new(self.value as i64)
    }

    /// Returns an instance of `Si52` with the value of this instance,
    /// following native cast semantics on overflow.
    pub fn as_si52(&self) -> (r: Si52)
        ensures
            i32::MIN <= self@ <= i32::MAX ==> r@ == self@,
    {
        Si52::new(#[verifier::truncate] (self.value as i32))
    }

    /// Returns an instance of `Si24` with the value of this instance,
    /// following native cast semantics on overflow.
    pub fn as_si24(&self) -> (r: Si24)
        ensures
            i16::MIN <= self@ <= i16::MAX ==> r@ == self@,
    {
        Si24::new(#[verifier::truncate] (self.value as i16))
    }

    /// Returns an instance of `Si12` with the value of this instance,
    /// following native cast semantics on overflow.
    pub fn as_si12(&self) -> (r: Si12)
        ensures
            i8::MIN <= self@ <= i8::MAX ==> r@ == self@,
    {
        Si12::new(#[verifier::truncate] (self.value as i8))
    }

    /// Returns an instance of `Susize` with the value of this instance,
    /// following native cast semantics on overflow.
    pub fn as_susize(&self) -> (r: Susize)
        ensures
            0 <= self@ <= usize::MAX ==> r@ == self@,
    {
        Susize::new(#[verifier::truncate] (self.value as usize))
    }

    /// Returns an instance of `Su332` with the value of this instance,
    /// following native cast semantics for negative values.
    pub fn as_su332(&self) -> (r: Su332)
        ensures
            0 <= self@ ==> r@ == self@,
    {
        Su332::new(#[verifier::truncate] (self.value as u128))
    }

    /// Returns an instance of `Su144` with the value of this instance,
    /// following native cast semantics for negative values.
    pub fn as_su144(&self) -> (r: Su144)
        ensures
            0 <= self@ ==> r@ == self@,
    {
        Su144::new(#[verifier::truncate] (self.value as u64))
    }

    /// Returns an instance of `Su52` with the value of this instance,
    /// following native cast semantics on overflow.
    pub fn as_su52(&self) -> (r: Su52)
        ensures
            0 <= self@ <= u32::MAX ==> r@ == self@,
    {
        Su52::new(#[verifier::truncate] (self.value as u32))
    }

    /// Returns an instance of `Su24` with the value of this instance,
    /// following native cast semantics on overflow.
    pub fn as_su24(&self) -> (r: Su24)
        ensures
            0 <= self@ <= u16::MAX ==> r@ == self@,
    {
        Su24::new(#[verifier::truncate] (self.value as u16))
    }

    /// Returns an instance of `Su12` with the value of this instance,
    /// following native cast semantics on overflow.
    pub fn as_su12(&self) -> (r: Su12)
        ensures
            0 <= self@ <= u8::MAX ==> r@ == self@,
    {
        Su12::new(#[verifier::truncate] (self.value as u8))
    }
}

// ----- Native Arithmetic Operators -----

impl core::ops::Add for Sisize {
    type Output = Sisize;

    fn add(self, rhs: Sisize) -> Sisize {
        Sisize { value: self.value + rhs.value }
    }
}

impl vstd::std_specs::ops::AddSpecImpl for Sisize {
    open spec fn obeys_add_spec() -> bool {
        true
    }

    open spec fn add_req(self, rhs: Sisize) -> bool {
        isize::MIN <= self@ + rhs@ <= isize::MAX
    }

    closed spec fn add_spec(self, rhs: Sisize) -> Sisize {
        Sisize { value: (self@ + rhs@) as isize }
    }
}

impl core::ops::Sub for Sisize {
    type Output = Sisize;

    fn sub(self, rhs: Sisize) -> Sisize {
        Sisize { value: self.value - rhs.value }
    }
}

impl vstd::std_specs::ops::SubSpecImpl for Sisize {
    open spec fn obeys_sub_spec() -> bool {
        true
    }

    open spec fn sub_req(self, rhs: Sisize) -> bool {
        isize::MIN <= self@ - rhs@ <= isize::MAX
    }

    closed spec fn sub_spec(self, rhs: Sisize) -> Sisize {
        Sisize { value: (self@ - rhs@) as isize }
    }
}

impl core::ops::Mul for Sisize {
    type Output = Sisize;

    fn mul(self, rhs: Sisize) -> Sisize {
        Sisize { value: self.value * rhs.value }
    }
}

impl vstd::std_specs::ops::MulSpecImpl for Sisize {
    open spec fn obeys_mul_spec() -> bool {
        true
    }

    open spec fn mul_req(self, rhs: Sisize) -> bool {
        isize::MIN <= self@ * rhs@ <= isize::MAX
    }

    closed spec fn mul_spec(self, rhs: Sisize) -> Sisize {
        Sisize { value: (self@ * rhs@) as isize }
    }
}

impl core::ops::Div for Sisize {
    type Output = Sisize;

    fn div(self, rhs: Sisize) -> Sisize {
        Sisize { value: self.value / rhs.value }
    }
}

impl vstd::std_specs::ops::DivSpecImpl for Sisize {
    open spec fn obeys_div_spec() -> bool {
        true
    }

    open spec fn div_req(self, rhs: Sisize) -> bool {
        rhs@ != 0 && !(self@ == isize::MIN && rhs@ == -1)
    }

    closed spec fn div_spec(self, rhs: Sisize) -> Sisize {
        Sisize {
            value: (if self@ >= 0 {
                self@ / rhs@
            } else {
                -((-self@) / rhs@)
            }) as isize,
        }
    }
}

impl core::ops::Rem for Sisize {
    type Output = Sisize;

    fn rem(self, rhs: Sisize) -> Sisize {
        Sisize { value: self.value % rhs.value }
    }
}

impl vstd::std_specs::ops::RemSpecImpl for Sisize {
    open spec fn obeys_rem_spec() -> bool {
        true
    }

    open spec fn rem_req(self, rhs: Sisize) -> bool {
        rhs@ != 0 && !(self@ == isize::MIN && rhs@ == -1)
    }

    closed spec fn rem_spec(self, rhs: Sisize) -> Sisize {
        Sisize {
            value: (if self@ >= 0 {
                self@ % rhs@
            } else {
                -((-self@) % rhs@)
            }) as isize,
        }
    }
}

// ----- Decimal Arithmetic Operators -----

impl core::ops::Add<isize> for Sisize {
    type Output = Sisize;

    fn add(self, rhs: isize) -> Sisize {
        Sisize { value: self.value + rhs }
    }
}

impl vstd::std_specs::ops::AddSpecImpl<isize> for Sisize {
    open spec fn obeys_add_spec() -> bool {
        true
    }

    open spec fn add_req(self, rhs: isize) -> bool {
        isize::MIN <= self@ + rhs <= isize::MAX
    }

    closed spec fn add_spec(self, rhs: isize) -> Sisize {
        Sisize { value: (self@ + rhs) as isize }
    }
}

impl core::ops::Sub<isize> for Sisize {
    type Output = Sisize;

    fn sub(self, rhs: isize) -> Sisize {
        Sisize { value: self.value - rhs }
    }
}

impl vstd::std_specs::ops::SubSpecImpl<isize> for Sisize {
    open spec fn obeys_sub_spec() -> bool {
        true
    }

    open spec fn sub_req(self, rhs: isize) -> bool {
        isize::MIN <= self@ - rhs <= isize::MAX
    }

    closed spec fn sub_spec(self, rhs: isize) -> Sisize {
        Sisize { value: (self@ - rhs) as isize }
    }
}

impl core::ops::Mul<isize> for Sisize {
    type Output = Sisize;

    fn mul(self, rhs: isize) -> Sisize {
        Sisize { value: self.value * rhs }
    }
}

impl vstd::std_specs::ops::MulSpecImpl<isize> for Sisize {
    open spec fn obeys_mul_spec() -> bool {
        true
    }

    open spec fn mul_req(self, rhs: isize) -> bool {
        isize::MIN <= self@ * rhs <= isize::MAX
    }

    closed spec fn mul_spec(self, rhs: isize) -> Sisize {
        Sisize { value: (self@ * rhs) as isize }
    }
}

impl core::ops::Div<isize> for Sisize {
    type Output = Sisize;

    fn div(self, rhs: isize) -> Sisize {
        Sisize { value: self.value / rhs }
    }
}

impl vstd::std_specs::ops::DivSpecImpl<isize> for Sisize {
    open spec fn obeys_div_spec() -> bool {
        true
    }

    open spec fn div_req(self, rhs: isize) -> bool {
        rhs != 0 && !(self@ == isize::MIN && rhs == -1)
    }

    closed spec fn div_spec(self, rhs: isize) -> Sisize {
        Sisize {
            value: (if self@ >= 0 {
                self@ / rhs as int
            } else {
                -((-self@) / rhs as int)
            }) as isize,
        }
    }
}

impl core::ops::Rem<isize> for Sisize {
    type Output = Sisize;

    fn rem(self, rhs: isize) -> Sisize {
        Sisize { value: self.value % rhs }
    }
}

impl vstd::std_specs::ops::RemSpecImpl<isize> for Sisize {
    open spec fn obeys_rem_spec() -> bool {
        true
    }

    open spec fn rem_req(self, rhs: isize) -> bool {
        rhs != 0 && !(self@ == isize::MIN && rhs == -1)
    }

    closed spec fn rem_spec(self, rhs: isize) -> Sisize {
        Sisize {
            value: (if self@ >= 0 {
                self@ % rhs as int
            } else {
                -((-self@) % rhs as int)
            }) as isize,
        }
    }
}

/// Law: every representable `isize` round-trips: parsing the seximal text that
/// `to_string` produces yields back the sign and magnitude of the value.
pub proof fn lemma_sisize_round_trip(v: isize)
    ensures
        parse_spec(integer_text(v as int), true, isize::MAX as nat, isize::MAX as nat + 1) == Ok::<
            (bool, nat),
            SeximalError,
        >((v < 0, (if v < 0 {
            -(v as int)
        } else {
            v as int
        }) as nat)),
{
    if v < 0 {
        let m = (-(v as int)) as nat;
        lemma_seximal_digits_canonical(m);
        let s = seximal_digits(m);
        let e = (s.len() - 1) as nat;
        lemma_magnitude_lower_bound(s);
        if isize::MAX as int == 0x7fffffff {
            assert(pow6(11) == 362797056 && pow6(12) == 2176782336) by {
                reveal_with_fuel(pow6, 13);
            }
            if e <= 11 {
                lemma_pow6_increases(e, 11);
            } else {
                lemma_pow6_increases(12, e);
            }
        } else {
            assert(isize::MAX as int == 0x7fffffffffffffff);
            assert(pow6(24) == 4738381338321616896 && pow6(25) == 28430288029929701376) by {
                reveal_with_fuel(pow6, 26);
            }
            if e <= 24 {
                lemma_pow6_increases(e, 24);
            } else {
                lemma_pow6_increases(25, e);
            }
        }
    }
    lemma_parse_integer_text(v as int, true, isize::MAX as nat, isize::MAX as nat + 1);
}

} // verus!
