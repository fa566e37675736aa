//! The base-6 conversion engine shared by every wrapper type: the grammar of
//! seximal digit strings, their mathematical value, parsing with overflow
//! detection, and formatting back to canonical digit strings.

use vstd::prelude::*;
use vstd::arithmetic::power::pow;
use vstd::string::StringExecFns;

verus! {

/// A typed parse failure. Parsing never returns a partial result: either the
/// whole input is converted, or exactly one of these errors comes back.
#[derive(Copy, Clone, Debug, PartialEq, Eq, Structural)]
pub enum SeximalError {
    /// A character outside `0`-`5` appeared where a digit was expected.
    InvalidDigit,
    /// `-` appeared somewhere other than the first character.
    MisplacedSign,
    /// The magnitude of the input exceeds the capacity of the target width.
    Overflow,
    /// More than one `.` appeared in a real-number literal.
    TooManyRadixPoints,
}

/// A seximal digit: one of the characters `0` through `5`.
pub open spec fn is_seximal_digit(c: char) -> bool {
    '0' <= c && c <= '5'
}

/// The numeric value of one seximal digit character.
pub open spec fn digit_value(c: char) -> nat {
    (c as int - '0' as int) as nat
}

/// The seximal digit character for a value below six.
pub open spec fn digit_char(d: nat) -> char {
    ((d + 48) as u8) as char
}

/// The power `6^e`: the weight of a seximal digit `e` places from the end.
pub open spec fn pow6(e: nat) -> nat
    decreases e,
{
    if e == 0 {
        1
    } else {
        6 * pow6((e - 1) as nat)
    }
}

/// Every character of `s` is a seximal digit.
pub open spec fn all_seximal_digits(s: Seq<char>) -> bool {
    forall|i: int| 0 <= i < s.len() ==> is_seximal_digit(#[trigger] s[i])
}

/// The index of the leftmost character of `s` that is not a seximal digit
/// (equal to `s.len()` when every character is a digit).
pub open spec fn first_non_digit(s: Seq<char>) -> int
    decreases s.len(),
{
    if s.len() == 0 {
        0
    } else if !is_seximal_digit(s[0]) {
        0
    } else {
        1 + first_non_digit(s.skip(1))
    }
}

/// The value of a string of seximal digits, read most-significant first.
pub open spec fn magnitude_of(s: Seq<char>) -> nat
    decreases s.len(),
{
    if s.len() == 0 {
        0
    } else {
        magnitude_of(s.drop_last()) * 6 + digit_value(s.last())
    }
}

/// The canonical seximal digit string of a magnitude: no leading zero except
/// for the single digit `0` itself.
pub open spec fn seximal_digits(m: nat) -> Seq<char>
    decreases m,
{
    if m < 6 {
        seq![digit_char(m)]
    } else {
        seximal_digits(m / 6).push(digit_char(m % 6))
    }
}

/// The canonical seximal text of an integer: the digit string of its
/// magnitude, preceded by `-` when the value is negative.
pub open spec fn integer_text(v: int) -> Seq<char> {
    if v < 0 {
        seq!['-'] + seximal_digits((-v) as nat)
    } else {
        seximal_digits(v as nat)
    }
}

/// What parsing seximal integer text yields: the sign and the magnitude, or
/// the exact error. Checks run in this order: an empty digit string is
/// rejected; then the conservative digit-count bound (`6^(digits-1)` must not
/// exceed the width's maximum); then every character must be a seximal digit;
/// then the accumulated magnitude must fit the width. `neg_limit` is the
/// largest magnitude a negative value may have, which for two's-complement
/// types is one more than `pos_limit`.
pub open spec fn parse_spec(
    s: Seq<char>,
    signed: bool,
    pos_limit: nat,
    neg_limit: nat,
) -> Result<(bool, nat), SeximalError> {
    let neg = signed && s.len() > 0 && s[0] == '-';
    let d = if neg { s.skip(1) } else { s };
    if d.len() == 0 {
        Err(SeximalError::InvalidDigit)
    } else if pow6((d.len() - 1) as nat) > pos_limit {
        Err(SeximalError::Overflow)
    } else if !all_seximal_digits(d) {
        if d[first_non_digit(d)] == '-' && (neg || first_non_digit(d) > 0) {
            Err(SeximalError::MisplacedSign)
        } else {
            Err(SeximalError::InvalidDigit)
        }
    } else if magnitude_of(d) > (if neg { neg_limit } else { pos_limit }) {
        Err(SeximalError::Overflow)
    } else {
        Ok((neg, magnitude_of(d)))
    }
}

/// The canonical digit string of `m` consists of seximal digits, is never
/// empty, has no leading zero unless `m` itself is zero, and evaluates back
/// to `m`.
pub proof fn lemma_seximal_digits_canonical(m: nat)
    ensures
        all_seximal_digits(seximal_digits(m)),
        seximal_digits(m).len() >= 1,
        magnitude_of(seximal_digits(m)) == m,
        m >= 1 ==> digit_value(seximal_digits(m)[0]) >= 1,
    decreases m,
{
    if m < 6 {
        let s = seximal_digits(m);
        assert(s =~= seq![digit_char(m)]);
        assert(is_seximal_digit(digit_char(m)));
        assert(digit_value(digit_char(m)) == m);
        assert(s.drop_last() =~= Seq::<char>::empty());
        assert(magnitude_of(s) == magnitude_of(s.drop_last()) * 6 + digit_value(s.last()));
        assert(magnitude_of(s) == m);
    } else {
        lemma_seximal_digits_canonical(m / 6);
        let rec = seximal_digits(m / 6);
        let c = digit_char(m % 6);
        let s = rec.push(c);
        assert(s.drop_last() =~= rec);
        assert(s.last() == c);
        assert(is_seximal_digit(c));
        assert(digit_value(c) == m % 6);
        assert(forall|i: int| 0 <= i < s.len() ==> is_seximal_digit(#[trigger] s[i]));
        assert(magnitude_of(s) == (m / 6) * 6 + m % 6);
        assert(m == (m / 6) * 6 + m % 6);
        assert(s[0] == rec[0]);
    }
}

/// A digit string with a nonzero leading digit is at least the power of six
/// for its length.
pub proof fn lemma_magnitude_lower_bound(s: Seq<char>)
    requires
        s.len() >= 1,
        all_seximal_digits(s),
        digit_value(s[0]) >= 1,
    ensures
        magnitude_of(s) >= pow6((s.len() - 1) as nat),
    decreases s.len(),
{
    if s.len() == 1 {
        assert(s.drop_last() =~= Seq::<char>::empty());
        assert(magnitude_of(Seq::<char>::empty()) == 0);
        assert(s.last() == s[0]);
    } else {
        let t = s.drop_last();
        assert(t[0] == s[0]);
        assert(forall|i: int| 0 <= i < t.len() ==> is_seximal_digit(#[trigger] t[i]));
        lemma_magnitude_lower_bound(t);
        let e = (s.len() - 2) as nat;
        assert(pow6(e + 1) == 6 * pow6(e));
        assert((s.len() - 1) as nat == e + 1);
        assert(magnitude_of(s) == magnitude_of(t) * 6 + digit_value(s.last()));
    }
}

/// Extending a digit prefix by one character multiplies its value by six and
/// adds the digit.
pub proof fn lemma_magnitude_take_succ(s: Seq<char>, k: int)
    requires
        0 <= k < s.len(),
    ensures
        magnitude_of(s.take(k + 1)) == magnitude_of(s.take(k)) * 6 + digit_value(s[k]),
{
    assert(s.take(k + 1).drop_last() =~= s.take(k));
    assert(s.take(k + 1).last() == s[k]);
}

/// The value of a prefix never exceeds the value of the whole digit string.
pub proof fn lemma_magnitude_take_le(s: Seq<char>, k: int)
    requires
        0 <= k <= s.len(),
    ensures
        magnitude_of(s.take(k)) <= magnitude_of(s),
    decreases s.len() - k,
{
    if k == s.len() {
        assert(s.take(k) =~= s);
    } else {
        lemma_magnitude_take_succ(s, k);
        lemma_magnitude_take_le(s, k + 1);
    }
}

/// Pins down `first_non_digit` from a witness: digits up to `k`, a
/// non-digit at `k`.
pub proof fn lemma_first_non_digit_at(s: Seq<char>, k: int)
    requires
        0 <= k < s.len(),
        forall|j: int| 0 <= j < k ==> is_seximal_digit(#[trigger] s[j]),
        !is_seximal_digit(s[k]),
    ensures
        first_non_digit(s) == k,
    decreases k,
{
    if k > 0 {
        let t = s.skip(1);
        assert(forall|j: int| 0 <= j < k - 1 ==> is_seximal_digit(#[trigger] t[j]));
        assert(t[k - 1] == s[k]);
        lemma_first_non_digit_at(t, k - 1);
    }
}

/// Every power of six is positive.
pub proof fn lemma_pow6_pos(e: nat)
    ensures
        pow6(e) >= 1,
    decreases e,
{
    if e > 0 {
        lemma_pow6_pos((e - 1) as nat);
    }
}

/// `pow6` is monotone in the exponent.
pub proof fn lemma_pow6_increases(e1: nat, e2: nat)
    requires
        e1 <= e2,
    ensures
        pow6(e1) <= pow6(e2),
    decreases e2,
{
    if e1 < e2 {
        lemma_pow6_increases(e1, (e2 - 1) as nat);
        lemma_pow6_pos((e2 - 1) as nat);
    }
}

/// Law: parsing the canonical seximal text of a representable value yields
/// exactly that value's sign and magnitude. The last premise rules out a
/// magnitude so large that its own digit count trips the conservative
/// pre-check; each width discharges it from its concrete powers of six.
pub proof fn lemma_parse_integer_text(v: int, signed: bool, pos_limit: nat, neg_limit: nat)
    requires
        pos_limit >= 1,
        v >= 0 ==> v <= pos_limit,
        v < 0 ==> signed && -v <= neg_limit,
        v < 0 ==> pow6((seximal_digits((-v) as nat).len() - 1) as nat) <= pos_limit,
    ensures
        parse_spec(integer_text(v), signed, pos_limit, neg_limit) == Ok::<
            (bool, nat),
            SeximalError,
        >((v < 0, (if v < 0 {
            -v
        } else {
            v
        }) as nat)),
{
    if v >= 0 {
        let m = v as nat;
        lemma_seximal_digits_canonical(m);
        let s = seximal_digits(m);
        assert(is_seximal_digit(s[0]));
        assert(s[0] != '-');
        assert(integer_text(v) == s);
        if m == 0 {
            assert(s =~= seq![digit_char(0)]);
            assert(pow6((s.len() - 1) as nat) == 1);
        } else {
            lemma_magnitude_lower_bound(s);
        }
        assert(parse_spec(s, signed, pos_limit, neg_limit) == Ok::<(bool, nat), SeximalError>(
            (false, m),
        ));
    } else {
        let m = (-v) as nat;
        lemma_seximal_digits_canonical(m);
        let s = integer_text(v);
        assert(s == seq!['-'] + seximal_digits(m));
        assert(s[0] == '-');
        let d = s.skip(1);
        assert(d =~= seximal_digits(m));
        assert(parse_spec(s, signed, pos_limit, neg_limit) == Ok::<(bool, nat), SeximalError>(
            (true, m),
        ));
    }
}

/// Law: text holding a character other than a seximal digit (beyond an
/// allowed leading sign) never parses; and when the digit-count bound passes
/// and the leftmost offending character is not a sign, the error is exactly
/// `InvalidDigit`.
pub proof fn lemma_non_digit_rejected(
    s: Seq<char>,
    signed: bool,
    pos_limit: nat,
    neg_limit: nat,
    i: int,
)
    requires
        ({
            let neg = signed && s.len() > 0 && s[0] == '-';
            let d = if neg { s.skip(1) } else { s };
            0 <= i < d.len() && !is_seximal_digit(d[i])
        }),
    ensures
        parse_spec(s, signed, pos_limit, neg_limit) is Err,
        ({
            let neg = signed && s.len() > 0 && s[0] == '-';
            let d = if neg { s.skip(1) } else { s };
            pow6((d.len() - 1) as nat) <= pos_limit && d[first_non_digit(d)] != '-'
                ==> parse_spec(s, signed, pos_limit, neg_limit) == Err::<
                (bool, nat),
                SeximalError,
            >(SeximalError::InvalidDigit)
        }),
{
    let neg = signed && s.len() > 0 && s[0] == '-';
    let d = if neg { s.skip(1) } else { s };
    assert(!all_seximal_digits(d));
}

/// Law: a digit string whose length alone makes `6^(digits-1)` exceed the
/// width's maximum is rejected as `Overflow`, whatever its characters.
pub proof fn lemma_digit_count_overflow(s: Seq<char>, signed: bool, pos_limit: nat, neg_limit: nat)
    requires
        ({
            let neg = signed && s.len() > 0 && s[0] == '-';
            let d = if neg { s.skip(1) } else { s };
            d.len() > 0 && pow6((d.len() - 1) as nat) > pos_limit
        }),
    ensures
        parse_spec(s, signed, pos_limit, neg_limit) == Err::<(bool, nat), SeximalError>(
            SeximalError::Overflow,
        ),
{
}

/// Law: zero formats as the single digit `0`.
pub proof fn lemma_format_zero()
    ensures
        integer_text(0) == seq!['0'],
{
    assert(integer_text(0) =~= seq!['0']);
}

/// The seximal digit character of a value below six, as a string slice.
fn digit_literal(d: u128) -> (r: &'static str)
    requires
        d < 6,
    ensures
        r@ == seq![digit_char(d as nat)],
{
    let r: &'static str = if d == 0 {
        proof { reveal_strlit("0"); }
        "0"
    } else if d == 1 {
        proof { reveal_strlit("1"); }
        "1"
    } else if d == 2 {
        proof { reveal_strlit("2"); }
        "2"
    } else if d == 3 {
        proof { reveal_strlit("3"); }
        "3"
    } else if d == 4 {
        proof { reveal_strlit("4"); }
        "4"
    } else {
        proof { reveal_strlit("5"); }
        "5"
    };
    proof {
        assert(r@ =~= seq![digit_char(d as nat)]);
    }
    r
}

/// Formats a magnitude as its canonical seximal digit string.
pub fn format_magnitude(m: u128) -> (r: String)
    ensures
        r@ == seximal_digits(m as nat),
    decreases m,
{
    if m < 6 {
        let s = digit_literal(m);
        s.to_owned()
    } else {
        let mut s = format_magnitude(m / 6);
        s.append(digit_literal(m % 6));
        proof {
            assert(s@ =~= seximal_digits(m as nat));
        }
        s
    }
}

/// Formats a sign and a magnitude as seximal text: the canonical digit
/// string of the magnitude, preceded by `-` when `neg` is set.
pub fn format_signed_magnitude(neg: bool, m: u128) -> (r: String)
    ensures
        neg ==> r@ == seq!['-'] + seximal_digits(m as nat),
        !neg ==> r@ == seximal_digits(m as nat),
{
    let digits = format_magnitude(m);
    if neg {
        proof {
            reveal_strlit("-");
        }
        let mut s = "-".to_owned();
        s.append(digits.as_str());
        proof {
            assert(s@ =~= seq!['-'] + seximal_digits(m as nat));
        }
        s
    } else {
        digits
    }
}

/// `pow6` agrees with the standard power function of the proof library.
proof fn lemma_pow6_is_pow(e: nat)
    ensures
        pow6(e) == pow(6, e),
    decreases e,
{
    reveal(pow);
    if e > 0 {
        lemma_pow6_is_pow((e - 1) as nat);
    }
}

/// Relies on `num::checked_pow`: exponentiation by squaring over checked
/// multiplication, which returns `Some` of the power exactly when it fits
/// the integer type, and `None` otherwise.
#[verifier::external_body]
fn checked_pow_u128(base: u128, exp: usize) -> (r: Option<u128>)
    ensures
        r == (if pow(base as int, exp as nat) <= u128::MAX {
            Some(pow(base as int, exp as nat) as u128)
        } else {
            None::<u128>
        }),
{
    num::checked_pow(base, exp)
}

/// Parses seximal integer text into a sign and a magnitude, exactly as
/// `parse_spec` describes for the given limits.
pub fn parse_integer(input: &str, signed: bool, pos_limit: u128, neg_limit: u128) -> (r: Result<
    (bool, u128),
    SeximalError,
>)
    ensures
        match parse_spec(input@, signed, pos_limit as nat, neg_limit as nat) {
            Ok(p) => r matches Ok(q) && q.0 == p.0 && q.1 == p.1,
            Err(e) => r matches Err(e2) && e2 == e,
        },
{
    let n = input.unicode_len();
    let neg = if signed && n > 0 {
        input.get_char(0) == '-'
    } else {
        false
    };
    let start: usize = if neg {
        1
    } else {
        0
    };
    let ghost d = if neg {
        input@.skip(1)
    } else {
        input@
    };
    assert(d.len() == n - start);
    if n == start {
        return Err(SeximalError::InvalidDigit);
    }
    let e = n - start - 1;
    let precheck = checked_pow_u128(6, e);
    proof {
        lemma_pow6_is_pow(e as nat);
    }
    match precheck {
        Option::None => {
            return Err(SeximalError::Overflow);
        },
        Option::Some(p) => {
            if p > pos_limit {
                return Err(SeximalError::Overflow);
            }
        },
    }
    let mut i: usize = start;
    while i < n
        invariant
            input@.len() == n,
            start <= i <= n,
            neg == (signed && input@.len() > 0 && input@[0] == '-'),
            start == (if neg { 1int } else { 0int }),
            d == (if neg { input@.skip(1) } else { input@ }),
            d.len() == n - start,
            d.len() > 0,
            pow6((d.len() - 1) as nat) <= pos_limit,
            forall|j: int| 0 <= j < i - start ==> is_seximal_digit(#[trigger] d[j]),
        decreases n - i,
    {
        let c = input.get_char(i);
        let cv = c as u32;
        proof {
            assert(d[i - start] == input@[i as int]);
        }
        if cv < 48 || cv > 53 {
            proof {
                assert(!is_seximal_digit(d[i - start]));
                lemma_first_non_digit_at(d, i - start);
            }
            if cv == 45 && (neg || i > start) {
                return Err(SeximalError::MisplacedSign);
            } else {
                return Err(SeximalError::InvalidDigit);
            }
        }
        i += 1;
    }
    let limit = if neg {
        neg_limit
    } else {
        pos_limit
    };
    let mut value: u128 = 0;
    let mut k: usize = start;
    while k < n
        invariant
            input@.len() == n,
            start <= k <= n,
            neg == (signed && input@.len() > 0 && input@[0] == '-'),
            start == (if neg { 1int } else { 0int }),
            d == (if neg { input@.skip(1) } else { input@ }),
            all_seximal_digits(d),
            d.len() == n - start,
            d.len() > 0,
            pow6((d.len() - 1) as nat) <= pos_limit,
            limit == (if neg { neg_limit } else { pos_limit }),
            value == magnitude_of(d.take(k - start)),
            value <= limit,
        decreases n - k,
    {
        let c = input.get_char(k);
        proof {
            assert(d[k - start] == input@[k as int]);
            assert(is_seximal_digit(d[k - start]));
            lemma_magnitude_take_succ(d, k - start);
        }
        let dv = (c as u32 - 48) as u128;
        assert(dv == digit_value(d[k - start]));
        if value > limit / 6 {
            proof {
                assert(limit / 6 * 6 + limit % 6 == limit);
                assert(value * 6 > limit);
                lemma_magnitude_take_le(d, k - start + 1);
            }
            return Err(SeximalError::Overflow);
        }
        assert(value * 6 <= limit) by {
            assert(limit / 6 * 6 + limit % 6 == limit);
        }
        let v6 = value * 6;
        if dv > limit - v6 {
            proof {
                lemma_magnitude_take_le(d, k - start + 1);
            }
            return Err(SeximalError::Overflow);
        }
        value = v6 + dv;
        k += 1;
    }
    proof {
        assert(d.take(n - start) =~= d);
    }
    Ok((neg, value))
}

} // verus!
