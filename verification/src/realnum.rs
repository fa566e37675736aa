//! The textual half of the real-number codec: splitting seximal real text
//! into sign, whole digits and fractional digits, with the full error
//! taxonomy. Turning the digit groups into a floating-point value is left to
//! the caller, since that step is a property of the float type, not of the
//! text.

use vstd::prelude::*;

use crate::codec::{all_seximal_digits, digit_value, first_non_digit, is_seximal_digit, lemma_first_non_digit_at, SeximalError};

verus! {

/// The index of the leftmost `.` in `s`, or `s.len()` when there is none.
pub open spec fn first_radix(s: Seq<char>) -> int
    decreases s.len(),
{
    if s.len() == 0 {
        0
    } else if s[0] == '.' {
        0
    } else {
        1 + first_radix(s.skip(1))
    }
}

/// The numeric values of a string of digit characters.
pub open spec fn digit_values(s: Seq<char>) -> Seq<u8> {
    s.map_values(|c: char| (c as int - '0' as int) as u8)
}

/// What splitting seximal real text yields: the sign and the two digit
/// groups, or the exact error. A second radix point is rejected first; then
/// an empty whole or fractional digit group; then every remaining character
/// must be a seximal digit.
pub open spec fn real_parse_spec(s: Seq<char>) -> Result<
    (bool, Seq<u8>, Seq<u8>),
    SeximalError,
> {
    let neg = s.len() > 0 && s[0] == '-';
    let b = if neg { s.skip(1) } else { s };
    let has_dot = first_radix(b) < b.len();
    let w = b.take(first_radix(b));
    let f = if has_dot { b.skip(first_radix(b) + 1) } else { Seq::<char>::empty() };
    if has_dot && first_radix(f) < f.len() {
        Err(SeximalError::TooManyRadixPoints)
    } else if w.len() == 0 || (has_dot && f.len() == 0) {
        Err(SeximalError::InvalidDigit)
    } else if !all_seximal_digits(w) {
        if w[first_non_digit(w)] == '-' && (neg || first_non_digit(w) > 0) {
            Err(SeximalError::MisplacedSign)
        } else {
            Err(SeximalError::InvalidDigit)
        }
    } else if !all_seximal_digits(f) {
        if f[first_non_digit(f)] == '-' {
            Err(SeximalError::MisplacedSign)
        } else {
            Err(SeximalError::InvalidDigit)
        }
    } else {
        Ok((neg, digit_values(w), digit_values(f)))
    }
}

/// Seximal real text split into its three parts, every digit as its value.
#[derive(Debug)]
pub struct RealParts {
    /// Whether the text began with `-`.
    pub negative: bool,
    /// The digit values before the radix point, most significant first.
    pub whole: Vec<u8>,
    /// The digit values after the radix point, most significant first;
    /// empty when the text had no radix point.
    pub fraction: Vec<u8>,
}

/// Pins down `first_radix` from a witness: no radix point up to `k`, one
/// at `k`.
proof fn lemma_first_radix_at(s: Seq<char>, k: int)
    requires
        0 <= k < s.len(),
        forall|j: int| 0 <= j < k ==> #[trigger] s[j] != '.',
        s[k] == '.',
    ensures
        first_radix(s) == k,
    decreases k,
{
    if k > 0 {
        let t = s.skip(1);
        assert(forall|j: int| 0 <= j < k - 1 ==> #[trigger] t[j] != '.');
        assert(t[k - 1] == s[k]);
        lemma_first_radix_at(t, k - 1);
    }
}

/// Without any radix point, `first_radix` is the length.
proof fn lemma_first_radix_none(s: Seq<char>)
    requires
        forall|j: int| 0 <= j < s.len() ==> #[trigger] s[j] != '.',
    ensures
        first_radix(s) == s.len(),
    decreases s.len(),
{
    if s.len() > 0 {
        let t = s.skip(1);
        assert(forall|j: int| 0 <= j < t.len() ==> #[trigger] t[j] != '.');
        lemma_first_radix_none(t);
    }
}

/// Splits seximal real text into sign, whole digits and fractional digits,
/// exactly as `real_parse_spec` describes.
pub fn parse_real(input: &str) -> (r: Result<RealParts, SeximalError>)
    ensures
        match real_parse_spec(input@) {
            Ok(p) => r matches Ok(q) && q.negative == p.0 && q.whole@ == p.1 && q.fraction@
                == p.2,
            Err(e) => r matches Err(e2) && e2 == e,
        },
{
    let n = input.unicode_len();
    let neg = if n > 0 {
        input.get_char(0) == '-'
    } else {
        false
    };
    let start: usize = if neg {
        1
    } else {
        0
    };
    let ghost b = if neg {
        input@.skip(1)
    } else {
        input@
    };
    assert(b.len() == n - start);

    // Find the first radix point, if any.
    let mut dot: usize = n;
    let mut i: usize = start;
    while i < n
        invariant_except_break
            dot == n,
        invariant
            input@.len() == n,
            start <= i <= n,
            start == (if neg { 1int } else { 0int }),
            b == (if neg { input@.skip(1) } else { input@ }),
            forall|j: int| 0 <= j < i - start ==> #[trigger] b[j] != '.',
        ensures
            input@.len() == n,
            start <= i <= n,
            dot == n || (start <= dot < n && b[dot - start] == '.' && forall|j: int|
                0 <= j < dot - start ==> #[trigger] b[j] != '.'),
            dot == n ==> forall|j: int| 0 <= j < b.len() ==> #[trigger] b[j] != '.',
        decreases n - i,
    {
        let c = input.get_char(i);
        proof {
            assert(b[i - start] == input@[i as int]);
        }
        if c == '.' {
            dot = i;
            break ;
        }
        i += 1;
    }
    proof {
        if dot == n {
            lemma_first_radix_none(b);
        } else {
            lemma_first_radix_at(b, dot - start);
        }
    }
    let has_dot = dot < n;
    let ghost w = b.take(first_radix(b));
    let ghost f = if has_dot {
        b.skip(first_radix(b) + 1)
    } else {
        Seq::<char>::empty()
    };

    // A second radix point is rejected before anything else.
    if has_dot {
        let mut k: usize = dot + 1;
        while k < n
            invariant
                input@.len() == n,
                start <= dot < k <= n,
                neg == (input@.len() > 0 && input@[0] == '-'),
                start == (if neg { 1int } else { 0int }),
                b == (if neg { input@.skip(1) } else { input@ }),
                b.len() == n - start,
                first_radix(b) == dot - start,
                f == b.skip(dot - start + 1),
                f.len() == n - dot - 1,
                forall|j: int| 0 <= j < k - dot - 1 ==> #[trigger] f[j] != '.',
            decreases n - k,
        {
            if input.get_char(k) == '.' {
                proof {
                    lemma_first_radix_at(f, k - dot - 1);
                }
                return Err(SeximalError::TooManyRadixPoints);
            }
            k += 1;
        }
        proof {
            lemma_first_radix_none(f);
        }
    }

    if dot == start || (has_dot && dot + 1 == n) {
        return Err(SeximalError::InvalidDigit);
    }
    if n == start {
        return Err(SeximalError::InvalidDigit);
    }

    // Validate and collect the whole digit group.
    let mut whole: Vec<u8> = Vec::new();
    let mut k: usize = start;
    while k < dot
        invariant
            input@.len() == n,
            start <= k <= dot <= n,
            neg == (input@.len() > 0 && input@[0] == '-'),
            start == (if neg { 1int } else { 0int }),
            b == (if neg { input@.skip(1) } else { input@ }),
            b.len() == n - start,
            first_radix(b) == dot - start,
            has_dot == (dot < n),
            w == b.take(dot - start),
            w.len() == dot - start,
            w.len() > 0,
            f == (if has_dot { b.skip(dot - start + 1) } else { Seq::<char>::empty() }),
            f.len() == (if has_dot { n - dot - 1 } else { 0int }),
            has_dot ==> f.len() > 0,
            has_dot ==> first_radix(f) == f.len(),
            whole@.len() == k - start,
            forall|j: int| 0 <= j < k - start ==> is_seximal_digit(#[trigger] w[j]),
            forall|j: int| 0 <= j < k - start ==> whole@[j] == digit_value(w[j]),
        decreases dot - k,
    {
        let c = input.get_char(k);
        let cv = c as u32;
        proof {
            assert(w[k - start] == input@[k as int]);
        }
        if cv < 48 || cv > 53 {
            proof {
                lemma_first_non_digit_at(w, k - start);
            }
            if cv == 45 && (neg || k > start) {
                return Err(SeximalError::MisplacedSign);
            } else {
                return Err(SeximalError::InvalidDigit);
            }
        }
        whole.push((cv - 48) as u8);
        k += 1;
    }
    proof {
        assert(w =~= b.take(dot - start));
        assert(whole@ =~= digit_values(w));
    }

    // Validate and collect the fractional digit group.
    let mut fraction: Vec<u8> = Vec::new();
    if has_dot {
        let mut k2: usize = dot + 1;
        while k2 < n
            invariant
                input@.len() == n,
                start <= dot < k2 <= n,
                neg == (input@.len() > 0 && input@[0] == '-'),
                start == (if neg { 1int } else { 0int }),
                b == (if neg { input@.skip(1) } else { input@ }),
                b.len() == n - start,
                first_radix(b) == dot - start,
                has_dot,
                dot < n,
                w == b.take(dot - start),
                w.len() == dot - start,
                w.len() > 0,
                all_seximal_digits(w),
                f == b.skip(dot - start + 1),
                f.len() == n - dot - 1,
                f.len() > 0,
                first_radix(f) == f.len(),
                fraction@.len() == k2 - dot - 1,
                forall|j: int| 0 <= j < k2 - dot - 1 ==> is_seximal_digit(#[trigger] f[j]),
                forall|j: int| 0 <= j < k2 - dot - 1 ==> fraction@[j] == digit_value(f[j]),
            decreases n - k2,
        {
            let c = input.get_char(k2);
            let cv = c as u32;
            proof {
                assert(f[k2 - dot - 1] == input@[k2 as int]);
            }
            if cv < 48 || cv > 53 {
                proof {
                    lemma_first_non_digit_at(f, k2 - dot - 1);
                }
                if cv == 45 {
                    return Err(SeximalError::MisplacedSign);
                } else {
                    return Err(SeximalError::InvalidDigit);
                }
            }
            fraction.push((cv - 48) as u8);
            k2 += 1;
        }
        proof {
            assert(fraction@ =~= digit_values(f));
        }
    } else {
        proof {
            assert(fraction@ =~= digit_values(f));
        }
    }

    Ok(RealParts { negative: neg, whole, fraction })
}

} // verus!
