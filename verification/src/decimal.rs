//! Base-10 text form of integers: the encoding the counter node persists its
//! count in.

use vstd::prelude::*;
use vstd::string::*;

verus! {

/// The ASCII digit for `d < 10`.
pub open spec fn digit_char(d: nat) -> char {
    if d == 0 {
        '0'
    } else if d == 1 {
        '1'
    } else if d == 2 {
        '2'
    } else if d == 3 {
        '3'
    } else if d == 4 {
        '4'
    } else if d == 5 {
        '5'
    } else if d == 6 {
        '6'
    } else if d == 7 {
        '7'
    } else if d == 8 {
        '8'
    } else {
        '9'
    }
}

/// `true` for an ASCII digit.
pub open spec fn is_digit(c: char) -> bool {
    '0' <= c && c <= '9'
}

/// The value of an ASCII digit.
pub open spec fn digit_value(c: char) -> nat {
    ((c as int) - ('0' as int)) as nat
}

/// Shortest base-10 form of `n`: no sign, no leading zero.
pub open spec fn decimal(n: nat) -> Seq<char>
    decreases n,
{
    if n < 10 {
        seq![digit_char(n)]
    } else {
        decimal(n / 10).push(digit_char(n % 10))
    }
}

/// Base-10 form of a signed integer, `-` before negatives.
pub open spec fn signed_decimal(n: int) -> Seq<char> {
    if n < 0 {
        seq!['-'] + decimal((-n) as nat)
    } else {
        decimal(n as nat)
    }
}

/// The value of a run of ASCII digits.
pub open spec fn digits_value(s: Seq<char>) -> nat
    decreases s.len(),
{
    if s.len() == 0 {
        0
    } else {
        digits_value(s.drop_last()) * 10 + digit_value(s.last())
    }
}

/// Why text is not an `i64`, as `std` reports it.
#[derive(Debug, Clone, Copy, PartialEq, Eq)]
pub enum IntParseError {
    /// The text was empty.
    Empty,
    /// A character was not a digit (a lone sign counts as one).
    InvalidDigit,
    /// The value is above `i64::MAX`.
    PosOverflow,
    /// The value is below `i64::MIN`.
    NegOverflow,
}

/// The text `std` renders an integer parse error as.
pub open spec fn int_error_text(e: IntParseError) -> Seq<char> {
    match e {
        IntParseError::Empty => "cannot parse integer from empty string"@,
        IntParseError::InvalidDigit => "invalid digit found in string"@,
        IntParseError::PosOverflow => "number too large to fit in target type"@,
        IntParseError::NegOverflow => "number too small to fit in target type"@,
    }
}

impl IntParseError {
    /// The text `std` renders the error as.
    pub fn message(&self) -> (m: String)
        ensures
            m@ == int_error_text(*self),
    {
        match self {
            IntParseError::Empty => String::from_str("cannot parse integer from empty string"),
            IntParseError::InvalidDigit => String::from_str("invalid digit found in string"),
            IntParseError::PosOverflow => String::from_str("number too large to fit in target type"),
            IntParseError::NegOverflow => String::from_str("number too small to fit in target type"),
        }
    }
}

/// Reading digits `s[i..]` onto the running magnitude `acc`, as `i64::from_str`
/// does: the first non-digit or the first digit that leaves the range decides
/// the error.
pub open spec fn parse_digits_from(s: Seq<char>, i: int, acc: int, neg: bool) -> Result<
    int,
    IntParseError,
>
    decreases s.len() - i,
{
    if i < 0 || i >= s.len() {
        Ok(if neg {
            -acc
        } else {
            acc
        })
    } else if !is_digit(s[i]) {
        Err(IntParseError::InvalidDigit)
    } else {
        let next = acc * 10 + digit_value(s[i]);
        if !neg && next > i64::MAX {
            Err(IntParseError::PosOverflow)
        } else if neg && next > -(i64::MIN as int) {
            Err(IntParseError::NegOverflow)
        } else {
            parse_digits_from(s, i + 1, next, neg)
        }
    }
}

/// What `s.parse::<i64>()` gives: an optional `+` or `-`, then one or more
/// ASCII digits whose value fits in `i64`.
pub open spec fn parse_i64_spec(s: Seq<char>) -> Result<int, IntParseError> {
    if s.len() == 0 {
        Err(IntParseError::Empty)
    } else if s[0] == '+' || s[0] == '-' {
        if s.len() == 1 {
            Err(IntParseError::InvalidDigit)
        } else {
            parse_digits_from(s, 1, 0, s[0] == '-')
        }
    } else {
        parse_digits_from(s, 0, 0, false)
    }
}

/// The one-character string for digit `d`.
fn digit_str(d: u64) -> (r: &'static str)
    requires
        d < 10,
    ensures
        r@ == seq![digit_char(d as nat)],
{
    proof {
        reveal_strlit("0");
        reveal_strlit("1");
        reveal_strlit("2");
        reveal_strlit("3");
        reveal_strlit("4");
        reveal_strlit("5");
        reveal_strlit("6");
        reveal_strlit("7");
        reveal_strlit("8");
        reveal_strlit("9");
    }
    if d == 0 {
        "0"
    } else if d == 1 {
        "1"
    } else if d == 2 {
        "2"
    } else if d == 3 {
        "3"
    } else if d == 4 {
        "4"
    } else if d == 5 {
        "5"
    } else if d == 6 {
        "6"
    } else if d == 7 {
        "7"
    } else if d == 8 {
        "8"
    } else {
        "9"
    }
}

/// Base-10 text of an unsigned integer.
pub fn format_u64(n: u64) -> (r: String)
    ensures
        r@ == decimal(n as nat),
    decreases n,
{
    if n < 10 {
        String::from_str(digit_str(n))
    } else {
        let mut r = format_u64(n / 10);
        r.append(digit_str(n % 10));
        r
    }
}

/// Base-10 text of a signed integer (`i64`'s `Display`).
pub fn format_i64(n: i64) -> (r: String)
    ensures
        r@ == signed_decimal(n as int),
{
    proof {
        reveal_strlit("-");
    }
    if n < 0 {
        let magnitude: u64 = if n == i64::MIN {
            9223372036854775808u64
        } else {
            (-n) as u64
        };
        let mut r = String::from_str("-");
        r.append(format_u64(magnitude).as_str());
        r
    } else {
        format_u64(n as u64)
    }
}

/// Parse text as an `i64`, with `i64::from_str`'s rules and errors.
pub fn parse_i64(s: &str) -> (r: Result<i64, IntParseError>)
    ensures
        r matches Ok(n) ==> parse_i64_spec(s@) == Ok::<int, IntParseError>(n as int),
        r matches Err(e) ==> parse_i64_spec(s@) == Err::<int, IntParseError>(e),
{
    let len = s.unicode_len();
    if len == 0 {
        return Err(IntParseError::Empty);
    }
    let first = s.get_char(0);
    let neg = first == '-';
    let mut i: usize = 0;
    if first == '+' || first == '-' {
        if len == 1 {
            return Err(IntParseError::InvalidDigit);
        }
        i = 1;
    }
    let ghost start = i as int;
    let mut acc: u64 = 0;
    while i < len
        invariant
            len == s@.len(),
            1 <= len,
            start <= i <= len,
            neg == (s@[0] == '-'),
            start == (if s@[0] == '+' || s@[0] == '-' { 1int } else { 0int }),
            acc <= 9223372036854775808u64,
            !neg ==> acc <= 9223372036854775807u64,
            parse_digits_from(s@, start, 0, neg) == parse_digits_from(s@, i as int, acc as int, neg),
        decreases len - i,
    {
        let c = s.get_char(i);
        if !('0' <= c && c <= '9') {
            return Err(IntParseError::InvalidDigit);
        }
        let d = (c as u32 - '0' as u32) as u64;
        assert(d as int == digit_value(c));
        if acc > 922337203685477580u64 || (acc == 922337203685477580u64 && ((!neg && d > 7)
            || (neg && d > 8))) {
            if neg {
                return Err(IntParseError::NegOverflow);
            } else {
                return Err(IntParseError::PosOverflow);
            }
        }
        acc = acc * 10 + d;
        i = i + 1;
    }
    if neg {
        if acc == 9223372036854775808u64 {
            Ok(i64::MIN)
        } else {
            Ok(-(acc as i64))
        }
    } else {
        Ok(acc as i64)
    }
}


proof fn lemma_digit_char(d: nat)
    requires
        d < 10,
    ensures
        is_digit(digit_char(d)),
        digit_value(digit_char(d)) == d,
{
}

proof fn lemma_decimal(n: nat)
    ensures
        decimal(n).len() >= 1,
        forall|i: int| 0 <= i < decimal(n).len() ==> is_digit(#[trigger] decimal(n)[i]),
        digits_value(decimal(n)) == n,
    decreases n,
{
    if n < 10 {
        lemma_digit_char(n);
        assert(decimal(n).drop_last() =~= Seq::<char>::empty());
        assert(digits_value(Seq::<char>::empty()) == 0);
        assert(decimal(n).last() == digit_char(n));
        assert(digits_value(decimal(n)) == digits_value(decimal(n).drop_last()) * 10 + digit_value(
            decimal(n).last(),
        ));
    } else {
        lemma_decimal(n / 10);
        lemma_digit_char(n % 10);
        assert(decimal(n).drop_last() =~= decimal(n / 10));
        assert(decimal(n).last() == digit_char(n % 10));
        assert((n / 10) * 10 + n % 10 == n) by (nonlinear_arith);
        assert(digits_value(decimal(n)) == digits_value(decimal(n).drop_last()) * 10 + digit_value(
            decimal(n).last(),
        ));
        assert forall|i: int| 0 <= i < decimal(n).len() implies is_digit(#[trigger] decimal(n)[i]) by {
            if i < decimal(n).len() - 1 {
                assert(decimal(n)[i] == decimal(n / 10)[i]);
            }
        }
    }
}

proof fn lemma_digits_prefix_le(s: Seq<char>, j: int, k: int)
    requires
        0 <= j <= k <= s.len(),
        forall|i: int| 0 <= i < s.len() ==> is_digit(#[trigger] s[i]),
    ensures
        digits_value(s.subrange(0, j)) <= digits_value(s.subrange(0, k)),
    decreases k - j,
{
    if j < k {
        lemma_digits_prefix_le(s, j, k - 1);
        assert(s.subrange(0, k).drop_last() =~= s.subrange(0, k - 1));
    }
}

proof fn lemma_parse_digits(s: Seq<char>, start: int, i: int, neg: bool)
    requires
        0 <= start <= i <= s.len(),
        forall|j: int| start <= j < s.len() ==> is_digit(#[trigger] s[j]),
        neg ==> digits_value(s.subrange(start, s.len() as int)) <= -(i64::MIN as int),
        !neg ==> digits_value(s.subrange(start, s.len() as int)) <= i64::MAX,
    ensures
        parse_digits_from(s, i, digits_value(s.subrange(start, i)) as int, neg) == Ok::<
            int,
            IntParseError,
        >(
            if neg {
                -(digits_value(s.subrange(start, s.len() as int)) as int)
            } else {
                digits_value(s.subrange(start, s.len() as int)) as int
            },
        ),
    decreases s.len() - i,
{
    let t = s.subrange(start, s.len() as int);
    assert forall|j: int| 0 <= j < t.len() implies is_digit(#[trigger] t[j]) by {
        assert(t[j] == s[start + j]);
    }
    if i < s.len() {
        let acc = digits_value(s.subrange(start, i)) as int;
        assert(s.subrange(start, i + 1).drop_last() =~= s.subrange(start, i));
        assert(s.subrange(start, i + 1).last() == s[i]);
        assert(t.subrange(0, i + 1 - start) =~= s.subrange(start, i + 1));
        assert(t.subrange(0, t.len() as int) =~= t);
        lemma_digits_prefix_le(t, i + 1 - start, t.len() as int);
        lemma_parse_digits(s, start, i + 1, neg);
    } else {
        assert(s.subrange(start, i) =~= t);
    }
}

/// A count written in base 10 reads back as the same count: for every
/// `i64`, parsing its decimal text gives it back.
pub proof fn lemma_signed_decimal_roundtrip(n: i64)
    ensures
        parse_i64_spec(signed_decimal(n as int)) == Ok::<int, IntParseError>(n as int),
{
    if n < 0 {
        let m = (-(n as int)) as nat;
        let d = decimal(m);
        let s = seq!['-'] + d;
        lemma_decimal(m);
        assert(s.subrange(1, s.len() as int) =~= d);
        assert(s.subrange(1, 1) =~= Seq::<char>::empty());
        assert forall|j: int| 1 <= j < s.len() implies is_digit(#[trigger] s[j]) by {
            assert(s[j] == d[j - 1]);
        }
        lemma_parse_digits(s, 1, 1, true);
    } else {
        let d = decimal(n as nat);
        lemma_decimal(n as nat);
        assert(d.subrange(0, d.len() as int) =~= d);
        assert(d.subrange(0, 0) =~= Seq::<char>::empty());
        assert(is_digit(d[0]));
        lemma_parse_digits(d, 0, 0, false);
    }
}

} // verus!
