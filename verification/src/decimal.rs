//! Unsigned decimal numbers as text: reading and writing.
use crate::text::characters;
use vstd::prelude::*;

verus! {

/// Why a text is no number.
#[derive(Debug, Clone, Copy, PartialEq, Eq, Structural)]
pub enum ParseIntError {
    /// The text is empty.
    Empty,
    /// The text holds something else than digits behind an optional plus sign, or no digit.
    InvalidDigit,
    /// The number is larger than the caller can hold.
    PosOverflow,
}

impl ParseIntError {
    /// The sentence that tells a reader of the failure.
    pub open spec fn message(self) -> Seq<char> {
        match self {
            ParseIntError::Empty => "cannot parse integer from empty string"@,
            ParseIntError::InvalidDigit => "invalid digit found in string"@,
            ParseIntError::PosOverflow => "number too large to fit in target type"@,
        }
    }

    /// The sentence as text.
    pub fn to_str(&self) -> (res: &'static str)
        ensures
            res@ == self.message(),
    {
        match self {
            ParseIntError::Empty => "cannot parse integer from empty string",
            ParseIntError::InvalidDigit => "invalid digit found in string",
            ParseIntError::PosOverflow => "number too large to fit in target type",
        }
    }
}

/// The numeric value of a decimal digit.
pub open spec fn digit(c: char) -> int {
    c as int - '0' as int
}

/// Whether a character is one of the ten decimal digits.
pub open spec fn is_digit(c: char) -> bool {
    '0' <= c && c <= '9'
}

/// Whether a text holds decimal digits only.
pub open spec fn all_digits(s: Seq<char>) -> bool {
    forall|i: int| 0 <= i < s.len() ==> is_digit(#[trigger] s[i])
}

/// The number that a text of decimal digits denotes.
pub open spec fn value(s: Seq<char>) -> int
    decreases s.len(),
{
    if s.len() == 0 {
        0
    } else {
        value(s.drop_last()) * 10 + digit(s.last())
    }
}

/// What follows an optional plus sign.
pub open spec fn unsigned(s: Seq<char>) -> Seq<char> {
    if s.len() > 0 && s[0] == '+' {
        s.skip(1)
    } else {
        s
    }
}

/// Whether the digits that a text starts with already denote a number above `max`.
pub open spec fn overflows(s: Seq<char>, max: int) -> bool {
    exists|k: int|
        0 <= k <= s.len() && all_digits(s.take(k)) && #[trigger] value(s.take(k)) > max
}

/// What reading a text as a number of at most `max` gives: its value where an optional plus sign
/// is followed by at least one digit and by nothing else, and the value is in range.
pub open spec fn parsed(s: Seq<char>, max: int) -> Result<int, ParseIntError> {
    let digits = unsigned(s);
    if s.len() == 0 {
        Err(ParseIntError::Empty)
    } else if digits.len() > 0 && all_digits(digits) && value(digits) <= max {
        Ok(value(digits))
    } else if overflows(digits, max) {
        Err(ParseIntError::PosOverflow)
    } else {
        Err(ParseIntError::InvalidDigit)
    }
}

/// The shortest decimal text of a number.
pub open spec fn decimal(n: nat) -> Seq<char>
    decreases n,
{
    if n < 10 {
        seq![('0' as int + n) as char]
    } else {
        decimal(n / 10).push(('0' as int + n % 10) as char)
    }
}

/// The value of digits grows with each further digit.
proof fn lemma_value_grows(s: Seq<char>, k: int)
    requires
        0 <= k <= s.len(),
        all_digits(s),
    ensures
        0 <= value(s.take(k)) <= value(s),
    decreases s.len(),
{
    if k == s.len() {
        assert(s.take(k) =~= s);
        if s.len() > 0 {
            lemma_value_grows(s.drop_last(), s.len() - 1);
            assert(s.drop_last().take(s.len() - 1) =~= s.drop_last());
        }
    } else {
        let shorter = s.drop_last();
        assert(shorter.take(k) =~= s.take(k));
        lemma_value_grows(shorter, k);
        assert(is_digit(s.last()));
    }
}

/// Reads an unsigned decimal number of at most `max`.
pub fn parse_uint(s: &str, max: u64) -> (res: Result<u64, ParseIntError>)
    ensures
        match res {
            Ok(n) => parsed(s@, max as int) == Ok::<int, ParseIntError>(n as int),
            Err(e) => parsed(s@, max as int) == Err::<int, ParseIntError>(e),
        },
{
    let chars = characters(s);
    if chars.len() == 0 {
        return Err(ParseIntError::Empty);
    }
    let start: usize = if chars[0] == '+' {
        1
    } else {
        0
    };
    let ghost digits = unsigned(s@);
    assert(digits =~= s@.skip(start as int));
    if start == chars.len() {
        assert forall|k: int| 0 <= k <= digits.len() implies !(#[trigger] value(digits.take(k))
            > max) by {
            assert(digits.take(k).len() == 0);
        }
        return Err(ParseIntError::InvalidDigit);
    }
    let mut number: u64 = 0;
    let mut i: usize = start;
    while i < chars.len()
        invariant
            start <= i <= chars.len(),
            start <= 1,
            chars@ == s@,
            digits == s@.skip(start as int),
            digits == unsigned(s@),
            s@.len() > 0,
            digits.len() > 0,
            all_digits(digits.take(i - start)),
            number == value(digits.take(i - start)),
            number <= max,
        decreases chars.len() - i,
    {
        let c = chars[i];
        let ghost k = i - start;
        assert(digits[k] == c);
        if c < '0' || c > '9' {
            proof {
                assert(!all_digits(digits)) by {
                    assert(!is_digit(digits[k]));
                }
                assert forall|j: int| 0 <= j <= digits.len() && all_digits(digits.take(j)) implies !(
                #[trigger] value(digits.take(j)) > max) by {
                    if j > k {
                        assert(is_digit(digits.take(j)[k]));
                    } else {
                        lemma_value_grows(digits.take(k), j);
                        assert(digits.take(k).take(j) =~= digits.take(j));
                    }
                }
            }
            return Err(ParseIntError::InvalidDigit);
        }
        let d: u64 = (c as u32 - '0' as u32) as u64;
        proof {
            assert(digits.take(k + 1).drop_last() =~= digits.take(k));
            assert(value(digits.take(k + 1)) == number * 10 + d);
            assert(all_digits(digits.take(k + 1))) by {
                assert forall|j: int| 0 <= j < k + 1 implies is_digit(
                    #[trigger] digits.take(k + 1)[j],
                ) by {
                    if j < k {
                        assert(is_digit(digits.take(k)[j]));
                    }
                }
            }
        }
        if number > max / 10 || (number == max / 10 && d > max % 10) {
            proof {
                assert(value(digits.take(k + 1)) > max);
                if all_digits(digits) {
                    lemma_value_grows(digits, k + 1);
                }
                assert(overflows(digits, max as int));
            }
            return Err(ParseIntError::PosOverflow);
        }
        number = number * 10 + d;
        i += 1;
    }
    assert(digits.take(chars.len() - start) =~= digits);
    Ok(number)
}

/// The text of one decimal digit.
fn digit_text(d: u64) -> (res: &'static str)
    requires
        d < 10,
    ensures
        res@ == seq![('0' as int + d) as char],
{
    proof {
        reveal_strlit("0");
        reveal_strlit("1");
        reveal_strlit("2");
        reveal_strlit("3");
        reveal_strlit("4");
        reveal_strlit("5");
        reveal_strlit("6");
        reveal_strlit("7");
        reveal_strlit("8");
        reveal_strlit("9");
    }
    match d {
        0 => "0",
        1 => "1",
        2 => "2",
        3 => "3",
        4 => "4",
        5 => "5",
        6 => "6",
        7 => "7",
        8 => "8",
        _ => "9",
    }
}

/// Writes a number in decimal.
pub fn to_decimal(n: u64) -> (res: String)
    ensures
        res@ == decimal(n as nat),
    decreases n,
{
    let mut text = if n < 10 {
        String::new()
    } else {
        to_decimal(n / 10)
    };
    text.append(digit_text(n % 10));
    text
}

/// The decimal text of a number is read back as that number.
pub proof fn law_decimal_reads_back(n: nat, max: int)
    ensures
        n <= max ==> parsed(decimal(n), max) == Ok::<int, ParseIntError>(n as int),
        n > max ==> parsed(decimal(n), max) == Err::<int, ParseIntError>(
            ParseIntError::PosOverflow,
        ),
{
    lemma_decimal_value(n);
    let s = decimal(n);
    assert(is_digit(s[0]));
    assert(unsigned(s) == s);
    assert(s.take(s.len() as int) =~= s);
    if n > max {
        assert(value(s.take(s.len() as int)) > max);
    }
}

/// The decimal text of a number holds digits only, at least one, and denotes the number.
proof fn lemma_decimal_value(n: nat)
    ensures
        decimal(n).len() > 0,
        all_digits(decimal(n)),
        value(decimal(n)) == n,
    decreases n,
{
    let s = decimal(n);
    if n < 10 {
        assert(s.drop_last() =~= Seq::<char>::empty());
        assert(value(s.drop_last()) == 0);
    } else {
        lemma_decimal_value(n / 10);
        assert(s.drop_last() =~= decimal(n / 10));
    }
}

/// So many zeros.
pub open spec fn zeros(k: nat) -> Seq<char> {
    Seq::new(k, |i: int| '0')
}

/// Whether a text denotes a number: it is the decimal text of the number, with any zeros and at
/// most one plus sign in front.
pub open spec fn denotes(s: Seq<char>, n: nat) -> bool {
    exists|k: nat|
        s == #[trigger] zeros(k) + decimal(n) || s == seq!['+'] + (zeros(k) + decimal(n))
}

/// The decimal text of a number below ten is its digit; a further digit behind the text of a number
/// makes it ten times as large, and adds the digit.
pub proof fn law_decimal_digits(n: nat, d: nat)
    requires
        d < 10,
    ensures
        decimal(d).len() == 1,
        decimal(d)[0] as int == '0' as int + d,
        n > 0 ==> decimal(10 * n + d) == decimal(n) + decimal(d),
{
    if n > 0 {
        assert((10 * n + d) / 10 == n);
        assert((10 * n + d) % 10 == d);
        assert(decimal(10 * n + d) =~= decimal(n) + decimal(d));
    }
}

/// Zeros in front do not change what digits denote.
proof fn lemma_zeros_in_front(k: nat, s: Seq<char>)
    requires
        all_digits(s),
    ensures
        all_digits(zeros(k) + s),
        value(zeros(k) + s) == value(s),
    decreases s.len() + k,
{
    let t = zeros(k) + s;
    if s.len() > 0 {
        assert forall|i: int| 0 <= i < s.len() - 1 implies is_digit(
            #[trigger] s.drop_last()[i],
        ) by {
            assert(is_digit(s[i]));
        }
        lemma_zeros_in_front(k, s.drop_last());
        assert(t.drop_last() =~= zeros(k) + s.drop_last());
    } else if k > 0 {
        lemma_zeros_in_front((k - 1) as nat, s);
        assert(t.drop_last() =~= zeros((k - 1) as nat) + s);
        assert(t.last() == '0');
    } else {
        assert(t =~= s);
    }
}

/// Digits are zeros and the decimal text of what they denote.
proof fn lemma_digits_denote(s: Seq<char>) -> (k: nat)
    requires
        s.len() > 0,
        all_digits(s),
    ensures
        value(s) >= 0,
        s == zeros(k) + decimal(value(s) as nat),
    decreases s.len(),
{
    let rest = s.drop_last();
    let d = digit(s.last()) as nat;
    assert(is_digit(s[s.len() - 1]));
    lemma_value_grows(s, s.len() as int);
    if rest.len() == 0 {
        assert(s =~= zeros(0) + decimal(d));
        0
    } else {
        assert forall|i: int| 0 <= i < rest.len() implies is_digit(#[trigger] rest[i]) by {
            assert(is_digit(s[i]));
        }
        let k = lemma_digits_denote(rest);
        let n = value(rest) as nat;
        law_decimal_digits(n, d);
        law_decimal_digits(0, 0);
        assert(decimal(d) =~= seq![s.last()]);
        assert(s =~= rest + decimal(d));
        if n == 0 {
            assert(rest =~= zeros(k + 1));
            assert(s =~= zeros(k + 1) + decimal(d));
            k + 1
        } else {
            assert(s =~= zeros(k) + decimal(10 * n + d));
            k
        }
    }
}

/// What denotes a number holds its digits behind an optional plus sign.
proof fn lemma_denoted(s: Seq<char>, n: nat)
    requires
        denotes(s, n),
    ensures
        unsigned(s).len() > 0,
        all_digits(unsigned(s)),
        value(unsigned(s)) == n,
{
    let k = choose|k: nat|
        s == #[trigger] zeros(k) + decimal(n) || s == seq!['+'] + (zeros(k) + decimal(n));
    lemma_decimal_value(n);
    lemma_zeros_in_front(k, decimal(n));
    let t = zeros(k) + decimal(n);
    assert(is_digit(t[0]));
    if s == t {
        assert(unsigned(s) == t);
    } else {
        assert(unsigned(s) =~= t);
    }
}

/// Digits behind an optional plus sign denote their value.
proof fn lemma_denotes_value(s: Seq<char>)
    requires
        unsigned(s).len() > 0,
        all_digits(unsigned(s)),
    ensures
        value(unsigned(s)) >= 0,
        denotes(s, value(unsigned(s)) as nat),
{
    let t = unsigned(s);
    let k = lemma_digits_denote(t);
    if t != s {
        assert(s =~= seq!['+'] + t);
    }
    assert(t == zeros(k) + decimal(value(t) as nat));
}

/// A text is read as a number exactly when it denotes that number, and the number is in range.
pub proof fn law_numbers_are_read(s: Seq<char>, max: int, n: nat)
    ensures
        parsed(s, max) == Ok::<int, ParseIntError>(n as int) <==> denotes(s, n) && n <= max,
{
    if denotes(s, n) {
        lemma_denoted(s, n);
    }
    if parsed(s, max) == Ok::<int, ParseIntError>(n as int) {
        lemma_denotes_value(s);
    }
}

/// A text that is read as some number denotes one in range.
pub proof fn law_what_is_read_is_denoted(s: Seq<char>, max: int)
    ensures
        parsed(s, max) matches Ok(n) ==> 0 <= n <= max && denotes(s, n as nat),
{
    if parsed(s, max) is Ok {
        lemma_denotes_value(s);
    }
}

/// Why a text is not read: it is empty; or what it starts with denotes a number above the highest;
/// or else something in it is no digit.
pub proof fn law_why_a_text_is_not_read(s: Seq<char>, max: int)
    requires
        max >= 0,
    ensures
        parsed(s, max) == Err::<int, ParseIntError>(ParseIntError::Empty) <==> s.len() == 0,
        parsed(s, max) == Err::<int, ParseIntError>(ParseIntError::PosOverflow) <==> exists|
            k: int,
            n: nat,
        |
            0 <= k <= s.len() && #[trigger] denotes(s.take(k), n) && n > max,
{
    let t = unsigned(s);
    let off = s.len() - t.len();
    if parsed(s, max) == Err::<int, ParseIntError>(ParseIntError::PosOverflow) {
        let k = choose|k: int|
            0 <= k <= t.len() && all_digits(t.take(k)) && #[trigger] value(t.take(k)) > max;
        let head = s.take(off + k);
        assert(k > 0);
        assert(t.take(k)[0] == t[0]);
        assert(is_digit(t.take(k)[0]));
        assert(unsigned(head) =~= t.take(k));
        lemma_denotes_value(head);
    }
    if exists|k: int, n: nat|
        0 <= k <= s.len() && #[trigger] denotes(s.take(k), n) && n > max {
        let (k, n) = choose|k: int, n: nat|
            0 <= k <= s.len() && #[trigger] denotes(s.take(k), n) && n > max;
        lemma_denoted(s.take(k), n);
        let head = unsigned(s.take(k));
        assert(k > 0);
        assert(s.take(k)[0] == s[0]);
        assert(head =~= t.take(k - off));
        assert(overflows(t, max));
        if all_digits(t) {
            lemma_value_grows(t, k - off);
        }
    }
}

/// A plus sign or a zero in front does not change what digits are read as; and what is read holds
/// nothing but digits behind an optional plus sign.
pub proof fn law_plus_and_zeros_do_not_matter(s: Seq<char>, max: int, n: int)
    requires
        s.len() > 0,
        s[0] != '+',
    ensures
        parsed(seq!['+'] + s, max) == Ok::<int, ParseIntError>(n) <==> parsed(s, max) == Ok::<
            int,
            ParseIntError,
        >(n),
        parsed(seq!['0'] + s, max) == Ok::<int, ParseIntError>(n) <==> parsed(s, max) == Ok::<
            int,
            ParseIntError,
        >(n),
        parsed(s, max) is Ok ==> forall|i: int|
            0 <= i < s.len() ==> '0' <= #[trigger] s[i] && s[i] <= '9',
{
    let plus = seq!['+'] + s;
    assert(unsigned(plus) =~= s);
    let zero = seq!['0'] + s;
    assert(unsigned(zero) == zero);
    assert(zeros(1) =~= seq!['0']);
    if all_digits(s) {
        lemma_zeros_in_front(1, s);
    }
    if all_digits(zero) {
        assert forall|i: int| 0 <= i < s.len() implies is_digit(#[trigger] s[i]) by {
            assert(is_digit(zero[i + 1]));
        }
        lemma_zeros_in_front(1, s);
    }
    if parsed(s, max) is Ok {
        assert forall|i: int| 0 <= i < s.len() implies '0' <= #[trigger] s[i] && s[i] <= '9' by {
            assert(is_digit(s[i]));
        }
    }
}

} // verus!
