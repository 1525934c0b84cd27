//! Decimal text: the spec-level shape of the strings the decoder produces,
//! and small verified builders and scanners for them.
use vstd::prelude::*;
use vstd::arithmetic::power::pow;
use vstd::string::StrSliceExecFns;
use vstd::string::StringExecFns;

verus! {

/// The character for a single decimal digit value.
pub open spec fn digit_char(d: nat) -> char {
    if d == 0 {
        '0'
    } else if d == 1 {
        '1'
    } else if d == 2 {
        '2'
    } else if d == 3 {
        '3'
    } else if d == 4 {
        '4'
    } else if d == 5 {
        '5'
    } else if d == 6 {
        '6'
    } else if d == 7 {
        '7'
    } else if d == 8 {
        '8'
    } else {
        '9'
    }
}

/// The canonical decimal rendering of a natural number: no sign, no leading
/// zeros (except for the number zero itself, which is "0").
pub open spec fn dec_digits_text(n: nat) -> Seq<char>
    decreases n,
{
    if n < 10 {
        seq![digit_char(n)]
    } else {
        dec_digits_text(n / 10) + seq![digit_char(n % 10)]
    }
}

/// The numeric value of a decimal digit character (ten for any other
/// character).
pub open spec fn char_val(c: char) -> nat {
    if c == '0' {
        0
    } else if c == '1' {
        1
    } else if c == '2' {
        2
    } else if c == '3' {
        3
    } else if c == '4' {
        4
    } else if c == '5' {
        5
    } else if c == '6' {
        6
    } else if c == '7' {
        7
    } else if c == '8' {
        8
    } else if c == '9' {
        9
    } else {
        10
    }
}

/// The value a sequence of digit characters denotes.
pub open spec fn digits_val(s: Seq<char>) -> nat
    decreases s.len(),
{
    if s.len() == 0 {
        0
    } else {
        digits_val(s.drop_last()) * 10 + char_val(s.last())
    }
}

/// Whether a string is a canonical digit text: nonempty, decimal digits
/// only, and no leading zero except for "0" itself.
pub open spec fn is_digit_text(s: Seq<char>) -> bool {
    &&& s.len() > 0
    &&& forall|i: int| 0 <= i < s.len() ==> '0' <= #[trigger] s[i] <= '9'
    &&& (s[0] == '0' ==> s.len() == 1)
}

/// The canonical rendering of a number is a canonical digit text and
/// denotes the number itself.
pub proof fn lemma_dec_digits_text_canonical(n: nat)
    ensures
        is_digit_text(dec_digits_text(n)),
        digits_val(dec_digits_text(n)) == n,
    decreases n,
{
    if n < 10 {
        let t = seq![digit_char(n)];
        assert(dec_digits_text(n) == t);
        assert(t.drop_last() =~= Seq::<char>::empty());
        assert(t.last() == digit_char(n));
        assert(digits_val(t) == digits_val(Seq::<char>::empty()) * 10 + char_val(digit_char(n)));
        assert(char_val(digit_char(n)) == n);
        assert('0' <= t[0] <= '9');
    } else {
        lemma_dec_digits_text_canonical(n / 10);
        let p = dec_digits_text(n / 10);
        let t = dec_digits_text(n);
        assert(t == p + seq![digit_char(n % 10)]);
        assert(t.drop_last() =~= p);
        assert(t.last() == digit_char(n % 10));
        assert(digits_val(t) == (n / 10) * 10 + n % 10);
        assert(char_val(digit_char(n % 10)) < 10);
        assert forall|i: int| 0 <= i < t.len() implies '0' <= #[trigger] t[i] <= '9' by {
            if i < t.len() - 1 {
                assert(t[i] == p[i]);
            } else {
                assert(t[i] == digit_char(n % 10));
            }
        }
        assert(t[0] == p[0]);
        assert(digits_val(p) == n / 10);
        assert(n / 10 > 0);
        assert(t[0] != '0') by {
            if p[0] == '0' {
                assert(p.len() == 1);
                assert(p =~= seq!['0']);
                assert(p.drop_last() =~= Seq::<char>::empty());
                assert(digits_val(p) == digits_val(Seq::<char>::empty()) * 10 + char_val('0'));
            }
        }
    }
}

/// A run of `n` zero characters.
pub open spec fn zeros_text(n: nat) -> Seq<char>
    decreases n,
{
    if n == 0 {
        Seq::<char>::empty()
    } else {
        zeros_text((n - 1) as nat) + "0"@
    }
}

/// The plain decimal rendering of ten to a signed power: "1" followed by
/// `e` zeros for `e >= 0`, and "0." followed by `-e - 1` zeros and a final
/// "1" for `e < 0`.
pub open spec fn pow10_text(e: int) -> Seq<char> {
    if e >= 0 {
        "1"@ + zeros_text(e as nat)
    } else {
        "0."@ + zeros_text((-e - 1) as nat) + "1"@
    }
}

/// Ten to the power `d`, as a mathematical integer.
pub open spec fn p10(d: nat) -> int {
    pow(10, d)
}

/// How a token amount is rendered for a given decimal count: the integer
/// part, a period, and the remainder left-padded with zeros to `d` digits.
/// (For `d == 0` the remainder is zero and is still printed, giving "n.0".)
pub open spec fn units_text(y: nat, d: nat) -> Seq<char> {
    let ip = dec_digits_text((y as int / p10(d)) as nat);
    let fp = dec_digits_text((y as int % p10(d)) as nat);
    let padn: nat = if fp.len() < d {
        (d - fp.len()) as nat
    } else {
        0
    };
    ip + "."@ + zeros_text(padn) + fp
}

/// A decimal text whose digits are all zero: an optional sign, then a body
/// of '0' characters with at most one '.' among them and at least one '0'.
pub open spec fn zero_body(t: Seq<char>) -> bool {
    &&& t.len() > 0
    &&& forall|i: int| 0 <= i < t.len() ==> t[i] == '0' || t[i] == '.'
    &&& exists|i: int| 0 <= i < t.len() && t[i] == '0'
    &&& forall|i: int, j: int| 0 <= i < j < t.len() ==> !(t[i] == '.' && t[j] == '.')
}

/// Whether a string is a decimal text denoting exactly zero.
pub open spec fn spec_zero_text(s: Seq<char>) -> bool {
    if s.len() > 0 && (s[0] == '+' || s[0] == '-') {
        zero_body(s.skip(1))
    } else {
        zero_body(s)
    }
}

/// Scans a string and decides whether it is a decimal text denoting zero.
pub fn text_is_zero(s: &str) -> (r: bool)
    ensures
        r == spec_zero_text(s@),
{
    let n = s.unicode_len();
    let mut start: usize = 0;
    if n > 0 {
        let c0 = s.get_char(0);
        if c0 == '+' || c0 == '-' {
            start = 1;
        }
    }
    let ghost t: Seq<char> = if start == 1 { s@.skip(1) } else { s@ };
    if n <= start {
        assert(t.len() == 0);
        return false;
    }
    let mut saw_digit = false;
    let mut saw_dot = false;
    let mut i = start;
    while i < n
        invariant
            start <= i <= n,
            n == s@.len(),
            start == 0 || start == 1,
            start == 1 ==> s@.len() > 0 && (s@[0] == '+' || s@[0] == '-'),
            start == 0 ==> !(s@.len() > 0 && (s@[0] == '+' || s@[0] == '-')),
            t == (if start == 1 { s@.skip(1) } else { s@ }),
            t.len() == n - start,
            forall|k: int| 0 <= k < t.len() ==> t[k] == s@[k + start],
            forall|k: int| 0 <= k < i - start ==> t[k] == '0' || t[k] == '.',
            saw_digit == exists|k: int| 0 <= k < i - start && t[k] == '0',
            saw_dot == exists|k: int| 0 <= k < i - start && t[k] == '.',
            forall|k: int, l: int|
                0 <= k < l < i - start ==> !(t[k] == '.' && t[l] == '.'),
        decreases n - i,
    {
        let c = s.get_char(i);
        assert(t[i - start] == c);
        if c == '0' {
            saw_digit = true;
        } else if c == '.' {
            if saw_dot {
                return false;
            }
            saw_dot = true;
        } else {
            assert(!zero_body(t));
            return false;
        }
        i += 1;
    }
    if saw_digit {
        assert(zero_body(t));
    } else {
        assert(!zero_body(t));
    }
    saw_digit
}

/// Builds a string of `n` zero characters.
pub fn repeat_zeros(n: usize) -> (s: String)
    ensures
        s@ == zeros_text(n as nat),
{
    let mut s = String::new();
    let mut i: usize = 0;
    while i < n
        invariant
            i <= n,
            s@ == zeros_text(i as nat),
        decreases n - i,
    {
        s.append("0");
        i += 1;
    }
    s
}

/// Builds the plain decimal text of ten to the power `e`.
pub fn ten_pow_text(e: i32) -> (s: String)
    requires
        -1000 <= e <= 1000,
    ensures
        s@ == pow10_text(e as int),
{
    let mut s = String::new();
    if e >= 0 {
        s.append("1");
        let z = repeat_zeros(e as usize);
        s.append(z.as_str());
        assert(s@ == "1"@ + zeros_text(e as nat));
    } else {
        s.append("0.");
        let z = repeat_zeros((-(e + 1)) as usize);
        s.append(z.as_str());
        s.append("1");
        assert(s@ == "0."@ + zeros_text((-(e as int) - 1) as nat) + "1"@);
    }
    s
}

} // verus!
