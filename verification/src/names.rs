use vstd::prelude::*;

verus! {

// Decimal renderings of ids and indices, and parsing of integer literals.
// Generated names such as subject bindings are built from a fixed prefix and
// a fresh id rendered in decimal.

/// The decimal digit character for `d` in 0..=9; `'0'` elsewhere.
pub open spec fn digit_char(d: int) -> char {
    if d == 1 {
        '1'
    } else if d == 2 {
        '2'
    } else if d == 3 {
        '3'
    } else if d == 4 {
        '4'
    } else if d == 5 {
        '5'
    } else if d == 6 {
        '6'
    } else if d == 7 {
        '7'
    } else if d == 8 {
        '8'
    } else if d == 9 {
        '9'
    } else {
        '0'
    }
}

/// The value of a decimal digit character; -1 for any other character.
pub open spec fn char_digit(c: char) -> int {
    if c == '0' {
        0
    } else if c == '1' {
        1
    } else if c == '2' {
        2
    } else if c == '3' {
        3
    } else if c == '4' {
        4
    } else if c == '5' {
        5
    } else if c == '6' {
        6
    } else if c == '7' {
        7
    } else if c == '8' {
        8
    } else if c == '9' {
        9
    } else {
        -1
    }
}

pub open spec fn is_digit(c: char) -> bool {
    char_digit(c) >= 0
}

/// A nonempty, all-digit character sequence.
pub open spec fn dec_digits_ok(s: Seq<char>) -> bool {
    s.len() > 0 && forall|i: int| 0 <= i < s.len() ==> is_digit(s[i])
}

/// The integer an all-digit sequence denotes.
pub open spec fn dec_val(s: Seq<char>) -> int
    decreases s.len(),
{
    if s.len() == 0 {
        0
    } else {
        dec_val(s.drop_last()) * 10 + char_digit(s.last())
    }
}

/// The canonical decimal rendering of a nonnegative integer: no sign, no
/// leading zero except for zero itself.
pub open spec fn dec_str(n: int) -> Seq<char>
    decreases n,
{
    if n < 0 {
        Seq::empty()
    } else if n < 10 {
        seq![digit_char(n)]
    } else {
        dec_str(n / 10).push(digit_char(n % 10))
    }
}

/// What integer parsing returns: the denoted value for an optionally signed,
/// nonempty digit string whose value fits the target type; nothing otherwise.
pub open spec fn parse_i128_spec(s: Seq<char>) -> Option<i128> {
    if s.len() > 0 && (s[0] == '+' || s[0] == '-') {
        let body = s.skip(1);
        if dec_digits_ok(body) {
            let v: int = if s[0] == '-' {
                -dec_val(body)
            } else {
                dec_val(body)
            };
            if i128::MIN <= v <= i128::MAX {
                Some(v as i128)
            } else {
                None
            }
        } else {
            None
        }
    } else {
        if dec_digits_ok(s) {
            if dec_val(s) <= i128::MAX {
                Some(dec_val(s) as i128)
            } else {
                None
            }
        } else {
            None
        }
    }
}

/// The canonical rendering consists of digits and denotes the number it was
/// made from.
pub proof fn lemma_dec_str_roundtrip(n: int)
    requires
        n >= 0,
    ensures
        dec_digits_ok(dec_str(n)),
        dec_val(dec_str(n)) == n,
    decreases n,
{
    if n < 10 {
        assert(dec_str(n) == seq![digit_char(n)]);
        assert(dec_str(n).drop_last() =~= Seq::<char>::empty());
        assert(dec_val(Seq::<char>::empty()) == 0);
        assert(dec_str(n).last() == digit_char(n));
        assert(dec_val(dec_str(n)) == 0 * 10 + char_digit(digit_char(n)));
    } else {
        lemma_dec_str_roundtrip(n / 10);
        let prefix = dec_str(n / 10);
        let whole = prefix.push(digit_char(n % 10));
        assert(dec_str(n) == whole);
        assert(whole.drop_last() =~= prefix);
        assert(whole.last() == digit_char(n % 10));
        assert(char_digit(digit_char(n % 10)) == n % 10);
        vstd::arithmetic::div_mod::lemma_fundamental_div_mod(n, 10);
        assert(dec_val(whole) == dec_val(prefix) * 10 + n % 10);
        assert forall|i: int| 0 <= i < whole.len() implies is_digit(whole[i]) by {
            if i < prefix.len() {
                assert(whole[i] == prefix[i]);
            }
        }
    }
}

/// Renders a number in decimal. Relies on `u64`'s `Display` through
/// `ToString::to_string`, which writes the plain base-ten digits of the
/// number with no sign and no padding.
#[verifier::external_body]
pub fn u64_to_decimal(n: u64) -> (r: String)
    ensures
        r@ == dec_str(n as int),
{
    n.to_string()
}

/// Parses an integer literal. Relies on `i128`'s `FromStr`, which accepts an
/// optionally signed, nonempty string of base-ten digits denoting a value in
/// the type's range, and rejects everything else.
#[verifier::external_body]
pub fn parse_i128(s: &String) -> (r: Option<i128>)
    ensures
        r == parse_i128_spec(s@),
{
    s.as_str().parse::<i128>().ok()
}

/// A generated name: a fixed prefix followed by a fresh id in decimal.
pub open spec fn prefixed_name_spec(prefix: Seq<char>, id: u64) -> Seq<char> {
    prefix + dec_str(id as int)
}

pub fn prefixed_name(prefix: &str, id: u64) -> (r: String)
    ensures
        r@ == prefixed_name_spec(prefix@, id),
{
    let mut s: String = prefix.to_owned();
    s.append(u64_to_decimal(id).as_str());
    s
}

/// A generated name with two decimal components, as used for intermediate
/// list tails: prefix, first number, an underscore, second number.
pub open spec fn indexed_name_spec(prefix: Seq<char>, a: int, b: u64) -> Seq<char> {
    prefix + dec_str(a) + "_"@ + dec_str(b as int)
}

pub fn indexed_name(prefix: &str, a: usize, b: u64) -> (r: String)
    ensures
        r@ == indexed_name_spec(prefix@, a as int, b),
{
    let mut s: String = prefix.to_owned();
    s.append(u64_to_decimal(a as u64).as_str());
    s.append("_");
    s.append(u64_to_decimal(b).as_str());
    s
}

} // verus!
