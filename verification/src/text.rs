//! Character-level utilities shared by the XML reader, the CSV emitter and
//! the query-string builder: conversions between strings and character
//! vectors, and decimal formatting and parsing with exact contracts.

use vstd::prelude::*;
use vstd::string::StrSliceExecFns;

verus! {

/// The decimal digit character for a value below ten.
pub open spec fn digit_char(d: nat) -> char
    recommends
        d < 10,
{
    if d == 0 {
        '0'
    } else if d == 1 {
        '1'
    } else if d == 2 {
        '2'
    } else if d == 3 {
        '3'
    } else if d == 4 {
        '4'
    } else if d == 5 {
        '5'
    } else if d == 6 {
        '6'
    } else if d == 7 {
        '7'
    } else if d == 8 {
        '8'
    } else {
        '9'
    }
}

/// Whether a character is a decimal digit.
pub open spec fn is_digit(c: char) -> bool {
    '0' <= c && c <= '9'
}

/// The numeric value of a decimal digit character.
pub open spec fn digit_value(c: char) -> nat
    recommends
        is_digit(c),
{
    ((c as nat) - ('0' as nat)) as nat
}

/// Whether every character of a sequence is a decimal digit.
pub open spec fn all_digits(s: Seq<char>) -> bool {
    forall|i: int| 0 <= i < s.len() ==> is_digit(#[trigger] s[i])
}

/// The value of a sequence of decimal digits, most significant first.
pub open spec fn dec_value(s: Seq<char>) -> nat
    decreases s.len(),
{
    if s.len() == 0 {
        0
    } else {
        dec_value(s.drop_last()) * 10 + digit_value(s.last())
    }
}

/// The decimal representation of a natural number, most significant digit
/// first, with no sign and no leading zeros (zero itself is "0").
pub open spec fn dec_rep(n: nat) -> Seq<char>
    decreases n,
{
    if n < 10 {
        seq![digit_char(n)]
    } else {
        dec_rep(n / 10).push(digit_char(n % 10))
    }
}

/// The decimal representation of a signed value: a minus sign followed by the
/// magnitude when negative, the plain magnitude otherwise.
pub open spec fn dec_rep_signed(n: int) -> Seq<char> {
    if n < 0 {
        seq!['-'] + dec_rep((-n) as nat)
    } else {
        dec_rep(n as nat)
    }
}

/// Ten raised to a natural power.
pub open spec fn pow10(n: nat) -> nat
    decreases n,
{
    if n == 0 {
        1
    } else {
        10 * pow10((n - 1) as nat)
    }
}

/// Appending a digit multiplies the value by ten and adds the digit.
pub proof fn lemma_dec_value_snoc(s: Seq<char>, i: int)
    requires
        0 <= i < s.len(),
    ensures
        dec_value(s.subrange(0, i + 1)) == dec_value(s.subrange(0, i)) * 10 + digit_value(s[i]),
{
    let ext = s.subrange(0, i + 1);
    assert(ext.drop_last() =~= s.subrange(0, i));
    assert(ext.last() == s[i]);
}

/// Formats a 64-bit unsigned value in decimal.
pub fn u64_to_chars(n: u64) -> (r: Vec<char>)
    ensures
        r@ == dec_rep(n as nat),
    decreases n,
{
    if n < 10 {
        let d: u8 = n as u8;
        let c: char = (d + 48) as char;
        assert(c == digit_char(n as nat));
        vec![c]
    } else {
        let mut r = u64_to_chars(n / 10);
        let d: u8 = (n % 10) as u8;
        let c: char = (d + 48) as char;
        assert(c == digit_char((n % 10) as nat));
        r.push(c);
        r
    }
}

/// Formats a 64-bit signed value in decimal, with a leading minus sign when
/// negative.
pub fn i64_to_chars(n: i64) -> (r: Vec<char>)
    ensures
        r@ == dec_rep_signed(n as int),
{
    if n >= 0 {
        u64_to_chars(n as u64)
    } else {
        let m128: i128 = -(n as i128);
        assert(0 < m128 <= 0xffff_ffff_ffff_ffff_i128);
        let m: u64 = m128 as u64;
        let digits = u64_to_chars(m);
        let mut r: Vec<char> = Vec::new();
        r.push('-');
        let mut i: usize = 0;
        while i < digits.len()
            invariant
                0 <= i <= digits.len(),
                digits@ == dec_rep(m as nat),
                r@ == seq!['-'] + digits@.subrange(0, i as int),
            decreases digits.len() - i,
        {
            r.push(digits[i]);
            i = i + 1;
            assert(r@ =~= seq!['-'] + digits@.subrange(0, i as int));
        }
        assert(digits@.subrange(0, digits@.len() as int) =~= digits@);
        r
    }
}

/// Parses an unsigned decimal with at most eighteen digits. Returns the value
/// exactly when the text is one to eighteen digit characters.
pub fn parse_u64_digits(s: &Vec<char>) -> (r: Option<u64>)
    ensures
        r is Some <==> 1 <= s@.len() <= 18 && all_digits(s@),
        r is Some ==> r->0 as nat == dec_value(s@),
{
    if s.len() == 0 || s.len() > 18 {
        if s.len() > 18 {
            assert(!(1 <= s@.len() <= 18 && all_digits(s@)));
        }
        return None;
    }
    proof {
        reveal_with_fuel(pow10, 19);
    }
    assert(pow10(18) == 1000000000000000000);
    let mut acc: u64 = 0;
    let mut i: usize = 0;
    while i < s.len()
        invariant
            0 <= i <= s@.len(),
            1 <= s@.len() <= 18,
            all_digits(s@.subrange(0, i as int)),
            acc as nat == dec_value(s@.subrange(0, i as int)),
            acc < pow10(i as nat),
            pow10(18) == 1000000000000000000,
        decreases s.len() - i,
    {
        assert(pow10(i as nat) <= pow10(18)) by {
            lemma_pow10_increases(i as nat, 18);
        }
        let c = s[i];
        if c < '0' || c > '9' {
            assert(!all_digits(s@));
            return None;
        }
        let d: u32 = (c as u32) - 48;
        assert(d == digit_value(c));
        assert(acc * 10 + d < pow10((i + 1) as nat)) by (nonlinear_arith)
            requires
                acc < pow10(i as nat),
                d <= 9,
                pow10((i + 1) as nat) == 10 * pow10(i as nat),
        ;
        let new_acc: u64 = acc * 10 + (d as u64);
        proof {
            lemma_dec_value_snoc(s@, i as int);
        }
        acc = new_acc;
        i = i + 1;
    }
    assert(s@.subrange(0, s@.len() as int) =~= s@);
    Some(acc)
}

/// Powers of ten grow with the exponent.
proof fn lemma_pow10_increases(a: nat, b: nat)
    requires
        a <= b,
    ensures
        pow10(a) <= pow10(b),
    decreases b,
{
    if a < b {
        lemma_pow10_increases(a, (b - 1) as nat);
        assert(pow10(b) == 10 * pow10((b - 1) as nat));
    }
}

/// Whether a character sequence is a well-formed signed decimal accepted by
/// [`parse_i32_chars`]: an optional minus sign followed by one to eighteen
/// digits, with a value that fits in a 32-bit signed integer.
pub open spec fn valid_i32_text(s: Seq<char>) -> bool {
    if s.len() > 0 && s[0] == '-' {
        let digits = s.subrange(1, s.len() as int);
        1 <= digits.len() <= 18 && all_digits(digits) && dec_value(digits) <= 0x8000_0000
    } else {
        1 <= s.len() <= 18 && all_digits(s) && dec_value(s) <= 0x7fff_ffff
    }
}

/// The value denoted by a well-formed signed decimal text.
pub open spec fn signed_value(s: Seq<char>) -> int
    recommends
        valid_i32_text(s),
{
    if s.len() > 0 && s[0] == '-' {
        -(dec_value(s.subrange(1, s.len() as int)) as int)
    } else {
        dec_value(s) as int
    }
}

/// Parses a 32-bit signed decimal: an optional minus sign and up to eighteen
/// digits. Returns the value exactly when the text is well formed and in
/// range.
pub fn parse_i32_chars(s: &Vec<char>) -> (r: Option<i32>)
    ensures
        r is Some <==> valid_i32_text(s@),
        r is Some ==> r->0 as int == signed_value(s@),
{
    if s.len() > 0 && s[0] == '-' {
        let mut digits: Vec<char> = Vec::new();
        let mut i: usize = 1;
        while i < s.len()
            invariant
                1 <= i <= s@.len(),
                s@.len() > 0,
                digits@ == s@.subrange(1, i as int),
            decreases s.len() - i,
        {
            digits.push(s[i]);
            i = i + 1;
            assert(digits@ =~= s@.subrange(1, i as int));
        }
        assert(digits@ =~= s@.subrange(1, s@.len() as int));
        match parse_u64_digits(&digits) {
            None => None,
            Some(v) => {
                if v <= 0x8000_0000 {
                    let w: i32 = (-(v as i64)) as i32;
                    Some(w)
                } else {
                    None
                }
            },
        }
    } else {
        match parse_u64_digits(s) {
            None => None,
            Some(v) => {
                if v <= 0x7fff_ffff {
                    Some(v as i32)
                } else {
                    None
                }
            },
        }
    }
}

/// Converts a string slice into the vector of its characters.
pub fn str_to_chars(s: &str) -> (r: Vec<char>)
    ensures
        r@ == s@,
{
    let n = s.unicode_len();
    let mut r: Vec<char> = Vec::new();
    let mut i: usize = 0;
    while i < n
        invariant
            0 <= i <= n,
            n == s@.len(),
            r@ == s@.subrange(0, i as int),
        decreases n - i,
    {
        r.push(s.get_char(i));
        i = i + 1;
        assert(r@ =~= s@.subrange(0, i as int));
    }
    assert(r@ =~= s@);
    r
}

/// Relies on `core::iter::Iterator::collect` building a `String` from
/// `char`s: the resulting string holds exactly the given characters in order.
#[verifier::external_body]
pub(crate) fn chars_to_string(v: &Vec<char>) -> (r: String)
    ensures
        r@ == v@,
{
    v.iter().collect()
}

/// Compares a character vector with a string slice.
pub fn chars_eq_str(v: &Vec<char>, s: &str) -> (r: bool)
    ensures
        r == (v@ == s@),
{
    let n = s.unicode_len();
    if v.len() != n {
        return false;
    }
    let mut i: usize = 0;
    while i < n
        invariant
            0 <= i <= n,
            n == s@.len(),
            v@.len() == n,
            forall|j: int| 0 <= j < i ==> v@[j] == s@[j],
        decreases n - i,
    {
        if v[i] != s.get_char(i) {
            return false;
        }
        i = i + 1;
    }
    assert(v@ =~= s@);
    true
}

/// Appends every character of `src` to `dst`.
pub fn append_chars(dst: &mut Vec<char>, src: &Vec<char>)
    ensures
        final(dst)@ == old(dst)@ + src@,
{
    let mut i: usize = 0;
    while i < src.len()
        invariant
            0 <= i <= src@.len(),
            dst@ == old(dst)@ + src@.subrange(0, i as int),
        decreases src.len() - i,
    {
        dst.push(src[i]);
        i = i + 1;
        assert(dst@ =~= old(dst)@ + src@.subrange(0, i as int));
    }
    assert(dst@ =~= old(dst)@ + src@);
}

/// Appends every character of a string slice to `dst`.
pub fn append_str_chars(dst: &mut Vec<char>, src: &str)
    ensures
        final(dst)@ == old(dst)@ + src@,
{
    let n = src.unicode_len();
    let mut i: usize = 0;
    while i < n
        invariant
            0 <= i <= n,
            n == src@.len(),
            dst@ == old(dst)@ + src@.subrange(0, i as int),
        decreases n - i,
    {
        dst.push(src.get_char(i));
        i = i + 1;
        assert(dst@ =~= old(dst)@ + src@.subrange(0, i as int));
    }
    assert(dst@ =~= old(dst)@ + src@);
}

} // verus!
