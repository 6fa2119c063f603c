//! Verified numeral conversion: rendering a non-negative integer as
//! decimal or hexadecimal text, and parsing signed integer text in a
//! given radix, with the same acceptance rules as the standard library's
//! radix parser (optional sign, then one or more digits, rejecting
//! anything else and anything out of the 64-bit signed range).

use vstd::prelude::*;
use vstd::string::*;

verus! {

/// Numeric value of one digit character, or -1 when the character is no
/// digit. Letters a-f and A-F carry the values 10 to 15.
pub open spec fn char_digit(c: char) -> int {
    if '0' <= c && c <= '9' {
        c as int - '0' as int
    } else if 'a' <= c && c <= 'f' {
        10 + (c as int - 'a' as int)
    } else if 'A' <= c && c <= 'F' {
        10 + (c as int - 'A' as int)
    } else {
        -1
    }
}

/// The character is a digit of the given radix.
pub open spec fn is_digit(c: char, radix: int) -> bool {
    0 <= char_digit(c) && char_digit(c) < radix
}

/// Every character of the sequence is a digit of the given radix.
pub open spec fn all_digits(s: Seq<char>, radix: int) -> bool {
    forall|i: int| 0 <= i < s.len() ==> is_digit(s[i], radix)
}

/// Value of an unsigned digit string, most significant digit first.
pub open spec fn digits_val(s: Seq<char>, radix: int) -> int
    decreases s.len(),
{
    if s.len() == 0 {
        0
    } else {
        digits_val(s.drop_last(), radix) * radix + char_digit(s.last())
    }
}

/// The text begins with an explicit sign character.
pub open spec fn has_sign(s: Seq<char>) -> bool {
    s.len() > 0 && (s[0] == '+' || s[0] == '-')
}

/// The digit part of the text: everything after an optional sign.
pub open spec fn body_of(s: Seq<char>) -> Seq<char> {
    if has_sign(s) {
        s.subrange(1, s.len() as int)
    } else {
        s
    }
}

/// The text denotes a negative number.
pub open spec fn is_negative(s: Seq<char>) -> bool {
    s.len() > 0 && s[0] == '-'
}

/// The text is an optional sign followed by one or more digits of the
/// given radix: exactly the strings the radix parser accepts, range aside.
pub open spec fn valid_int_text(s: Seq<char>, radix: int) -> bool {
    body_of(s).len() > 0 && all_digits(body_of(s), radix)
}

/// The signed value a valid text denotes.
pub open spec fn int_text_val(s: Seq<char>, radix: int) -> int {
    if is_negative(s) {
        -digits_val(body_of(s), radix)
    } else {
        digits_val(body_of(s), radix)
    }
}

/// The text parses as an `i64` in the given radix: well-formed and in range.
pub open spec fn parses_to_i64(s: Seq<char>, radix: int) -> bool {
    valid_int_text(s, radix) && i64::MIN <= int_text_val(s, radix) <= i64::MAX
}

/// A valid digit string has a non-negative value.
pub proof fn lemma_digits_val_nonneg(s: Seq<char>, radix: int)
    requires
        all_digits(s, radix),
        radix >= 1,
    ensures
        digits_val(s, radix) >= 0,
    decreases s.len(),
{
    if s.len() > 0 {
        assert(all_digits(s.drop_last(), radix));
        lemma_digits_val_nonneg(s.drop_last(), radix);
        assert(digits_val(s.drop_last(), radix) * radix >= 0) by (nonlinear_arith)
            requires
                digits_val(s.drop_last(), radix) >= 0,
                radix > 0,
        {
        }
    }
}

/// Appending digits never shrinks the value: the value of a prefix is at
/// most the value of the whole digit string.
pub proof fn lemma_digits_val_prefix_le(s: Seq<char>, i: int, radix: int)
    requires
        0 <= i <= s.len(),
        all_digits(s, radix),
        radix >= 2,
    ensures
        digits_val(s.subrange(0, i), radix) <= digits_val(s, radix),
    decreases s.len() - i,
{
    if i == s.len() {
        assert(s.subrange(0, i) =~= s);
    } else {
        let t = s.subrange(0, i + 1);
        assert(t.drop_last() =~= s.subrange(0, i));
        assert(digits_val(t, radix) == digits_val(s.subrange(0, i), radix) * radix + char_digit(s[i]));
        assert(all_digits(s.subrange(0, i), radix));
        lemma_digits_val_nonneg(s.subrange(0, i), radix);
        assert(digits_val(s.subrange(0, i), radix) * radix >= digits_val(s.subrange(0, i), radix))
            by (nonlinear_arith)
            requires
                digits_val(s.subrange(0, i), radix) >= 0,
                radix >= 1,
        {
        }
        lemma_digits_val_prefix_le(s, i + 1, radix);
    }
}

/// The digit character for a value below 16, in lower case.
pub open spec fn digit_char(d: int) -> char {
    if d == 0 {
        '0'
    } else if d == 1 {
        '1'
    } else if d == 2 {
        '2'
    } else if d == 3 {
        '3'
    } else if d == 4 {
        '4'
    } else if d == 5 {
        '5'
    } else if d == 6 {
        '6'
    } else if d == 7 {
        '7'
    } else if d == 8 {
        '8'
    } else if d == 9 {
        '9'
    } else if d == 10 {
        'a'
    } else if d == 11 {
        'b'
    } else if d == 12 {
        'c'
    } else if d == 13 {
        'd'
    } else if d == 14 {
        'e'
    } else {
        'f'
    }
}

/// The decimal rendering of a non-negative integer, without sign or
/// padding: the digits most significant first, a lone `0` for zero.
pub open spec fn dec_chars(n: int) -> Seq<char>
    decreases n,
{
    if n < 10 {
        seq![digit_char(n)]
    } else {
        dec_chars(n / 10).push(digit_char(n % 10))
    }
}

/// The lower-case hexadecimal rendering of a non-negative integer,
/// without prefix or padding.
pub open spec fn hex_chars(n: int) -> Seq<char>
    decreases n,
{
    if n < 16 {
        seq![digit_char(n)]
    } else {
        hex_chars(n / 16).push(digit_char(n % 16))
    }
}

/// The one-character string for a digit value below 16.
fn digit_string(d: u64) -> (s: String)
    requires
        d < 16,
    ensures
        s@ == seq![digit_char(d as int)],
{
    proof {
        reveal_strlit("0");
        reveal_strlit("1");
        reveal_strlit("2");
        reveal_strlit("3");
        reveal_strlit("4");
        reveal_strlit("5");
        reveal_strlit("6");
        reveal_strlit("7");
        reveal_strlit("8");
        reveal_strlit("9");
        reveal_strlit("a");
        reveal_strlit("b");
        reveal_strlit("c");
        reveal_strlit("d");
        reveal_strlit("e");
        reveal_strlit("f");
    }
    match d {
        0 => String::from_str("0"),
        1 => String::from_str("1"),
        2 => String::from_str("2"),
        3 => String::from_str("3"),
        4 => String::from_str("4"),
        5 => String::from_str("5"),
        6 => String::from_str("6"),
        7 => String::from_str("7"),
        8 => String::from_str("8"),
        9 => String::from_str("9"),
        10 => String::from_str("a"),
        11 => String::from_str("b"),
        12 => String::from_str("c"),
        13 => String::from_str("d"),
        14 => String::from_str("e"),
        _ => String::from_str("f"),
    }
}

/// Render a non-negative integer in decimal.
pub fn dec_string(n: u64) -> (s: String)
    ensures
        s@ == dec_chars(n as int),
    decreases n,
{
    if n < 10 {
        digit_string(n)
    } else {
        let mut s = dec_string(n / 10);
        let d = digit_string(n % 10);
        s.append(d.as_str());
        s
    }
}

/// Render a non-negative integer in lower-case hexadecimal.
pub fn hex_string(n: u64) -> (s: String)
    ensures
        s@ == hex_chars(n as int),
    decreases n,
{
    if n < 16 {
        digit_string(n)
    } else {
        let mut s = hex_string(n / 16);
        let d = digit_string(n % 16);
        s.append(d.as_str());
        s
    }
}

/// Digit value of a character, or `None` when it is no digit of the radix.
fn digit_value(c: char, radix: u32) -> (r: Option<u32>)
    requires
        radix == 10 || radix == 16,
    ensures
        r is Some <==> is_digit(c, radix as int),
        r is Some ==> r->0 == char_digit(c),
{
    let u = c as u32;
    let v: u32 = if u >= '0' as u32 && u <= '9' as u32 {
        u - '0' as u32
    } else if u >= 'a' as u32 && u <= 'f' as u32 {
        10 + (u - 'a' as u32)
    } else if u >= 'A' as u32 && u <= 'F' as u32 {
        10 + (u - 'A' as u32)
    } else {
        return None;
    };
    if v < radix {
        Some(v)
    } else {
        None
    }
}

/// Parse signed integer text in the given radix, exactly as the standard
/// radix parser accepts it: `Some` if and only if the text is an optional
/// sign followed by one or more digits and the value fits in an `i64`.
pub fn parse_i64(s: &str, radix: u32) -> (r: Option<i64>)
    requires
        radix == 10 || radix == 16,
    ensures
        r is Some <==> parses_to_i64(s@, radix as int),
        r is Some ==> r->0 == int_text_val(s@, radix as int),
{
    let n = s.unicode_len();
    if n == 0 {
        return None;
    }
    let c0 = s.get_char(0);
    let neg = c0 == '-';
    let start: usize = if c0 == '-' || c0 == '+' {
        1
    } else {
        0
    };
    if start == n {
        // a bare sign has no digits
        return None;
    }
    let ghost body = body_of(s@);
    proof {
        assert(body =~= s@.subrange(start as int, n as int));
    }
    let limit: u128 = if neg {
        0x8000_0000_0000_0000u128
    } else {
        0x7fff_ffff_ffff_ffffu128
    };
    let mut acc: u128 = 0;
    let mut i: usize = start;
    while i < n
        invariant
            radix == 10 || radix == 16,
            start <= i <= n,
            n == s@.len(),
            start == if has_sign(s@) { 1int } else { 0int },
            body == body_of(s@),
            body =~= s@.subrange(start as int, n as int),
            neg == is_negative(s@),
            limit == if neg { 0x8000_0000_0000_0000u128 } else { 0x7fff_ffff_ffff_ffffu128 },
            all_digits(body.subrange(0, i - start), radix as int),
            acc == digits_val(body.subrange(0, i - start), radix as int),
            acc <= limit,
        decreases n - i,
    {
        let c = s.get_char(i);
        proof {
            assert(body[i - start] == s@[i as int]);
        }
        match digit_value(c, radix) {
            None => {
                proof {
                    assert(!is_digit(body[i - start], radix as int));
                    assert(!valid_int_text(s@, radix as int));
                }
                return None;
            },
            Some(d) => {
                proof {
                    assert(body.subrange(0, i + 1 - start).drop_last() =~= body.subrange(
                        0,
                        i - start,
                    ));
                    assert(body.subrange(0, i + 1 - start).last() == body[i - start]);
                }
                proof {
                    assert(acc * (radix as u128) + (d as u128) <= 0x8000_0000_0000_0000u128 * 16
                        + 15) by (nonlinear_arith)
                        requires
                            acc <= 0x8000_0000_0000_0000u128,
                            (radix as u128) <= 16,
                            (d as u128) < 16,
                    {
                    }
                }
                acc = acc * (radix as u128) + (d as u128);
                if acc > limit {
                    proof {
                        let pre = body.subrange(0, i + 1 - start);
                        assert(all_digits(pre, radix as int));
                        assert(digits_val(pre, radix as int) == acc);
                        if valid_int_text(s@, radix as int) {
                            lemma_digits_val_prefix_le(body, i + 1 - start, radix as int);
                            assert(digits_val(body, radix as int) >= acc);
                            assert(!(i64::MIN <= int_text_val(s@, radix as int) <= i64::MAX));
                        }
                    }
                    return None;
                }
            },
        }
        i = i + 1;
    }
    proof {
        assert(body.subrange(0, n - start) =~= body);
        assert(valid_int_text(s@, radix as int));
    }
    if neg {
        let v: i64 = (-(acc as i128)) as i64;
        proof {
            assert(int_text_val(s@, radix as int) == -(acc as int));
        }
        Some(v)
    } else {
        let v: i64 = acc as i64;
        Some(v)
    }
}

} // verus!
