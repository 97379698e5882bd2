//! The textual form of the integers that a bounded cell edits.
//!
//! A cell's text is valid exactly when it is an optional sign followed by at
//! least one decimal digit and its value fits in an `i32`. The spec functions
//! here define that grammar and the canonical rendering of a value; the
//! executable parser and renderer are proved against them, together with the
//! round trip: rendering a value and parsing it back yields the value.

use vstd::prelude::*;

verus! {

/// The numeric value of a digit character, or `-1` for any other character.
pub open spec fn digit_val(c: char) -> int {
    if c == '0' {
        0
    } else if c == '1' {
        1
    } else if c == '2' {
        2
    } else if c == '3' {
        3
    } else if c == '4' {
        4
    } else if c == '5' {
        5
    } else if c == '6' {
        6
    } else if c == '7' {
        7
    } else if c == '8' {
        8
    } else if c == '9' {
        9
    } else {
        -1
    }
}

pub open spec fn is_digit(c: char) -> bool {
    digit_val(c) >= 0
}

/// The digit character for a value in `[0, 10)`.
pub open spec fn digit_char(d: int) -> char {
    if d == 0 {
        '0'
    } else if d == 1 {
        '1'
    } else if d == 2 {
        '2'
    } else if d == 3 {
        '3'
    } else if d == 4 {
        '4'
    } else if d == 5 {
        '5'
    } else if d == 6 {
        '6'
    } else if d == 7 {
        '7'
    } else if d == 8 {
        '8'
    } else {
        '9'
    }
}

pub open spec fn all_digits(s: Seq<char>) -> bool {
    forall|i: int| 0 <= i < s.len() ==> is_digit(#[trigger] s[i])
}

/// The value of a string of digit characters, most significant first.
pub open spec fn digits_val(s: Seq<char>) -> int
    decreases s.len(),
{
    if s.len() == 0 {
        0
    } else {
        digits_val(s.drop_last()) * 10 + digit_val(s.last())
    }
}

/// Whether `s` matches the integer grammar: an optional `+` or `-` sign
/// followed by one or more decimal digits.
pub open spec fn int_literal(s: Seq<char>) -> bool {
    if s.len() > 0 && (s[0] == '-' || s[0] == '+') {
        s.len() >= 2 && all_digits(s.skip(1))
    } else {
        s.len() >= 1 && all_digits(s)
    }
}

/// The mathematical value of a string matching the integer grammar.
pub open spec fn int_value(s: Seq<char>) -> int
    recommends
        int_literal(s),
{
    if s.len() > 0 && s[0] == '-' {
        -digits_val(s.skip(1))
    } else if s.len() > 0 && s[0] == '+' {
        digits_val(s.skip(1))
    } else {
        digits_val(s)
    }
}

/// What parsing `s` as an `i32` yields: the value of a well-formed literal
/// that fits, and nothing otherwise.
pub open spec fn parse_i32(s: Seq<char>) -> Option<i32> {
    if int_literal(s) && i32::MIN <= int_value(s) <= i32::MAX {
        Some(int_value(s) as i32)
    } else {
        None
    }
}

/// The canonical decimal rendering of a nonnegative value, no sign, no
/// leading zero except for zero itself.
pub open spec fn digits_text(n: int) -> Seq<char>
    recommends
        n >= 0,
    decreases n,
{
    if n < 10 {
        seq![digit_char(n)]
    } else {
        digits_text(n / 10) + seq![digit_char(n % 10)]
    }
}

/// The canonical rendering of an integer: a `-` sign for negative values,
/// then the digits of its magnitude.
pub open spec fn int_text(v: int) -> Seq<char> {
    if v < 0 {
        seq!['-'] + digits_text(-v)
    } else {
        digits_text(v)
    }
}

/// A digit string is never worth a negative value.
pub proof fn lemma_digits_val_nonneg(s: Seq<char>)
    requires
        all_digits(s),
    ensures
        digits_val(s) >= 0,
    decreases s.len(),
{
    if s.len() > 0 {
        assert(all_digits(s.drop_last()));
        lemma_digits_val_nonneg(s.drop_last());
    }
}

/// A digit string is worth at least any of its prefixes.
pub proof fn lemma_digits_val_prefix(s: Seq<char>, k: int)
    requires
        all_digits(s),
        0 <= k <= s.len(),
    ensures
        digits_val(s.take(k)) <= digits_val(s),
    decreases s.len() - k,
{
    assert forall|i: int| 0 <= i < s.take(k).len() implies is_digit(#[trigger] s.take(k)[i]) by {
        assert(s.take(k)[i] == s[i]);
    }
    if k < s.len() {
        assert(s.take(k + 1).drop_last() =~= s.take(k));
        assert(s.take(k + 1).last() == s[k]);
        lemma_digits_val_nonneg(s.take(k));
        lemma_digits_val_prefix(s, k + 1);
    } else {
        assert(s.take(k) =~= s);
    }
}

/// The digit value of one character, where it has one.
fn digit_of(c: char) -> (d: Option<u8>)
    ensures
        match d {
            Some(v) => digit_val(c) == v as int && v < 10,
            None => !is_digit(c),
        },
{
    match c {
        '0' => Some(0),
        '1' => Some(1),
        '2' => Some(2),
        '3' => Some(3),
        '4' => Some(4),
        '5' => Some(5),
        '6' => Some(6),
        '7' => Some(7),
        '8' => Some(8),
        '9' => Some(9),
        _ => None,
    }
}

/// Parses an optional sign followed by decimal digits as an `i32`, exactly
/// as the grammar above says: `Some` for a well-formed literal whose value
/// fits, `None` otherwise.
pub fn parse_int_text(s: &str) -> (r: Option<i32>)
    ensures
        r == parse_i32(s@),
{
    let len = s.unicode_len();
    if len == 0 {
        return None;
    }
    let c0 = s.get_char(0);
    let start: usize = if c0 == '-' || c0 == '+' {
        1
    } else {
        0
    };
    let neg = c0 == '-';
    if start == len {
        return None;
    }
    let ghost digits = s@.skip(start as int);
    let mut acc: u64 = 0;
    let mut j: usize = start;
    while j < len
        invariant
            start <= j <= len,
            len == s@.len(),
            start == 0 || start == 1,
            start == 1 ==> (s@[0] == '-' || s@[0] == '+'),
            start == 0 ==> !(s@[0] == '-' || s@[0] == '+'),
            start < len,
            digits == s@.skip(start as int),
            all_digits(digits.take(j - start)),
            acc == digits_val(digits.take(j - start)),
            acc <= 0x8000_0000u64,
        decreases len - j,
    {
        let c = s.get_char(j);
        let d = match digit_of(c) {
            Some(d) => d,
            None => {
                proof {
                    assert(digits[j - start] == s@[j as int]);
                    assert(!all_digits(digits));
                    assert(!int_literal(s@));
                }
                return None;
            },
        };
        proof {
            assert(digits.take(j - start + 1).drop_last() =~= digits.take(j - start));
            assert(digits.take(j - start + 1).last() == s@[j as int]);
        }
        acc = acc * 10 + (d as u64);
        j = j + 1;
        if acc > 0x8000_0000u64 {
            proof {
                if int_literal(s@) {
                    lemma_digits_val_prefix(digits, j - start);
                    assert(digits =~= digits.take(digits.len() as int));
                    if start == 1 {
                        assert(int_value(s@) == -digits_val(digits) || int_value(s@)
                            == digits_val(digits));
                    } else {
                        assert(digits =~= s@);
                    }
                }
            }
            return None;
        }
    }
    proof {
        assert(digits.take(j - start) =~= digits);
        if start == 1 {
            assert(s@.skip(1) == digits);
            assert(int_literal(s@));
        } else {
            assert(digits =~= s@);
            assert(int_literal(s@));
        }
    }
    if neg {
        if acc == 0x8000_0000u64 {
            proof {
                assert(int_value(s@) == -digits_val(digits));
            }
            Some(i32::MIN)
        } else {
            proof {
                assert(int_value(s@) == -digits_val(digits));
            }
            Some(0i32 - (acc as i32))
        }
    } else {
        if acc > 0x7fff_ffffu64 {
            proof {
                if start == 1 {
                    assert(s@[0] == '+');
                    assert(int_value(s@) == digits_val(digits));
                } else {
                    assert(int_value(s@) == digits_val(digits));
                }
            }
            None
        } else {
            Some(acc as i32)
        }
    }
}

/// The one-character string for a digit value.
fn digit_str(d: u8) -> (r: &'static str)
    requires
        d < 10,
    ensures
        r@ == seq![digit_char(d as int)],
{
    match d {
        0 => {
            proof {
                reveal_strlit("0");
                assert("0"@ =~= seq!['0']);
            }
            "0"
        },
        1 => {
            proof {
                reveal_strlit("1");
                assert("1"@ =~= seq!['1']);
            }
            "1"
        },
        2 => {
            proof {
                reveal_strlit("2");
                assert("2"@ =~= seq!['2']);
            }
            "2"
        },
        3 => {
            proof {
                reveal_strlit("3");
                assert("3"@ =~= seq!['3']);
            }
            "3"
        },
        4 => {
            proof {
                reveal_strlit("4");
                assert("4"@ =~= seq!['4']);
            }
            "4"
        },
        5 => {
            proof {
                reveal_strlit("5");
                assert("5"@ =~= seq!['5']);
            }
            "5"
        },
        6 => {
            proof {
                reveal_strlit("6");
                assert("6"@ =~= seq!['6']);
            }
            "6"
        },
        7 => {
            proof {
                reveal_strlit("7");
                assert("7"@ =~= seq!['7']);
            }
            "7"
        },
        8 => {
            proof {
                reveal_strlit("8");
                assert("8"@ =~= seq!['8']);
            }
            "8"
        },
        _ => {
            proof {
                reveal_strlit("9");
                assert("9"@ =~= seq!['9']);
            }
            "9"
        },
    }
}

/// The decimal digits of a nonnegative value.
fn digits_string(n: u32) -> (r: String)
    ensures
        r@ == digits_text(n as int),
    decreases n,
{
    if n < 10 {
        String::from_str(digit_str(n as u8))
    } else {
        let mut s = digits_string(n / 10);
        let tail = digit_str((n % 10) as u8);
        s.append(tail);
        proof {
            assert(s@ =~= digits_text(n as int));
        }
        s
    }
}

/// The canonical text of a value, as `int_text` describes it.
pub fn int_to_text(v: i32) -> (r: String)
    requires
        v > i32::MIN,
    ensures
        r@ == int_text(v as int),
{
    if v < 0 {
        let mut s = String::from_str("-");
        proof {
            reveal_strlit("-");
            assert("-"@ =~= seq!['-']);
        }
        let digits = digits_string((0i32 - v) as u32);
        s.append(digits.as_str());
        proof {
            assert(s@ =~= int_text(v as int));
        }
        s
    } else {
        digits_string(v as u32)
    }
}

/// Every rendered magnitude is a nonempty digit string.
pub proof fn lemma_digits_text_digits(n: int)
    requires
        n >= 0,
    ensures
        all_digits(digits_text(n)),
        digits_text(n).len() >= 1,
    decreases n,
{
    if n < 10 {
        assert(is_digit(digits_text(n)[0]));
    } else {
        lemma_digits_text_digits(n / 10);
        assert forall|i: int| 0 <= i < digits_text(n).len() implies is_digit(
            #[trigger] digits_text(n)[i],
        ) by {
            if i < digits_text(n / 10).len() {
                assert(digits_text(n)[i] == digits_text(n / 10)[i]);
            } else {
                assert(digits_text(n)[i] == digit_char(n % 10));
            }
        }
    }
}

/// Rendering a magnitude and reading it back yields the magnitude.
pub proof fn lemma_digits_text_val(n: int)
    requires
        n >= 0,
    ensures
        digits_val(digits_text(n)) == n,
    decreases n,
{
    if n < 10 {
        assert(digit_val(digit_char(n)) == n);
        let s = digits_text(n);
        assert(s.drop_last() =~= Seq::<char>::empty());
        assert(s.last() == digit_char(n));
        assert(digits_val(s) == digits_val(s.drop_last()) * 10 + digit_val(s.last()));
        assert(digits_val(Seq::<char>::empty()) == 0);
    } else {
        lemma_digits_text_val(n / 10);
        assert(digit_val(digit_char(n % 10)) == n % 10);
        let s = digits_text(n);
        assert(s.drop_last() =~= digits_text(n / 10));
        assert(s.last() == digit_char(n % 10));
        assert(digits_val(s) == digits_val(s.drop_last()) * 10 + digit_val(s.last()));
        assert((n / 10) * 10 + n % 10 == n);
    }
}

/// Round trip: the canonical text of an `i32` parses back to that value.
pub proof fn lemma_int_text_parses(v: i32)
    ensures
        parse_i32(int_text(v as int)) == Some(v),
{
    if v >= 0 {
        let s = int_text(v as int);
        lemma_digits_text_digits(v as int);
        lemma_digits_text_val(v as int);
        assert(is_digit(s[0]));
        assert(int_literal(s));
        assert(int_value(s) == v as int);
    } else {
        let s = int_text(v as int);
        let m = -(v as int);
        lemma_digits_text_digits(m);
        lemma_digits_text_val(m);
        assert(s[0] == '-');
        assert(s.skip(1) =~= digits_text(m));
        assert(int_literal(s));
        assert(int_value(s) == v as int);
    }
}

} // verus!
