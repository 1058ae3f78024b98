//! Text comparison, and the text of numbers.
//!
//! The wire carries unsigned integers as plain decimal numerals: digits only,
//! no sign, no fraction, no leading zero. This module says what such a numeral
//! is worth, reads one with a bound, and writes one. It also says which texts
//! are the text of a JSON number, and by which text a number names a key.

use vstd::prelude::*;
use vstd::utf8::*;

verus! {

/// Whether two strings hold the same characters.
pub fn same_text(a: &str, b: &str) -> (r: bool)
    ensures
        r == (a@ == b@),
{
    let x = a.as_bytes();
    let y = b.as_bytes();
    proof {
        broadcast use encode_utf8_decode_utf8;

        assert(decode_utf8(encode_utf8(a@)) == a@);
        assert(decode_utf8(encode_utf8(b@)) == b@);
    }
    if x.len() != y.len() {
        return false;
    }
    let mut i: usize = 0;
    while i < x.len()
        invariant
            i <= x.len(),
            x.len() == y.len(),
            x@ == encode_utf8(a@),
            y@ == encode_utf8(b@),
            decode_utf8(encode_utf8(a@)) == a@,
            decode_utf8(encode_utf8(b@)) == b@,
            forall|k: int| 0 <= k < i ==> x@[k] == y@[k],
        decreases x.len() - i,
    {
        if x[i] != y[i] {
            return false;
        }
        i += 1;
    }
    assert(x@ =~= y@);
    true
}

/// Whether `c` is one of the ten decimal digits.
pub open spec fn is_digit(c: char) -> bool {
    '0' <= c && c <= '9'
}

/// The number that the digit `c` stands for.
pub open spec fn digit_value(c: char) -> nat {
    (c as int - '0' as int) as nat
}

/// The digit that stands for `d`, for `d` below ten.
pub open spec fn digit_char(d: nat) -> char {
    (d + 48) as u8 as char
}

/// The number written by the digits `s`, most significant first.
pub open spec fn digits_value(s: Seq<char>) -> nat
    decreases s.len(),
{
    if s.len() == 0 {
        0
    } else {
        digits_value(s.drop_last()) * 10 + digit_value(s.last())
    }
}

/// Whether `s` is a canonical unsigned numeral: one or more digits, and no
/// leading zero unless the numeral is `0` itself.
pub open spec fn is_numeral(s: Seq<char>) -> bool {
    &&& s.len() > 0
    &&& forall|i: int| 0 <= i < s.len() ==> is_digit(#[trigger] s[i])
    &&& s.len() > 1 ==> s[0] != '0'
}

/// The number that `s` denotes when read as an unsigned integer of at most
/// `max`: `None` where `s` is no canonical numeral or denotes more than `max`.
pub open spec fn unsigned_value(s: Seq<char>, max: nat) -> Option<nat> {
    if is_numeral(s) && digits_value(s) <= max {
        Some(digits_value(s))
    } else {
        None
    }
}

/// The canonical numeral of `n`.
pub open spec fn decimal_text(n: nat) -> Seq<char>
    decreases n,
{
    if n < 10 {
        seq![digit_char(n)]
    } else {
        decimal_text(n / 10).push(digit_char(n % 10))
    }
}

/// A numeral is worth at least as much as any of its prefixes.
pub proof fn lemma_prefix_value(s: Seq<char>, k: int)
    requires
        0 <= k <= s.len(),
    ensures
        digits_value(s.take(k)) <= digits_value(s),
    decreases s.len(),
{
    if k == s.len() {
        assert(s.take(k) =~= s);
    } else {
        assert(s.drop_last().take(k) =~= s.take(k));
        lemma_prefix_value(s.drop_last(), k);
    }
}

/// The canonical numeral of `n` is a numeral, and it denotes `n`.
pub proof fn lemma_decimal_text(n: nat)
    ensures
        is_numeral(decimal_text(n)),
        digits_value(decimal_text(n)) == n,
        n > 0 ==> decimal_text(n)[0] != '0',
    decreases n,
{
    let s = decimal_text(n);
    if n < 10 {
        assert(s.drop_last() =~= Seq::<char>::empty());
        assert(digits_value(s.drop_last()) == 0);
        assert(digit_value(digit_char(n)) == n);
    } else {
        let head = decimal_text(n / 10);
        lemma_decimal_text(n / 10);
        assert(s.drop_last() =~= head);
        assert(s.last() == digit_char(n % 10));
        assert(digit_value(digit_char(n % 10)) == n % 10);
        assert(s[0] == head[0]);
        assert forall|i: int| 0 <= i < s.len() implies is_digit(#[trigger] s[i]) by {
            if i < head.len() {
                assert(s[i] == head[i]);
            }
        }
    }
}

/// Reading back the canonical numeral of `n` gives `n`, under any bound that
/// `n` meets.
pub proof fn lemma_unsigned_round_trip(n: nat, max: nat)
    requires
        n <= max,
    ensures
        unsigned_value(decimal_text(n), max) == Some(n),
{
    lemma_decimal_text(n);
}

/// Reads `text` as an unsigned integer of at most `max`.
pub fn parse_unsigned(text: &str, max: u64) -> (r: Option<u64>)
    ensures
        match r {
            Some(v) => unsigned_value(text@, max as nat) == Some(v as nat),
            None => unsigned_value(text@, max as nat) is None,
        },
{
    if !text.is_ascii() {
        return None;
    }
    let bytes = text.as_bytes();
    proof {
        broadcast use vstd::string::is_ascii_spec_bytes;

        assert(bytes@ =~= Seq::new(text@.len(), |i: int| text@.index(i) as u8));
    }
    let n = bytes.len();
    if n == 0 {
        return None;
    }
    if n > 1 && bytes[0] == 48 {
        return None;
    }
    let mut acc: u64 = 0;
    let mut i: usize = 0;
    while i < n
        invariant
            i <= n,
            n == bytes@.len(),
            n == text@.len(),
            is_ascii_chars(text@),
            forall|k: int| 0 <= k < n ==> bytes@[k] == (#[trigger] text@[k]) as u8,
            forall|k: int| 0 <= k < i ==> is_digit(#[trigger] text@[k]),
            acc as nat == digits_value(text@.take(i as int)),
            acc <= max,
        decreases n - i,
    {
        let b = bytes[i];
        let ghost c = text@[i as int];
        assert(b == c as u8);
        assert('\0' <= c <= '\u{7f}');
        if b < 48 || b > 57 {
            assert(!is_digit(c));
            return None;
        }
        assert(is_digit(c));
        let d: u64 = (b - 48) as u64;
        assert(d as nat == digit_value(c));
        let next: u128 = acc as u128 * 10 + d as u128;
        proof {
            assert(text@.take(i + 1).drop_last() =~= text@.take(i as int));
            assert(text@.take(i + 1).last() == c);
            assert(digits_value(text@.take(i + 1)) == next as nat);
        }
        if next > max as u128 {
            proof {
                lemma_prefix_value(text@, i + 1);
            }
            return None;
        }
        acc = next as u64;
        i += 1;
    }
    assert(text@.take(n as int) =~= text@);
    Some(acc)
}

/// The one-character string of a decimal digit.
fn digit_text(d: u8) -> (r: &'static str)
    requires
        d < 10,
    ensures
        r@ == seq![digit_char(d as nat)],
{
    proof {
        reveal_strlit("0");
        reveal_strlit("1");
        reveal_strlit("2");
        reveal_strlit("3");
        reveal_strlit("4");
        reveal_strlit("5");
        reveal_strlit("6");
        reveal_strlit("7");
        reveal_strlit("8");
        reveal_strlit("9");
    }
    let r = match d {
        0 => "0",
        1 => "1",
        2 => "2",
        3 => "3",
        4 => "4",
        5 => "5",
        6 => "6",
        7 => "7",
        8 => "8",
        _ => "9",
    };
    assert(r@ =~= seq![digit_char(d as nat)]);
    r
}

/// Writes `n` as its canonical numeral.
pub fn unsigned_text(n: u64) -> (r: String)
    ensures
        r@ == decimal_text(n as nat),
    decreases n,
{
    if n < 10 {
        String::from_str(digit_text(n as u8))
    } else {
        let mut s = unsigned_text(n / 10);
        s.append(digit_text((n % 10) as u8));
        assert(s@ =~= decimal_text((n / 10) as nat).push(digit_char((n % 10) as nat)));
        s
    }
}

/// Whether `s` is written with a fraction of zero: it ends in a digit, a
/// point and a zero, as `5.0` and `-12.0` do. Of the texts of JSON numbers
/// these are the integral numbers that are written with a fraction.
pub open spec fn has_zero_fraction(s: Seq<char>) -> bool {
    &&& s.len() >= 3
    &&& is_digit(s[s.len() - 3])
    &&& s[s.len() - 2] == '.'
    &&& s[s.len() - 1] == '0'
}

/// The text by which a number names something: the number's text, without
/// the `.0` of a fraction of zero. So `5.0` names what `5` names.
pub open spec fn key_text(s: Seq<char>) -> Seq<char> {
    if has_zero_fraction(s) {
        s.subrange(0, s.len() - 2)
    } else {
        s
    }
}

/// The text by which the number written `text` names something.
pub fn number_key(text: &str) -> (r: String)
    ensures
        r@ == key_text(text@),
{
    let n = text.unicode_len();
    if n >= 3 {
        let units = text.get_char(n - 3);
        let point = text.get_char(n - 2);
        let fraction = text.get_char(n - 1);
        if '0' <= units && units <= '9' && point == '.' && fraction == '0' {
            return String::from_str(text.substring_char(0, n - 2));
        }
    }
    String::from_str(text)
}

/// A canonical numeral has no fraction, so it names what it says; and the
/// same numeral with a fraction of zero names the same.
pub proof fn lemma_numeral_key(n: nat)
    ensures
        key_text(decimal_text(n)) == decimal_text(n),
        key_text(decimal_text(n) + seq!['.', '0']) == decimal_text(n),
{
    lemma_decimal_text(n);
    let s = decimal_text(n);
    if s.len() >= 3 {
        assert(is_digit(s[s.len() - 2]));
    }
    let t = s + seq!['.', '0'];
    assert(t[t.len() - 3] == s[s.len() - 1]);
    assert(is_digit(s[s.len() - 1]));
    assert(t.subrange(0, t.len() - 2) =~= s);
}

/// Where the run of digits that starts at place `i` of `s` ends.
pub open spec fn digits_end(s: Seq<char>, i: int) -> int
    decreases s.len() - i,
{
    if 0 <= i < s.len() && is_digit(s[i]) {
        digits_end(s, i + 1)
    } else {
        i
    }
}

/// Whether `s` is the text of a JSON number: an optional minus sign, a whole
/// part that is `0` or begins with another digit, an optional fraction of a
/// point and one or more digits, and an optional exponent of `e` or `E`, an
/// optional sign and one or more digits.
pub open spec fn is_number_text(s: Seq<char>) -> bool {
    let whole = if s.len() > 0 && s[0] == '-' {
        1
    } else {
        0int
    };
    let point = digits_end(s, whole);
    let mark = if point < s.len() && s[point] == '.' {
        digits_end(s, point + 1)
    } else {
        point
    };
    let exponent = mark < s.len() && (s[mark] == 'e' || s[mark] == 'E');
    let power = if exponent && mark + 1 < s.len() && (s[mark + 1] == '+' || s[mark + 1] == '-') {
        mark + 2
    } else {
        mark + 1
    };
    &&& point > whole
    &&& s[whole] == '0' ==> point == whole + 1
    &&& mark != point + 1
    &&& if exponent {
        digits_end(s, power) > power && digits_end(s, power) == s.len()
    } else {
        mark == s.len()
    }
}

/// Finds where the run of digits that starts at place `i` of `text` ends.
fn skip_digits(text: &str, n: usize, i: usize) -> (r: usize)
    requires
        n == text@.len(),
        i <= n,
    ensures
        i <= r <= n,
        r == digits_end(text@, i as int),
{
    let mut j: usize = i;
    while j < n
        invariant
            i <= j <= n,
            n == text@.len(),
            digits_end(text@, i as int) == digits_end(text@, j as int),
        decreases n - j,
    {
        let c = text.get_char(j);
        if !('0' <= c && c <= '9') {
            return j;
        }
        j += 1;
    }
    j
}

/// Whether `text` is the text of a JSON number.
pub fn is_number(text: &str) -> (r: bool)
    ensures
        r == is_number_text(text@),
{
    let n = text.unicode_len();
    let whole: usize = if n > 0 && text.get_char(0) == '-' {
        1
    } else {
        0
    };
    let point = skip_digits(text, n, whole);
    if point == whole {
        return false;
    }
    if text.get_char(whole) == '0' && point != whole + 1 {
        return false;
    }
    let mark = if point < n && text.get_char(point) == '.' {
        skip_digits(text, n, point + 1)
    } else {
        point
    };
    if mark > point && mark - point == 1 {
        return false;
    }
    if mark < n && (text.get_char(mark) == 'e' || text.get_char(mark) == 'E') {
        let power = if mark + 1 < n && (text.get_char(mark + 1) == '+' || text.get_char(mark + 1)
            == '-') {
            mark + 2
        } else {
            mark + 1
        };
        let end = skip_digits(text, n, power);
        end > power && end == n
    } else {
        mark == n
    }
}

} // verus!
