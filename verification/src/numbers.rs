//! Numbers as text: reading digits in a radix, writing them with padding.

use vstd::prelude::*;

use crate::text::{chars_of, string_of};

verus! {

// ---- reading -------------------------------------------------------------------

/// The value of a hexadecimal digit of either case.
pub open spec fn digit_of(c: char) -> Option<nat> {
    if '0' <= c <= '9' {
        Some((c as nat - '0' as nat) as nat)
    } else if 'a' <= c <= 'f' {
        Some((c as nat - 'a' as nat + 10) as nat)
    } else if 'A' <= c <= 'F' {
        Some((c as nat - 'A' as nat + 10) as nat)
    } else {
        None
    }
}

/// Whether `c` is a digit in `radix`.
pub open spec fn is_digit(c: char, radix: nat) -> bool {
    digit_of(c) is Some && digit_of(c)->0 < radix
}

/// Whether every character of `s` is a digit in `radix`.
pub open spec fn all_digits(s: Seq<char>, radix: nat) -> bool {
    forall|i: int| 0 <= i < s.len() ==> is_digit(#[trigger] s[i], radix)
}

/// The number that the digits `s` stand for.
pub open spec fn digits_value(s: Seq<char>, radix: nat) -> nat
    decreases s.len(),
{
    if s.len() == 0 {
        0
    } else {
        digits_value(s.drop_last(), radix) * radix + (match digit_of(s.last()) {
            Some(d) => d,
            None => 0,
        })
    }
}

/// `s` without one leading plus sign.
pub open spec fn unsigned_digits(s: Seq<char>) -> Seq<char> {
    if s.len() > 0 && s[0] == '+' {
        s.skip(1)
    } else {
        s
    }
}

/// The number that `s` spells in `radix`: at least one digit, after at most one
/// plus sign, with a value of at most `max`.
pub open spec fn parsed(s: Seq<char>, radix: nat, max: nat) -> Option<nat> {
    let d = unsigned_digits(s);
    if d.len() > 0 && all_digits(d, radix) && digits_value(d, radix) <= max {
        Some(digits_value(d, radix))
    } else {
        None
    }
}

fn digit(c: char) -> (r: Option<u32>)
    ensures
        r is Some == digit_of(c) is Some,
        r is Some ==> r->0 == digit_of(c)->0 && r->0 < 16,
{
    if '0' <= c && c <= '9' {
        Some(c as u32 - '0' as u32)
    } else if 'a' <= c && c <= 'f' {
        Some(c as u32 - 'a' as u32 + 10)
    } else if 'A' <= c && c <= 'F' {
        Some(c as u32 - 'A' as u32 + 10)
    } else {
        None
    }
}

proof fn lemma_value_grows(s: Seq<char>, k: int, radix: nat)
    requires
        0 <= k <= s.len(),
        radix >= 1,
    ensures
        digits_value(s.take(k), radix) <= digits_value(s, radix),
    decreases s.len(),
{
    if k == s.len() {
        assert(s.take(k) =~= s);
    } else {
        lemma_value_grows(s.drop_last(), k, radix);
        assert(s.drop_last().take(k) =~= s.take(k));
        let d = digits_value(s.drop_last(), radix);
        assert(d <= d * radix) by (nonlinear_arith)
            requires
                radix >= 1,
                d >= 0,
        ;
    }
}

/// Reads `s` as an unsigned number in `radix`, up to `max`.
pub fn parse_number(s: &str, radix: u32, max: u32) -> (r: Option<u32>)
    requires
        2 <= radix <= 16,
    ensures
        r is Some == parsed(s@, radix as nat, max as nat) is Some,
        r is Some ==> r->0 == parsed(s@, radix as nat, max as nat)->0,
{
    let v = chars_of(s);
    let mut start: usize = 0;
    if v.len() > 0 && v[0] == '+' {
        start = 1;
    }
    let ghost d = unsigned_digits(s@);
    assert(d =~= v@.skip(start as int));
    if start == v.len() {
        return None;
    }
    let mut acc: u64 = 0;
    let mut i: usize = start;
    while i < v.len()
        invariant
            v@ == s@,
            start <= i <= v@.len(),
            d == unsigned_digits(s@),
            d == v@.skip(start as int),
            2 <= radix <= 16,
            acc <= max,
            acc == digits_value(d.take(i - start), radix as nat),
            forall|j: int| 0 <= j < i - start ==> is_digit(#[trigger] d[j], radix as nat),
        decreases v@.len() - i,
    {
        assert(d[i - start] == v@[i as int]);
        match digit(v[i]) {
            None => {
                assert(!is_digit(d[i - start], radix as nat));
                return None;
            },
            Some(x) => {
                if x >= radix {
                    assert(!is_digit(d[i - start], radix as nat));
                    return None;
                }
                assert(acc * radix <= 0xffff_ffff * 16) by (nonlinear_arith)
                    requires
                        acc <= 0xffff_ffff,
                        radix <= 16,
                ;
                let next: u64 = acc * (radix as u64) + x as u64;
                assert(d.take(i - start + 1).drop_last() =~= d.take(i - start));
                assert(d.take(i - start + 1).last() == d[i - start]);
                if next > max as u64 {
                    proof {
                        lemma_value_grows(d, i - start + 1, radix as nat);
                    }
                    return None;
                }
                acc = next;
            },
        }
        i = i + 1;
    }
    assert(d.take(d.len() as int) =~= d);
    Some(acc as u32)
}

/// The byte that `s` spells in hexadecimal.
pub open spec fn hex_byte(s: Seq<char>) -> Option<u8> {
    match parsed(s, 16, 0xff) {
        Some(n) => Some(n as u8),
        None => None,
    }
}

/// Reads `s` as a hexadecimal byte.
pub fn parse_hex_byte(s: &str) -> (r: Option<u8>)
    ensures
        r == hex_byte(s@),
{
    match parse_number(s, 16, 0xff) {
        Some(n) => Some(n as u8),
        None => None,
    }
}

/// The 16-bit number that `s` spells in decimal.
pub open spec fn decimal_u16(s: Seq<char>) -> Option<u16> {
    match parsed(s, 10, 0xffff) {
        Some(n) => Some(n as u16),
        None => None,
    }
}

/// Reads `s` as a decimal 16-bit number.
pub fn parse_u16(s: &str) -> (r: Option<u16>)
    ensures
        r == decimal_u16(s@),
{
    match parse_number(s, 10, 0xffff) {
        Some(n) => Some(n as u16),
        None => None,
    }
}

/// The number that `s` spells as a signed 32-bit number: digits after at most
/// one sign.
pub open spec fn decimal_i32(s: Seq<char>) -> Option<i32> {
    if s.len() > 1 && s[0] == '-' {
        if all_digits(s.skip(1), 10) && digits_value(s.skip(1), 10) <= 0x8000_0000 {
            Some((-digits_value(s.skip(1), 10)) as i32)
        } else {
            None
        }
    } else {
        match parsed(s, 10, 0x7fff_ffff) {
            Some(n) => Some(n as i32),
            None => None,
        }
    }
}

/// Reads `s` as a signed 32-bit number.
pub fn parse_i32(s: &str) -> (r: Option<i32>)
    ensures
        r == decimal_i32(s@),
{
    let v = chars_of(s);
    if v.len() > 1 && v[0] == '-' {
        if v[1] == '+' {
            assert(s@.skip(1)[0] == '+');
            assert(!is_digit(s@.skip(1)[0], 10));
            return None;
        }
        let rest = string_of(&v, 1, v.len());
        assert(rest@ =~= s@.skip(1));
        match parse_number(rest.as_str(), 10, 0x8000_0000) {
            Some(n) => Some((-(n as i64)) as i32),
            None => None,
        }
    } else {
        match parse_number(s, 10, 0x7fff_ffff) {
            Some(n) => Some(n as i32),
            None => None,
        }
    }
}

// ---- writing -------------------------------------------------------------------

/// The digit for `d`, with letters in upper or lower case.
pub open spec fn digit_char(d: nat, upper: bool) -> char {
    if d == 0 { '0' }
    else if d == 1 { '1' }
    else if d == 2 { '2' }
    else if d == 3 { '3' }
    else if d == 4 { '4' }
    else if d == 5 { '5' }
    else if d == 6 { '6' }
    else if d == 7 { '7' }
    else if d == 8 { '8' }
    else if d == 9 { '9' }
    else if d == 10 { if upper { 'A' } else { 'a' } }
    else if d == 11 { if upper { 'B' } else { 'b' } }
    else if d == 12 { if upper { 'C' } else { 'c' } }
    else if d == 13 { if upper { 'D' } else { 'd' } }
    else if d == 14 { if upper { 'E' } else { 'e' } }
    else { if upper { 'F' } else { 'f' } }
}

fn digit_to_char(d: u64, upper: bool) -> (r: char)
    requires
        d < 16,
    ensures
        r == digit_char(d as nat, upper),
{
    match d {
        0 => '0',
        1 => '1',
        2 => '2',
        3 => '3',
        4 => '4',
        5 => '5',
        6 => '6',
        7 => '7',
        8 => '8',
        9 => '9',
        10 => if upper { 'A' } else { 'a' },
        11 => if upper { 'B' } else { 'b' },
        12 => if upper { 'C' } else { 'c' },
        13 => if upper { 'D' } else { 'd' },
        14 => if upper { 'E' } else { 'e' },
        _ => if upper { 'F' } else { 'f' },
    }
}

/// The digits of `n` in `radix`, without leading zeros.
pub open spec fn digits_of(n: nat, radix: nat, upper: bool) -> Seq<char>
    decreases n,
{
    if radix < 2 || n < radix {
        seq![digit_char(n, upper)]
    } else {
        proof {
            assert(n / radix < n) by (nonlinear_arith)
                requires
                    radix >= 2,
                    n >= radix,
            ;
        }
        digits_of(n / radix, radix, upper).push(digit_char(n % radix, upper))
    }
}

/// `n` copies of `c`.
pub open spec fn repeated(c: char, n: nat) -> Seq<char> {
    Seq::new(n, |i: int| c)
}

/// `s` with `fill` in front, up to a width of `width` characters.
pub open spec fn padded_left(s: Seq<char>, width: nat, fill: char) -> Seq<char> {
    if s.len() < width {
        repeated(fill, (width - s.len()) as nat) + s
    } else {
        s
    }
}

/// `s` with blanks behind, up to a width of `width` characters.
pub open spec fn padded_right(s: Seq<char>, width: nat) -> Seq<char> {
    if s.len() < width {
        s + repeated(' ', (width - s.len()) as nat)
    } else {
        s
    }
}

/// `n` in decimal.
pub open spec fn decimal(n: nat) -> Seq<char> {
    digits_of(n, 10, false)
}

/// `n` in decimal, with a minus sign where it is negative.
pub open spec fn signed_decimal(n: int) -> Seq<char> {
    if n < 0 {
        seq!['-'] + decimal((-n) as nat)
    } else {
        decimal(n as nat)
    }
}

/// `n` in hexadecimal, at least two digits wide.
pub open spec fn hex2(n: nat, upper: bool) -> Seq<char> {
    padded_left(digits_of(n, 16, upper), 2, '0')
}

/// Appends `n` copies of `c`.
pub fn push_repeated(out: &mut String, c: char, n: usize)
    ensures
        final(out)@ == old(out)@ + repeated(c, n as nat),
{
    let mut i: usize = 0;
    assert(out@ =~= old(out)@ + repeated(c, 0));
    while i < n
        invariant
            i <= n,
            out@ == old(out)@ + repeated(c, i as nat),
        decreases n - i,
    {
        out.push(c);
        i = i + 1;
        assert(out@ =~= old(out)@ + repeated(c, i as nat));
    }
}

fn digit_list(n: u64, radix: u64, upper: bool) -> (r: Vec<char>)
    requires
        2 <= radix <= 16,
    ensures
        r@ == digits_of(n as nat, radix as nat, upper).reverse(),
{
    let mut v: Vec<char> = Vec::new();
    let mut m: u64 = n;
    let ghost all = digits_of(n as nat, radix as nat, upper);
    assert(digits_of(m as nat, radix as nat, upper) + v@.reverse() =~= all);
    while m >= radix
        invariant
            2 <= radix <= 16,
            all == digits_of(m as nat, radix as nat, upper) + v@.reverse(),
        decreases m,
    {
        let d: u64 = m % radix;
        let ghost q = digits_of((m / radix) as nat, radix as nat, upper);
        assert(m / radix < m) by (nonlinear_arith)
            requires
                radix >= 2,
                m >= radix,
        ;
        assert(digits_of(m as nat, radix as nat, upper) == q.push(digit_char(d as nat, upper)));
        let ghost before = v@;
        v.push(digit_to_char(d, upper));
        assert(q.push(digit_char(d as nat, upper)) + before.reverse() =~= q + v@.reverse());
        m = m / radix;
    }
    let ghost before = v@;
    v.push(digit_to_char(m, upper));
    assert(seq![digit_char(m as nat, upper)] + before.reverse() =~= v@.reverse());
    assert(v@ =~= v@.reverse().reverse());
    v
}

/// Appends `n` in `radix`, with `fill` in front up to `width` characters.
pub fn push_digits(out: &mut String, n: u64, radix: u64, upper: bool, width: usize, fill: char)
    requires
        2 <= radix <= 16,
    ensures
        final(out)@ == old(out)@ + padded_left(
            digits_of(n as nat, radix as nat, upper),
            width as nat,
            fill,
        ),
{
    let v = digit_list(n, radix, upper);
    let ghost all = digits_of(n as nat, radix as nat, upper);
    if v.len() < width {
        push_repeated(out, fill, width - v.len());
    }
    let ghost start = out@;
    let mut i: usize = v.len();
    assert(out@ =~= start + all.take(0));
    while i > 0
        invariant
            i <= v@.len(),
            v@ == all.reverse(),
            out@ == start + all.take(v@.len() - i),
        decreases i,
    {
        out.push(v[i - 1]);
        i = i - 1;
        assert(out@ =~= start + all.take(v@.len() - i));
    }
    assert(all.take(all.len() as int) =~= all);
    assert(out@ =~= old(out)@ + padded_left(all, width as nat, fill));
}

/// `n` in decimal.
pub fn decimal_text(n: u64) -> (r: String)
    ensures
        r@ == decimal(n as nat),
{
    let mut s = String::new();
    push_digits(&mut s, n, 10, false, 0, ' ');
    assert(s@ =~= decimal(n as nat));
    s
}

/// `n` in decimal, with a minus sign where it is negative.
pub fn signed_text(n: i32) -> (r: String)
    ensures
        r@ == signed_decimal(n as int),
{
    let mut s = String::new();
    let mut m: u64 = 0;
    if n < 0 {
        s.push('-');
        m = (-(n as i64)) as u64;
    } else {
        m = n as u64;
    }
    push_digits(&mut s, m, 10, false, 0, ' ');
    assert(s@ =~= signed_decimal(n as int));
    s
}

/// `n` in hexadecimal, at least two digits wide.
pub fn hex2_text(n: u16, upper: bool) -> (r: String)
    ensures
        r@ == hex2(n as nat, upper),
{
    let mut s = String::new();
    push_digits(&mut s, n as u64, 16, upper, 2, '0');
    assert(s@ =~= hex2(n as nat, upper));
    s
}

// ---- laws ----------------------------------------------------------------------

proof fn lemma_digit_char(d: nat, upper: bool)
    requires
        d < 16,
    ensures
        digit_of(digit_char(d, upper)) == Some(d),
{
}

proof fn lemma_digits_of(n: nat, radix: nat, upper: bool)
    requires
        2 <= radix <= 16,
    ensures
        digits_of(n, radix, upper).len() > 0,
        all_digits(digits_of(n, radix, upper), radix),
        digits_value(digits_of(n, radix, upper), radix) == n,
    decreases n,
{
    let s = digits_of(n, radix, upper);
    if n < radix {
        lemma_digit_char(n, upper);
        assert(s.drop_last() =~= Seq::empty());
        assert(digits_value(Seq::empty(), radix) * radix == 0) by {
            assert(digits_value(Seq::empty(), radix) == 0);
        }
    } else {
        assert(n / radix < n) by (nonlinear_arith)
            requires
                radix >= 2,
                n >= radix,
        ;
        lemma_digits_of(n / radix, radix, upper);
        lemma_digit_char(n % radix, upper);
        assert(s.drop_last() =~= digits_of(n / radix, radix, upper));
        assert((n / radix) * radix + n % radix == n) by (nonlinear_arith)
            requires
                radix >= 2,
        ;
    }
}

/// A number that is written in a radix reads back as itself.
pub proof fn law_numbers_read_back(n: nat, radix: nat, upper: bool, max: nat)
    requires
        2 <= radix <= 16,
        n <= max,
    ensures
        parsed(digits_of(n, radix, upper), radix, max) == Some(n),
{
    lemma_digits_of(n, radix, upper);
    assert(is_digit(digits_of(n, radix, upper)[0], radix));
}

/// A signed number that is written reads back as itself.
pub proof fn law_signed_numbers_read_back(n: i32)
    ensures
        decimal_i32(signed_decimal(n as int)) == Some(n),
{
    let s = signed_decimal(n as int);
    if n < 0 {
        let digits = decimal((-n) as nat);
        lemma_digits_of((-n) as nat, 10, false);
        assert(s.skip(1) =~= digits);
    } else {
        law_numbers_read_back(n as nat, 10, false, 0x7fff_ffff);
        lemma_digits_of(n as nat, 10, false);
        assert(is_digit(s[0], 10));
    }
}

/// A feature code that is written reads back as itself.
pub proof fn law_codes_read_back(code: u8, upper: bool)
    ensures
        hex_byte(hex2(code as nat, upper)) == Some(code),
{
    let digits = digits_of(code as nat, 16, upper);
    lemma_digits_of(code as nat, 16, upper);
    if code < 16 {
        let s = hex2(code as nat, upper);
        assert(s =~= seq!['0', digits[0]]);
        assert(s.drop_last() =~= seq!['0']);
        assert(s.drop_last().drop_last() =~= Seq::empty());
        assert(digits.drop_last() =~= Seq::empty());
        reveal_with_fuel(digits_value, 3);
        assert(is_digit(s[0], 16) && is_digit(s[1], 16));
    } else {
        let rest = digits_of(code as nat / 16, 16, upper);
        lemma_digits_of(code as nat / 16, 16, upper);
        assert(digits.len() == rest.len() + 1);
        law_numbers_read_back(code as nat, 16, upper, 0xff);
    }
}

/// How a number is written: the last digit is what is left of it by the radix, and
/// before that stands how the rest is written. Digits are the usual ones.
pub proof fn law_numbers_are_written_by_digits(n: nat, d: nat, upper: bool)
    requires
        d < 10,
    ensures
        decimal(d).len() == 1 && decimal(d)[0] as nat == '0' as nat + d,
        n > 0 ==> decimal(10 * n + d) == decimal(n).push(decimal(d)[0]),
        d < 6 ==> digits_of(10 + d, 16, upper).len() == 1 && digits_of(10 + d, 16, upper)[0] as nat
            == d + (if upper {
            'A' as nat
        } else {
            'a' as nat
        }),
        digits_of(d, 16, upper) == decimal(d),
{
    if n > 0 {
        assert((10 * n + d) / 10 == n);
        assert((10 * n + d) % 10 == d);
    }
}

/// A byte is written as two hexadecimal digits, the high one first.
pub proof fn law_bytes_are_two_digits(high: nat, low: nat, upper: bool)
    requires
        high < 16 && low < 16,
    ensures
        hex2(16 * high + low, upper) == digits_of(high, 16, upper) + digits_of(low, 16, upper),
        hex2(16 * high + low, upper).len() == 2,
{
    let n = 16 * high + low;
    if high > 0 {
        assert(n / 16 == high);
        assert(n % 16 == low);
        assert(digits_of(n, 16, upper) =~= digits_of(high, 16, upper) + digits_of(low, 16, upper));
    } else {
        assert(hex2(n, upper) =~= digits_of(0, 16, upper) + digits_of(low, 16, upper));
    }
}

/// What a text spells: nothing where there is no digit, or anything but digits
/// after one plus sign at most; else the number by its digits, where it is not too
/// big.
pub proof fn law_only_numbers_are_read(s: Seq<char>, c: char, max: nat, i: int)
    ensures
        parsed(Seq::empty(), 10, max) is None,
        0 <= i < s.len() && !('0' <= s[i] <= '9') && !(i == 0 && s[i] == '+') ==> parsed(
            s,
            10,
            max,
        ) is None,
        is_digit(c, 10) <==> '0' <= c <= '9',
        is_digit(c, 16) <==> '0' <= c <= '9' || 'a' <= c <= 'f' || 'A' <= c <= 'F',
        '0' <= c <= '9' ==> digits_value(s.push(c), 10) == 10 * digits_value(s, 10) + (c as nat
            - '0' as nat),
        parsed(s, 10, max) matches Some(n) ==> n <= max,
{
    assert(s.push(c).drop_last() =~= s);
    if 0 <= i < s.len() && !('0' <= s[i] <= '9') && !(i == 0 && s[i] == '+') {
        let d = unsigned_digits(s);
        if s[0] == '+' {
            assert(d[i - 1] == s[i]);
        }
        assert(!is_digit(s[i], 10));
    }
}

/// Padding fills up to the width, on its own side, and cuts nothing.
pub proof fn law_padding_only_fills(s: Seq<char>, width: nat, fill: char, i: int)
    ensures
        padded_left(s, width, fill).len() == (if s.len() < width {
            width
        } else {
            s.len()
        }),
        padded_right(s, width).len() == padded_left(s, width, fill).len(),
        padded_right(s, width).take(s.len() as int) == s,
        padded_left(s, width, fill).skip(padded_left(s, width, fill).len() - s.len()) == s,
        0 <= i < padded_left(s, width, fill).len() - s.len() ==> padded_left(s, width, fill)[i]
            == fill && padded_right(s, width)[s.len() + i] == ' ',
{
    assert(padded_right(s, width).take(s.len() as int) =~= s);
    assert(padded_left(s, width, fill).skip(padded_left(s, width, fill).len() - s.len()) =~= s);
}

} // verus!
