use vstd::prelude::*;
use vstd::string::*;

verus! {

/// Why a decimal number could not be read, with the kinds that the standard
/// integer parser distinguishes for unsigned targets.
#[derive(Debug, Clone, Copy, PartialEq, Eq, Structural)]
pub enum IntErrorKind {
    Empty,
    InvalidDigit,
    PosOverflow,
}

pub open spec fn is_digit(c: char) -> bool {
    '0' <= c && c <= '9'
}

pub open spec fn digit_value(c: char) -> int {
    c as int - '0' as int
}

/// Reads `d` from left to right as decimal digits, stopping at the first
/// character that is not a digit or the first prefix whose value exceeds `max`.
pub open spec fn scan_digits(d: Seq<char>, max: int) -> Result<int, IntErrorKind>
    decreases d.len(),
{
    if d.len() == 0 {
        Ok(0)
    } else {
        match scan_digits(d.drop_last(), max) {
            Err(e) => Err(e),
            Ok(v) => if !is_digit(d.last()) {
                Err(IntErrorKind::InvalidDigit)
            } else if v * 10 + digit_value(d.last()) > max {
                Err(IntErrorKind::PosOverflow)
            } else {
                Ok(v * 10 + digit_value(d.last()))
            },
        }
    }
}

/// The value of `s` read as an unsigned decimal number no larger than `max`:
/// an optional leading `+`, then at least one digit.
pub open spec fn parse_unsigned(s: Seq<char>, max: int) -> Result<int, IntErrorKind> {
    if s.len() == 0 {
        Err(IntErrorKind::Empty)
    } else if s.len() == 1 && (s[0] == '+' || s[0] == '-') {
        Err(IntErrorKind::InvalidDigit)
    } else if s[0] == '+' {
        scan_digits(s.drop_first(), max)
    } else {
        scan_digits(s, max)
    }
}

pub open spec fn digit_char(d: int) -> char {
    ('0' as int + d) as char
}

/// The decimal digits of `n`, without sign or leading zeros.
pub open spec fn decimal_text(n: nat) -> Seq<char>
    decreases n,
{
    if n < 10 {
        seq![digit_char(n as int)]
    } else {
        decimal_text(n / 10).push(digit_char((n % 10) as int))
    }
}

/// Reads `s` as an unsigned decimal number no larger than `max`.
pub fn parse_decimal(s: &str, max: u64) -> (res: Result<u64, IntErrorKind>)
    ensures
        match res {
            Ok(v) => parse_unsigned(s@, max as int) == Ok::<int, IntErrorKind>(v as int),
            Err(e) => parse_unsigned(s@, max as int) == Err::<int, IntErrorKind>(e),
        },
{
    let len = s.unicode_len();
    if len == 0 {
        return Err(IntErrorKind::Empty);
    }
    let first = s.get_char(0);
    if len == 1 && (first == '+' || first == '-') {
        return Err(IntErrorKind::InvalidDigit);
    }
    let start: usize = if first == '+' { 1 } else { 0 };
    let ghost d = if first == '+' { s@.drop_first() } else { s@ };
    assert(parse_unsigned(s@, max as int) == scan_digits(d, max as int));
    assert(d.take(0) =~= Seq::<char>::empty());
    let mut value: u64 = 0;
    let mut i: usize = start;
    while i < len
        invariant
            start <= i <= len,
            len == s@.len(),
            len > 0,
            start == 0 || start == 1,
            d == s@.subrange(start as int, len as int),
            parse_unsigned(s@, max as int) == scan_digits(d, max as int),
            scan_digits(d.take(i - start), max as int) == Ok::<int, IntErrorKind>(value as int),
            value <= max,
        decreases len - i,
    {
        let c = s.get_char(i);
        let ghost pre = d.take(i - start);
        assert(d.take(i + 1 - start).drop_last() == pre);
        assert(d.take(i + 1 - start).last() == c);
        if !('0' <= c && c <= '9') {
            proof {
                lemma_scan_prefix_error(d, (i + 1 - start) as int, max as int, IntErrorKind::InvalidDigit);
            }
            return Err(IntErrorKind::InvalidDigit);
        }
        let digit = (c as u32 - '0' as u32) as u64;
        if value > max / 10 || digit > max - value * 10 {
            assert(value * 10 + digit > max) by (nonlinear_arith)
                requires value > max / 10 || (value <= max / 10 && digit > max - value * 10);
            proof {
                lemma_scan_prefix_error(d, (i + 1 - start) as int, max as int, IntErrorKind::PosOverflow);
            }
            return Err(IntErrorKind::PosOverflow);
        }
        value = value * 10 + digit;
        i = i + 1;
    }
    assert(d.take(len - start) == d);
    Ok(value)
}

/// Once a prefix of the digits fails, the whole sequence fails the same way.
proof fn lemma_scan_prefix_error(d: Seq<char>, k: int, max: int, e: IntErrorKind)
    requires
        0 <= k <= d.len(),
        scan_digits(d.take(k), max) == Err::<int, IntErrorKind>(e),
    ensures
        scan_digits(d, max) == Err::<int, IntErrorKind>(e),
    decreases d.len() - k,
{
    if k < d.len() {
        assert(d.take(k + 1).drop_last() == d.take(k));
        lemma_scan_prefix_error(d, k + 1, max, e);
    } else {
        assert(d.take(k) == d);
    }
}

/// Reads `s` as a decimal `u16`, as `str::parse::<u16>` does.
pub fn parse_u16(s: &str) -> (res: Result<u16, IntErrorKind>)
    ensures
        match res {
            Ok(v) => parse_unsigned(s@, u16::MAX as int) == Ok::<int, IntErrorKind>(v as int),
            Err(e) => parse_unsigned(s@, u16::MAX as int) == Err::<int, IntErrorKind>(e),
        },
{
    match parse_decimal(s, 0xffff) {
        Ok(v) => Ok(v as u16),
        Err(e) => Err(e),
    }
}

/// Reads `s` as a decimal `u32`, as `str::parse::<u32>` does.
pub fn parse_u32(s: &str) -> (res: Result<u32, IntErrorKind>)
    ensures
        match res {
            Ok(v) => parse_unsigned(s@, u32::MAX as int) == Ok::<int, IntErrorKind>(v as int),
            Err(e) => parse_unsigned(s@, u32::MAX as int) == Err::<int, IntErrorKind>(e),
        },
{
    match parse_decimal(s, 0xffff_ffff) {
        Ok(v) => Ok(v as u32),
        Err(e) => Err(e),
    }
}

/// Reads `s` as a decimal `u64`, as `str::parse::<u64>` does.
pub fn parse_u64(s: &str) -> (res: Result<u64, IntErrorKind>)
    ensures
        match res {
            Ok(v) => parse_unsigned(s@, u64::MAX as int) == Ok::<int, IntErrorKind>(v as int),
            Err(e) => parse_unsigned(s@, u64::MAX as int) == Err::<int, IntErrorKind>(e),
        },
{
    parse_decimal(s, 0xffff_ffff_ffff_ffff)
}

/// Reads `s` as a decimal `usize`, as `str::parse::<usize>` does.
pub fn parse_usize(s: &str) -> (res: Result<usize, IntErrorKind>)
    ensures
        match res {
            Ok(v) => parse_unsigned(s@, usize::MAX as int) == Ok::<int, IntErrorKind>(v as int),
            Err(e) => parse_unsigned(s@, usize::MAX as int) == Err::<int, IntErrorKind>(e),
        },
{
    let max: u64 = if usize::BITS == 32 { 0xffff_ffff } else { 0xffff_ffff_ffff_ffff };
    assert(max as int == usize::MAX as int);
    match parse_decimal(s, max) {
        Ok(v) => Ok(v as usize),
        Err(e) => Err(e),
    }
}

pub assume_specification[ String::push ](s: &mut String, ch: char)
    ensures
        final(s)@ == old(s)@.push(ch),
;

fn digit_to_char(d: u64) -> (c: char)
    requires
        d < 10,
    ensures
        c == digit_char(d as int),
{
    match d {
        0 => '0',
        1 => '1',
        2 => '2',
        3 => '3',
        4 => '4',
        5 => '5',
        6 => '6',
        7 => '7',
        8 => '8',
        _ => '9',
    }
}

/// Appends the decimal digits of `n` to `out`.
pub fn push_decimal(out: &mut String, n: u64)
    ensures
        final(out)@ == old(out)@ + decimal_text(n as nat),
    decreases n,
{
    if n >= 10 {
        push_decimal(out, n / 10);
    }
    out.push(digit_to_char(n % 10));
    assert(n < 10 ==> n % 10 == n);
}

/// The decimal text of `n`, as `n.to_string()` gives it.
pub fn decimal_string(n: u64) -> (s: String)
    ensures
        s@ == decimal_text(n as nat),
{
    let mut s = String::new();
    push_decimal(&mut s, n);
    s
}

proof fn lemma_decimal_text_digits(n: nat)
    ensures
        decimal_text(n).len() > 0,
        forall|i: int| 0 <= i < decimal_text(n).len() ==> is_digit(#[trigger] decimal_text(n)[i]),
        decimal_text(n)[0] != '+' && decimal_text(n)[0] != '-',
    decreases n,
{
    if n >= 10 {
        lemma_decimal_text_digits(n / 10);
    }
}

proof fn lemma_digit_char(d: int)
    requires
        0 <= d < 10,
    ensures
        is_digit(digit_char(d)),
        digit_value(digit_char(d)) == d,
{
}

proof fn lemma_scan_decimal_text(n: nat, max: int)
    requires
        n <= max,
    ensures
        scan_digits(decimal_text(n), max) == Ok::<int, IntErrorKind>(n as int),
    decreases n,
{
    if n < 10 {
        let t = decimal_text(n);
        assert(t.drop_last() =~= Seq::<char>::empty());
        assert(t.last() == digit_char(n as int));
        lemma_digit_char(n as int);
        assert(scan_digits(t.drop_last(), max) == Ok::<int, IntErrorKind>(0));
    } else {
        lemma_scan_decimal_text(n / 10, max);
        assert(decimal_text(n).drop_last() == decimal_text(n / 10));
        assert(decimal_text(n).last() == digit_char((n % 10) as int));
        lemma_digit_char((n % 10) as int);
        assert((n / 10) * 10 + n % 10 == n);
    }
}

/// Reading back the decimal text of a number gives the number, whenever it
/// fits under the bound.
pub proof fn law_decimal_round_trip(n: nat, max: int)
    requires
        n <= max,
    ensures
        parse_unsigned(decimal_text(n), max) == Ok::<int, IntErrorKind>(n as int),
{
    lemma_decimal_text_digits(n);
    lemma_scan_decimal_text(n, max);
    if decimal_text(n).len() == 1 {
        assert(is_digit(decimal_text(n)[0]));
    }
}

} // verus!
