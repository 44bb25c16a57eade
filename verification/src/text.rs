//! Building the text of diagnostics: numbers in decimal and hexadecimal.
use vstd::prelude::*;

verus! {

/// `String::push_str` of the standard library: it appends the slice to the
/// end of the string and leaves what was there in place.
pub assume_specification[ String::push_str ](s: &mut String, other: &str)
    ensures
        final(s)@ == old(s)@ + other@,
;

/// `String::push` of the standard library: it appends one character to the
/// end of the string.
pub assume_specification[ String::push ](s: &mut String, ch: char)
    ensures
        final(s)@ == old(s)@.push(ch),
;

/// The character that stands for the digit `d` in base 16 or below.
pub open spec fn digit_char(d: nat, upper: bool) -> char {
    if d == 0 {
        '0'
    } else if d == 1 {
        '1'
    } else if d == 2 {
        '2'
    } else if d == 3 {
        '3'
    } else if d == 4 {
        '4'
    } else if d == 5 {
        '5'
    } else if d == 6 {
        '6'
    } else if d == 7 {
        '7'
    } else if d == 8 {
        '8'
    } else if d == 9 {
        '9'
    } else if d == 10 {
        if upper { 'A' } else { 'a' }
    } else if d == 11 {
        if upper { 'B' } else { 'b' }
    } else if d == 12 {
        if upper { 'C' } else { 'c' }
    } else if d == 13 {
        if upper { 'D' } else { 'd' }
    } else if d == 14 {
        if upper { 'E' } else { 'e' }
    } else {
        if upper { 'F' } else { 'f' }
    }
}

/// The digits of `v` in the given base, most significant first, without
/// leading zeros; zero is written as one digit.
pub open spec fn digits(v: nat, base: nat, upper: bool) -> Seq<char>
    decreases v,
    via digits_decreases
{
    if base < 2 || v < base {
        seq![digit_char(v, upper)]
    } else {
        digits(v / base, base, upper).push(digit_char(v % base, upper))
    }
}

#[via_fn]
proof fn digits_decreases(v: nat, base: nat, upper: bool) {
    if !(base < 2 || v < base) {
        quotient_bounds(v, base);
    }
}

/// Dividing by a base of two or more makes a number at least as large as
/// the base smaller, and leaves it positive.
proof fn quotient_bounds(v: nat, base: nat)
    requires
        2 <= base <= v,
    ensures
        1 <= v / base < v,
{
    assert(1 <= v / base < v) by (nonlinear_arith)
        requires
            2 <= base <= v,
    ;
}

/// `count` zeros.
pub open spec fn zeros(count: nat) -> Seq<char> {
    Seq::new(count, |i: int| '0')
}

/// `s`, with zeros in front of it where it is shorter than `width`.
pub open spec fn zero_padded(s: Seq<char>, width: nat) -> Seq<char> {
    if s.len() >= width {
        s
    } else {
        zeros((width - s.len()) as nat) + s
    }
}

/// `v` in decimal.
pub open spec fn decimal(v: nat) -> Seq<char> {
    digits(v, 10, false)
}

/// `v` in hexadecimal, at least eight digits wide.
pub open spec fn hex8(v: nat, upper: bool) -> Seq<char> {
    zero_padded(digits(v, 16, upper), 8)
}

/// The parts, with `sep` between each two of them.
pub open spec fn joined(parts: Seq<Seq<char>>, sep: Seq<char>) -> Seq<char>
    decreases parts.len(),
{
    if parts.len() == 0 {
        Seq::empty()
    } else if parts.len() == 1 {
        parts[0]
    } else {
        joined(parts.drop_last(), sep) + sep + parts.last()
    }
}

fn digit(d: u64, upper: bool) -> (c: char)
    requires
        d < 16,
    ensures
        c == digit_char(d as nat, upper),
{
    if d == 0 {
        '0'
    } else if d == 1 {
        '1'
    } else if d == 2 {
        '2'
    } else if d == 3 {
        '3'
    } else if d == 4 {
        '4'
    } else if d == 5 {
        '5'
    } else if d == 6 {
        '6'
    } else if d == 7 {
        '7'
    } else if d == 8 {
        '8'
    } else if d == 9 {
        '9'
    } else if d == 10 {
        if upper { 'A' } else { 'a' }
    } else if d == 11 {
        if upper { 'B' } else { 'b' }
    } else if d == 12 {
        if upper { 'C' } else { 'c' }
    } else if d == 13 {
        if upper { 'D' } else { 'd' }
    } else if d == 14 {
        if upper { 'E' } else { 'e' }
    } else {
        if upper { 'F' } else { 'f' }
    }
}

/// Appends the digits of `v` in base `base` to `out`.
fn push_digits(out: &mut String, v: u64, base: u64, upper: bool)
    requires
        2 <= base <= 16,
    ensures
        final(out)@ == old(out)@ + digits(v as nat, base as nat, upper),
    decreases v,
{
    if v >= base {
        proof {
            quotient_bounds(v as nat, base as nat);
        }
        push_digits(out, v / base, base, upper);
    }
    out.push(digit(v % base, upper));
    proof {
        let d = digit_char((v % base) as nat, upper);
        if v >= base {
            assert(digits(v as nat, base as nat, upper) == digits(
                (v / base) as nat,
                base as nat,
                upper,
            ).push(d));
        } else {
            assert(v % base == v) by (nonlinear_arith)
                requires
                    v < base,
            ;
            assert(digits(v as nat, base as nat, upper) == seq![d]);
        }
        assert(out@ =~= old(out)@ + digits(v as nat, base as nat, upper));
    }
}

/// How many digits `v` has in base `base`.
fn count_digits(v: u64, base: u64) -> (n: u64)
    requires
        2 <= base <= 16,
    ensures
        n == digits(v as nat, base as nat, true).len(),
        n == digits(v as nat, base as nat, false).len(),
{
    let mut n: u64 = 1;
    let mut rest: u64 = v;
    while rest >= base
        invariant
            2 <= base <= 16,
            1 <= n,
            n + rest <= 1 + v,
            n + digits(rest as nat, base as nat, true).len() == 1 + digits(
                v as nat,
                base as nat,
                true,
            ).len(),
            n + digits(rest as nat, base as nat, false).len() == 1 + digits(
                v as nat,
                base as nat,
                false,
            ).len(),
        decreases rest,
    {
        proof {
            quotient_bounds(rest as nat, base as nat);
        }
        rest = rest / base;
        n = n + 1;
    }
    n
}

/// Appends `v` in decimal to `out`.
pub fn push_decimal(out: &mut String, v: usize)
    ensures
        final(out)@ == old(out)@ + decimal(v as nat),
{
    push_digits(out, v as u64, 10, false);
}

/// `v` in decimal.
pub fn decimal_string(v: u64) -> (r: String)
    ensures
        r@ == decimal(v as nat),
{
    let mut out = String::new();
    push_digits(&mut out, v, 10, false);
    proof {
        assert(out@ =~= decimal(v as nat));
    }
    out
}

/// Appends `v` in hexadecimal, at least eight digits wide, to `out`.
pub fn push_hex8(out: &mut String, v: u64, upper: bool)
    ensures
        final(out)@ == old(out)@ + hex8(v as nat, upper),
{
    let n = count_digits(v, 16);
    let mut k: u64 = n;
    while k < 8
        invariant
            n <= k,
            n < 8 ==> k <= 8,
            n < 8 ==> out@ == old(out)@ + zeros((k - n) as nat),
            n >= 8 ==> out@ == old(out)@,
        decreases 8 - k,
    {
        out.push('0');
        k = k + 1;
        proof {
            assert(zeros((k - n) as nat) =~= zeros((k - 1 - n) as nat).push('0'));
        }
    }
    proof {
        if n < 8 {
            assert(k == 8);
        } else {
            assert(zeros(0) =~= Seq::<char>::empty());
        }
    }
    let ghost before = out@;
    push_digits(out, v, 16, upper);
    proof {
        let d = digits(v as nat, 16, upper);
        if n < 8 {
            assert(out@ =~= old(out)@ + (zeros((8 - n) as nat) + d));
        } else {
            assert(out@ =~= old(out)@ + d);
        }
    }
}

/// The texts of the strings.
pub open spec fn texts(lines: Seq<String>) -> Seq<Seq<char>> {
    Seq::new(lines.len(), |i: int| lines[i]@)
}

/// The strings, with `sep` between each two of them.
pub fn join(lines: &Vec<String>, sep: &str) -> (r: String)
    ensures
        r@ == joined(texts(lines@), sep@),
{
    let mut out = String::new();
    let mut i: usize = 0;
    proof {
        assert(texts(lines@).take(0) =~= Seq::empty());
        assert(out@ =~= joined(texts(lines@).take(0), sep@));
    }
    while i < lines.len()
        invariant
            i <= lines@.len(),
            out@ == joined(texts(lines@).take(i as int), sep@),
        decreases lines@.len() - i,
    {
        proof {
            let next = texts(lines@).take(i + 1);
            assert(next.drop_last() =~= texts(lines@).take(i as int));
            assert(next.last() == lines@[i as int]@);
        }
        if i > 0 {
            out.push_str(sep);
        }
        out.push_str(lines[i].as_str());
        proof {
            let next = texts(lines@).take(i + 1);
            if i == 0 {
                assert(out@ =~= next[0]);
            } else {
                assert(out@ =~= joined(next.drop_last(), sep@) + sep@ + next.last());
            }
        }
        i = i + 1;
    }
    proof {
        assert(texts(lines@).take(i as int) =~= texts(lines@));
    }
    out
}

} // verus!
