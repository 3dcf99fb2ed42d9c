//! Building and reading text: hexadecimal digits, and the few `String`
//! operations that vstd gives no specification.

use vstd::prelude::*;

verus! {

/// The hexadecimal digit of a value below 16, in lower case when `upper` is
/// false.
pub open spec fn hex_char(d: u8, upper: bool) -> char {
    if d < 10 {
        (d + 48) as char
    } else if upper {
        (d + 55) as char
    } else {
        (d + 87) as char
    }
}

/// Two lower-case hexadecimal digits for each byte, the high digit first.
pub open spec fn hex_bytes(s: Seq<u8>) -> Seq<char> {
    Seq::new(
        2 * s.len(),
        |i: int|
            if i % 2 == 0 {
                hex_char(s[i / 2] / 16, false)
            } else {
                hex_char(s[i / 2] % 16, false)
            },
    )
}

/// The hexadecimal digits of a number, without leading zeros ("0" for zero).
pub open spec fn hex_digits(v: nat, upper: bool) -> Seq<char>
    decreases v,
{
    if v < 16 {
        seq![hex_char(v as u8, upper)]
    } else {
        hex_digits(v / 16, upper).push(hex_char((v % 16) as u8, upper))
    }
}

/// `n` zero digits.
pub open spec fn zeros(n: nat) -> Seq<char> {
    Seq::new(n, |i: int| '0')
}

/// The hexadecimal digits of a number, with zeros in front up to `width`
/// digits.
pub open spec fn hex_padded(v: nat, width: nat, upper: bool) -> Seq<char> {
    let d = hex_digits(v, upper);
    if d.len() >= width {
        d
    } else {
        zeros((width - d.len()) as nat) + d
    }
}

/// The hexadecimal digit of `d`.
pub fn hex_digit(d: u8, upper: bool) -> (c: char)
    requires
        d < 16,
    ensures
        c == hex_char(d, upper),
{
    if d < 10 {
        (d + 48) as char
    } else if upper {
        (d + 55) as char
    } else {
        (d + 87) as char
    }
}

/// Appends a character to a string.
#[verifier::external_body]
pub(crate) fn push_char(s: &mut String, c: char)
    ensures
        final(s)@ == old(s)@.push(c),
{
    s.push(c);
}

/// Appends two lower-case hexadecimal digits for each byte.
pub fn push_hex_bytes(s: &mut String, bytes: &[u8])
    ensures
        final(s)@ == old(s)@ + hex_bytes(bytes@),
{
    let ghost start = s@;
    let mut i: usize = 0;
    while i < bytes.len()
        invariant
            i <= bytes.len(),
            s@ == start + hex_bytes(bytes@.take(i as int)),
        decreases bytes.len() - i,
    {
        let b = bytes[i];
        let hi = hex_digit(b / 16, false);
        let lo = hex_digit(b % 16, false);
        push_char(s, hi);
        push_char(s, lo);
        proof {
            let t = bytes@.take(i as int + 1);
            assert(hex_bytes(t) =~= hex_bytes(bytes@.take(i as int)).push(hi).push(lo));
        }
        i = i + 1;
    }
    assert(bytes@.take(bytes.len() as int) =~= bytes@);
}

/// The hexadecimal digits of `v`, without leading zeros.
pub fn hex_digits_of(v: u64, upper: bool) -> (d: Vec<char>)
    ensures
        d@ == hex_digits(v as nat, upper),
    decreases v,
{
    if v < 16 {
        let mut d: Vec<char> = Vec::new();
        d.push(hex_digit(v as u8, upper));
        d
    } else {
        let mut d = hex_digits_of(v / 16, upper);
        d.push(hex_digit((v % 16) as u8, upper));
        d
    }
}

/// Appends the hexadecimal digits of `v`, with zeros in front up to `width`
/// digits.
pub fn push_hex_padded(s: &mut String, v: u64, width: usize, upper: bool)
    ensures
        final(s)@ == old(s)@ + hex_padded(v as nat, width as nat, upper),
{
    let ghost start = s@;
    let d = hex_digits_of(v, upper);
    let mut pad: usize = 0;
    if d.len() < width {
        pad = width - d.len();
    }
    let mut i: usize = 0;
    while i < pad
        invariant
            i <= pad,
            s@ == start + zeros(i as nat),
        decreases pad - i,
    {
        push_char(s, '0');
        assert(zeros(i as nat + 1) =~= zeros(i as nat).push('0'));
        i = i + 1;
    }
    let ghost mid = s@;
    let mut j: usize = 0;
    while j < d.len()
        invariant
            j <= d.len(),
            s@ == mid + d@.take(j as int),
        decreases d.len() - j,
    {
        push_char(s, d[j]);
        assert(d@.take(j as int + 1) =~= d@.take(j as int).push(d@[j as int]));
        j = j + 1;
    }
    assert(d@.take(d.len() as int) =~= d@);
    if d.len() >= width {
        assert(zeros(0) =~= Seq::<char>::empty());
        assert(s@ =~= start + hex_padded(v as nat, width as nat, upper));
    } else {
        assert(s@ =~= start + hex_padded(v as nat, width as nat, upper));
    }
}

/// The decimal digits of a number, without leading zeros ("0" for zero).
pub open spec fn dec_digits(v: nat) -> Seq<char>
    decreases v,
{
    if v < 10 {
        seq![(v + 48) as char]
    } else {
        dec_digits(v / 10).push(((v % 10) + 48) as char)
    }
}

/// The decimal digits of `v`, without leading zeros.
pub fn dec_digits_of(v: u64) -> (d: Vec<char>)
    ensures
        d@ == dec_digits(v as nat),
    decreases v,
{
    if v < 10 {
        let mut d: Vec<char> = Vec::new();
        d.push(((v as u8) + 48) as char);
        d
    } else {
        let mut d = dec_digits_of(v / 10);
        d.push((((v % 10) as u8) + 48) as char);
        d
    }
}

/// Appends the characters of `d`.
pub fn push_chars(s: &mut String, d: &[char])
    ensures
        final(s)@ == old(s)@ + d@,
{
    let ghost start = s@;
    let mut j: usize = 0;
    while j < d.len()
        invariant
            j <= d.len(),
            s@ == start + d@.take(j as int),
        decreases d.len() - j,
    {
        push_char(s, d[j]);
        assert(d@.take(j as int + 1) =~= d@.take(j as int).push(d@[j as int]));
        j = j + 1;
    }
    assert(d@.take(d.len() as int) =~= d@);
}

/// Appends the decimal digits of `v`.
pub fn push_decimal(s: &mut String, v: u64)
    ensures
        final(s)@ == old(s)@ + dec_digits(v as nat),
{
    let d = dec_digits_of(v);
    push_chars(s, d.as_slice());
}

/// Appends the characters of `t`.
pub fn push_str(s: &mut String, t: &str)
    ensures
        final(s)@ == old(s)@ + t@,
{
    let ghost start = s@;
    let n = t.unicode_len();
    let mut j: usize = 0;
    while j < n
        invariant
            j <= n,
            n == t@.len(),
            s@ == start + t@.take(j as int),
        decreases n - j,
    {
        push_char(s, t.get_char(j));
        assert(t@.take(j as int + 1) =~= t@.take(j as int).push(t@[j as int]));
        j = j + 1;
    }
    assert(t@.take(n as int) =~= t@);
}

/// The characters of `s`.
pub fn chars_of(s: &str) -> (v: Vec<char>)
    ensures
        v@ == s@,
{
    let n = s.unicode_len();
    let mut v: Vec<char> = Vec::new();
    let mut j: usize = 0;
    while j < n
        invariant
            j <= n,
            n == s@.len(),
            v@ == s@.take(j as int),
        decreases n - j,
    {
        v.push(s.get_char(j));
        assert(s@.take(j as int + 1) =~= s@.take(j as int).push(s@[j as int]));
        j = j + 1;
    }
    assert(s@.take(n as int) =~= s@);
    v
}

/// The two strings hold the same characters.
pub fn str_eq(a: &str, b: &str) -> (r: bool)
    ensures
        r == (a@ == b@),
{
    let x = chars_of(a);
    let y = chars_of(b);
    if x.len() != y.len() {
        return false;
    }
    let mut j: usize = 0;
    while j < x.len()
        invariant
            j <= x@.len(),
            x@.len() == y@.len(),
            x@ == a@,
            y@ == b@,
            forall|k: int| 0 <= k < j ==> x@[k] == y@[k],
        decreases x@.len() - j,
    {
        if x[j] != y[j] {
            return false;
        }
        j = j + 1;
    }
    assert(x@ =~= y@);
    true
}

/// `s` starts with the character `c`.
pub fn starts_with_char(s: &str, c: char) -> (r: bool)
    ensures
        r == (s@.len() > 0 && s@[0] == c),
{
    let n = s.unicode_len();
    n > 0 && s.get_char(0) == c
}

/// `s` ends with `suffix`.
pub fn ends_with(s: &str, suffix: &str) -> (r: bool)
    ensures
        r == (suffix@.len() <= s@.len() && s@.subrange(s@.len() - suffix@.len(), s@.len() as int)
            == suffix@),
{
    let x = chars_of(s);
    let y = chars_of(suffix);
    if y.len() > x.len() {
        return false;
    }
    let off = x.len() - y.len();
    let mut j: usize = 0;
    while j < y.len()
        invariant
            j <= y@.len(),
            off + y@.len() == x@.len(),
            x@.len() <= usize::MAX,
            x@ == s@,
            y@ == suffix@,
            forall|k: int| 0 <= k < j ==> x@[off + k] == y@[k],
        decreases y@.len() - j,
    {
        if x[off + j] != y[j] {
            assert(s@.subrange(off as int, s@.len() as int)[j as int] != suffix@[j as int]);
            return false;
        }
        j = j + 1;
    }
    assert(s@.subrange(off as int, s@.len() as int) =~= suffix@);
    true
}

/// The characters of `a` followed by those of `b`.
pub fn concat(a: &str, b: &str) -> (r: String)
    ensures
        r@ == a@ + b@,
{
    let mut r = String::new();
    push_str(&mut r, a);
    push_str(&mut r, b);
    assert(r@ =~= a@ + b@);
    r
}

} // verus!
