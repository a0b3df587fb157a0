//! Hexadecimal text as it appears on the wire: `0x`-prefixed digit strings,
//! and the quantity encoding of unsigned numbers.

use crate::error::{ErrorView, GrauxError};
use crate::text::{chars_of, text_of};
use vstd::prelude::*;

verus! {

/// Whether `c` is one of `0-9`, `a-f`, `A-F`.
pub open spec fn is_hex_digit(c: char) -> bool {
    ('0' <= c && c <= '9') || ('a' <= c && c <= 'f') || ('A' <= c && c <= 'F')
}

/// The number a hexadecimal digit stands for.
pub open spec fn hex_digit_value(c: char) -> nat {
    if '0' <= c && c <= '9' {
        (c as u32 - '0' as u32) as nat
    } else if 'a' <= c && c <= 'f' {
        (c as u32 - 'a' as u32 + 10) as nat
    } else if 'A' <= c && c <= 'F' {
        (c as u32 - 'A' as u32 + 10) as nat
    } else {
        0
    }
}

/// The sixteen digits in the case this library writes.
pub open spec fn hex_alphabet() -> Seq<char> {
    seq!['0', '1', '2', '3', '4', '5', '6', '7', '8', '9', 'a', 'b', 'c', 'd', 'e', 'f']
}

/// The lower-case digit for a value below sixteen.
pub open spec fn hex_char(d: nat) -> char {
    hex_alphabet()[d as int]
}

/// A digit with any of `A-F` replaced by its lower-case form.
pub open spec fn lower_digit(c: char) -> char {
    if 'A' <= c && c <= 'F' {
        hex_char(hex_digit_value(c))
    } else {
        c
    }
}

/// Every character of `d` is a hexadecimal digit.
pub open spec fn all_hex_digits(d: Seq<char>) -> bool {
    forall|i: int| 0 <= i < d.len() ==> is_hex_digit(#[trigger] d[i])
}

/// `s` is `0x` followed by any number of hexadecimal digits.
pub open spec fn is_hex_text(s: Seq<char>) -> bool {
    &&& s.len() >= 2
    &&& s[0] == '0'
    &&& s[1] == 'x'
    &&& all_hex_digits(s.skip(2))
}

/// `s` is hexadecimal text and, where a length is given, stands for exactly
/// that many bytes.
pub open spec fn is_hex_text_of(s: Seq<char>, length: Option<usize>) -> bool {
    &&& is_hex_text(s)
    &&& (length matches Some(n) ==> s.len() == 2 + 2 * n)
}

/// `d` without its leading zeros; the last digit always stays.
pub open spec fn strip_zeros(d: Seq<char>) -> Seq<char>
    decreases d.len(),
{
    if d.len() > 1 && d[0] == '0' {
        strip_zeros(d.drop_first())
    } else {
        d
    }
}

/// `d` with every digit in lower case.
pub open spec fn lower_digits(d: Seq<char>) -> Seq<char> {
    Seq::new(d.len(), |i: int| lower_digit(d[i]))
}

/// The `0x` prefix.
pub open spec fn hex_prefix() -> Seq<char> {
    seq!['0', 'x']
}

/// Hexadecimal text with the leading zeros of its digits removed.
pub open spec fn stripped_text(s: Seq<char>) -> Seq<char> {
    hex_prefix() + strip_zeros(s.skip(2))
}

/// The canonical quantity form of hexadecimal text: lower case, no leading
/// zeros, and `0x0` where there is no digit at all.
pub open spec fn quantity_text(s: Seq<char>) -> Seq<char> {
    let d = lower_digits(strip_zeros(s.skip(2)));
    hex_prefix() + (if d.len() == 0 {
        seq!['0']
    } else {
        d
    })
}

/// The number that a sequence of hexadecimal digits denotes, most
/// significant digit first.
pub open spec fn hex_nat(d: Seq<char>) -> nat
    decreases d.len(),
{
    if d.len() == 0 {
        0
    } else {
        hex_nat(d.drop_last()) * 16 + hex_digit_value(d.last())
    }
}

/// The digits of a positive number, most significant first, with no leading
/// zero; no digit at all for zero.
pub open spec fn nat_hex(n: nat) -> Seq<char>
    decreases n,
{
    if n == 0 {
        Seq::empty()
    } else {
        nat_hex(n / 16).push(hex_char(n % 16))
    }
}

/// The quantity encoding of a number: `0x0` for zero, else `0x` and the
/// digits without leading zeros.
pub open spec fn quantity(n: nat) -> Seq<char> {
    hex_prefix() + (if n == 0 {
        seq!['0']
    } else {
        nat_hex(n)
    })
}

/// Stripping keeps a tail of the digits, and what it keeps has no leading
/// zero left to strip.
pub proof fn lemma_strip_zeros(d: Seq<char>)
    ensures
        strip_zeros(d).len() <= d.len(),
        strip_zeros(d) == d.skip(d.len() - strip_zeros(d).len()),
        strip_zeros(d).len() <= 1 || strip_zeros(d)[0] != '0',
        d.len() > 0 ==> strip_zeros(d).len() > 0,
        strip_zeros(strip_zeros(d)) == strip_zeros(d),
    decreases d.len(),
{
    if d.len() > 1 && d[0] == '0' {
        let rest = d.drop_first();
        lemma_strip_zeros(rest);
        assert(rest.skip(rest.len() - strip_zeros(rest).len()) == d.skip(
            d.len() - strip_zeros(rest).len(),
        ));
    } else {
        assert(d.skip(0) == d);
    }
}

/// The quantity form of hexadecimal text is hexadecimal text, and stripping
/// its zeros again changes nothing.
pub proof fn lemma_quantity_text(s: Seq<char>)
    requires
        is_hex_text(s),
    ensures
        is_hex_text(quantity_text(s)),
        stripped_text(quantity_text(s)) == quantity_text(s),
        quantity_text(quantity_text(s)) == quantity_text(s),
{
    let d = s.skip(2);
    let t = strip_zeros(d);
    let l = lower_digits(t);
    let q = if l.len() == 0 {
        seq!['0']
    } else {
        l
    };
    lemma_strip_zeros(d);
    assert(quantity_text(s) == hex_prefix() + q);
    assert(quantity_text(s).skip(2) =~= q);
    assert forall|i: int| 0 <= i < q.len() implies is_hex_digit(#[trigger] q[i]) && lower_digit(
        q[i],
    ) == q[i] by {
        if l.len() != 0 {
            let k = d.len() - t.len();
            assert(t[i] == d[i + k]);
            assert(is_hex_digit(d[i + k]));
            assert(q[i] == lower_digit(t[i]));
        }
    }
    assert(strip_zeros(q) == q) by {
        if l.len() > 1 {
            assert(t[0] != '0');
            assert(q[0] == lower_digit(t[0]));
        }
    }
    assert(lower_digits(q) =~= q);
}

/// A zero in front of digits does not change the number they denote.
pub proof fn lemma_leading_zero(d: Seq<char>)
    ensures
        hex_nat(seq!['0'] + d) == hex_nat(d),
    decreases d.len(),
{
    let z = seq!['0'] + d;
    if d.len() == 0 {
        assert(z.drop_last() =~= Seq::<char>::empty());
        assert(hex_nat(z.drop_last()) == 0);
    } else {
        assert(z.drop_last() =~= seq!['0'] + d.drop_last());
        assert(z.last() == d.last());
        lemma_leading_zero(d.drop_last());
    }
}

/// Stripping the leading zeros does not change the number that the digits
/// denote.
pub proof fn lemma_strip_keeps_value(d: Seq<char>)
    ensures
        hex_nat(strip_zeros(d)) == hex_nat(d),
    decreases d.len(),
{
    if d.len() > 1 && d[0] == '0' {
        lemma_strip_keeps_value(d.drop_first());
        assert(d =~= seq!['0'] + d.drop_first());
        lemma_leading_zero(d.drop_first());
    }
}

/// Writing the digits in lower case does not change the number that they
/// denote.
pub proof fn lemma_lower_keeps_value(d: Seq<char>)
    ensures
        hex_nat(lower_digits(d)) == hex_nat(d),
    decreases d.len(),
{
    if d.len() > 0 {
        assert(lower_digits(d).drop_last() =~= lower_digits(d.drop_last()));
        assert(lower_digits(d).last() == lower_digit(d.last()));
        assert(hex_digit_value(lower_digit(d.last())) == hex_digit_value(d.last()));
        lemma_lower_keeps_value(d.drop_last());
    }
}

/// The digits of a number are canonical and denote the number.
pub proof fn lemma_nat_hex(n: nat)
    ensures
        hex_nat(nat_hex(n)) == n,
        all_hex_digits(nat_hex(n)),
        lower_digits(nat_hex(n)) == nat_hex(n),
        n > 0 ==> nat_hex(n).len() > 0 && nat_hex(n)[0] != '0',
        n == 0 ==> nat_hex(n).len() == 0,
    decreases n,
{
    if n > 0 {
        let q = n / 16;
        let r = n % 16;
        lemma_nat_hex(q);
        let c = hex_char(r);
        let d = nat_hex(n);
        assert(d == nat_hex(q).push(c));
        assert(d.drop_last() =~= nat_hex(q));
        assert(is_hex_digit(c) && hex_digit_value(c) == r && lower_digit(c) == c);
        assert(lower_digits(d) =~= d);
        if q == 0 {
            assert(r > 0);
            assert(c != '0');
        } else {
            assert(d[0] == nat_hex(q)[0]);
        }
    }
}

/// Canonical digits are the digits of the number they denote: no two
/// canonical digit strings denote the same number.
pub proof fn lemma_canonical_digits(d: Seq<char>)
    requires
        all_hex_digits(d),
        lower_digits(d) == d,
        d.len() > 0 ==> d[0] != '0',
    ensures
        nat_hex(hex_nat(d)) == d,
        d.len() > 0 ==> hex_nat(d) > 0,
    decreases d.len(),
{
    if d.len() > 0 {
        let init = d.drop_last();
        let c = d.last();
        assert(is_hex_digit(c));
        assert(lower_digit(c) == c) by {
            assert(lower_digits(d)[d.len() - 1] == lower_digit(d[d.len() - 1]));
        }
        assert(hex_char(hex_digit_value(c)) == c);
        assert(lower_digits(init) =~= init) by {
            assert forall|i: int| 0 <= i < init.len() implies lower_digit(init[i]) == init[i] by {
                assert(lower_digits(d)[i] == lower_digit(d[i]));
            }
        }
        if init.len() > 0 {
            assert(init[0] == d[0]);
        }
        lemma_canonical_digits(init);
        let n = hex_nat(d);
        assert(n == hex_nat(init) * 16 + hex_digit_value(c));
        if init.len() == 0 {
            assert(c != '0');
            assert(hex_digit_value(c) > 0);
        }
        assert(n / 16 == hex_nat(init) && n % 16 == hex_digit_value(c));
        assert(nat_hex(n) == nat_hex(n / 16).push(hex_char(n % 16)));
        assert(nat_hex(n) =~= d);
    }
}

/// The quantity form of hexadecimal text is the quantity encoding of the
/// number that the text denotes.
pub proof fn lemma_quantity_of_text(s: Seq<char>)
    requires
        is_hex_text(s),
    ensures
        quantity_text(s) == quantity(hex_nat(s.skip(2))),
{
    let d = s.skip(2);
    let t = strip_zeros(d);
    let l = lower_digits(t);
    lemma_strip_zeros(d);
    lemma_strip_keeps_value(d);
    lemma_lower_keeps_value(t);
    assert forall|i: int| 0 <= i < l.len() implies is_hex_digit(#[trigger] l[i]) && lower_digit(
        l[i],
    ) == l[i] by {
        let k = d.len() - t.len();
        assert(t[i] == d[i + k]);
        assert(is_hex_digit(d[i + k]));
    }
    assert(lower_digits(l) =~= l);
    if l.len() == 0 {
        assert(d.len() == 0);
        assert(hex_nat(d) == 0);
    } else if l.len() == 1 && l[0] == '0' {
        assert(hex_nat(l) == 0) by {
            assert(l.drop_last().len() == 0);
            assert(hex_nat(l.drop_last()) == 0);
        }
        assert(l =~= seq!['0']);
    } else {
        if l.len() > 1 {
            assert(t[0] != '0');
            assert(l[0] == lower_digit(t[0]));
        }
        assert(l[0] != '0');
        lemma_canonical_digits(l);
    }
}

/// Executable test for a hexadecimal digit.
pub fn hex_digit(c: char) -> (r: bool)
    ensures
        r == is_hex_digit(c),
{
    ('0' <= c && c <= '9') || ('a' <= c && c <= 'f') || ('A' <= c && c <= 'F')
}

/// The lower-case digit for `d`.
pub fn digit_char(d: u8) -> (c: char)
    requires
        d < 16,
    ensures
        c == hex_char(d as nat),
        is_hex_digit(c),
        hex_digit_value(c) == d,
        lower_digit(c) == c,
{
    match d {
        0 => '0',
        1 => '1',
        2 => '2',
        3 => '3',
        4 => '4',
        5 => '5',
        6 => '6',
        7 => '7',
        8 => '8',
        9 => '9',
        10 => 'a',
        11 => 'b',
        12 => 'c',
        13 => 'd',
        14 => 'e',
        _ => 'f',
    }
}

/// The number that the digit `c` stands for.
pub fn digit_number(c: char) -> (r: u8)
    requires
        is_hex_digit(c),
    ensures
        r == hex_digit_value(c),
        r < 16,
        (r == 0) == (c == '0'),
{
    match c {
        '0' => 0,
        '1' => 1,
        '2' => 2,
        '3' => 3,
        '4' => 4,
        '5' => 5,
        '6' => 6,
        '7' => 7,
        '8' => 8,
        '9' => 9,
        'a' | 'A' => 10,
        'b' | 'B' => 11,
        'c' | 'C' => 12,
        'd' | 'D' => 13,
        'e' | 'E' => 14,
        _ => 15,
    }
}

/// A digit in lower case.
pub fn to_lower_digit(c: char) -> (r: char)
    ensures
        r == lower_digit(c),
{
    match c {
        'A' => 'a',
        'B' => 'b',
        'C' => 'c',
        'D' => 'd',
        'E' => 'e',
        'F' => 'f',
        _ => c,
    }
}

/// Whether `value` is `0x` followed by hexadecimal digits and, where
/// `length` is given, stands for exactly that many bytes.
pub fn is_hex_string(value: &str, length: Option<usize>) -> (r: bool)
    ensures
        r == is_hex_text_of(value@, length),
{
    let v = chars_of(value);
    if v.len() < 2 || v[0] != '0' || v[1] != 'x' {
        return false;
    }
    let mut i: usize = 2;
    while i < v.len()
        invariant
            2 <= i <= v.len(),
            v@ == value@,
            forall|j: int| 2 <= j < i ==> is_hex_digit(#[trigger] v@[j]),
        decreases v.len() - i,
    {
        if !hex_digit(v[i]) {
            assert(!is_hex_digit(v@.skip(2)[i - 2]));
            return false;
        }
        i += 1;
    }
    assert(all_hex_digits(v@.skip(2))) by {
        assert forall|j: int| 0 <= j < v@.skip(2).len() implies is_hex_digit(
            #[trigger] v@.skip(2)[j],
        ) by {
            assert(v@.skip(2)[j] == v@[j + 2]);
        }
    }
    match length {
        Some(n) => {
            let digits: usize = v.len() - 2;
            digits % 2 == 0 && digits / 2 == n
        },
        None => true,
    }
}

/// The position at which the stripped digits of `v` start, counted from the
/// start of the text.
pub(crate) fn first_kept_digit(v: &Vec<char>) -> (k: usize)
    requires
        v.len() >= 2,
    ensures
        2 <= k <= v.len(),
        v@.skip(k as int) == strip_zeros(v@.skip(2)),
{
    let mut k: usize = 2;
    while k < v.len() - 1 && v[k] == '0'
        invariant
            2 <= k <= v.len(),
            strip_zeros(v@.skip(k as int)) == strip_zeros(v@.skip(2)),
        decreases v.len() - k,
    {
        assert(v@.skip(k as int).drop_first() == v@.skip(k + 1));
        k += 1;
    }
    k
}

/// `value` with the leading zeros of its digits removed. The last digit is
/// never removed, so zero stays `0x0`.
pub fn hex_strip_zeros(value: &str) -> (r: String)
    requires
        is_hex_text(value@),
    ensures
        r@ == stripped_text(value@),
{
    let v = chars_of(value);
    let k = first_kept_digit(&v);
    let mut out: Vec<char> = Vec::new();
    out.push('0');
    out.push('x');
    let mut i: usize = k;
    while i < v.len()
        invariant
            k <= i <= v.len(),
            out@ == hex_prefix() + v@.subrange(k as int, i as int),
        decreases v.len() - i,
    {
        out.push(v[i]);
        i += 1;
    }
    assert(v@.subrange(k as int, v.len() as int) == v@.skip(k as int));
    text_of(&out)
}

/// The quantity form of hexadecimal text: lower case, without leading zeros,
/// `0x0` for text without digits. Text that is not hexadecimal is refused
/// with the text itself in the error.
pub fn hex_value(value: &str) -> (r: Result<String, GrauxError>)
    ensures
        is_hex_text(value@) ==> r is Ok && r->Ok_0@ == quantity_text(value@),
        !is_hex_text(value@) ==> r is Err && r->Err_0@ == ErrorView::InvalidHex(value@),
{
    if !is_hex_string(value, None) {
        return Err(GrauxError::InvalidHex(value.to_owned()));
    }
    let v = chars_of(value);
    let k = first_kept_digit(&v);
    let mut out: Vec<char> = Vec::new();
    out.push('0');
    out.push('x');
    if k == v.len() {
        out.push('0');
        assert(lower_digits(strip_zeros(v@.skip(2))).len() == 0);
        assert(out@ == quantity_text(value@));
        return Ok(text_of(&out));
    }
    let mut i: usize = k;
    while i < v.len()
        invariant
            k <= i <= v.len(),
            out@ == hex_prefix() + lower_digits(v@.subrange(k as int, i as int)),
        decreases v.len() - i,
    {
        out.push(to_lower_digit(v[i]));
        assert(lower_digits(v@.subrange(k as int, i + 1)) == lower_digits(
            v@.subrange(k as int, i as int),
        ).push(lower_digit(v@[i as int])));
        i += 1;
    }
    assert(v@.subrange(k as int, v.len() as int) == v@.skip(k as int));
    Ok(text_of(&out))
}

/// Appends the digits of `n` to `out`, most significant first.
fn push_digits(n: u64, out: &mut Vec<char>)
    requires
        n > 0,
    ensures
        final(out)@ == old(out)@ + nat_hex(n as nat),
    decreases n,
{
    if n >= 16 {
        push_digits(n / 16, out);
    }
    let d: u8 = (n % 16) as u8;
    out.push(digit_char(d));
    assert(nat_hex(n as nat) == nat_hex((n / 16) as nat).push(hex_char((n % 16) as nat)));
    if n < 16 {
        assert(nat_hex((n / 16) as nat) == Seq::<char>::empty());
    }
}

/// The quantity encoding of `n`: `0x0` for zero, else `0x` and the
/// hexadecimal digits of `n` in lower case without leading zeros.
pub fn hexlify(n: u64) -> (r: String)
    ensures
        r@ == quantity(n as nat),
{
    let mut out: Vec<char> = Vec::new();
    out.push('0');
    out.push('x');
    if n == 0 {
        out.push('0');
    } else {
        push_digits(n, &mut out);
    }
    text_of(&out)
}

} // verus!
