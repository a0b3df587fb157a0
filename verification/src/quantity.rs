//! Quantities of any size: balances, fees and counts as the node reports
//! them, held without cutting them down to a machine integer.

use crate::error::{ErrorView, GrauxError};
use crate::hex::{
    all_hex_digits, digit_char, digit_number, first_kept_digit, hex_char, hex_nat,
    hex_prefix, is_hex_digit, is_hex_string, is_hex_text, lemma_canonical_digits,
    lemma_strip_keeps_value, lemma_strip_zeros, lower_digit, lower_digits, quantity,
};
use crate::text::{chars_of, text_of};
use vstd::prelude::*;

verus! {

/// The number that bytes denote, most significant byte first.
pub open spec fn be_nat(bytes: Seq<u8>) -> nat
    decreases bytes.len(),
{
    if bytes.len() == 0 {
        0
    } else {
        be_nat(bytes.drop_last()) * 256 + bytes.last() as nat
    }
}

/// The bytes of a number, most significant first, without a leading zero
/// byte; no byte at all for zero.
pub open spec fn nat_bytes(n: nat) -> Seq<u8>
    decreases n,
{
    if n == 0 {
        Seq::empty()
    } else {
        nat_bytes(n / 256).push((n % 256) as u8)
    }
}

/// The bytes of a number denote the number and start with no zero byte.
pub proof fn lemma_nat_bytes(n: nat)
    ensures
        be_nat(nat_bytes(n)) == n,
        n > 0 ==> nat_bytes(n).len() > 0 && nat_bytes(n)[0] != 0,
        n == 0 ==> nat_bytes(n).len() == 0,
    decreases n,
{
    if n > 0 {
        let q = n / 256;
        lemma_nat_bytes(q);
        let b = nat_bytes(n);
        assert(b == nat_bytes(q).push((n % 256) as u8));
        assert(b.drop_last() =~= nat_bytes(q));
        if q != 0 {
            assert(b[0] == nat_bytes(q)[0]);
        }
    }
}

/// A number is at least the number that any of its leading bytes denote.
pub proof fn lemma_prefix_is_smaller(bytes: Seq<u8>, k: int)
    requires
        0 <= k <= bytes.len(),
    ensures
        be_nat(bytes.take(k)) <= be_nat(bytes),
    decreases bytes.len() - k,
{
    if k < bytes.len() {
        lemma_prefix_is_smaller(bytes, k + 1);
        assert(bytes.take(k + 1).drop_last() =~= bytes.take(k));
    } else {
        assert(bytes.take(k) =~= bytes);
    }
}

/// The text of the failure for a response that is not a quantity.
pub open spec fn expected_quantity() -> Seq<char> {
    "expected a hexadecimal quantity"@
}

/// An unsigned number of any size.
#[derive(Debug, PartialEq, Eq)]
pub struct Quantity {
    bytes: Vec<u8>,
}

impl View for Quantity {
    type V = nat;

    closed spec fn view(&self) -> nat {
        be_nat(self.bytes@)
    }
}

impl Clone for Quantity {
    /// An independent copy of the number.
    fn clone(&self) -> (r: Quantity)
        ensures
            r@ == self@,
    {
        proof {
            use_type_invariant(self);
        }
        let mut bytes: Vec<u8> = Vec::new();
        let mut i: usize = 0;
        while i < self.bytes.len()
            invariant
                i <= self.bytes.len(),
                bytes@ == self.bytes@.take(i as int),
            decreases self.bytes.len() - i,
        {
            bytes.push(self.bytes[i]);
            i += 1;
        }
        assert(bytes@ == self.bytes@);
        Quantity { bytes }
    }
}

/// Appends the bytes of `n` to `out`, most significant first.
fn push_bytes(n: u64, out: &mut Vec<u8>)
    requires
        n > 0,
    ensures
        final(out)@ == old(out)@ + nat_bytes(n as nat),
    decreases n,
{
    if n >= 256 {
        push_bytes(n / 256, out);
    }
    let b: u8 = (n % 256) as u8;
    out.push(b);
    assert(nat_bytes(n as nat) == nat_bytes((n / 256) as nat).push((n % 256) as u8));
    if n < 256 {
        assert(nat_bytes((n / 256) as nat) == Seq::<u8>::empty());
    }
}

impl Quantity {
    /// The first byte is never zero, so every number has one form.
    #[verifier::type_invariant]
    spec fn canonical(&self) -> bool {
        self.bytes.len() > 0 ==> self.bytes[0] != 0
    }

    /// The number `n`.
    pub fn from_u64(n: u64) -> (q: Quantity)
        ensures
            q@ == n,
    {
        let mut bytes: Vec<u8> = Vec::new();
        if n > 0 {
            push_bytes(n, &mut bytes);
            assert(bytes@ == nat_bytes(n as nat));
        }
        proof {
            lemma_nat_bytes(n as nat);
        }
        Quantity { bytes }
    }

    /// The number as a machine integer where it fits; nothing where it does
    /// not. The number is never cut down.
    pub fn to_u64(&self) -> (r: Option<u64>)
        ensures
            match r {
                Some(n) => n == self@,
                None => self@ > u64::MAX,
            },
    {
        let mut acc: u64 = 0;
        let mut i: usize = 0;
        while i < self.bytes.len()
            invariant
                i <= self.bytes.len(),
                acc == be_nat(self.bytes@.take(i as int)),
            decreases self.bytes.len() - i,
        {
            let b: u64 = self.bytes[i] as u64;
            proof {
                assert(self.bytes@.take(i + 1).drop_last() =~= self.bytes@.take(i as int));
                lemma_prefix_is_smaller(self.bytes@, i + 1);
            }
            if acc > (u64::MAX - b) / 256 {
                return None;
            }
            acc = acc * 256 + b;
            i += 1;
        }
        assert(self.bytes@.take(i as int) =~= self.bytes@);
        Some(acc)
    }

    /// Whether the number is zero.
    pub fn is_zero(&self) -> (r: bool)
        ensures
            r == (self@ == 0),
    {
        proof {
            use_type_invariant(self);
            if self.bytes.len() > 0 {
                lemma_prefix_is_smaller(self.bytes@, 1);
                assert(self.bytes@.take(1).drop_last() =~= Seq::<u8>::empty());
                assert(be_nat(self.bytes@.take(1).drop_last()) == 0);
            }
        }
        self.bytes.len() == 0
    }

    /// The number that hexadecimal text denotes, however long the text is.
    /// Text that is not hexadecimal is refused as a response of the wrong
    /// shape.
    pub fn from_hex(text: &str) -> (r: Result<Quantity, GrauxError>)
        ensures
            is_hex_text(text@) ==> r is Ok && r->Ok_0@ == hex_nat(text@.skip(2)),
            !is_hex_text(text@) ==> r is Err && r->Err_0@ == ErrorView::Decode(expected_quantity()),
    {
        if !is_hex_string(text, None) {
            return Err(GrauxError::Decode("expected a hexadecimal quantity".to_owned()));
        }
        let v = chars_of(text);
        let k = first_kept_digit(&v);
        let ghost digits = v@.skip(2);
        let ghost kept = v@.skip(k as int);
        proof {
            lemma_strip_keeps_value(digits);
            lemma_strip_zeros(digits);
            assert forall|j: int| k <= j < v.len() implies is_hex_digit(#[trigger] v@[j]) by {
                assert(v@[j] == digits[j - 2]);
            }
        }
        let mut bytes: Vec<u8> = Vec::new();
        if k == v.len() || (k + 1 == v.len() && v[k] == '0') {
            proof {
                if k < v.len() {
                    assert(kept.drop_last().len() == 0);
                    assert(hex_nat(kept.drop_last()) == 0);
                    assert(kept.last() == '0');
                } else {
                    assert(kept.len() == 0);
                }
                assert(hex_nat(kept) == 0);
            }
            return Ok(Quantity { bytes });
        }
        assert(v@[k as int] != '0') by {
            assert(kept[0] == v@[k as int]);
        }
        let mut i: usize = k;
        if (v.len() - k) % 2 == 1 {
            bytes.push(digit_number(v[k]));
            i = k + 1;
            proof {
                let one = v@.subrange(k as int, k + 1);
                assert(one.drop_last().len() == 0);
                assert(hex_nat(one.drop_last()) == 0);
                assert(one.last() == v@[k as int]);
                assert(bytes@.drop_last().len() == 0);
                assert(be_nat(bytes@.drop_last()) == 0);
            }
        } else {
            assert(v@.subrange(k as int, k as int).len() == 0);
        }
        while i < v.len()
            invariant
                k <= i <= v.len(),
                (v.len() - i) % 2 == 0,
                forall|j: int| k <= j < v.len() ==> is_hex_digit(#[trigger] v@[j]),
                v@[k as int] != '0',
                be_nat(bytes@) == hex_nat(v@.subrange(k as int, i as int)),
                i > k ==> bytes.len() > 0 && bytes@[0] != 0,
                i == k ==> bytes.len() == 0,
            decreases v.len() - i,
        {
            let hi: u8 = digit_number(v[i]);
            let lo: u8 = digit_number(v[i + 1]);
            let ghost before = bytes@;
            bytes.push(hi * 16 + lo);
            proof {
                let a = v@.subrange(k as int, i as int);
                let b = v@.subrange(k as int, i + 1);
                let c = v@.subrange(k as int, i + 2);
                assert(c.drop_last() =~= b);
                assert(b.drop_last() =~= a);
                assert(c.last() == v@[i + 1]);
                assert(b.last() == v@[i as int]);
                assert(bytes@.drop_last() =~= before);
                assert(hex_nat(b) == hex_nat(a) * 16 + hi);
                assert(hex_nat(c) == hex_nat(b) * 16 + lo);
                if i == k {
                    assert(hi != 0);
                }
            }
            i += 2;
        }
        proof {
            assert(v@.subrange(k as int, v.len() as int) =~= kept);
        }
        Ok(Quantity { bytes })
    }

    /// The quantity encoding of the number: `0x0` for zero, else `0x` and
    /// the digits in lower case without leading zeros.
    pub fn to_hex(&self) -> (r: String)
        ensures
            r@ == quantity(self@),
    {
        proof {
            use_type_invariant(self);
        }
        let mut out: Vec<char> = Vec::new();
        out.push('0');
        out.push('x');
        if self.bytes.len() == 0 {
            out.push('0');
            return text_of(&out);
        }
        let first: u8 = self.bytes[0];
        if first / 16 != 0 {
            out.push(digit_char(first / 16));
        }
        out.push(digit_char(first % 16));
        proof {
            let d = out@.skip(2);
            assert(self.bytes@.take(1).drop_last().len() == 0);
            assert(be_nat(self.bytes@.take(1).drop_last()) == 0);
            assert(be_nat(self.bytes@.take(1)) == first);
            if first / 16 != 0 {
                assert(d =~= seq![hex_char((first / 16) as nat), hex_char((first % 16) as nat)]);
                assert(d.drop_last() =~= seq![hex_char((first / 16) as nat)]);
                assert(d.drop_last().drop_last().len() == 0);
                assert(hex_nat(d.drop_last().drop_last()) == 0);
                assert(hex_nat(d.drop_last()) == first / 16);
                assert(hex_nat(d) == first);
            } else {
                assert(d =~= seq![hex_char((first % 16) as nat)]);
                assert(d.drop_last().len() == 0);
                assert(hex_nat(d.drop_last()) == 0);
                assert(hex_nat(d) == first);
            }
            assert(lower_digits(d) =~= d);
        }
        let mut i: usize = 1;
        while i < self.bytes.len()
            invariant
                1 <= i <= self.bytes.len(),
                out@.len() > 2,
                out@.subrange(0, 2) == hex_prefix(),
                out@[2] != '0',
                all_hex_digits(out@.skip(2)),
                lower_digits(out@.skip(2)) == out@.skip(2),
                hex_nat(out@.skip(2)) == be_nat(self.bytes@.take(i as int)),
            decreases self.bytes.len() - i,
        {
            let b: u8 = self.bytes[i];
            let ghost before = out@.skip(2);
            out.push(digit_char(b / 16));
            out.push(digit_char(b % 16));
            proof {
                let d = out@.skip(2);
                let c1 = hex_char((b / 16) as nat);
                let c2 = hex_char((b % 16) as nat);
                assert(d =~= before.push(c1).push(c2));
                assert(d.drop_last() =~= before.push(c1));
                assert(d.drop_last().drop_last() =~= before);
                assert(hex_nat(d.drop_last()) == hex_nat(before) * 16 + b / 16);
                assert(hex_nat(d) == hex_nat(d.drop_last()) * 16 + b % 16);
                assert(self.bytes@.take(i + 1).drop_last() =~= self.bytes@.take(i as int));
                assert(lower_digits(d) =~= d) by {
                    assert forall|j: int| 0 <= j < d.len() implies lower_digit(d[j]) == d[j] by {
                        if j < before.len() {
                            assert(lower_digits(before)[j] == lower_digit(before[j]));
                        }
                    }
                }
                assert(out@.subrange(0, 2) =~= hex_prefix());
            }
            i += 1;
        }
        proof {
            let d = out@.skip(2);
            assert(self.bytes@.take(i as int) =~= self.bytes@);
            lemma_canonical_digits(d);
            assert(out@ =~= hex_prefix() + d);
        }
        text_of(&out)
    }
}

} // verus!
