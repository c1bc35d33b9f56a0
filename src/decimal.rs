//! Decimal text of unsigned integers, as used for port numbers.
use vstd::prelude::*;

verus! {

pub open spec fn is_digit(b: u8) -> bool {
    48u8 <= b <= 57u8
}

/// The canonical decimal text of `n`: no sign, no leading zero.
pub open spec fn dec(n: nat) -> Seq<u8>
    decreases n,
{
    if n < 10 {
        seq![(48 + n) as u8]
    } else {
        dec(n / 10).push((48 + n % 10) as u8)
    }
}

/// The number that a run of decimal digits denotes.
pub open spec fn digits_value(s: Seq<u8>) -> nat
    decreases s.len(),
{
    if s.len() == 0 {
        0
    } else {
        digits_value(s.drop_last()) * 10 + (s.last() - 48) as nat
    }
}

/// A non-empty run of digits with no superfluous leading zero.
pub open spec fn is_canonical(s: Seq<u8>) -> bool {
    &&& s.len() >= 1
    &&& forall|i: int| 0 <= i < s.len() ==> is_digit(#[trigger] s[i])
    &&& (s.len() == 1 || s[0] != 48u8)
}

/// The decimal text of `n` is canonical and reads back as `n`.
pub proof fn lemma_dec_round_trip(n: nat)
    ensures
        is_canonical(dec(n)),
        digits_value(dec(n)) == n,
        n >= 1 ==> dec(n)[0] != 48u8,
    decreases n,
{
    let d = dec(n);
    if n < 10 {
        assert(d.drop_last() =~= Seq::<u8>::empty());
        assert(digits_value(d) == digits_value(d.drop_last()) * 10 + (d.last() - 48) as nat);
    } else {
        lemma_dec_round_trip(n / 10);
        let p = dec(n / 10);
        assert(d.drop_last() =~= p);
        assert(d[0] == p[0]);
        assert(forall|i: int| 0 <= i < p.len() ==> d[i] == p[i]);
        assert(digits_value(d) == digits_value(p) * 10 + (d.last() - 48) as nat);
        assert(n == (n / 10) * 10 + n % 10);
    }
}

/// A run of digits that starts with a non-zero digit reads as a positive number.
proof fn lemma_leading_nonzero_value(s: Seq<u8>)
    requires
        s.len() >= 1,
        forall|i: int| 0 <= i < s.len() ==> is_digit(#[trigger] s[i]),
        s[0] != 48u8,
    ensures
        digits_value(s) >= 1,
    decreases s.len(),
{
    if s.len() > 1 {
        let init = s.drop_last();
        assert(forall|i: int| 0 <= i < init.len() ==> init[i] == s[i]);
        lemma_leading_nonzero_value(init);
    }
}

/// Every canonical run of digits is the decimal text of the number it reads as.
pub proof fn lemma_canonical_is_dec(s: Seq<u8>)
    requires
        is_canonical(s),
    ensures
        dec(digits_value(s)) == s,
    decreases s.len(),
{
    if s.len() == 1 {
        assert(dec(digits_value(s)) =~= s);
    } else {
        let init = s.drop_last();
        assert(is_canonical(init)) by {
            assert(forall|i: int| 0 <= i < init.len() ==> init[i] == s[i]);
        }
        lemma_canonical_is_dec(init);
        lemma_leading_nonzero_value(init);
        assert(dec(digits_value(s)) =~= s);
    }
}

/// The decimal text of `n`.
pub fn render_decimal(n: u16) -> (r: Vec<u8>)
    ensures
        r@ == dec(n as nat),
    decreases n,
{
    if n < 10 {
        vec![48u8 + n as u8]
    } else {
        let mut r = render_decimal(n / 10);
        r.push(48u8 + (n % 10) as u8);
        r
    }
}

} // verus!
