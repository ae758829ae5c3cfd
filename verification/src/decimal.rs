use vstd::prelude::*;

verus! {

/// The ASCII byte of the decimal digit `d` (for `d < 10`).
pub open spec fn digit_byte(d: nat) -> u8 {
    (48 + d) as u8
}

/// The shortest decimal spelling of `n` in ASCII digits, most significant first.
pub open spec fn decimal(n: nat) -> Seq<u8>
    decreases n,
{
    if n < 10 {
        seq![digit_byte(n)]
    } else {
        decimal(n / 10).push(digit_byte(n % 10))
    }
}

/// Whether `b` is an ASCII digit.
pub open spec fn is_digit(b: u8) -> bool {
    48 <= b <= 57
}

/// The number that a string of ASCII digits spells in base ten.
pub open spec fn digits_value(s: Seq<u8>) -> nat
    decreases s.len(),
{
    if s.len() == 0 {
        0
    } else {
        digits_value(s.drop_last()) * 10 + (s.last() - 48) as nat
    }
}

/// Reading `decimal(n)` back gives `n`; the spelling is made of digits only,
/// is never empty, and has no leading zero unless it is `"0"`.
pub proof fn lemma_decimal_round_trip(n: nat)
    ensures
        digits_value(decimal(n)) == n,
        decimal(n).len() >= 1,
        forall|i: int| 0 <= i < decimal(n).len() ==> is_digit(#[trigger] decimal(n)[i]),
        decimal(n)[0] == 48u8 ==> n == 0,
    decreases n,
{
    if n >= 10 {
        lemma_decimal_round_trip(n / 10);
        let s = decimal(n);
        assert(s.drop_last() == decimal(n / 10));
        assert(s[0] == decimal(n / 10)[0]);
        assert(s.last() == digit_byte(n % 10));
        assert(digit_byte(n % 10) == 48 + n % 10);
        assert((n / 10) * 10 + n % 10 == n);
    } else {
        assert(digit_byte(n) == 48 + n);
        assert(decimal(n).drop_last() =~= Seq::<u8>::empty());
        assert(digits_value(Seq::<u8>::empty()) == 0);
    }
}

/// Spells `n` in decimal ASCII digits.
pub fn decimal_bytes(n: usize) -> (r: Vec<u8>)
    ensures
        r@ == decimal(n as nat),
        digits_value(r@) == n,
        forall|i: int| 0 <= i < r@.len() ==> is_digit(#[trigger] r@[i]),
    decreases n,
{
    proof {
        lemma_decimal_round_trip(n as nat);
    }
    if n < 10 {
        let d: u8 = n as u8;
        let mut v: Vec<u8> = Vec::new();
        v.push(48 + d);
        v
    } else {
        let mut v = decimal_bytes(n / 10);
        let d: u8 = (n % 10) as u8;
        v.push(48 + d);
        v
    }
}

} // verus!
