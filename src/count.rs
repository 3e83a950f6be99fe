//! Reading the byte count of a read request from a control payload.

use vstd::prelude::*;

verus! {

/// True for the bytes of the ASCII digits `0` to `9`.
pub open spec fn is_digit(b: u8) -> bool {
    0x30 <= b && b <= 0x39
}

/// The value of a run of decimal digits, most significant first.
pub open spec fn digits_value(s: Seq<u8>) -> nat
    decreases s.len(),
{
    if s.len() == 0 {
        0
    } else {
        digits_value(s.drop_last()) * 10 + (s.last() - 0x30) as nat
    }
}

/// The digits of a count: the text with one leading `+` taken off.
pub open spec fn unsigned_digits(s: Seq<u8>) -> Seq<u8> {
    if s.len() > 0 && s[0] == 0x2b {
        s.subrange(1, s.len() as int)
    } else {
        s
    }
}

/// The byte count that a control payload asks for: the payload is an
/// optional `+` and one or more ASCII digits, and the number fits a `usize`.
/// Anything else (a sign `-`, spaces, other text) asks for nothing.
pub open spec fn parse_count(s: Seq<u8>) -> Option<nat> {
    let d = unsigned_digits(s);
    if d.len() > 0 && (forall|i: int| 0 <= i < d.len() ==> is_digit(#[trigger] d[i]))
        && digits_value(d) <= usize::MAX {
        Some(digits_value(d))
    } else {
        None
    }
}

proof fn lemma_prefix_value_le(s: Seq<u8>, i: int)
    requires
        0 <= i <= s.len(),
        forall|k: int| 0 <= k < s.len() ==> is_digit(#[trigger] s[k]),
    ensures
        digits_value(s.subrange(0, i)) <= digits_value(s),
    decreases s.len(),
{
    if i < s.len() {
        let t = s.drop_last();
        assert(s.subrange(0, i) =~= t.subrange(0, i));
        lemma_prefix_value_le(t, i);
    } else {
        assert(s.subrange(0, i) =~= s);
    }
}

/// Reads a control payload as a byte count, as `usize`'s `from_str` does.
pub fn parse_count_bytes(s: &[u8]) -> (r: Option<usize>)
    ensures
        match parse_count(s@) {
            Some(n) => r == Some(n as usize),
            None => r.is_none(),
        },
{
    let start: usize = if s.len() > 0 && s[0] == 0x2b { 1 } else { 0 };
    let ghost d = unsigned_digits(s@);
    assert(d =~= s@.subrange(start as int, s@.len() as int));
    if start >= s.len() {
        return None;
    }
    let mut i: usize = start;
    let mut value: usize = 0;
    let mut overflow = false;
    while i < s.len()
        invariant
            start <= i <= s.len(),
            d == unsigned_digits(s@),
            d =~= s@.subrange(start as int, s@.len() as int),
            forall|k: int| 0 <= k < i - start ==> is_digit(#[trigger] d[k]),
            !overflow ==> value == digits_value(d.subrange(0, i - start)),
            overflow ==> digits_value(d.subrange(0, i - start)) > usize::MAX,
        decreases s.len() - i,
    {
        let b = s[i];
        if !(0x30 <= b && b <= 0x39) {
            assert(d[i - start] == s@[i as int]);
            assert(!is_digit(d[i - start]));
            return None;
        }
        let ghost pre = d.subrange(0, i - start);
        let ghost next = d.subrange(0, i + 1 - start);
        assert(next.drop_last() =~= pre);
        assert(next.last() == b);
        if !overflow {
            match value.checked_mul(10) {
                Some(v) => match v.checked_add((b - 0x30) as usize) {
                    Some(w) => {
                        value = w;
                    },
                    None => {
                        overflow = true;
                    },
                },
                None => {
                    overflow = true;
                },
            }
        } else {
            assert(digits_value(next) >= digits_value(pre) * 10) by (nonlinear_arith)
                requires digits_value(next) == digits_value(pre) * 10 + (b - 0x30) as nat;
        }
        i = i + 1;
    }
    assert(d.subrange(0, d.len() as int) =~= d);
    if overflow {
        None
    } else {
        Some(value)
    }
}

/// The decimal text of `n`, without sign or leading zeros.
pub open spec fn decimal_text(n: nat) -> Seq<u8>
    decreases n,
{
    if n < 10 {
        seq![(0x30 + n) as u8]
    } else {
        decimal_text(n / 10).push((0x30 + n % 10) as u8)
    }
}

proof fn lemma_decimal_text_digits(n: nat)
    ensures
        decimal_text(n).len() > 0,
        forall|i: int| 0 <= i < decimal_text(n).len() ==> is_digit(#[trigger] decimal_text(n)[i]),
        digits_value(decimal_text(n)) == n,
    decreases n,
{
    if n < 10 {
        let t = decimal_text(n);
        assert(t.drop_last() =~= Seq::<u8>::empty());
        assert(t.last() == 0x30 + n);
        assert(digits_value(t) == digits_value(t.drop_last()) * 10 + (t.last() - 0x30) as nat);
    } else {
        lemma_decimal_text_digits(n / 10);
        let t = decimal_text(n);
        assert(t.drop_last() =~= decimal_text(n / 10));
        assert(t.last() == 0x30 + n % 10);
        assert(digits_value(t) == digits_value(t.drop_last()) * 10 + (t.last() - 0x30) as nat);
        assert(n == (n / 10) * 10 + n % 10);
    }
}

/// Any count that fits a `usize`, written in decimal, reads back as itself.
pub proof fn decimal_count_round_trip(n: nat)
    requires
        n <= usize::MAX,
    ensures
        parse_count(decimal_text(n)) == Some(n),
{
    lemma_decimal_text_digits(n);
    assert(decimal_text(n)[0] != 0x2b);
    assert(unsigned_digits(decimal_text(n)) == decimal_text(n));
}

} // verus!
