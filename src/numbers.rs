//! Unsigned numbers written in decimal or hexadecimal ASCII digits.
use crate::ascii::{DIGIT_0, DIGIT_9, LOWER_A, LOWER_F, PLUS, UPPER_A, UPPER_F};
use vstd::prelude::*;

verus! {

pub open spec fn is_dec_digit(b: u8) -> bool {
    DIGIT_0 <= b <= DIGIT_9
}

pub open spec fn is_hex_digit(b: u8) -> bool {
    (DIGIT_0 <= b <= DIGIT_9) || (LOWER_A <= b <= LOWER_F) || (UPPER_A <= b <= UPPER_F)
}

/// A digit of the given radix (10 or 16).
pub open spec fn is_digit_of(b: u8, radix: nat) -> bool {
    if radix == 16 {
        is_hex_digit(b)
    } else {
        is_dec_digit(b)
    }
}

pub open spec fn digit_value(b: u8) -> nat {
    if DIGIT_0 <= b <= DIGIT_9 {
        (b - DIGIT_0) as nat
    } else if LOWER_A <= b <= LOWER_F {
        (b - LOWER_A + 10) as nat
    } else {
        (b - UPPER_A + 10) as nat
    }
}

pub open spec fn all_digits(s: Seq<u8>, radix: nat) -> bool {
    forall|i: int| 0 <= i < s.len() ==> is_digit_of(#[trigger] s[i], radix)
}

/// The value of a string of digits, most significant first.
pub open spec fn digits_value(s: Seq<u8>, radix: nat) -> nat
    decreases s.len(),
{
    if s.len() == 0 {
        0
    } else {
        digits_value(s.drop_last(), radix) * radix + digit_value(s.last())
    }
}

/// The digits of an unsigned number's text: the text without a leading `+`.
pub open spec fn unsigned_digits(s: Seq<u8>) -> Seq<u8> {
    if s.len() > 0 && s[0] == PLUS {
        s.drop_first()
    } else {
        s
    }
}

/// The `usize` that the text `s` denotes in the radix (10 or 16), as Rust's
/// integer parsing reads it: an optional `+`, then one or more digits, with a
/// value that fits.
pub open spec fn parse_unsigned(s: Seq<u8>, radix: nat) -> Option<usize> {
    let d = unsigned_digits(s);
    if d.len() > 0 && all_digits(d, radix) && digits_value(d, radix) <= usize::MAX {
        Some(digits_value(d, radix) as usize)
    } else {
        None
    }
}

pub proof fn lemma_digits_prefix_le(s: Seq<u8>, k: int, radix: nat)
    requires
        0 <= k <= s.len(),
        radix >= 1,
    ensures
        digits_value(s.subrange(0, k), radix) <= digits_value(s, radix),
    decreases s.len() - k,
{
    if k < s.len() {
        lemma_digits_prefix_le(s, k + 1, radix);
        let p = s.subrange(0, k + 1);
        assert(p.drop_last() =~= s.subrange(0, k));
        assert(digits_value(p, radix) == digits_value(s.subrange(0, k), radix) * radix
            + digit_value(p.last()));
        assert(digits_value(s.subrange(0, k), radix) * radix >= digits_value(
            s.subrange(0, k),
            radix,
        )) by (nonlinear_arith)
            requires
                radix >= 1,
        ;
    } else {
        assert(s.subrange(0, k) =~= s);
    }
}

fn digit_of(b: u8, radix: usize) -> (r: Option<usize>)
    requires
        radix == 10 || radix == 16,
    ensures
        r.is_some() == is_digit_of(b, radix as nat),
        r.is_some() ==> r.unwrap() == digit_value(b) && r.unwrap() < radix,
{
    if DIGIT_0 <= b && b <= DIGIT_9 {
        Some((b - DIGIT_0) as usize)
    } else if radix == 16 && LOWER_A <= b && b <= LOWER_F {
        Some((b - LOWER_A + 10) as usize)
    } else if radix == 16 && UPPER_A <= b && b <= UPPER_F {
        Some((b - UPPER_A + 10) as usize)
    } else {
        None
    }
}

/// Reads the unsigned number written in `s[start..end]` in the radix (10 or
/// 16), as Rust's `usize` parsing does.
pub fn parse_unsigned_at(s: &[u8], start: usize, end: usize, radix: usize) -> (r: Option<usize>)
    requires
        start <= end <= s@.len(),
        radix == 10 || radix == 16,
    ensures
        r == parse_unsigned(s@.subrange(start as int, end as int), radix as nat),
{
    let ghost t = s@.subrange(start as int, end as int);
    let mut i: usize = start;
    if start < end && s[start] == PLUS {
        i = start + 1;
    }
    let ghost d = s@.subrange(i as int, end as int);
    assert(d =~= unsigned_digits(t));
    if i == end {
        return None;
    }
    let mut acc: usize = 0;
    let first = i;
    while i < end
        invariant
            start <= first <= i <= end <= s@.len(),
            t == s@.subrange(start as int, end as int),
            radix == 10 || radix == 16,
            d == s@.subrange(first as int, end as int),
            d == unsigned_digits(t),
            d.len() > 0,
            all_digits(s@.subrange(first as int, i as int), radix as nat),
            acc == digits_value(s@.subrange(first as int, i as int), radix as nat),
        decreases end - i,
    {
        let dv = match digit_of(s[i], radix) {
            Some(v) => v,
            None => {
                assert(d[i - first] == s@[i as int]);
                assert(!is_digit_of(d[i - first], radix as nat));
                assert(!all_digits(d, radix as nat));
                return None;
            },
        };
        let ghost p = s@.subrange(first as int, i as int + 1);
        assert(p.drop_last() =~= s@.subrange(first as int, i as int));
        assert(d.subrange(0, i - first + 1) =~= p);
        assert(p.last() == s@[i as int]);
        assert(digits_value(p, radix as nat) == acc * radix + dv);
        let m = acc.checked_mul(radix);
        let next = match m {
            Some(mv) => mv.checked_add(dv),
            None => None,
        };
        match next {
            Some(v) => {
                acc = v;
            },
            None => {
                proof {
                    lemma_digits_prefix_le(d, i - first + 1, radix as nat);
                    assert(digits_value(p, radix as nat) > usize::MAX);
                    assert(digits_value(d, radix as nat) > usize::MAX);
                }
                return None;
            },
        }
        i = i + 1;
    }
    assert(d =~= s@.subrange(first as int, i as int));
    Some(acc)
}

/// The digit character of the value `d` (below 16), upper-case for hexadecimal.
pub open spec fn digit_char(d: nat) -> u8 {
    if d < 10 {
        (DIGIT_0 + d) as u8
    } else {
        (UPPER_A + d - 10) as u8
    }
}

/// The shortest text of `n` in the radix (10 or 16), most significant digit
/// first, upper-case.
pub open spec fn radix_text(n: nat, radix: nat) -> Seq<u8>
    decreases n via radix_text_decreases
{
    if radix < 2 || n < radix {
        seq![digit_char(n)]
    } else {
        radix_text(n / radix, radix).push(digit_char(n % radix))
    }
}

#[via_fn]
proof fn radix_text_decreases(n: nat, radix: nat) {
    if !(radix < 2 || n < radix) {
        assert(n / radix < n) by (nonlinear_arith)
            requires
                radix >= 2,
                n >= radix,
        ;
    }
}

proof fn lemma_digit_char(d: nat, radix: nat)
    requires
        d < radix,
        radix == 10 || radix == 16,
    ensures
        digit_value(digit_char(d)) == d,
        is_digit_of(digit_char(d), radix),
        digit_char(d) != PLUS,
{
}

/// Appends the text of `n` in the radix (10 or 16) to `out`.
pub fn write_radix(n: usize, radix: usize, out: &mut Vec<u8>)
    requires
        radix == 10 || radix == 16,
    ensures
        final(out)@ == old(out)@ + radix_text(n as nat, radix as nat),
    decreases n,
{
    if n >= radix {
        proof {
            assert(n / radix < n) by (nonlinear_arith)
                requires
                    radix >= 2,
                    n >= radix,
            ;
        }
        write_radix(n / radix, radix, out);
    }
    let d = n % radix;
    let c: u8 = if d < 10 {
        DIGIT_0 + d as u8
    } else {
        UPPER_A + (d - 10) as u8
    };
    out.push(c);
    assert(out@ =~= old(out)@ + radix_text(n as nat, radix as nat));
}

/// The decimal text of `n`.
pub fn decimal(n: usize) -> (r: Vec<u8>)
    ensures
        r@ == radix_text(n as nat, 10),
{
    let mut v: Vec<u8> = Vec::new();
    write_radix(n, 10, &mut v);
    assert(v@ =~= radix_text(n as nat, 10));
    v
}

/// The text of a number reads back as the number.
pub proof fn lemma_radix_text_parses(n: nat, radix: nat)
    requires
        radix == 10 || radix == 16,
    ensures
        radix_text(n, radix).len() > 0,
        radix_text(n, radix)[0] != PLUS,
        all_digits(radix_text(n, radix), radix),
        digits_value(radix_text(n, radix), radix) == n,
    decreases n,
{
    let t = radix_text(n, radix);
    lemma_digit_char(n % radix, radix);
    if n < radix {
        assert(t.drop_last() =~= Seq::<u8>::empty());
        assert(digits_value(t.drop_last(), radix) == 0);
        assert(t.last() == digit_char(n));
        assert(digits_value(t, radix) == 0 * radix + n);
    } else {
        lemma_radix_text_parses(n / radix, radix);
        let p = radix_text(n / radix, radix);
        assert(t.drop_last() =~= p);
        assert(t[0] == p[0]);
        assert(t.last() == digit_char(n % radix));
        assert(digits_value(t, radix) == digits_value(p, radix) * radix + n % radix);
        assert forall|i: int| 0 <= i < t.len() implies is_digit_of(#[trigger] t[i], radix) by {
            if i < p.len() {
                assert(t[i] == p[i]);
            }
        }
        assert(n == (n / radix) * radix + n % radix) by (nonlinear_arith)
            requires
                radix > 0,
        ;
    }
}

} // verus!
