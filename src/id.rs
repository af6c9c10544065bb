//! Connection identifiers and the generator that hands them out.
use crate::numbers::{radix_text, write_radix};
use crate::text::{ascii_chars, ascii_string};
use vstd::prelude::*;

verus! {

/// The identifier of a connection.
#[derive(Copy, Clone, Default, PartialEq, Eq, Structural, Hash)]
pub struct Id(pub usize);

/// The bytes of `0x` followed by the upper-case hexadecimal digits of `n`.
pub open spec fn hex_id_text(n: usize) -> Seq<u8> {
    seq![0x30u8, 0x78u8] + radix_text(n as nat, 16)
}

proof fn lemma_radix_text_ascii(n: nat, radix: nat)
    requires
        radix == 10 || radix == 16,
    ensures
        forall|k: int| 0 <= k < radix_text(n, radix).len() ==> #[trigger] radix_text(n, radix)[k] < 0x80u8,
    decreases n,
{
    if n >= radix {
        lemma_radix_text_ascii(n / radix, radix);
        let p = radix_text(n / radix, radix);
        let t = radix_text(n, radix);
        assert forall|k: int| 0 <= k < t.len() implies #[trigger] t[k] < 0x80u8 by {
            if k < p.len() {
                assert(t[k] == p[k]);
            }
        }
    }
}

pub(crate) proof fn lemma_hex_id_ascii(n: usize)
    ensures
        forall|k: int| 0 <= k < hex_id_text(n).len() ==> #[trigger] hex_id_text(n)[k] < 0x80u8,
{
    lemma_radix_text_ascii(n as nat, 16);
    assert forall|k: int| 0 <= k < hex_id_text(n).len() implies #[trigger] hex_id_text(n)[k] < 0x80u8 by {
        if k >= 2 {
            assert(hex_id_text(n)[k] == radix_text(n as nat, 16)[k - 2]);
        }
    }
}

/// Appends `0x` and the upper-case hexadecimal digits of `n` to `out`.
pub fn write_hex_id(n: usize, out: &mut Vec<u8>)
    ensures
        final(out)@ == old(out)@ + hex_id_text(n),
{
    out.push(0x30u8);
    out.push(0x78u8);
    write_radix(n, 16, out);
    assert(out@ =~= old(out)@ + hex_id_text(n));
}

pub(crate) fn all_ascii_string(v: Vec<u8>) -> (r: String)
    requires
        forall|k: int| 0 <= k < v@.len() ==> #[trigger] v@[k] < 0x80u8,
    ensures
        r@ == ascii_chars(v@),
{
    ascii_string(v)
}

impl Id {
    /// The identifier as `0x` and upper-case hexadecimal digits.
    pub fn to_string(&self) -> (r: String)
        ensures
            r@ == ascii_chars(hex_id_text(self.0)),
    {
        let mut v: Vec<u8> = Vec::new();
        write_hex_id(self.0, &mut v);
        proof {
            lemma_hex_id_ascii(self.0);
            assert(v@ =~= hex_id_text(self.0));
        }
        all_ascii_string(v)
    }

    /// The identifier as `Id(0x..)`, with upper-case hexadecimal digits.
    pub fn debug_string(&self) -> (r: String)
        ensures
            r@ == ascii_chars(seq![0x49u8, 0x64u8, 0x28u8] + hex_id_text(self.0) + seq![0x29u8]),
    {
        let mut v: Vec<u8> = vec![0x49u8, 0x64u8, 0x28u8];
        write_hex_id(self.0, &mut v);
        v.push(0x29u8);
        proof {
            lemma_hex_id_ascii(self.0);
            let t = seq![0x49u8, 0x64u8, 0x28u8] + hex_id_text(self.0) + seq![0x29u8];
            assert(v@ =~= t);
            assert forall|k: int| 0 <= k < t.len() implies #[trigger] t[k] < 0x80u8 by {
                if 3 <= k < t.len() - 1 {
                    assert(t[k] == hex_id_text(self.0)[k - 3]);
                }
            }
        }
        all_ascii_string(v)
    }
}

/// Hands out consecutive connection identifiers, starting from a seed.
pub struct IdGenerator {
    gen: usize,
    seed: Ghost<usize>,
    issued: Ghost<nat>,
}

impl IdGenerator {
    /// The first identifier handed out.
    pub closed spec fn seed(&self) -> usize {
        self.seed@
    }

    /// How many identifiers were handed out.
    pub closed spec fn issued(&self) -> nat {
        self.issued@
    }

    /// The next identifier is the seed plus the number handed out, wrapping
    /// at the width of `usize`.
    pub closed spec fn wf(&self) -> bool {
        self.gen as int == (self.seed@ + self.issued@) % (usize::MAX as int + 1)
    }

    /// A generator whose first identifier is 1.
    pub fn new() -> (r: IdGenerator)
        ensures
            r.wf(),
            r.seed() == 1,
            r.issued() == 0,
    {
        proof {
            vstd::arithmetic::div_mod::lemma_small_mod(1, usize::MAX as nat + 1);
        }
        IdGenerator { gen: 1, seed: Ghost(1), issued: Ghost(0) }
    }

    /// A generator whose first identifier is `s`.
    pub fn with_seed(s: usize) -> (r: IdGenerator)
        ensures
            r.wf(),
            r.seed() == s,
            r.issued() == 0,
    {
        proof {
            vstd::arithmetic::div_mod::lemma_small_mod(s as nat, usize::MAX as nat + 1);
        }
        IdGenerator { gen: s, seed: Ghost(s), issued: Ghost(0) }
    }

    /// Hands out the next identifier: the one handed out `N`-th is
    /// `N + seed - 1`, modulo the width of `usize`.
    pub fn next(&mut self) -> (r: Id)
        requires
            old(self).wf(),
        ensures
            final(self).wf(),
            final(self).seed() == old(self).seed(),
            final(self).issued() == old(self).issued() + 1,
            r.0 as int == (old(self).seed() + old(self).issued()) % (usize::MAX as int + 1),
    {
        let r = Id(self.gen);
        proof {
            let m = usize::MAX as int + 1;
            let s = self.seed@ + self.issued@;
            assert((s + 1) % m == if s % m + 1 == m { 0 } else { s % m + 1 }) by (nonlinear_arith)
                requires
                    m > 0,
                    s >= 0,
            ;
        }
        self.gen = self.gen.wrapping_add(1);
        self.issued = Ghost(self.issued@ + 1);
        r
    }
}

impl Default for IdGenerator {
    fn default() -> (r: IdGenerator)
        ensures
            r.wf(),
            r.seed() == 1,
            r.issued() == 0,
    {
        IdGenerator::new()
    }
}

} // verus!
