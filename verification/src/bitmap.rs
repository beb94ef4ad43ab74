//! The replay-protection bitmap: per origin domain, per page of 256
//! nonces, a 256-bit word whose bit `nonce % 256` records execution of
//! that nonce.

use vstd::prelude::*;
use vstd::hash_map::HashMapWithView;
use vstd::arithmetic::div_mod::{lemma_fundamental_div_mod, lemma_fundamental_div_mod_converse};

verus! {

broadcast use vstd::std_specs::hash::group_hash_axioms;

/// One page of 256 bits, four 64-bit limbs, least significant first.
#[derive(Clone, Copy, Debug)]
pub struct Word256 {
    pub limbs: [u64; 4],
}

/// Bit `b` of the word, for `0 <= b < 256`.
pub open spec fn word_bit(w: Word256, b: int) -> bool {
    (w.limbs@[b / 64] >> ((b % 64) as u64)) & 1u64 == 1u64
}

/// The page key combining an origin domain and a nonce page:
/// `domain * 2^56 + nonce / 256`. The page index is below `2^56`,
/// so distinct (domain, page) pairs give distinct keys.
pub open spec fn page_key(domain: u8, nonce: u64) -> u64 {
    (domain * 0x100_0000_0000_0000 + nonce / 256) as u64
}

proof fn lemma_page_key_inverts(domain: u8, nonce: u64)
    ensures
        page_key(domain, nonce) / 0x100_0000_0000_0000 == domain,
        page_key(domain, nonce) % 0x100_0000_0000_0000 == nonce / 256,
{
    lemma_fundamental_div_mod_converse(
        page_key(domain, nonce) as int,
        0x100_0000_0000_0000,
        domain as int,
        (nonce / 256) as int,
    );
}

/// Distinct (domain, nonce page) pairs have distinct page keys.
proof fn lemma_page_key_injective(d1: u8, n1: u64, d2: u8, n2: u64)
    requires
        page_key(d1, n1) == page_key(d2, n2),
    ensures
        d1 == d2,
        n1 / 256 == n2 / 256,
{
    lemma_page_key_inverts(d1, n1);
    lemma_page_key_inverts(d2, n2);
}

/// Same page and same offset means the same nonce.
proof fn lemma_same_page_same_offset(n1: u64, n2: u64)
    requires
        n1 / 256 == n2 / 256,
        n1 % 256 == n2 % 256,
    ensures
        n1 == n2,
{
    lemma_fundamental_div_mod(n1 as int, 256);
    lemma_fundamental_div_mod(n2 as int, 256);
}

/// Bit `o` of `x | (1 << i)` is set exactly at `i` and where `x` had it.
proof fn lemma_u64_or_bit()
    ensures
        forall|x: u64, i: u64, o: u64|
            i < 64 && o < 64 ==> ((x | (1u64 << i)) >> o) & 1u64 == (if i == o {
                1u64
            } else {
                (x >> o) & 1u64
            }),
{
    assert forall|x: u64, i: u64, o: u64|
        i < 64 && o < 64 implies ((x | (1u64 << i)) >> o) & 1u64 == (if i == o {
        1u64
    } else {
        (x >> o) & 1u64
    }) by {
        assert(i < 64 && o < 64 ==> ((x | (1u64 << i)) >> o) & 1u64 == (if i == o {
            1u64
        } else {
            (x >> o) & 1u64
        })) by (bit_vector);
    }
}

/// Bit `o` of `x & !(1 << i)` is clear at `i` and elsewhere as in `x`.
proof fn lemma_u64_clear_bit()
    ensures
        forall|x: u64, i: u64, o: u64|
            i < 64 && o < 64 ==> ((x & !(1u64 << i)) >> o) & 1u64 == (if i == o {
                0u64
            } else {
                (x >> o) & 1u64
            }),
{
    assert forall|x: u64, i: u64, o: u64|
        i < 64 && o < 64 implies ((x & !(1u64 << i)) >> o) & 1u64 == (if i == o {
        0u64
    } else {
        (x >> o) & 1u64
    }) by {
        assert(i < 64 && o < 64 ==> ((x & !(1u64 << i)) >> o) & 1u64 == (if i == o {
            0u64
        } else {
            (x >> o) & 1u64
        })) by (bit_vector);
    }
}

impl Word256 {
    /// The all-clear word.
    pub fn zero() -> (r: Word256)
        ensures
            forall|b: int| 0 <= b < 256 ==> !word_bit(r, b),
    {
        let r = Word256 { limbs: [0u64; 4] };
        proof {
            assert forall|b: int| 0 <= b < 256 implies !word_bit(r, b) by {
                let o = (b % 64) as u64;
                assert((0u64 >> o) & 1u64 == 0u64) by (bit_vector);
            }
        }
        r
    }

    /// Reads bit `b`.
    pub fn get_bit(&self, b: usize) -> (r: bool)
        requires
            b < 256,
        ensures
            r == word_bit(*self, b as int),
    {
        let idx = b / 64;
        let off = (b % 64) as u64;
        proof {
            lemma_fundamental_div_mod(b as int, 64);
        }
        (self.limbs[idx] >> off) & 1u64 == 1u64
    }

    /// The word with bit `b` set and every other bit as before.
    pub fn with_bit_set(&self, b: usize) -> (r: Word256)
        requires
            b < 256,
        ensures
            forall|j: int| 0 <= j < 256 ==> word_bit(r, j) == (j == b || word_bit(*self, j)),
    {
        let idx = b / 64;
        let off = (b % 64) as u64;
        let updated = self.limbs[idx] | (1u64 << off);
        let r = Word256 {
            limbs: [
                if idx == 0 { updated } else { self.limbs[0] },
                if idx == 1 { updated } else { self.limbs[1] },
                if idx == 2 { updated } else { self.limbs[2] },
                if idx == 3 { updated } else { self.limbs[3] },
            ],
        };
        proof {
            lemma_u64_or_bit();
            assert forall|j: int| 0 <= j < 256 implies word_bit(r, j) == (j == b || word_bit(
                *self,
                j,
            )) by {
                lemma_fundamental_div_mod(b as int, 64);
                lemma_fundamental_div_mod(j, 64);
                if j / 64 == idx {
                    if j == b {
                    } else {
                        assert(j % 64 != off || j / 64 != b as int / 64 ==> j != b);
                    }
                }
            }
        }
        r
    }

    /// The word with bit `b` clear and every other bit as before.
    pub fn with_bit_clear(&self, b: usize) -> (r: Word256)
        requires
            b < 256,
        ensures
            forall|j: int| 0 <= j < 256 ==> word_bit(r, j) == (j != b && word_bit(*self, j)),
    {
        let idx = b / 64;
        let off = (b % 64) as u64;
        let updated = self.limbs[idx] & !(1u64 << off);
        let r = Word256 {
            limbs: [
                if idx == 0 { updated } else { self.limbs[0] },
                if idx == 1 { updated } else { self.limbs[1] },
                if idx == 2 { updated } else { self.limbs[2] },
                if idx == 3 { updated } else { self.limbs[3] },
            ],
        };
        proof {
            lemma_u64_clear_bit();
            assert forall|j: int| 0 <= j < 256 implies word_bit(r, j) == (j != b && word_bit(
                *self,
                j,
            )) by {
                lemma_fundamental_div_mod(b as int, 64);
                lemma_fundamental_div_mod(j, 64);
            }
        }
        r
    }
}

/// The two-level replay bitmap. A bit that is set records that the
/// proposal with that (origin domain, nonce) is considered executed;
/// queries on absent pages read false.
pub struct NonceBitmap {
    pages: HashMapWithView<u64, Word256>,
}

impl NonceBitmap {
    /// Whether the bit for (domain, nonce) is set.
    pub closed spec fn is_set(&self, domain: u8, nonce: u64) -> bool {
        self.pages@.contains_key(page_key(domain, nonce)) && word_bit(
            self.pages@[page_key(domain, nonce)],
            (nonce % 256) as int,
        )
    }

    /// The executed pairs as a set.
    pub open spec fn as_set(&self) -> Set<(u8, u64)> {
        Set::new(|p: (u8, u64)| self.is_set(p.0, p.1))
    }

    /// An empty bitmap: nothing is executed.
    pub fn new() -> (r: NonceBitmap)
        ensures
            forall|d: u8, n: u64| !r.is_set(d, n),
    {
        NonceBitmap { pages: HashMapWithView::new() }
    }

    fn key(domain: u8, nonce: u64) -> (r: u64)
        ensures
            r == page_key(domain, nonce),
    {
        (domain as u64) * 0x100_0000_0000_0000 + nonce / 256
    }

    /// Reads the bit for (domain, nonce); false when either level is absent.
    pub fn get(&self, domain: u8, nonce: u64) -> (r: bool)
        ensures
            r == self.is_set(domain, nonce),
    {
        let k = Self::key(domain, nonce);
        match self.pages.get(&k) {
            Some(w) => w.get_bit((nonce % 256) as usize),
            None => false,
        }
    }

    /// Sets exactly the bit for (domain, nonce), creating the page if absent.
    pub fn set_bit(&mut self, domain: u8, nonce: u64)
        ensures
            forall|d: u8, n: u64|
                final(self).is_set(d, n) == ((d == domain && n == nonce) || old(self).is_set(d, n)),
    {
        let k = Self::key(domain, nonce);
        let w = match self.pages.get(&k) {
            Some(w) => *w,
            None => Word256::zero(),
        };
        let updated = w.with_bit_set((nonce % 256) as usize);
        self.pages.insert(k, updated);
        proof {
            assert forall|d: u8, n: u64|
                self.is_set(d, n) == ((d == domain && n == nonce) || old(self).is_set(d, n)) by {
                if page_key(d, n) == k {
                    lemma_page_key_injective(d, n, domain, nonce);
                    if d == domain && n != nonce && n % 256 == nonce % 256 {
                        lemma_same_page_same_offset(n, nonce);
                    }
                }
            }
        }
    }

    /// Clears exactly the bit for (domain, nonce).
    pub fn clear_bit(&mut self, domain: u8, nonce: u64)
        ensures
            forall|d: u8, n: u64|
                final(self).is_set(d, n) == (!(d == domain && n == nonce) && old(self).is_set(d, n)),
    {
        let k = Self::key(domain, nonce);
        let w = match self.pages.get(&k) {
            Some(w) => *w,
            None => Word256::zero(),
        };
        let updated = w.with_bit_clear((nonce % 256) as usize);
        self.pages.insert(k, updated);
        proof {
            assert forall|d: u8, n: u64|
                self.is_set(d, n) == (!(d == domain && n == nonce) && old(self).is_set(d, n)) by {
                if page_key(d, n) == k {
                    lemma_page_key_injective(d, n, domain, nonce);
                    if d == domain && n != nonce && n % 256 == nonce % 256 {
                        lemma_same_page_same_offset(n, nonce);
                    }
                }
            }
        }
    }
}

} // verus!
