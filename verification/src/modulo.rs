//! A modular-arithmetic wrapper: a value held in an unsigned container,
//! kept below a modulus `N`, with addition and subtraction that reduce
//! modulo `N` and are proved free of overflow and underflow through the
//! double-subtraction identities.

use vstd::prelude::*;
use vstd::arithmetic::div_mod::{lemma_small_mod, lemma_mod_multiples_vanish};

verus! {

/// A natural number modulo `N`, represented in the unsigned container `T`.
/// The representative is always in `[0, N)`.
#[derive(Debug, Clone, Copy)]
pub struct Modulo<const N: usize, T>(T);

impl<const N: usize> Modulo<N, u8> {
    /// The wrapped representative.
    pub closed spec fn spec_value(self) -> u8 {
        self.0
    }

    /// The modulus is at least 1 and fits in the container, so reduced
    /// values can be represented and `N` itself can be cast to the
    /// container without truncation.
    pub open spec fn modulus_fits() -> bool {
        1 <= N && N <= u8::MAX as usize
    }

    /// Well-formedness: the representative is reduced, below the modulus.
    pub open spec fn wf(self) -> bool {
        Self::modulus_fits() && self.spec_value() < N as u8
    }

    /// Wraps `value`, reducing it modulo `N` on construction.
    pub fn new(value: u8) -> (r: Self)
        requires
            Self::modulus_fits(),
        ensures
            r.wf(),
            r.spec_value() == value % (N as u8),
    {
        let n = N as u8;
        if value >= n {
            Self(value % n)
        } else {
            proof {
                lemma_small_mod(value as nat, n as nat);
            }
            Self(value)
        }
    }

    /// The reduced representative, always in `[0, N)`.
    pub fn value(self) -> (r: u8)
        ensures
            r == self.spec_value(),
    {
        self.0
    }

    /// Modular addition. The sum `l + r` could overflow the container, so
    /// it is computed as the two underflow-free subtractions
    /// `l - (N - r)`, which agree with `(l + r) mod N` because adding or
    /// removing one multiple of `N` does not change a value's residue.
    pub fn add(self, rhs: Self) -> (r: Self)
        requires
            self.wf(),
            rhs.wf(),
        ensures
            r.wf(),
            r.spec_value() as int == (self.spec_value() + rhs.spec_value()) % (N as int),
    {
        let n = N as u8;
        let out = self.sub(Self(n - rhs.0));
        proof {
            lemma_mod_multiples_vanish(
                -1,
                self.spec_value() + rhs.spec_value(),
                N as int,
            );
        }
        out
    }

    /// Modular subtraction. When the direct difference would underflow, the
    /// representative `N - (r - l)` is used instead: `l - r` and
    /// `N + l - r` have the same residue modulo `N`. The right-hand side
    /// may be `N` itself, which acts as zero; this is what `add` relies on.
    pub fn sub(self, rhs: Self) -> (r: Self)
        requires
            Self::modulus_fits(),
            self.spec_value() < N as u8,
            rhs.spec_value() <= N as u8,
        ensures
            r.wf(),
            r.spec_value() as int == (self.spec_value() - rhs.spec_value()) % (N as int),
    {
        let n = N as u8;
        if self.0 >= rhs.0 {
            proof {
                lemma_small_mod((self.spec_value() - rhs.spec_value()) as nat, N as nat);
            }
            Self(self.0 - rhs.0)
        } else {
            let out = n - (rhs.0 - self.0);
            proof {
                lemma_mod_multiples_vanish(
                    1,
                    self.spec_value() - rhs.spec_value(),
                    N as int,
                );
                lemma_small_mod(out as nat, N as nat);
            }
            Self(out)
        }
    }
}

impl<const N: usize> Modulo<N, u16> {
    /// The wrapped representative.
    pub closed spec fn spec_value(self) -> u16 {
        self.0
    }

    /// The modulus is at least 1 and fits in the container, so reduced
    /// values can be represented and `N` itself can be cast to the
    /// container without truncation.
    pub open spec fn modulus_fits() -> bool {
        1 <= N && N <= u16::MAX as usize
    }

    /// Well-formedness: the representative is reduced, below the modulus.
    pub open spec fn wf(self) -> bool {
        Self::modulus_fits() && self.spec_value() < N as u16
    }

    /// Wraps `value`, reducing it modulo `N` on construction.
    pub fn new(value: u16) -> (r: Self)
        requires
            Self::modulus_fits(),
        ensures
            r.wf(),
            r.spec_value() == value % (N as u16),
    {
        let n = N as u16;
        if value >= n {
            Self(value % n)
        } else {
            proof {
                lemma_small_mod(value as nat, n as nat);
            }
            Self(value)
        }
    }

    /// The reduced representative, always in `[0, N)`.
    pub fn value(self) -> (r: u16)
        ensures
            r == self.spec_value(),
    {
        self.0
    }

    /// Modular addition. The sum `l + r` could overflow the container, so
    /// it is computed as the two underflow-free subtractions
    /// `l - (N - r)`, which agree with `(l + r) mod N` because adding or
    /// removing one multiple of `N` does not change a value's residue.
    pub fn add(self, rhs: Self) -> (r: Self)
        requires
            self.wf(),
            rhs.wf(),
        ensures
            r.wf(),
            r.spec_value() as int == (self.spec_value() + rhs.spec_value()) % (N as int),
    {
        let n = N as u16;
        let out = self.sub(Self(n - rhs.0));
        proof {
            lemma_mod_multiples_vanish(
                -1,
                self.spec_value() + rhs.spec_value(),
                N as int,
            );
        }
        out
    }

    /// Modular subtraction. When the direct difference would underflow, the
    /// representative `N - (r - l)` is used instead: `l - r` and
    /// `N + l - r` have the same residue modulo `N`. The right-hand side
    /// may be `N` itself, which acts as zero; this is what `add` relies on.
    pub fn sub(self, rhs: Self) -> (r: Self)
        requires
            Self::modulus_fits(),
            self.spec_value() < N as u16,
            rhs.spec_value() <= N as u16,
        ensures
            r.wf(),
            r.spec_value() as int == (self.spec_value() - rhs.spec_value()) % (N as int),
    {
        let n = N as u16;
        if self.0 >= rhs.0 {
            proof {
                lemma_small_mod((self.spec_value() - rhs.spec_value()) as nat, N as nat);
            }
            Self(self.0 - rhs.0)
        } else {
            let out = n - (rhs.0 - self.0);
            proof {
                lemma_mod_multiples_vanish(
                    1,
                    self.spec_value() - rhs.spec_value(),
                    N as int,
                );
                lemma_small_mod(out as nat, N as nat);
            }
            Self(out)
        }
    }
}

impl<const N: usize> Modulo<N, u32> {
    /// The wrapped representative.
    pub closed spec fn spec_value(self) -> u32 {
        self.0
    }

    /// The modulus is at least 1 and fits in the container, so reduced
    /// values can be represented and `N` itself can be cast to the
    /// container without truncation.
    pub open spec fn modulus_fits() -> bool {
        1 <= N && N <= u32::MAX as usize
    }

    /// Well-formedness: the representative is reduced, below the modulus.
    pub open spec fn wf(self) -> bool {
        Self::modulus_fits() && self.spec_value() < N as u32
    }

    /// Wraps `value`, reducing it modulo `N` on construction.
    pub fn new(value: u32) -> (r: Self)
        requires
            Self::modulus_fits(),
        ensures
            r.wf(),
            r.spec_value() == value % (N as u32),
    {
        let n = N as u32;
        if value >= n {
            Self(value % n)
        } else {
            proof {
                lemma_small_mod(value as nat, n as nat);
            }
            Self(value)
        }
    }

    /// The reduced representative, always in `[0, N)`.
    pub fn value(self) -> (r: u32)
        ensures
            r == self.spec_value(),
    {
        self.0
    }

    /// Modular addition. The sum `l + r` could overflow the container, so
    /// it is computed as the two underflow-free subtractions
    /// `l - (N - r)`, which agree with `(l + r) mod N` because adding or
    /// removing one multiple of `N` does not change a value's residue.
    pub fn add(self, rhs: Self) -> (r: Self)
        requires
            self.wf(),
            rhs.wf(),
        ensures
            r.wf(),
            r.spec_value() as int == (self.spec_value() + rhs.spec_value()) % (N as int),
    {
        let n = N as u32;
        let out = self.sub(Self(n - rhs.0));
        proof {
            lemma_mod_multiples_vanish(
                -1,
                self.spec_value() + rhs.spec_value(),
                N as int,
            );
        }
        out
    }

    /// Modular subtraction. When the direct difference would underflow, the
    /// representative `N - (r - l)` is used instead: `l - r` and
    /// `N + l - r` have the same residue modulo `N`. The right-hand side
    /// may be `N` itself, which acts as zero; this is what `add` relies on.
    pub fn sub(self, rhs: Self) -> (r: Self)
        requires
            Self::modulus_fits(),
            self.spec_value() < N as u32,
            rhs.spec_value() <= N as u32,
        ensures
            r.wf(),
            r.spec_value() as int == (self.spec_value() - rhs.spec_value()) % (N as int),
    {
        let n = N as u32;
        if self.0 >= rhs.0 {
            proof {
                lemma_small_mod((self.spec_value() - rhs.spec_value()) as nat, N as nat);
            }
            Self(self.0 - rhs.0)
        } else {
            let out = n - (rhs.0 - self.0);
            proof {
                lemma_mod_multiples_vanish(
                    1,
                    self.spec_value() - rhs.spec_value(),
                    N as int,
                );
                lemma_small_mod(out as nat, N as nat);
            }
            Self(out)
        }
    }
}

impl<const N: usize> Modulo<N, u64> {
    /// The wrapped representative.
    pub closed spec fn spec_value(self) -> u64 {
        self.0
    }

    /// The modulus is at least 1 and fits in the container, so reduced
    /// values can be represented and `N` itself can be cast to the
    /// container without truncation.
    pub open spec fn modulus_fits() -> bool {
        1 <= N && N <= u64::MAX as usize
    }

    /// Well-formedness: the representative is reduced, below the modulus.
    pub open spec fn wf(self) -> bool {
        Self::modulus_fits() && self.spec_value() < N as u64
    }

    /// Wraps `value`, reducing it modulo `N` on construction.
    pub fn new(value: u64) -> (r: Self)
        requires
            Self::modulus_fits(),
        ensures
            r.wf(),
            r.spec_value() == value % (N as u64),
    {
        let n = N as u64;
        if value >= n {
            Self(value % n)
        } else {
            proof {
                lemma_small_mod(value as nat, n as nat);
            }
            Self(value)
        }
    }

    /// The reduced representative, always in `[0, N)`.
    pub fn value(self) -> (r: u64)
        ensures
            r == self.spec_value(),
    {
        self.0
    }

    /// Modular addition. The sum `l + r` could overflow the container, so
    /// it is computed as the two underflow-free subtractions
    /// `l - (N - r)`, which agree with `(l + r) mod N` because adding or
    /// removing one multiple of `N` does not change a value's residue.
    pub fn add(self, rhs: Self) -> (r: Self)
        requires
            self.wf(),
            rhs.wf(),
        ensures
            r.wf(),
            r.spec_value() as int == (self.spec_value() + rhs.spec_value()) % (N as int),
    {
        let n = N as u64;
        let out = self.sub(Self(n - rhs.0));
        proof {
            lemma_mod_multiples_vanish(
                -1,
                self.spec_value() + rhs.spec_value(),
                N as int,
            );
        }
        out
    }

    /// Modular subtraction. When the direct difference would underflow, the
    /// representative `N - (r - l)` is used instead: `l - r` and
    /// `N + l - r` have the same residue modulo `N`. The right-hand side
    /// may be `N` itself, which acts as zero; this is what `add` relies on.
    pub fn sub(self, rhs: Self) -> (r: Self)
        requires
            Self::modulus_fits(),
            self.spec_value() < N as u64,
            rhs.spec_value() <= N as u64,
        ensures
            r.wf(),
            r.spec_value() as int == (self.spec_value() - rhs.spec_value()) % (N as int),
    {
        let n = N as u64;
        if self.0 >= rhs.0 {
            proof {
                lemma_small_mod((self.spec_value() - rhs.spec_value()) as nat, N as nat);
            }
            Self(self.0 - rhs.0)
        } else {
            let out = n - (rhs.0 - self.0);
            proof {
                lemma_mod_multiples_vanish(
                    1,
                    self.spec_value() - rhs.spec_value(),
                    N as int,
                );
                lemma_small_mod(out as nat, N as nat);
            }
            Self(out)
        }
    }
}

impl<const N: usize> Modulo<N, u128> {
    /// The wrapped representative.
    pub closed spec fn spec_value(self) -> u128 {
        self.0
    }

    /// The modulus is at least 1 and fits in the container, so reduced
    /// values can be represented and `N` itself can be cast to the
    /// container without truncation.
    pub open spec fn modulus_fits() -> bool {
        1 <= N && N <= u128::MAX as usize
    }

    /// Well-formedness: the representative is reduced, below the modulus.
    pub open spec fn wf(self) -> bool {
        Self::modulus_fits() && self.spec_value() < N as u128
    }

    /// Wraps `value`, reducing it modulo `N` on construction.
    pub fn new(value: u128) -> (r: Self)
        requires
            Self::modulus_fits(),
        ensures
            r.wf(),
            r.spec_value() == value % (N as u128),
    {
        let n = N as u128;
        if value >= n {
            Self(value % n)
        } else {
            proof {
                lemma_small_mod(value as nat, n as nat);
            }
            Self(value)
        }
    }

    /// The reduced representative, always in `[0, N)`.
    pub fn value(self) -> (r: u128)
        ensures
            r == self.spec_value(),
    {
        self.0
    }

    /// Modular addition. The sum `l + r` could overflow the container, so
    /// it is computed as the two underflow-free subtractions
    /// `l - (N - r)`, which agree with `(l + r) mod N` because adding or
    /// removing one multiple of `N` does not change a value's residue.
    pub fn add(self, rhs: Self) -> (r: Self)
        requires
            self.wf(),
            rhs.wf(),
        ensures
            r.wf(),
            r.spec_value() as int == (self.spec_value() + rhs.spec_value()) % (N as int),
    {
        let n = N as u128;
        let out = self.sub(Self(n - rhs.0));
        proof {
            lemma_mod_multiples_vanish(
                -1,
                self.spec_value() + rhs.spec_value(),
                N as int,
            );
        }
        out
    }

    /// Modular subtraction. When the direct difference would underflow, the
    /// representative `N - (r - l)` is used instead: `l - r` and
    /// `N + l - r` have the same residue modulo `N`. The right-hand side
    /// may be `N` itself, which acts as zero; this is what `add` relies on.
    pub fn sub(self, rhs: Self) -> (r: Self)
        requires
            Self::modulus_fits(),
            self.spec_value() < N as u128,
            rhs.spec_value() <= N as u128,
        ensures
            r.wf(),
            r.spec_value() as int == (self.spec_value() - rhs.spec_value()) % (N as int),
    {
        let n = N as u128;
        if self.0 >= rhs.0 {
            proof {
                lemma_small_mod((self.spec_value() - rhs.spec_value()) as nat, N as nat);
            }
            Self(self.0 - rhs.0)
        } else {
            let out = n - (rhs.0 - self.0);
            proof {
                lemma_mod_multiples_vanish(
                    1,
                    self.spec_value() - rhs.spec_value(),
                    N as int,
                );
                lemma_small_mod(out as nat, N as nat);
            }
            Self(out)
        }
    }
}

impl<const N: usize> Modulo<N, usize> {
    /// The wrapped representative.
    pub closed spec fn spec_value(self) -> usize {
        self.0
    }

    /// The modulus is at least 1 and fits in the container, so reduced
    /// values can be represented and `N` itself can be cast to the
    /// container without truncation.
    pub open spec fn modulus_fits() -> bool {
        1 <= N && N <= usize::MAX as usize
    }

    /// Well-formedness: the representative is reduced, below the modulus.
    pub open spec fn wf(self) -> bool {
        Self::modulus_fits() && self.spec_value() < N as usize
    }

    /// Wraps `value`, reducing it modulo `N` on construction.
    pub fn new(value: usize) -> (r: Self)
        requires
            Self::modulus_fits(),
        ensures
            r.wf(),
            r.spec_value() == value % (N as usize),
    {
        let n = N as usize;
        if value >= n {
            Self(value % n)
        } else {
            proof {
                lemma_small_mod(value as nat, n as nat);
            }
            Self(value)
        }
    }

    /// The reduced representative, always in `[0, N)`.
    pub fn value(self) -> (r: usize)
        ensures
            r == self.spec_value(),
    {
        self.0
    }

    /// Modular addition. The sum `l + r` could overflow the container, so
    /// it is computed as the two underflow-free subtractions
    /// `l - (N - r)`, which agree with `(l + r) mod N` because adding or
    /// removing one multiple of `N` does not change a value's residue.
    pub fn add(self, rhs: Self) -> (r: Self)
        requires
            self.wf(),
            rhs.wf(),
        ensures
            r.wf(),
            r.spec_value() as int == (self.spec_value() + rhs.spec_value()) % (N as int),
    {
        let n = N as usize;
        let out = self.sub(Self(n - rhs.0));
        proof {
            lemma_mod_multiples_vanish(
                -1,
                self.spec_value() + rhs.spec_value(),
                N as int,
            );
        }
        out
    }

    /// Modular subtraction. When the direct difference would underflow, the
    /// representative `N - (r - l)` is used instead: `l - r` and
    /// `N + l - r` have the same residue modulo `N`. The right-hand side
    /// may be `N` itself, which acts as zero; this is what `add` relies on.
    pub fn sub(self, rhs: Self) -> (r: Self)
        requires
            Self::modulus_fits(),
            self.spec_value() < N as usize,
            rhs.spec_value() <= N as usize,
        ensures
            r.wf(),
            r.spec_value() as int == (self.spec_value() - rhs.spec_value()) % (N as int),
    {
        let n = N as usize;
        if self.0 >= rhs.0 {
            proof {
                lemma_small_mod((self.spec_value() - rhs.spec_value()) as nat, N as nat);
            }
            Self(self.0 - rhs.0)
        } else {
            let out = n - (rhs.0 - self.0);
            proof {
                lemma_mod_multiples_vanish(
                    1,
                    self.spec_value() - rhs.spec_value(),
                    N as int,
                );
                lemma_small_mod(out as nat, N as nat);
            }
            Self(out)
        }
    }
}

} // verus!
