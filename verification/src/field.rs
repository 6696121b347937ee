//! The prime field over which traces and constraints are stated.
//!
//! Elements are kept in canonical form, so two elements are equal exactly
//! when they denote the same residue.

use vstd::prelude::*;

verus! {

/// The order of the field: the BabyBear prime `2^31 - 2^27 + 1`.
pub const MODULUS: u32 = 2013265921;

/// An element of the field, held as its canonical representative.
#[derive(Clone, Copy, Debug, PartialEq, Eq, Hash, Structural)]
pub struct Felt {
    value: u32,
}

impl View for Felt {
    type V = nat;

    /// The canonical representative of the residue.
    closed spec fn view(&self) -> nat {
        self.value as nat
    }
}

impl Felt {
    /// Holds of every element that executable code can hold.
    #[verifier::type_invariant]
    pub closed spec fn is_canonical(self) -> bool {
        self.value < MODULUS
    }

    /// The element that the integer `n` reduces to.
    pub closed spec fn from_int(n: int) -> Felt {
        Felt { value: (n % (MODULUS as int)) as u32 }
    }

    pub open spec fn spec_zero() -> Felt {
        Felt::from_int(0)
    }

    pub open spec fn spec_one() -> Felt {
        Felt::from_int(1)
    }

    pub open spec fn spec_add(self, rhs: Felt) -> Felt {
        Felt::from_int((self@ + rhs@) as int)
    }

    pub open spec fn spec_sub(self, rhs: Felt) -> Felt {
        Felt::from_int(self@ - rhs@)
    }

    pub open spec fn spec_mul(self, rhs: Felt) -> Felt {
        Felt::from_int((self@ * rhs@) as int)
    }

    /// `from_int` yields the canonical element whose representative is `n mod MODULUS`.
    pub proof fn lemma_from_int(n: int)
        ensures
            Felt::from_int(n).is_canonical(),
            Felt::from_int(n)@ == n % (MODULUS as int),
    {
    }

    /// A canonical element is determined by its representative.
    pub proof fn lemma_canonical(a: Felt)
        requires
            a.is_canonical(),
        ensures
            a@ < MODULUS,
            Felt::from_int(a@ as int) == a,
    {
    }

    /// Zero and one are canonical, with representatives 0 and 1.
    pub proof fn lemma_zero_one()
        ensures
            Felt::spec_zero().is_canonical(),
            Felt::spec_one().is_canonical(),
            Felt::spec_zero()@ == 0,
            Felt::spec_one()@ == 1,
            Felt::spec_zero() != Felt::spec_one(),
    {
    }

    /// Addition, subtraction and multiplication are those of the integers,
    /// reduced by the modulus.
    pub proof fn lemma_arithmetic(a: Felt, b: Felt)
        ensures
            a.spec_add(b).is_canonical(),
            a.spec_sub(b).is_canonical(),
            a.spec_mul(b).is_canonical(),
            a.spec_add(b)@ == (a@ + b@) % (MODULUS as nat),
            a.spec_sub(b)@ == (a@ - b@) % (MODULUS as int),
            a.spec_mul(b)@ == (a@ * b@) % (MODULUS as nat),
    {
        Felt::lemma_from_int((a@ + b@) as int);
        Felt::lemma_from_int(a@ - b@);
        Felt::lemma_from_int((a@ * b@) as int);
    }

    /// Zero is neutral for addition and absorbing for multiplication, one is
    /// neutral for multiplication, and `1 - 1 = 0`, `1 - 0 = 1`.
    pub proof fn lemma_zero_one_laws(a: Felt)
        requires
            a.is_canonical(),
        ensures
            a.spec_add(Felt::spec_zero()) == a,
            Felt::spec_zero().spec_add(a) == a,
            Felt::spec_one().spec_mul(a) == a,
            a.spec_mul(Felt::spec_one()) == a,
            Felt::spec_zero().spec_mul(a) == Felt::spec_zero(),
            a.spec_mul(Felt::spec_zero()) == Felt::spec_zero(),
            Felt::spec_one().spec_sub(Felt::spec_one()) == Felt::spec_zero(),
            Felt::spec_one().spec_sub(Felt::spec_zero()) == Felt::spec_one(),
    {
        let n = a@ as int;
        assert(1 * n == n && n * 1 == n && 0 * n == 0 && n * 0 == 0) by (nonlinear_arith);
        Felt::lemma_canonical(a);
        Felt::lemma_zero_one();
    }

    #[verifier::when_used_as_spec(spec_zero)]
    pub fn zero() -> (r: Felt)
        ensures
            r == Felt::spec_zero(),
    {
        Felt { value: 0 }
    }

    #[verifier::when_used_as_spec(spec_one)]
    pub fn one() -> (r: Felt)
        ensures
            r == Felt::spec_one(),
    {
        Felt { value: 1 }
    }

    /// `one()` for `true`, `zero()` for `false`.
    pub fn from_bool(b: bool) -> (r: Felt)
        ensures
            r == if b { Felt::spec_one() } else { Felt::spec_zero() },
    {
        if b {
            Felt::one()
        } else {
            Felt::zero()
        }
    }

    /// The element whose canonical representative is `n`.
    pub fn from_canonical_u32(n: u32) -> (r: Felt)
        requires
            n < MODULUS,
        ensures
            r == Felt::from_int(n as int),
            r@ == n,
    {
        Felt { value: n }
    }

    /// The element that `n` reduces to; every `u32` is accepted.
    pub fn from_wrapped_u32(n: u32) -> (r: Felt)
        ensures
            r == Felt::from_int(n as int),
    {
        Felt { value: n % MODULUS }
    }

    pub fn as_canonical_u32(&self) -> (n: u32)
        ensures
            n == self@,
            n < MODULUS,
    {
        proof {
            use_type_invariant(self);
        }
        self.value
    }

    #[verifier::when_used_as_spec(spec_add)]
    pub fn add(self, rhs: Felt) -> (r: Felt)
        ensures
            r == self.spec_add(rhs),
    {
        proof {
            use_type_invariant(self);
            use_type_invariant(rhs);
        }
        let sum: u64 = self.value as u64 + rhs.value as u64;
        Felt { value: (sum % (MODULUS as u64)) as u32 }
    }

    #[verifier::when_used_as_spec(spec_sub)]
    pub fn sub(self, rhs: Felt) -> (r: Felt)
        ensures
            r == self.spec_sub(rhs),
    {
        proof {
            use_type_invariant(self);
            use_type_invariant(rhs);
        }
        let lifted: u64 = self.value as u64 + MODULUS as u64 - rhs.value as u64;
        assert((lifted as int) % (MODULUS as int) == (self@ - rhs@) % (MODULUS as int)) by {
            vstd::arithmetic::div_mod::lemma_mod_add_multiples_vanish(
                self@ - rhs@,
                MODULUS as int,
            );
        }
        Felt { value: (lifted % (MODULUS as u64)) as u32 }
    }

    #[verifier::when_used_as_spec(spec_mul)]
    pub fn mul(self, rhs: Felt) -> (r: Felt)
        ensures
            r == self.spec_mul(rhs),
    {
        let a: u64 = self.value as u64;
        let b: u64 = rhs.value as u64;
        assert(a * b <= u64::MAX) by (nonlinear_arith)
            requires
                a <= u32::MAX,
                b <= u32::MAX,
        ;
        let product: u64 = a * b;
        Felt { value: (product % (MODULUS as u64)) as u32 }
    }
}

} // verus!
