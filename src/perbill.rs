use vstd::prelude::*;

verus! {

/// Number of parts in a whole: a `Perbill` of `BILLION` parts is the value one.
pub const BILLION: u32 = 1_000_000_000;

/// Relies on `Mul` for `sp_arithmetic::Perbill` (with `from_parts` and
/// `deconstruct`): for two part counts in `0..=BILLION`, the product is
/// `a * b / BILLION`, rounded down.
#[verifier::external_body]
fn perbill_product(a: u32, b: u32) -> (r: u32)
    requires
        a <= BILLION,
        b <= BILLION,
    ensures
        r as int == (a as int * b as int) / (BILLION as int),
{
    (sp_arithmetic::Perbill::from_parts(a) * sp_arithmetic::Perbill::from_parts(b)).deconstruct()
}

/// Relies on `sp_arithmetic::Perbill::mul_floor` (with `from_parts`): `n * p / BILLION`,
/// rounded down, computed without overflow.
#[verifier::external_body]
fn perbill_mul_floor(p: u32, n: u128) -> (r: u128)
    requires
        p <= BILLION,
    ensures
        r as int == (p as int * n as int) / (BILLION as int),
{
    sp_arithmetic::Perbill::from_parts(p).mul_floor(n)
}

/// A fraction in `[0, 1]`, held exactly as a number of parts per billion.
#[derive(Clone, Copy, Debug, PartialEq, Eq, Structural)]
pub struct Perbill {
    parts: u32,
}

impl View for Perbill {
    type V = nat;

    /// The number of parts per billion.
    closed spec fn view(&self) -> nat {
        self.parts as nat
    }
}

impl Perbill {
    #[verifier::type_invariant]
    spec fn at_most_one(self) -> bool {
        self.parts <= BILLION
    }

    /// The fraction `parts / BILLION`; a count above `BILLION` saturates to one.
    pub fn from_parts(parts: u32) -> (r: Perbill)
        ensures
            r@ == if parts <= BILLION { parts as nat } else { BILLION as nat },
    {
        if parts <= BILLION {
            Perbill { parts }
        } else {
            Perbill { parts: BILLION }
        }
    }

    /// The value one.
    pub fn one() -> (r: Perbill)
        ensures
            r@ == BILLION as nat,
    {
        Perbill { parts: BILLION }
    }

    /// The number of parts per billion.
    pub fn deconstruct(&self) -> (r: u32)
        ensures
            r as nat == self@,
            r <= BILLION,
    {
        proof {
            use_type_invariant(self);
        }
        self.parts
    }

    /// The product of two fractions, rounded down to whole parts.
    pub fn mul(self, rhs: Perbill) -> (r: Perbill)
        ensures
            r@ == (self@ * rhs@) / (BILLION as nat),
            r@ <= self@,
            r@ <= rhs@,
    {
        proof {
            use_type_invariant(&self);
            use_type_invariant(&rhs);
            lemma_product_bounded(self@, rhs@);
        }
        let parts = perbill_product(self.parts, rhs.parts);
        Perbill { parts }
    }

    /// `n` times this fraction, rounded down to a whole number.
    pub fn mul_floor(&self, n: u128) -> (r: u128)
        ensures
            r as nat == (self@ * n as nat) / (BILLION as nat),
            r <= n,
    {
        proof {
            use_type_invariant(self);
            lemma_product_bounded(self@, n as nat);
        }
        perbill_mul_floor(self.parts, n)
    }
}

/// A fraction of at most one never scales a value up.
pub proof fn lemma_product_bounded(p: nat, n: nat)
    requires
        p <= BILLION,
    ensures
        (p * n) / (BILLION as nat) <= n,
        n <= BILLION ==> (p * n) / (BILLION as nat) <= p,
{
    let b = BILLION as nat;
    assert((p * n) / b <= n) by (nonlinear_arith)
        requires p <= b, b > 0, n >= 0;
    assert(n <= b ==> (p * n) / b <= p) by (nonlinear_arith)
        requires b > 0, p >= 0, n >= 0;
}

} // verus!
