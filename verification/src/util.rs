//! Small arithmetic helpers.

use vstd::prelude::*;

verus! {

/// Greatest common divisor by Euclid's rule; `spec_gcd(a, 0) == a`.
pub open spec fn spec_gcd(a: nat, b: nat) -> nat
    decreases b,
{
    if b == 0 {
        a
    } else {
        spec_gcd(b, a % b)
    }
}

/// The gcd of two numbers that are not both zero is positive.
pub proof fn lemma_gcd_pos(a: nat, b: nat)
    requires
        a > 0 || b > 0,
    ensures
        spec_gcd(a, b) > 0,
    decreases b,
{
    if b > 0 {
        lemma_gcd_pos(b, a % b);
    }
}

/// Greatest common divisor of two 32-bit numbers.
pub fn gcd(width: u32, height: u32) -> (r: u32)
    ensures
        r == spec_gcd(width as nat, height as nat),
{
    let mut a: u32 = width;
    let mut b: u32 = height;
    while b != 0
        invariant
            spec_gcd(a as nat, b as nat) == spec_gcd(width as nat, height as nat),
        decreases b,
    {
        let t: u32 = a % b;
        a = b;
        b = t;
    }
    a
}

} // verus!
