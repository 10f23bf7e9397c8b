//! 256-bit unsigned integers, as balances, fees and transferred values are counted in.
use vstd::prelude::*;

verus! {

/// The largest value of a [`U256`].
pub open spec fn u256_max() -> nat {
    0xffff_ffff_ffff_ffff_ffff_ffff_ffff_ffff_ffff_ffff_ffff_ffff_ffff_ffff_ffff_ffffnat
}

/// The sum of `a` and `b`, held at [`u256_max`] where it would pass it.
pub open spec fn saturating_sum(a: nat, b: nat) -> nat {
    if a + b > u256_max() {
        u256_max()
    } else {
        a + b
    }
}

/// A 256-bit unsigned integer, held as four little-endian 64-bit limbs.
#[derive(Debug, Clone, Copy, PartialEq, Eq)]
pub struct U256 {
    pub limbs: [u64; 4],
}

impl View for U256 {
    type V = nat;

    open spec fn view(&self) -> nat {
        (self.limbs[0] + 0x1_0000_0000_0000_0000 * (self.limbs[1] + 0x1_0000_0000_0000_0000 * (
        self.limbs[2] + 0x1_0000_0000_0000_0000 * self.limbs[3]))) as nat
    }
}

/// Adds two limbs and a carry: the low limb of the sum and the new carry.
fn carrying_add(a: u64, b: u64, carry: u64) -> (sum: (u64, u64))
    requires
        carry <= 1,
    ensures
        sum.1 <= 1,
        sum.0 + 0x1_0000_0000_0000_0000 * sum.1 == a + b + carry,
{
    let wide: u128 = a as u128 + b as u128 + carry as u128;
    if wide > 0xffff_ffff_ffff_ffff {
        ((wide - 0x1_0000_0000_0000_0000) as u64, 1)
    } else {
        (wide as u64, 0)
    }
}

impl U256 {
    /// Zero.
    pub fn zero() -> (z: Self)
        ensures
            z@ == 0,
    {
        U256 { limbs: [0, 0, 0, 0] }
    }

    /// The largest value.
    pub fn max_value() -> (m: Self)
        ensures
            m@ == u256_max(),
    {
        U256 {
            limbs: [
                0xffff_ffff_ffff_ffff,
                0xffff_ffff_ffff_ffff,
                0xffff_ffff_ffff_ffff,
                0xffff_ffff_ffff_ffff,
            ],
        }
    }

    /// The integer with the given little-endian limbs.
    pub fn from_limbs(limbs: [u64; 4]) -> (n: Self)
        ensures
            n.limbs == limbs,
    {
        U256 { limbs }
    }

    /// The little-endian limbs.
    pub fn into_limbs(self) -> (limbs: [u64; 4])
        ensures
            limbs == self.limbs,
    {
        self.limbs
    }

    /// The integer equal to `n`.
    pub fn from_u128(n: u128) -> (r: Self)
        ensures
            r@ == n,
    {
        let low: u64 = (n % 0x1_0000_0000_0000_0000) as u64;
        let high: u64 = (n / 0x1_0000_0000_0000_0000) as u64;
        U256 { limbs: [low, high, 0, 0] }
    }

    /// The product of `a` and `b`, which always fits.
    pub fn wide_product(a: u128, b: u64) -> (p: Self)
        ensures
            p@ == a * b,
    {
        let a0: u128 = a % 0x1_0000_0000_0000_0000;
        let a1: u128 = a / 0x1_0000_0000_0000_0000;
        assert(a0 * b <= 0xffff_ffff_ffff_fffe_0000_0000_0000_0001) by (nonlinear_arith)
            requires
                a0 <= 0xffff_ffff_ffff_ffff,
                b <= 0xffff_ffff_ffff_ffff,
        ;
        assert(a1 * b <= 0xffff_ffff_ffff_fffe_0000_0000_0000_0001) by (nonlinear_arith)
            requires
                a1 <= 0xffff_ffff_ffff_ffff,
                b <= 0xffff_ffff_ffff_ffff,
        ;
        let low: u128 = a0 * b as u128;
        let high: u128 = a1 * b as u128 + low / 0x1_0000_0000_0000_0000;
        assert(a * b == low + 0x1_0000_0000_0000_0000 * (a1 * b)) by (nonlinear_arith)
            requires
                a == a0 + 0x1_0000_0000_0000_0000 * a1,
                low == a0 * b,
        ;
        U256 {
            limbs: [
                (low % 0x1_0000_0000_0000_0000) as u64,
                (high % 0x1_0000_0000_0000_0000) as u64,
                (high / 0x1_0000_0000_0000_0000) as u64,
                0,
            ],
        }
    }

    /// Adds `other`, stopping at the largest value.
    pub fn saturating_add(self, other: Self) -> (sum: Self)
        ensures
            sum@ == saturating_sum(self@, other@),
    {
        let (l0, c0) = carrying_add(self.limbs[0], other.limbs[0], 0);
        let (l1, c1) = carrying_add(self.limbs[1], other.limbs[1], c0);
        let (l2, c2) = carrying_add(self.limbs[2], other.limbs[2], c1);
        let (l3, c3) = carrying_add(self.limbs[3], other.limbs[3], c2);
        if c3 == 1 {
            U256::max_value()
        } else {
            U256 { limbs: [l0, l1, l2, l3] }
        }
    }

    /// Whether this integer is greater than `other`.
    pub fn exceeds(&self, other: &Self) -> (greater: bool)
        ensures
            greater == (self@ > other@),
    {
        if self.limbs[3] != other.limbs[3] {
            return self.limbs[3] > other.limbs[3];
        }
        if self.limbs[2] != other.limbs[2] {
            return self.limbs[2] > other.limbs[2];
        }
        if self.limbs[1] != other.limbs[1] {
            return self.limbs[1] > other.limbs[1];
        }
        self.limbs[0] > other.limbs[0]
    }
}

impl U256 {
    /// The integer of the given value.
    pub open spec fn of(value: nat) -> U256 {
        choose|n: U256| n@ == value
    }
}

/// Every value up to [`u256_max`] has an integer.
pub proof fn value_has_integer(value: nat)
    requires
        value <= u256_max(),
    ensures
        U256::of(value)@ == value,
{
    let limb = 0x1_0000_0000_0000_0000nat;
    let high1 = value / limb;
    let high2 = high1 / limb;
    let high3 = high2 / limb;
    let n = U256 {
        limbs: [
            (value % limb) as u64,
            (high1 % limb) as u64,
            (high2 % limb) as u64,
            high3 as u64,
        ],
    };
    assert(n@ == value);
}

/// Two integers of the same value have the same limbs: a value has one representation.
pub proof fn value_determines_limbs(a: U256, b: U256)
    requires
        a@ == b@,
    ensures
        a == b,
{
    assert(a.limbs =~= b.limbs);
}

/// The value of an integer is that of its limbs, each of which weighs 64 bits more than the one
/// before.
pub proof fn limbs_weigh_64_bits_each(n: U256)
    ensures
        n@ == n.limbs[0] + 0x1_0000_0000_0000_0000 * n.limbs[1]
            + 0x1_0000_0000_0000_0000_0000_0000_0000_0000 * n.limbs[2]
            + 0x1_0000_0000_0000_0000_0000_0000_0000_0000_0000_0000_0000_0000 * n.limbs[3],
        n@ <= 0xffff_ffff_ffff_ffff_ffff_ffff_ffff_ffff_ffff_ffff_ffff_ffff_ffff_ffff_ffff_ffff,
{
}

/// A saturating sum is the sum where that has at most 256 bits, else the largest number of 256
/// bits.
pub proof fn saturating_sum_is_exact_below_the_largest(a: nat, b: nat)
    ensures
        a + b <= 0xffff_ffff_ffff_ffff_ffff_ffff_ffff_ffff_ffff_ffff_ffff_ffff_ffff_ffff_ffff_ffff ==> saturating_sum(a, b) == a + b,
        a + b > 0xffff_ffff_ffff_ffff_ffff_ffff_ffff_ffff_ffff_ffff_ffff_ffff_ffff_ffff_ffff_ffff ==> saturating_sum(a, b)
            == 0xffff_ffff_ffff_ffff_ffff_ffff_ffff_ffff_ffff_ffff_ffff_ffff_ffff_ffff_ffff_ffff,
{
}

} // verus!
