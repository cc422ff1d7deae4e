//! Purse balances: non-negative 512-bit amounts with checked arithmetic.

use vstd::prelude::*;
use vstd::arithmetic::power2::{pow2, lemma_pow2_adds, lemma_pow2_pos, lemma2_to64};

verus! {

/// Number of 64-bit limbs in a balance.
pub const LIMB_COUNT: usize = 8;

/// The radix of the limb representation, 2^64, as a `u128`.
pub const LIMB_RADIX: u128 = 0x1_0000_0000_0000_0000;

/// Value of the first `n` limbs of `s`, read little-endian in base 2^64.
pub open spec fn limbs_value(s: Seq<u64>, n: int) -> nat
    decreases n,
{
    if n <= 0 {
        0
    } else {
        limbs_value(s, n - 1) + (s[n - 1] as nat) * pow2((64 * (n - 1)) as nat)
    }
}

/// One more than the largest representable balance: 2^512.
pub open spec fn balance_limit() -> nat {
    pow2(512)
}

/// A purse balance: a non-negative integer with 512-bit unsigned semantics.
/// Arithmetic is checked: addition reports overflow and subtraction reports
/// underflow instead of wrapping or going negative.
#[derive(Debug)]
pub struct Balance {
    limbs: Vec<u64>,
}

/// Two prefixes of equal length over pointwise-equal limbs have the same value.
proof fn lemma_limbs_value_agree(s1: Seq<u64>, s2: Seq<u64>, n: int)
    requires
        forall|j: int| 0 <= j < n ==> s1[j] == s2[j],
    ensures
        limbs_value(s1, n) == limbs_value(s2, n),
    decreases n,
{
    if n > 0 {
        lemma_limbs_value_agree(s1, s2, n - 1);
    }
}

/// The value of `n` limbs is below 2^(64*n).
proof fn lemma_limbs_value_bound(s: Seq<u64>, n: int)
    requires
        0 <= n,
    ensures
        limbs_value(s, n) < pow2((64 * n) as nat),
    decreases n,
{
    if n == 0 {
        lemma2_to64();
    } else {
        lemma_limbs_value_bound(s, n - 1);
        lemma_pow2_adds((64 * (n - 1)) as nat, 64);
        lemma_pow2_pos((64 * (n - 1)) as nat);
        lemma2_to64();
        let p = pow2((64 * (n - 1)) as nat);
        let prefix = limbs_value(s, n - 1);
        let x = s[n - 1] as nat;
        assert(prefix + x * p < 0x1_0000_0000_0000_0000 * p) by (nonlinear_arith)
            requires
                prefix < p,
                x < 0x1_0000_0000_0000_0000,
                p > 0,
        {}
    }
}

/// Limbs that are zero from position `j` on contribute nothing.
proof fn lemma_limbs_value_zero_tail(s: Seq<u64>, j: int, n: int)
    requires
        0 <= j <= n,
        forall|k: int| j <= k < n ==> s[k] == 0,
    ensures
        limbs_value(s, n) == limbs_value(s, j),
    decreases n,
{
    if n > j {
        lemma_limbs_value_zero_tail(s, j, n - 1);
    }
}

/// Carry propagation step: extending a correct partial sum by one limb
/// keeps it correct.
proof fn lemma_add_step(a: Seq<u64>, b: Seq<u64>, r: Seq<u64>, lo: u64, cin: nat, cout: nat, i: int)
    requires
        0 <= i,
        r.len() == i,
        a[i] + b[i] + cin == cout * 0x1_0000_0000_0000_0000 + lo,
        limbs_value(r, i) + cin * pow2((64 * i) as nat)
            == limbs_value(a, i) + limbs_value(b, i),
    ensures
        limbs_value(r.push(lo), i + 1) + cout * pow2((64 * (i + 1)) as nat)
            == limbs_value(a, i + 1) + limbs_value(b, i + 1),
{
    lemma_limbs_value_agree(r.push(lo), r, i);
    lemma_pow2_adds((64 * i) as nat, 64);
    lemma2_to64();
    let p = pow2((64 * i) as nat);
    let lr = limbs_value(r, i);
    let la = limbs_value(a, i);
    let lb = limbs_value(b, i);
    let ai = a[i] as nat;
    let bi = b[i] as nat;
    assert(limbs_value(r.push(lo), i + 1) == lr + lo * p);
    assert(limbs_value(a, i + 1) == la + ai * p);
    assert(limbs_value(b, i + 1) == lb + bi * p);
    assert(lr + lo * p + cout * (0x1_0000_0000_0000_0000 * p)
            == la + ai * p + lb + bi * p) by (nonlinear_arith)
        requires
            ai + bi + cin == cout * 0x1_0000_0000_0000_0000 + lo,
            lr + cin * p == la + lb,
    {}
}

/// Borrow propagation step: extending a correct partial difference by one
/// limb keeps it correct.
proof fn lemma_sub_step(a: Seq<u64>, b: Seq<u64>, r: Seq<u64>, lo: u64, bin: nat, bout: nat, i: int)
    requires
        0 <= i,
        r.len() == i,
        lo + b[i] + bin == a[i] + bout * 0x1_0000_0000_0000_0000,
        limbs_value(r, i) + limbs_value(b, i)
            == limbs_value(a, i) + bin * pow2((64 * i) as nat),
    ensures
        limbs_value(r.push(lo), i + 1) + limbs_value(b, i + 1)
            == limbs_value(a, i + 1) + bout * pow2((64 * (i + 1)) as nat),
{
    lemma_limbs_value_agree(r.push(lo), r, i);
    lemma_pow2_adds((64 * i) as nat, 64);
    lemma2_to64();
    let p = pow2((64 * i) as nat);
    let lr = limbs_value(r, i);
    let la = limbs_value(a, i);
    let lb = limbs_value(b, i);
    let ai = a[i] as nat;
    let bi = b[i] as nat;
    assert(limbs_value(r.push(lo), i + 1) == lr + lo * p);
    assert(limbs_value(a, i + 1) == la + ai * p);
    assert(limbs_value(b, i + 1) == lb + bi * p);
    assert(lr + lo * p + lb + bi * p
            == la + ai * p + bout * (0x1_0000_0000_0000_0000 * p)) by (nonlinear_arith)
        requires
            lo + bi + bin == ai + bout * 0x1_0000_0000_0000_0000,
            lr + lb == la + bin * p,
    {}
}

/// A well-formed balance is always below 2^512. Exec code obtains
/// `well_formed` for any live `Balance` through `use_type_invariant`.
pub proof fn lemma_balance_bounded(b: Balance)
    requires
        b.well_formed(),
    ensures
        b.value() < balance_limit(),
{
    lemma_limbs_value_bound(b.limbs@, LIMB_COUNT as int);
}

impl Balance {
    /// Structural invariant: exactly eight limbs.
    #[verifier::type_invariant]
    pub closed spec fn well_formed(self) -> bool {
        self.limbs@.len() == LIMB_COUNT
    }

    /// The mathematical value of this balance.
    pub closed spec fn value(&self) -> nat {
        limbs_value(self.limbs@, LIMB_COUNT as int)
    }

    /// The balance holding `n`.
    pub fn from_u64(n: u64) -> (r: Balance)
        ensures
            r.value() == n,
    {
        let mut limbs: Vec<u64> = Vec::new();
        limbs.push(n);
        let mut i: usize = 1;
        while i < LIMB_COUNT
            invariant
                1 <= i <= LIMB_COUNT,
                limbs@.len() == i,
                limbs@[0] == n,
                forall|j: int| 1 <= j < i ==> limbs@[j] == 0,
            decreases LIMB_COUNT - i,
        {
            limbs.push(0);
            i += 1;
        }
        let r = Balance { limbs };
        proof {
            lemma_limbs_value_zero_tail(r.limbs@, 1, LIMB_COUNT as int);
            lemma2_to64();
            assert(limbs_value(r.limbs@, 0) == 0);
            assert(limbs_value(r.limbs@, 1) == (n as nat) * pow2(0));
        }
        r
    }

    /// The zero balance.
    pub fn zero() -> (r: Balance)
        ensures
            r.value() == 0,
    {
        Balance::from_u64(0)
    }

    /// The largest representable balance, 2^512 - 1.
    pub fn max_value() -> (r: Balance)
        ensures
            r.value() + 1 == balance_limit(),
    {
        let mut limbs: Vec<u64> = Vec::new();
        let mut i: usize = 0;
        proof {
            lemma2_to64();
        }
        while i < LIMB_COUNT
            invariant
                i <= LIMB_COUNT,
                limbs@.len() == i,
                limbs_value(limbs@, i as int) + 1 == pow2((64 * i) as nat),
            decreases LIMB_COUNT - i,
        {
            proof {
                lemma_limbs_value_agree(limbs@.push(u64::MAX), limbs@, i as int);
                lemma_pow2_adds((64 * i) as nat, 64);
                lemma_pow2_pos((64 * i) as nat);
                lemma2_to64();
                let p = pow2((64 * i) as nat);
                let lv = limbs_value(limbs@, i as int);
                assert(limbs_value(limbs@.push(u64::MAX), i as int + 1)
                        == lv + (u64::MAX as nat) * p);
                assert(lv + (u64::MAX as nat) * p + 1 == 0x1_0000_0000_0000_0000 * p)
                    by (nonlinear_arith)
                    requires
                        lv + 1 == p,
                {}
            }
            limbs.push(u64::MAX);
            i += 1;
        }
        Balance { limbs }
    }

    /// Checked addition: `Some` exactly when the sum still fits in 512 bits,
    /// and then the result carries the exact sum; `None` reports overflow
    /// with both operands untouched.
    pub fn checked_add(&self, other: &Balance) -> (r: Option<Balance>)
        ensures
            r is Some <==> self.value() + other.value() < balance_limit(),
            r is Some ==> r.unwrap().value() == self.value() + other.value(),
    {
        proof {
            use_type_invariant(self);
            use_type_invariant(other);
        }
        let mut limbs: Vec<u64> = Vec::new();
        let mut carry: u64 = 0;
        let mut i: usize = 0;
        while i < LIMB_COUNT
            invariant
                i <= LIMB_COUNT,
                carry <= 1,
                limbs@.len() == i,
                self.limbs@.len() == LIMB_COUNT,
                other.limbs@.len() == LIMB_COUNT,
                limbs_value(limbs@, i as int) + carry * pow2((64 * i) as nat)
                    == limbs_value(self.limbs@, i as int)
                        + limbs_value(other.limbs@, i as int),
            decreases LIMB_COUNT - i,
        {
            let s: u128 = self.limbs[i] as u128 + other.limbs[i] as u128 + carry as u128;
            let lo: u64;
            let c: u64;
            if s >= LIMB_RADIX {
                lo = (s - LIMB_RADIX) as u64;
                c = 1;
            } else {
                lo = s as u64;
                c = 0;
            }
            proof {
                lemma_add_step(
                    self.limbs@,
                    other.limbs@,
                    limbs@,
                    lo,
                    carry as nat,
                    c as nat,
                    i as int,
                );
            }
            limbs.push(lo);
            carry = c;
            i += 1;
        }
        proof {
            lemma_limbs_value_bound(limbs@, LIMB_COUNT as int);
        }
        if carry == 0 {
            Some(Balance { limbs })
        } else {
            None
        }
    }

    /// Checked subtraction: `Some` exactly when `other` does not exceed
    /// `self`, and then the result carries the exact difference; `None`
    /// reports underflow with both operands untouched.
    pub fn checked_sub(&self, other: &Balance) -> (r: Option<Balance>)
        ensures
            r is Some <==> other.value() <= self.value(),
            r is Some ==> r.unwrap().value() + other.value() == self.value(),
    {
        proof {
            use_type_invariant(self);
            use_type_invariant(other);
        }
        let mut limbs: Vec<u64> = Vec::new();
        let mut borrow: u64 = 0;
        let mut i: usize = 0;
        while i < LIMB_COUNT
            invariant
                i <= LIMB_COUNT,
                borrow <= 1,
                limbs@.len() == i,
                self.limbs@.len() == LIMB_COUNT,
                other.limbs@.len() == LIMB_COUNT,
                limbs_value(limbs@, i as int) + limbs_value(other.limbs@, i as int)
                    == limbs_value(self.limbs@, i as int)
                        + borrow * pow2((64 * i) as nat),
            decreases LIMB_COUNT - i,
        {
            let t: u128 = self.limbs[i] as u128 + LIMB_RADIX - other.limbs[i] as u128
                - borrow as u128;
            let lo: u64;
            let b: u64;
            if t >= LIMB_RADIX {
                lo = (t - LIMB_RADIX) as u64;
                b = 0;
            } else {
                lo = t as u64;
                b = 1;
            }
            proof {
                lemma_sub_step(
                    self.limbs@,
                    other.limbs@,
                    limbs@,
                    lo,
                    borrow as nat,
                    b as nat,
                    i as int,
                );
            }
            limbs.push(lo);
            borrow = b;
            i += 1;
        }
        proof {
            lemma_limbs_value_bound(limbs@, LIMB_COUNT as int);
        }
        if borrow == 0 {
            Some(Balance { limbs })
        } else {
            None
        }
    }
}

impl Clone for Balance {
    /// A cloned balance has the same value as the original.
    fn clone(&self) -> (r: Self)
        ensures
            r.value() == self.value(),
    {
        proof {
            use_type_invariant(self);
        }
        let mut limbs: Vec<u64> = Vec::new();
        let mut i: usize = 0;
        while i < LIMB_COUNT
            invariant
                i <= LIMB_COUNT,
                self.limbs@.len() == LIMB_COUNT,
                limbs@.len() == i,
                forall|j: int| 0 <= j < i ==> limbs@[j] == self.limbs@[j],
            decreases LIMB_COUNT - i,
        {
            let x = self.limbs[i];
            limbs.push(x);
            i += 1;
        }
        let r = Balance { limbs };
        proof {
            lemma_limbs_value_agree(r.limbs@, self.limbs@, LIMB_COUNT as int);
        }
        r
    }
}

impl PartialEq for Balance {
    /// Limb-wise equality; positional representations are compared directly.
    fn eq(&self, other: &Balance) -> (r: bool) {
        proof {
            use_type_invariant(self);
            use_type_invariant(other);
        }
        let mut i: usize = 0;
        while i < LIMB_COUNT
            invariant
                i <= LIMB_COUNT,
                self.limbs@.len() == LIMB_COUNT,
                other.limbs@.len() == LIMB_COUNT,
                forall|j: int| 0 <= j < i ==> self.limbs@[j] == other.limbs@[j],
            decreases LIMB_COUNT - i,
        {
            if self.limbs[i] != other.limbs[i] {
                return false;
            }
            i += 1;
        }
        proof {
            assert(self.limbs@ =~= other.limbs@);
        }
        true
    }
}

impl vstd::std_specs::cmp::PartialEqSpecImpl for Balance {
    open spec fn obeys_eq_spec() -> bool {
        true
    }

    closed spec fn eq_spec(&self, other: &Balance) -> bool {
        self.limbs@ == other.limbs@
    }
}

} // verus!
