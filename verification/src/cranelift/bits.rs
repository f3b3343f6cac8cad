//! Arithmetic on bit patterns.
//!
//! A pattern of `n` bits is a number from zero up to two to the power of `n`. A vector is a pattern
//! of 128 bits, whose lanes are numbered from the lowest bits.
use vstd::arithmetic::div_mod::{
    lemma_fundamental_div_mod, lemma_fundamental_div_mod_converse, lemma_mod_bound,
    lemma_small_mod,
};
use vstd::arithmetic::power2::{lemma2_to64, lemma_pow2_adds, lemma_pow2_pos, pow2};
use vstd::prelude::*;

verus! {

/// The low `n` bits of a number.
pub open spec fn wrap(n: nat, x: int) -> int {
    x % (pow2(n) as int)
}

/// Whether a number is a pattern of `n` bits.
pub open spec fn is_pattern(n: nat, a: int) -> bool {
    0 <= a < pow2(n)
}

/// The number that a pattern is in two's complement.
pub open spec fn signed(n: nat, a: int) -> int {
    if a < pow2((n - 1) as nat) {
        a
    } else {
        a - pow2(n)
    }
}

/// The pattern of a truth value.
pub open spec fn truth(holds: bool) -> int {
    if holds {
        1
    } else {
        0
    }
}

/// A quotient, rounded towards zero.
#[verifier::opaque]
pub open spec fn quotient(x: int, y: int) -> int {
    if (x < 0) == (y < 0) {
        magnitude(x) / magnitude(y)
    } else {
        -(magnitude(x) / magnitude(y))
    }
}

/// What a quotient that is rounded towards zero leaves.
#[verifier::opaque]
pub open spec fn remainder(x: int, y: int) -> int {
    x - y * quotient(x, y)
}

/// A number without its sign.
pub open spec fn magnitude(x: int) -> int {
    if x < 0 {
        -x
    } else {
        x
    }
}

/// A number, or the nearest end of a range.
pub open spec fn clamped(low: int, high: int, x: int) -> int {
    if x < low {
        low
    } else if x > high {
        high
    } else {
        x
    }
}

/// The least number in two's complement.
pub open spec fn least(n: nat) -> int {
    -pow2((n - 1) as nat)
}

/// The greatest number in two's complement.
pub open spec fn greatest(n: nat) -> int {
    pow2((n - 1) as nat) - 1
}

/// The bits that both patterns have.
#[verifier::opaque]
pub open spec fn both(a: int, b: int) -> int {
    ((a as u128) & (b as u128)) as int
}

/// The bits that either pattern has.
#[verifier::opaque]
pub open spec fn either(a: int, b: int) -> int {
    ((a as u128) | (b as u128)) as int
}

/// The bits that one pattern has and the other lacks.
#[verifier::opaque]
pub open spec fn differing(a: int, b: int) -> int {
    ((a as u128) ^ (b as u128)) as int
}

/// The bits that a pattern lacks.
pub open spec fn inverted(n: nat, a: int) -> int {
    pow2(n) - 1 - a
}

/// A pattern shifted towards the high bits, by an amount modulo the width.
#[verifier::opaque]
pub open spec fn shifted_up(n: nat, a: int, amount: int) -> int {
    wrap(n, a * pow2((amount % (n as int)) as nat))
}

/// A pattern shifted towards the low bits, with zeros from above.
#[verifier::opaque]
pub open spec fn shifted_down(n: nat, a: int, amount: int) -> int {
    a / (pow2((amount % (n as int)) as nat) as int)
}

/// A pattern shifted towards the low bits, with copies of the sign from above.
#[verifier::opaque]
pub open spec fn shifted_down_signed(n: nat, a: int, amount: int) -> int {
    wrap(n, signed(n, a) / (pow2((amount % (n as int)) as nat) as int))
}

/// A pattern rotated towards the high bits.
#[verifier::opaque]
pub open spec fn rotated_up(n: nat, a: int, amount: int) -> int {
    let k = (amount % (n as int)) as nat;
    wrap(n, a * pow2(k)) + a / (pow2((n - k) as nat) as int)
}

/// A pattern rotated towards the low bits.
#[verifier::opaque]
pub open spec fn rotated_down(n: nat, a: int, amount: int) -> int {
    let k = (amount % (n as int)) as nat;
    a / (pow2(k) as int) + wrap(k, a) * pow2((n - k) as nat)
}

/// The number of zeros above the highest one.
#[verifier::opaque]
pub open spec fn leading_zeros(n: nat, a: int) -> int
    decreases n,
{
    if n == 0 || a >= pow2((n - 1) as nat) {
        0
    } else {
        1 + leading_zeros((n - 1) as nat, a)
    }
}

/// The number of zeros below the lowest one.
#[verifier::opaque]
pub open spec fn trailing_zeros(n: nat, a: int) -> int
    decreases n,
{
    if n == 0 || a % 2 == 1 {
        0
    } else {
        1 + trailing_zeros((n - 1) as nat, a / 2)
    }
}

/// The number of ones.
#[verifier::opaque]
pub open spec fn ones(n: nat, a: int) -> int
    decreases n,
{
    if n == 0 {
        0
    } else {
        a % 2 + ones((n - 1) as nat, a / 2)
    }
}

/// A lane of `n` bits.
#[verifier::opaque]
pub open spec fn lane(n: nat, v: int, i: int) -> int {
    wrap(n, v / (pow2((n * i) as nat) as int))
}

/// The number of lanes of `n` bits.
pub open spec fn count(n: nat) -> nat {
    128nat / n
}

/// All lanes of `n` bits.
pub open spec fn lanes(n: nat, v: int) -> Seq<int> {
    Seq::new(count(n), |i: int| lane(n, v, i))
}

/// The pattern whose lanes of `n` bits are those of a list.
#[verifier::opaque]
pub open spec fn joined(n: nat, list: Seq<int>) -> int
    decreases list.len(),
{
    if list.len() == 0 {
        0
    } else {
        joined(n, list.drop_last()) + list.last() * pow2((n * (list.len() - 1)) as nat)
    }
}

/// Whether all members of a list are patterns of `n` bits.
pub open spec fn are_patterns(n: nat, list: Seq<int>) -> bool {
    forall|i: int| 0 <= i < list.len() ==> is_pattern(n, #[trigger] list[i])
}

/// A pattern made of lanes is no wider than they are together.
pub proof fn lemma_joined_bound(n: nat, list: Seq<int>)
    requires
        are_patterns(n, list),
    ensures
        is_pattern((n * list.len()) as nat, joined(n, list)),
    decreases list.len(),
{
    reveal(lane);
    reveal(joined);
    lemma2_to64();
    if list.len() > 0 {
        let k = (list.len() - 1) as nat;
        let rest = list.drop_last();
        assert forall|i: int| 0 <= i < rest.len() implies is_pattern(n, #[trigger] rest[i]) by {
            assert(rest[i] == list[i]);
        }
        lemma_joined_bound(n, rest);
        let p = pow2((n * k) as nat) as int;
        let q = pow2(n) as int;
        lemma_pow2_adds((n * k) as nat, n);
        assert(n * k + n == n * list.len()) by (nonlinear_arith)
            requires
                k == list.len() - 1,
        ;
        assert(is_pattern(n, list[list.len() - 1]));
        let x = joined(n, rest);
        let y = list.last();
        assert(0 <= x + y * p < p * q) by (nonlinear_arith)
            requires
                0 <= x < p,
                0 <= y < q,
        ;
    } else {
        assert(n * list.len() == 0) by (nonlinear_arith)
            requires
                list.len() == 0,
        ;
    }
}

/// Lanes that were joined are found again.
pub proof fn lemma_lane_of_joined(n: nat, list: Seq<int>, i: int)
    requires
        are_patterns(n, list),
        0 <= i < list.len(),
    ensures
        lane(n, joined(n, list), i) == list[i],
    decreases list.len(),
{
    reveal(lane);
    reveal(joined);
    let k = (list.len() - 1) as nat;
    let rest = list.drop_last();
    assert forall|j: int| 0 <= j < rest.len() implies is_pattern(n, #[trigger] rest[j]) by {
        assert(rest[j] == list[j]);
    }
    lemma_joined_bound(n, rest);
    let p = pow2((n * k) as nat) as int;
    let q = pow2(n) as int;
    let x = joined(n, rest);
    let y = list.last();
    lemma_pow2_pos((n * k) as nat);
    lemma_pow2_pos(n);
    assert(is_pattern(n, list[list.len() - 1]));
    if i == k {
        assert(y * p == p * y) by (nonlinear_arith);
        lemma_fundamental_div_mod_converse(x + y * p, p, y, x);
        lemma_small_mod(y as nat, q as nat);
    } else {
        lemma_lane_of_joined(n, rest, i);
        let s = pow2((n * i) as nat) as int;
        let t = pow2((n * (k - i - 1)) as nat) as int;
        lemma_pow2_pos((n * i) as nat);
        assert(n * i >= 0 && n * (k - i - 1) >= 0) by (nonlinear_arith)
            requires
                0 <= i < k,
        ;
        assert(n * i + (n + n * (k - i - 1)) == n * k) by (nonlinear_arith);
        lemma_pow2_adds(n, (n * (k - i - 1)) as nat);
        lemma_pow2_adds((n * i) as nat, (n + n * (k - i - 1)) as nat);
        assert(p == s * (q * t));
        assert(x + y * p == s * (y * (q * t)) + x) by (nonlinear_arith)
            requires
                p == s * (q * t),
        ;
        lemma_fundamental_div_mod(x, s);
        lemma_mod_bound(x, s);
        assert(x + y * p == s * (y * (q * t) + x / s) + x % s) by (nonlinear_arith)
            requires
                x + y * p == s * (y * (q * t)) + x,
                x == s * (x / s) + x % s,
        ;
        lemma_fundamental_div_mod_converse(x + y * p, s, y * (q * t) + x / s, x % s);
        assert((y * (q * t) + x / s) % q == (x / s) % q) by {
            assert(y * (q * t) == q * (y * t)) by (nonlinear_arith);
            vstd::arithmetic::div_mod::lemma_mod_multiples_vanish(y * t, x / s, q);
        }
    }
}

/// The low bits of a number are a pattern.
pub proof fn lemma_wrap(n: nat, x: int)
    ensures
        is_pattern(n, wrap(n, x)),
        is_pattern(n, x) ==> wrap(n, x) == x,
{
    lemma_pow2_pos(n);
    lemma_mod_bound(x, pow2(n) as int);
    if is_pattern(n, x) {
        lemma_small_mod(x as nat, pow2(n));
    }
}

} // verus!
