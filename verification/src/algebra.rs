//! Arithmetic in the exponent.
//!
//! G1, G2 and GT of BLS12-381 are cyclic of the same prime order `r`, so an
//! element of any of them is a multiple `k * g` of that group's fixed
//! generator, with a unique `k` in `0..r`. The contracts of this crate speak
//! of group elements through that exponent: adding two points adds their
//! exponents, multiplying a point by a scalar multiplies its exponent, and the
//! pairing of `a * g1` with `b * g2` is `e(g1, g2)` raised to `a * b`.
//! Everything here is therefore arithmetic modulo `r`. That `r` is prime is
//! proved in `certificate`.
use vstd::prelude::*;
use vstd::arithmetic::div_mod::{
    lemma_add_mod_noop, lemma_add_mod_noop_right, lemma_mod_bound, lemma_mod_equivalence,
    lemma_mul_mod_noop_general, lemma_small_mod, lemma_sub_mod_noop, lemma_sub_mod_noop_right,
};
use vstd::seq_lib::{commutative_foldl, lemma_fold_left_permutation};
use crate::certificate::lemma_order_is_prime;
use crate::number_theory::{lemma_inverse_modulo_prime, lemma_prime_divides_product};

verus! {

/// The order `r` of G1, G2 and GT, which is also the size of the scalar field.
pub open spec fn order() -> nat {
    0x73eda753299d7d483339d80809a1d80553bda402fffe5bfeffffffff00000001nat
}

/// The representative in `0..r` of the residue class of `x`.
pub open spec fn reduce(x: int) -> nat {
    (x % (order() as int)) as nat
}

/// Sum modulo `r`: the exponent of the sum of two points.
pub open spec fn fadd(a: nat, b: nat) -> nat {
    reduce((a + b) as int)
}

/// Additive inverse modulo `r`: the exponent of the negated point.
pub open spec fn fneg(a: nat) -> nat {
    reduce(0 - a)
}

/// Difference modulo `r`.
pub open spec fn fsub(a: nat, b: nat) -> nat {
    reduce(a - b)
}

/// Product modulo `r`: the exponent of a point multiplied by a scalar.
pub open spec fn fmul(a: nat, b: nat) -> nat {
    reduce((a * b) as int)
}

/// The exponent of the generator of G1 (and of G2, and of `e(g1, g2)` in GT).
pub open spec fn generator() -> nat {
    1
}

/// The exponent of `e(p, q)` in GT, for `p` in G1 and `q` in G2: the pairing
/// is bilinear, so exponents multiply.
pub open spec fn pairing(p: nat, q: nat) -> nat {
    fmul(p, q)
}

/// The exponent of the sum of a sequence of points of one group.
pub open spec fn sum(s: Seq<nat>) -> nat
    decreases s.len(),
{
    if s.len() == 0 {
        0
    } else {
        fadd(sum(s.drop_last()), s.last())
    }
}

/// Whether `b` is the inverse of `a` in the scalar field.
pub open spec fn is_inverse(a: nat, b: nat) -> bool {
    b < order() && fmul(a, b) == 1
}

/// The inverse of `a` in the scalar field, where it has one.
pub open spec fn finv(a: nat) -> nat {
    choose|b: nat| is_inverse(a, b)
}

/// `reduce` lands in `0..r`.
pub proof fn lemma_reduce_bound(x: int)
    ensures
        reduce(x) < order(),
        reduce(x) as int == x % (order() as int),
{
    lemma_mod_bound(x, order() as int);
}

/// `reduce` leaves what is already in `0..r` alone.
pub proof fn lemma_reduce_small(x: int)
    requires
        0 <= x < order(),
    ensures
        reduce(x) == x,
{
    lemma_small_mod(x as nat, order());
}

/// Reducing an operand of a sum first changes nothing.
pub proof fn lemma_reduce_add(x: int, y: int)
    ensures
        reduce((reduce(x) + reduce(y)) as int) == reduce(x + y),
        reduce(reduce(x) + y) == reduce(x + y),
        reduce(x + reduce(y)) == reduce(x + y),
{
    let m = order() as int;
    lemma_reduce_bound(x);
    lemma_reduce_bound(y);
    lemma_add_mod_noop(x, y, m);
    lemma_add_mod_noop_right(x, y, m);
    lemma_add_mod_noop_right(y, x, m);
    assert(reduce(x) + y == y + reduce(x));
    assert(x + y == y + x);
}

/// Reducing an operand of a difference first changes nothing.
pub proof fn lemma_reduce_sub(x: int, y: int)
    ensures
        reduce(reduce(x) - reduce(y)) == reduce(x - y),
        reduce(reduce(x) - y) == reduce(x - y),
        reduce(x - reduce(y)) == reduce(x - y),
{
    let m = order() as int;
    lemma_reduce_bound(x);
    lemma_reduce_bound(y);
    lemma_sub_mod_noop(x, y, m);
    lemma_sub_mod_noop_right(x, y, m);
    lemma_add_mod_noop_right(0 - y, x, m);
    assert(reduce(x) - y == (0 - y) + reduce(x));
    assert(x - y == (0 - y) + x);
}

/// Reducing an operand of a product first changes nothing.
pub proof fn lemma_reduce_mul(x: int, y: int)
    ensures
        reduce((reduce(x) * reduce(y)) as int) == reduce(x * y),
        reduce(reduce(x) * y) == reduce(x * y),
        reduce(x * reduce(y)) == reduce(x * y),
{
    lemma_reduce_bound(x);
    lemma_reduce_bound(y);
    lemma_mul_mod_noop_general(x, y, order() as int);
}

/// Addition modulo `r` is commutative and associative.
pub proof fn lemma_fadd_assoc_comm(a: nat, b: nat, c: nat)
    ensures
        fadd(a, b) == fadd(b, a),
        fadd(fadd(a, b), c) == fadd(a, fadd(b, c)),
{
    assert(a + b == b + a);
    lemma_reduce_add((a + b) as int, c as int);
    lemma_reduce_add(a as int, (b + c) as int);
    assert((a + b) + c == a + (b + c));
}

/// Zero is neutral for addition modulo `r`.
pub proof fn lemma_fadd_zero(a: nat)
    ensures
        fadd(a, 0) == reduce(a as int),
        fadd(0, a) == reduce(a as int),
        a < order() ==> fadd(a, 0) == a && fadd(0, a) == a,
{
    if a < order() {
        lemma_reduce_small(a as int);
    }
}

/// Multiplication modulo `r` is commutative and associative.
pub proof fn lemma_fmul_assoc_comm(a: nat, b: nat, c: nat)
    ensures
        fmul(a, b) == fmul(b, a),
        fmul(fmul(a, b), c) == fmul(a, fmul(b, c)),
{
    assert(a * b == b * a) by (nonlinear_arith);
    assert((a * b) * c == a * (b * c)) by (nonlinear_arith);
    lemma_reduce_mul((a * b) as int, c as int);
    lemma_reduce_mul(a as int, (b * c) as int);
}

/// One is neutral for multiplication modulo `r`.
pub proof fn lemma_fmul_one(a: nat)
    ensures
        fmul(1, a) == reduce(a as int),
        fmul(a, 1) == reduce(a as int),
        a < order() ==> fmul(1, a) == a && fmul(a, 1) == a,
{
    assert(1 * a == a && a * 1 == a) by (nonlinear_arith);
    if a < order() {
        lemma_reduce_small(a as int);
    }
}

/// Zero annihilates under multiplication modulo `r`.
pub proof fn lemma_fmul_zero(a: nat)
    ensures
        fmul(0, a) == 0,
        fmul(a, 0) == 0,
{
    assert(0 * a == 0 && a * 0 == 0) by (nonlinear_arith);
    lemma_reduce_small(0);
}

/// Multiplication modulo `r` distributes over addition and subtraction.
pub proof fn lemma_fmul_distributes(a: nat, b: nat, c: nat)
    ensures
        fmul(fadd(a, b), c) == fadd(fmul(a, c), fmul(b, c)),
        fmul(fsub(a, b), c) == fsub(fmul(a, c), fmul(b, c)),
{
    lemma_reduce_mul((a + b) as int, c as int);
    lemma_reduce_add((a * c) as int, (b * c) as int);
    assert((a + b) * c == a * c + b * c) by (nonlinear_arith);
    lemma_reduce_mul(a - b, c as int);
    lemma_reduce_sub((a * c) as int, (b * c) as int);
    assert((a - b) * c == a * c - b * c) by (nonlinear_arith);
}

/// Subtracting is adding the negation, and taking away one more term is
/// subtracting a sum that is one term longer.
pub proof fn lemma_fsub_fneg(a: nat, b: nat, c: nat)
    ensures
        fadd(a, fneg(b)) == fsub(a, b),
        fadd(fsub(a, b), fneg(c)) == fsub(a, fadd(b, c)),
{
    lemma_reduce_add(a as int, 0 - b);
    assert(a + (0 - b) == a - b);
    lemma_reduce_add(a - b, 0 - c);
    lemma_reduce_sub(a as int, (b + c) as int);
    assert((a - b) + (0 - c) == a - (b + c));
}

/// Adding back what was taken away gives the start.
pub proof fn lemma_fsub_cancel(a: nat, b: nat)
    ensures
        fadd(fsub(a, b), b) == reduce(a as int),
        fadd(fsub(a, b), reduce(b as int)) == reduce(a as int),
        a < order() ==> fadd(fsub(a, b), b) == a,
{
    lemma_reduce_add(a - b, b as int);
    assert((a - b) + b == a);
    if a < order() {
        lemma_reduce_small(a as int);
    }
}

/// An element of the scalar field has at most one inverse, so `finv` names
/// the inverse wherever there is one.
pub proof fn lemma_inverse_unique(a: nat, b: nat, c: nat)
    requires
        is_inverse(a, b),
    ensures
        is_inverse(a, c) ==> b == c,
        is_inverse(a, finv(a)),
        finv(a) == b,
{
    if is_inverse(a, c) {
        // b = b * (a * c) = (b * a) * c = c
        lemma_fmul_assoc_comm(b, a, c);
        lemma_fmul_assoc_comm(a, b, c);
        lemma_fmul_one(b);
        lemma_fmul_one(c);
    }
    let d = finv(a);
    if is_inverse(a, d) {
        lemma_fmul_assoc_comm(b, a, d);
        lemma_fmul_assoc_comm(a, b, d);
        lemma_fmul_one(b);
        lemma_fmul_one(d);
    }
}

/// The product `e(a, -b) * e(c, d)` is the neutral element of GT exactly when
/// `e(a, b)` and `e(c, d)` are equal.
pub proof fn lemma_pairing_product(a: nat, b: nat, c: nat, d: nat)
    ensures
        (fadd(pairing(a, fneg(b)), pairing(c, d)) == 0) <==> (pairing(a, b) == pairing(c, d)),
{
    let m = order() as int;
    let x = (a * b) as int;
    let y = (c * d) as int;
    assert(pairing(a, fneg(b)) == reduce(-x)) by {
        lemma_reduce_mul(a as int, 0 - b);
        assert(a * (0 - b) == -x) by (nonlinear_arith)
            requires
                x == a * b,
        ;
    }
    lemma_reduce_add(-x, y);
    assert(-x + y == y - x);
    lemma_mod_equivalence(y, x, m);
    lemma_reduce_bound(y - x);
}

/// The sum of a sequence is below the order.
pub proof fn lemma_sum_bound(s: Seq<nat>)
    ensures
        sum(s) < order(),
{
    if s.len() > 0 {
        lemma_reduce_bound((sum(s.drop_last()) + s.last()) as int);
    }
}

/// The sum of the first `i + 1` terms is the sum of the first `i` plus the
/// next one.
pub proof fn lemma_sum_step(s: Seq<nat>, i: int)
    requires
        0 <= i < s.len(),
    ensures
        sum(s.take(i + 1)) == fadd(sum(s.take(i)), s[i]),
{
    assert(s.take(i + 1).drop_last() =~= s.take(i));
}

/// Multiplying every term of a sum by `c` multiplies the sum by `c`.
pub proof fn lemma_sum_scaled(s: Seq<nat>, t: Seq<nat>, c: nat)
    requires
        s.len() == t.len(),
        forall|i: int| 0 <= i < s.len() ==> t[i] == fmul(#[trigger] s[i], c),
    ensures
        sum(t) == fmul(sum(s), c),
    decreases s.len(),
{
    if s.len() == 0 {
        lemma_fmul_zero(c);
    } else {
        lemma_sum_scaled(s.drop_last(), t.drop_last(), c);
        lemma_fmul_distributes(sum(s.drop_last()), s.last(), c);
    }
}

/// The sum of a sequence as a left fold.
pub open spec fn sum_as_fold(s: Seq<nat>) -> nat {
    s.fold_left(0nat, |acc: nat, x: nat| fadd(acc, x))
}

/// The recursive sum and the fold agree.
pub proof fn lemma_sum_is_fold(s: Seq<nat>)
    ensures
        sum(s) == sum_as_fold(s),
    decreases s.len(),
{
    if s.len() > 0 {
        lemma_sum_is_fold(s.drop_last());
    }
}

/// Aggregation does not depend on order: two sequences that hold the same
/// terms, each as often as the other, have the same sum.
pub proof fn law_sum_order_free(s: Seq<nat>, t: Seq<nat>)
    requires
        s.to_multiset() == t.to_multiset(),
    ensures
        sum(s) == sum(t),
{
    let f = |acc: nat, x: nat| fadd(acc, x);
    assert(commutative_foldl(f)) by {
        assert forall|x: nat, y: nat, v: nat| #[trigger] f(f(v, x), y) == f(f(v, y), x) by {
            lemma_fadd_assoc_comm(v, x, y);
            lemma_fadd_assoc_comm(v, y, x);
            lemma_fadd_assoc_comm(x, y, 0);
        }
    }
    lemma_fold_left_permutation(s, t, f, 0nat);
    lemma_sum_is_fold(s);
    lemma_sum_is_fold(t);
}

/// Aggregation is associative: the sum of a concatenation is the sum of the
/// sums of its parts.
pub proof fn law_sum_concat(s: Seq<nat>, t: Seq<nat>)
    ensures
        sum(s + t) == fadd(sum(s), sum(t)),
    decreases t.len(),
{
    if t.len() == 0 {
        assert(s + t =~= s);
        lemma_sum_bound(s);
        lemma_fadd_zero(sum(s));
    } else {
        assert((s + t).drop_last() =~= s + t.drop_last());
        law_sum_concat(s, t.drop_last());
        lemma_fadd_assoc_comm(sum(s), sum(t.drop_last()), t.last());
    }
}

/// The order is prime, so a product of scalars that are not zero is not
/// zero.
pub proof fn lemma_fmul_nonzero(a: nat, b: nat)
    requires
        reduce(a as int) != 0,
        reduce(b as int) != 0,
    ensures
        fmul(a, b) != 0,
{
    lemma_order_is_prime();
    if fmul(a, b) == 0 {
        lemma_prime_divides_product(order(), a, b);
    }
}

/// The order is prime, so a factor that is not zero can be cancelled.
pub proof fn lemma_fmul_cancel(a: nat, b: nat, c: nat)
    requires
        reduce(c as int) != 0,
        fmul(a, c) == fmul(b, c),
    ensures
        reduce(a as int) == reduce(b as int),
{
    lemma_order_is_prime();
    let m = order() as int;
    // (a - b) * c is a multiple of the order, and c is not
    assert((a * c) - (b * c) == (a - b) * c) by (nonlinear_arith);
    lemma_mod_equivalence((a * c) as int, (b * c) as int, m);
    lemma_mod_equivalence(a as int, b as int, m);
    if a >= b {
        let d = (a - b) as nat;
        lemma_prime_divides_product(order(), d, c);
    } else {
        let d = (b - a) as nat;
        assert((b * c) - (a * c) == (b - a) * c) by (nonlinear_arith);
        lemma_mod_equivalence((b * c) as int, (a * c) as int, m);
        lemma_mod_equivalence(b as int, a as int, m);
        lemma_prime_divides_product(order(), d, c);
    }
}

/// The order is prime, so every scalar that is not zero has an inverse, which
/// `finv` names.
pub proof fn lemma_inverse_exists(a: nat)
    requires
        reduce(a as int) != 0,
    ensures
        is_inverse(a, finv(a)),
{
    lemma_order_is_prime();
    lemma_reduce_bound(a as int);
    let b = lemma_inverse_modulo_prime(order(), a);
    lemma_inverse_unique(a, b, b);
}

} // verus!
