//! Elementary number theory: divisibility, primes, powers and the order of a
//! number modulo a prime, as far as a proof of primality needs them.
use vstd::prelude::*;
use vstd::arithmetic::div_mod::{
    lemma_fundamental_div_mod, lemma_fundamental_div_mod_converse, lemma_mod_bound,
    lemma_mod_equivalence, lemma_mod_mod, lemma_mod_multiples_basic, lemma_mod_self_0,
    lemma_mul_mod_noop_general, lemma_small_mod,
};

verus! {

/// Whether `d` divides `n`.
pub open spec fn divides(d: nat, n: nat) -> bool {
    d > 0 && n % d == 0
}

/// Whether `p` is a prime number.
pub open spec fn is_prime(p: nat) -> bool {
    p >= 2 && forall|d: nat| 1 < d < p ==> #[trigger] (p % d) != 0
}

/// `base` to the power `exponent`.
pub open spec fn power(base: nat, exponent: nat) -> nat
    decreases exponent,
{
    if exponent == 0 {
        1
    } else {
        base * power(base, (exponent - 1) as nat)
    }
}

/// Whether `o` is the order of `a` modulo `p`: the least positive exponent
/// with which `a` is congruent to one.
pub open spec fn is_order(a: nat, p: nat, o: nat) -> bool {
    &&& o > 0
    &&& power(a, o) % p == 1
    &&& forall|k: nat| 0 < k < o ==> #[trigger] power(a, k) % p != 1
}

/// A number divides its multiples.
pub proof fn lemma_divides_multiple(d: nat, k: nat)
    requires
        d > 0,
    ensures
        divides(d, d * k),
        divides(d, k * d),
{
    lemma_mod_multiples_basic(k as int, d as int);
    assert(d * k == k * d) by (nonlinear_arith);
}

/// What a number divides is that number times the quotient.
pub proof fn lemma_divides_quotient(d: nat, n: nat)
    requires
        divides(d, n),
    ensures
        n == d * (n / d),
        n == (n / d) * d,
{
    lemma_fundamental_div_mod(n as int, d as int);
    assert(d * (n / d) == (n / d) * d) by (nonlinear_arith);
}

/// Divisibility is transitive.
pub proof fn lemma_divides_transitive(a: nat, b: nat, c: nat)
    requires
        divides(a, b),
        divides(b, c),
    ensures
        divides(a, c),
{
    lemma_divides_quotient(a, b);
    lemma_divides_quotient(b, c);
    let x = b / a;
    let y = c / b;
    assert(c == a * (x * y)) by (nonlinear_arith)
        requires
            c == b * y,
            b == a * x,
    ;
    lemma_divides_multiple(a, x * y);
}

/// A divisor of a positive number is at most that number.
pub proof fn lemma_divisor_bound(d: nat, n: nat)
    requires
        divides(d, n),
        n > 0,
    ensures
        d <= n,
{
    if d > n {
        lemma_small_mod(n, d);
    }
}

/// A common factor that is not zero can be cancelled from a divisibility.
pub proof fn lemma_divides_cancel(d: nat, k: nat, n: nat)
    requires
        d > 0,
        divides(d * k, d * n),
    ensures
        divides(k, n),
{
    lemma_divides_quotient(d * k, d * n);
    let t = (d * n) / (d * k);
    assert(k > 0) by (nonlinear_arith)
        requires
            d * k > 0,
    ;
    assert(n == k * t) by (nonlinear_arith)
        requires
            d * n == (d * k) * t,
            d > 0,
    ;
    lemma_divides_multiple(k, t);
}

/// A prime that divides a product divides one of the factors.
pub proof fn lemma_prime_divides_product(p: nat, a: nat, b: nat)
    requires
        is_prime(p),
        (a * b) % p == 0,
    ensures
        a % p == 0 || b % p == 0,
    decreases a,
{
    let m = p as int;
    if a % p == 0 {
    } else if a >= p {
        lemma_mul_mod_noop_general(a as int, b as int, m);
        lemma_mod_bound(a as int, m);
        lemma_prime_divides_product(p, a % p, b);
        lemma_small_mod(a % p, p);
    } else if a == 1 {
        assert(1 * b == b) by (nonlinear_arith);
    } else {
        lemma_small_mod(a, p);
        let q = p / a;
        let r = p % a;
        assert(r != 0);
        lemma_fundamental_div_mod(m, a as int);
        lemma_mod_bound(m, a as int);
        let k = (a * b) as int / m;
        lemma_fundamental_div_mod((a * b) as int, m);
        assert(r * b == (b - q * k) * p) by (nonlinear_arith)
            requires
                p == a * q + r,
                a * b == p * k,
        ;
        lemma_mod_multiples_basic(b - q * k, m);
        lemma_prime_divides_product(p, r, b);
        lemma_small_mod(r, p);
    }
}

/// Every number from two on has a prime divisor.
pub proof fn lemma_prime_divisor(n: nat) -> (p: nat)
    requires
        n >= 2,
    ensures
        is_prime(p),
        divides(p, n),
        p <= n,
    decreases n,
{
    if is_prime(n) {
        lemma_mod_self_0(n as int);
        n
    } else {
        let d = choose|d: nat| 1 < d < n && #[trigger] (n % d) == 0;
        let p = lemma_prime_divisor(d);
        lemma_divides_transitive(p, d, n);
        p
    }
}

/// A number from two on that is not prime has a prime divisor whose square
/// does not exceed it.
pub proof fn lemma_small_prime_divisor(n: nat) -> (p: nat)
    requires
        n >= 2,
        !is_prime(n),
    ensures
        is_prime(p),
        divides(p, n),
        p * p <= n,
{
    let d = choose|d: nat| 1 < d < n && #[trigger] (n % d) == 0;
    let e = n / d;
    lemma_divides_quotient(d, n);
    assert(1 < e < n) by (nonlinear_arith)
        requires
            n == d * e,
            1 < d < n,
    ;
    lemma_divides_multiple(e, d);
    let m = if d <= e {
        d
    } else {
        e
    };
    assert(m * m <= n) by (nonlinear_arith)
        requires
            n == d * e,
            m <= d,
            m <= e,
    ;
    let p = lemma_prime_divisor(m);
    lemma_divides_transitive(p, m, n);
    assert(p * p <= m * m) by (nonlinear_arith)
        requires
            p <= m,
    ;
    p
}

/// Trial division: a number from two on that no number from two up to `bound`
/// divides is prime, if the square of `bound + 1` exceeds it.
pub proof fn lemma_trial_division(n: nat, bound: nat)
    requires
        n >= 2,
        n < (bound + 1) * (bound + 1),
        forall|d: nat| 2 <= d <= bound ==> #[trigger] (n % d) != 0,
    ensures
        is_prime(n),
{
    if !is_prime(n) {
        let p = lemma_small_prime_divisor(n);
        assert(p <= bound) by (nonlinear_arith)
            requires
                p * p <= n,
                n < (bound + 1) * (bound + 1),
        ;
        assert(n % p != 0);
    }
}

/// A power of a positive number is positive.
pub proof fn lemma_power_positive(base: nat, exponent: nat)
    requires
        base > 0,
    ensures
        power(base, exponent) > 0,
    decreases exponent,
{
    if exponent > 0 {
        lemma_power_positive(base, (exponent - 1) as nat);
        assert(base * power(base, (exponent - 1) as nat) > 0) by (nonlinear_arith)
            requires
                base > 0,
                power(base, (exponent - 1) as nat) > 0,
        ;
    }
}

/// The first powers of a number.
pub proof fn lemma_power_small(base: nat)
    ensures
        power(base, 0) == 1,
        power(base, 1) == base,
        power(base, 2) == base * base,
{
    assert(power(base, 0) == 1);
    assert(power(base, 1) == base * power(base, 0));
    assert(base * 1 == base) by (nonlinear_arith);
    assert(power(base, 2) == base * power(base, 1));
}

/// Exponents add up when powers of one base are multiplied.
pub proof fn lemma_power_add(base: nat, m: nat, n: nat)
    ensures
        power(base, m + n) == power(base, m) * power(base, n),
    decreases m,
{
    if m == 0 {
        assert(1 * power(base, n) == power(base, n)) by (nonlinear_arith);
    } else {
        lemma_power_add(base, (m - 1) as nat, n);
        assert((m + n - 1) as nat == (m - 1) as nat + n);
        assert(base * (power(base, (m - 1) as nat) * power(base, n)) == (base * power(
            base,
            (m - 1) as nat,
        )) * power(base, n)) by (nonlinear_arith);
    }
}

/// The power with twice the exponent is the square of the power.
pub proof fn lemma_power_double(base: nat, n: nat, value: nat)
    requires
        power(base, n) == value,
    ensures
        power(base, 2 * n) == value * value,
{
    lemma_power_add(base, n, n);
}

/// Exponents multiply when a power is raised to a power.
pub proof fn lemma_power_power(base: nat, m: nat, n: nat)
    ensures
        power(power(base, m), n) == power(base, m * n),
    decreases n,
{
    if n == 0 {
        assert(m * 0 == 0) by (nonlinear_arith);
    } else {
        lemma_power_power(base, m, (n - 1) as nat);
        assert(m * n == m + m * (n - 1)) by (nonlinear_arith)
            requires
                n > 0,
        ;
        assert(m * (n - 1) >= 0) by (nonlinear_arith)
            requires
                n > 0,
        ;
        lemma_power_add(base, m, (m * (n - 1)) as nat);
    }
}

/// The residue of a power depends on the residue of the base alone.
pub proof fn lemma_power_residue(base: nat, exponent: nat, modulus: nat)
    requires
        modulus > 0,
    ensures
        power(base % modulus, exponent) % modulus == power(base, exponent) % modulus,
    decreases exponent,
{
    if exponent > 0 {
        let e = (exponent - 1) as nat;
        lemma_power_residue(base, e, modulus);
        lemma_mul_mod_noop_general(
            (base % modulus) as int,
            power(base % modulus, e) as int,
            modulus as int,
        );
        lemma_mul_mod_noop_general(base as int, power(base, e) as int, modulus as int);
    }
}

/// The residue of a product of two powers of one base, from their residues.
pub proof fn lemma_power_add_residue(base: nat, m: nat, n: nat, modulus: nat)
    requires
        modulus > 0,
    ensures
        power(base, m + n) % modulus == ((power(base, m) % modulus) * (power(base, n)
            % modulus)) % modulus,
{
    lemma_power_add(base, m, n);
    lemma_mul_mod_noop_general(power(base, m) as int, power(base, n) as int, modulus as int);
}

/// A number that is congruent to one stays so when raised to a power.
pub proof fn lemma_power_of_one(x: nat, exponent: nat, modulus: nat)
    requires
        modulus > 1,
        x % modulus == 1,
    ensures
        power(x, exponent) % modulus == 1,
    decreases exponent,
{
    if exponent == 0 {
        lemma_small_mod(1, modulus);
    } else {
        let e = (exponent - 1) as nat;
        lemma_power_of_one(x, e, modulus);
        lemma_mul_mod_noop_general(x as int, power(x, e) as int, modulus as int);
        lemma_small_mod(1, modulus);
    }
}

/// A congruence modulo a number holds modulo each of its divisors.
pub proof fn lemma_residue_modulo_divisor(x: nat, n: nat, p: nat)
    requires
        divides(p, n),
        n > 0,
    ensures
        (x % n) % p == x % p,
{
    lemma_divides_quotient(p, n);
    let k = n / p;
    assert(k > 0) by (nonlinear_arith)
        requires
            n == p * k,
            n > 0,
    ;
    lemma_mod_mod(x as int, p as int, k as int);
}

/// Where some positive power of `a` is congruent to one modulo `p`, `a` has
/// an order modulo `p`.
pub proof fn lemma_order_exists(a: nat, p: nat, n: nat) -> (o: nat)
    requires
        n > 0,
        power(a, n) % p == 1,
    ensures
        is_order(a, p, o),
        o <= n,
    decreases n,
{
    if forall|k: nat| 0 < k < n ==> #[trigger] power(a, k) % p != 1 {
        n
    } else {
        let k = choose|k: nat| 0 < k < n && #[trigger] power(a, k) % p == 1;
        lemma_order_exists(a, p, k)
    }
}

/// The powers of `a` with exponents that the order divides are congruent to
/// one.
pub proof fn lemma_order_multiple(a: nat, p: nat, o: nat, n: nat)
    requires
        p > 1,
        is_order(a, p, o),
        divides(o, n),
    ensures
        power(a, n) % p == 1,
{
    lemma_divides_quotient(o, n);
    lemma_power_power(a, o, n / o);
    lemma_power_of_one(power(a, o), n / o, p);
}

/// The order divides every exponent with which `a` is congruent to one.
pub proof fn lemma_order_divides(a: nat, p: nat, o: nat, n: nat)
    requires
        p > 1,
        is_order(a, p, o),
        power(a, n) % p == 1,
    ensures
        divides(o, n),
{
    let t = n / o;
    let r = n % o;
    lemma_fundamental_div_mod(n as int, o as int);
    lemma_mod_bound(n as int, o as int);
    assert(o * t >= 0) by (nonlinear_arith)
        requires
            o >= 0,
            t >= 0,
    ;
    let whole = (o * t) as nat;
    lemma_divides_multiple(o, t);
    lemma_order_multiple(a, p, o, whole);
    lemma_power_add_residue(a, whole, r, p);
    assert(n == whole + r);
    assert((1 * (power(a, r) % p)) % p == power(a, r) % p) by {
        lemma_mod_bound(power(a, r) as int, p as int);
        lemma_small_mod(power(a, r) % p, p);
    }
    if r > 0 {
        assert(power(a, r) % p != 1);
    }
}

/// The pigeonhole principle: if `f` maps the numbers below `n` to numbers
/// below `m` and no two of them to the same number, `n` is at most `m`.
pub proof fn lemma_pigeonhole(f: spec_fn(nat) -> nat, n: nat, m: nat)
    requires
        forall|i: nat| i < n ==> #[trigger] f(i) < m,
        forall|i: nat, j: nat| i < j < n ==> #[trigger] f(i) != #[trigger] f(j),
    ensures
        n <= m,
    decreases m,
{
    if n == 0 {
    } else if m == 0 {
        assert(f(0) < m);
    } else {
        let last = (n - 1) as nat;
        let top = (m - 1) as nat;
        // whatever is mapped to the top is sent where the last one went
        let g = |i: nat|
            if f(i) == top {
                f(last)
            } else {
                f(i)
            };
        assert forall|i: nat| i < last implies #[trigger] g(i) < top by {
            assert(f(i) < m);
            assert(f(last) < m);
            if f(i) == top {
                assert(f(i) != f(last));
            }
        }
        assert forall|i: nat, j: nat| i < j < last implies #[trigger] g(i) != #[trigger] g(j) by {
            assert(f(i) != f(j));
            assert(f(i) != f(last));
            assert(f(j) != f(last));
        }
        lemma_pigeonhole(g, last, top);
    }
}

/// No power of `a` with an exponent below the order is a multiple of `p`.
proof fn lemma_powers_not_zero(a: nat, p: nat, o: nat, k: nat)
    requires
        p > 1,
        is_order(a, p, o),
        k < o,
    ensures
        power(a, k) % p != 0,
{
    if power(a, k) % p == 0 {
        lemma_power_add_residue(a, k, (o - k) as nat, p);
        assert(0 * (power(a, (o - k) as nat) % p) == 0) by (nonlinear_arith);
        lemma_small_mod(0, p);
    }
}

/// No two powers of `a` with exponents below the order are congruent modulo a
/// prime `p`.
proof fn lemma_powers_distinct(a: nat, p: nat, o: nat, i: nat, j: nat)
    requires
        is_prime(p),
        is_order(a, p, o),
        i < j < o,
    ensures
        power(a, i) % p != power(a, j) % p,
{
    let u = power(a, i);
    let d = (j - i) as nat;
    let w = power(a, d);
    if u % p == power(a, j) % p {
        lemma_power_add(a, i, d);
        assert(power(a, j) == u * w);
        lemma_powers_not_zero(a, p, o, i);
        lemma_powers_not_zero(a, p, o, d);
        assert(w > 0) by {
            if w == 0 {
                lemma_small_mod(0, p);
            }
        }
        // p divides u * w - u = u * (w - 1), and does not divide u
        let v = (w - 1) as nat;
        assert(u * w == u * v + u) by (nonlinear_arith)
            requires
                w == v + 1,
        ;
        assert((u * v) % p == 0) by {
            lemma_mod_equivalence(
                (u * w) as int,
                u as int,
                p as int,
            );
        }
        lemma_prime_divides_product(p, u, v);
        assert(v % p == 0);
        // so w is congruent to one, with an exponent below the order
        assert(w % p == 1) by {
            lemma_mod_equivalence(w as int, 1, p as int);
            lemma_small_mod(1, p);
        }
        assert(power(a, d) % p != 1);
    }
}

/// The order of a number modulo a prime is below that prime.
pub proof fn lemma_order_below_prime(a: nat, p: nat, o: nat)
    requires
        is_prime(p),
        is_order(a, p, o),
    ensures
        o < p,
{
    let f = |k: nat| ((power(a, k) % p) - 1) as nat;
    assert forall|k: nat| k < o implies #[trigger] f(k) < (p - 1) as nat by {
        lemma_powers_not_zero(a, p, o, k);
        lemma_mod_bound(power(a, k) as int, p as int);
    }
    assert forall|i: nat, j: nat| i < j < o implies #[trigger] f(i) != #[trigger] f(j) by {
        lemma_powers_not_zero(a, p, o, i);
        lemma_powers_not_zero(a, p, o, j);
        lemma_powers_distinct(a, p, o, i, j);
    }
    lemma_pigeonhole(f, o, (p - 1) as nat);
}

/// Modulo a prime, every number that the prime does not divide has an
/// inverse: multiplying by it maps the residues to distinct residues, so that
/// none of them is left out, and one of them is mapped to one.
pub proof fn lemma_inverse_modulo_prime(p: nat, a: nat) -> (b: nat)
    requires
        is_prime(p),
        a % p != 0,
    ensures
        b < p,
        (a * b) % p == 1,
{
    let f = |x: nat| (a * x) % p;
    if forall|x: nat| x < p ==> #[trigger] f(x) != 1 {
        // then the residues are mapped to distinct residues other than one
        let g = |x: nat|
            if f(x) == 0 {
                0nat
            } else {
                (f(x) - 1) as nat
            };
        assert forall|x: nat| x < p implies #[trigger] g(x) < (p - 1) as nat by {
            lemma_mod_bound((a * x) as int, p as int);
            assert(f(x) != 1);
        }
        assert forall|x: nat, y: nat| x < y < p implies #[trigger] g(x) != #[trigger] g(y) by {
            assert(f(x) != 1);
            assert(f(y) != 1);
            if f(x) == f(y) {
                // p divides a * (y - x), but neither a nor y - x
                let d = (y - x) as nat;
                assert(a * y - a * x == a * d) by (nonlinear_arith)
                    requires
                        d == y - x,
                ;
                lemma_mod_equivalence(
                    (a * y) as int,
                    (a * x) as int,
                    p as int,
                );
                lemma_prime_divides_product(p, a, d);
                lemma_small_mod(d, p);
            }
        }
        lemma_pigeonhole(g, p, (p - 1) as nat);
        0
    } else {
        choose|x: nat| x < p && #[trigger] f(x) == 1
    }
}

/// A power of a prime that divides a product whose second factor the prime
/// does not divide divides the first factor.
pub proof fn lemma_prime_power_divides_factor(q: nat, e: nat, o: nat, c: nat)
    requires
        is_prime(q),
        c % q != 0,
        divides(power(q, e), o * c),
    ensures
        divides(power(q, e), o),
    decreases e,
{
    if e == 0 {
        lemma_small_mod(0, 1);
        assert(o % 1 == 0) by {
            lemma_mod_multiples_basic(o as int, 1);
            assert(o * 1 == o) by (nonlinear_arith);
        }
    } else {
        let rest = power(q, (e - 1) as nat);
        lemma_power_positive(q, (e - 1) as nat);
        // q divides o * c, so it divides o
        lemma_divides_multiple(q, rest);
        lemma_divides_transitive(q, q * rest, o * c);
        lemma_prime_divides_product(q, o, c);
        lemma_divides_quotient(q, o);
        let o1 = o / q;
        // cancel q and go on with the smaller power
        assert(o * c == q * (o1 * c)) by (nonlinear_arith)
            requires
                o == q * o1,
        ;
        lemma_divides_cancel(q, rest, o1 * c);
        lemma_prime_power_divides_factor(q, (e - 1) as nat, o1, c);
        lemma_divides_quotient(rest, o1);
        let t = o1 / rest;
        assert(o == (q * rest) * t) by (nonlinear_arith)
            requires
                o == q * o1,
                o1 == rest * t,
        ;
        lemma_divides_multiple(q * rest, t);
    }
}

/// Two divisors of a number, one of them a power of a prime that does not
/// divide the other, have a product that divides the number.
pub proof fn lemma_coprime_product_divides(a: nat, q: nat, e: nat, o: nat)
    requires
        is_prime(q),
        a % q != 0,
        divides(a, o),
        divides(power(q, e), o),
    ensures
        divides(a * power(q, e), o),
{
    lemma_divides_quotient(a, o);
    let y = o / a;
    assert(o == y * a);
    lemma_prime_power_divides_factor(q, e, y, a);
    lemma_divides_quotient(power(q, e), y);
    let z = y / power(q, e);
    lemma_power_positive(q, e);
    assert(o == (a * power(q, e)) * z) by (nonlinear_arith)
        requires
            o == a * y,
            y == power(q, e) * z,
    ;
    assert(a * power(q, e) > 0) by (nonlinear_arith)
        requires
            a > 0,
            power(q, e) > 0,
    ;
    lemma_divides_multiple(a * power(q, e), z);
}

/// The heart of the test of Pocklington: if the order of `a` modulo `p`
/// divides `m` and not `m / q`, for a prime `q`, every power of `q` that
/// divides `m` divides the order.
pub proof fn lemma_prime_power_in_order(a: nat, p: nat, o: nat, m: nat, q: nat, e: nat)
    requires
        p > 1,
        is_order(a, p, o),
        is_prime(q),
        e >= 1,
        divides(power(q, e), m),
        power(a, m) % p == 1,
        power(a, m / q) % p != 1,
    ensures
        divides(power(q, e), o),
{
    lemma_order_divides(a, p, o, m);
    lemma_divides_quotient(o, m);
    let c = m / o;
    // q divides m
    let rest = power(q, (e - 1) as nat);
    lemma_divides_multiple(q, rest);
    lemma_divides_transitive(q, q * rest, m);
    lemma_divides_quotient(q, m);
    if c % q == 0 {
        // then the order would divide m / q
        lemma_divides_quotient(q, c);
        let c1 = c / q;
        assert(m / q == o * c1) by (nonlinear_arith)
            requires
                m == o * c,
                c == q * c1,
                m == q * (m / q),
                q > 0,
        ;
        lemma_divides_multiple(o, c1);
        lemma_order_multiple(a, p, o, m / q);
    }
    lemma_prime_power_divides_factor(q, e, o, c);
}

/// Whether `base` to the power `exponent` leaves `residue` modulo `modulus`.
#[verifier::opaque]
pub open spec fn has_residue(base: nat, exponent: nat, modulus: nat, residue: nat) -> bool {
    power(base, exponent) % modulus == residue
}

/// The power zero of a number leaves one.
pub proof fn lemma_zeroth_power(base: nat, modulus: nat)
    requires
        modulus > 1,
    ensures
        has_residue(base, 0, modulus, 1),
{
    reveal(has_residue);
    lemma_small_mod(1, modulus);
}

/// A step of exponentiation by squaring: the square of a power has twice its
/// exponent. The quotient by the modulus is given along with the residue.
pub proof fn lemma_square(
    base: nat,
    modulus: nat,
    exponent: nat,
    residue: nat,
    quotient: nat,
    next: nat,
) -> (to: nat)
    requires
        has_residue(base, exponent, modulus, residue),
        residue * residue == quotient * modulus + next,
        next < modulus,
    ensures
        to == 2 * exponent,
        has_residue(base, to, modulus, next),
{
    reveal(has_residue);
    lemma_power_add_residue(base, exponent, exponent, modulus);
    lemma_fundamental_div_mod_converse(
        (residue * residue) as int,
        modulus as int,
        quotient as int,
        next as int,
    );
    2 * exponent
}

/// A step of exponentiation by squaring: a power times the base has its
/// exponent and one. The quotient by the modulus is given along with the
/// residue.
pub proof fn lemma_multiply(
    base: nat,
    modulus: nat,
    exponent: nat,
    residue: nat,
    quotient: nat,
    next: nat,
) -> (to: nat)
    requires
        has_residue(base, exponent, modulus, residue),
        residue * base == quotient * modulus + next,
        next < modulus,
    ensures
        to == exponent + 1,
        has_residue(base, to, modulus, next),
{
    reveal(has_residue);
    lemma_power_add_residue(base, exponent, 1, modulus);
    lemma_power_small(base);
    lemma_mul_mod_noop_general(power(base, exponent) as int, base as int, modulus as int);
    lemma_fundamental_div_mod_converse(
        (residue * base) as int,
        modulus as int,
        quotient as int,
        next as int,
    );
    exponent + 1
}

/// A power of a residue of a power: exponents multiply.
pub proof fn lemma_power_chain(
    base: nat,
    modulus: nat,
    first: nat,
    residue: nat,
    second: nat,
    next: nat,
    product: nat,
)
    requires
        modulus > 0,
        has_residue(base, first, modulus, residue),
        has_residue(residue, second, modulus, next),
        first * second == product,
    ensures
        has_residue(base, product, modulus, next),
{
    reveal(has_residue);
    lemma_power_residue(power(base, first), second, modulus);
    lemma_power_power(base, first, second);
}

/// A power of `a` whose residue modulo `n` is `x`, with `x - 1` invertible
/// modulo `n`, is not congruent to one modulo any divisor of `n` but one.
pub proof fn lemma_not_one_modulo_divisor(
    a: nat,
    m: nat,
    n: nat,
    p: nat,
    x: nat,
    u: nat,
    v: nat,
)
    requires
        n > 0,
        p > 1,
        divides(p, n),
        power(a, m) % n == x,
        x >= 1,
        u * (x - 1) == v * n + 1,
    ensures
        power(a, m) % p != 1,
{
    if power(a, m) % p == 1 {
        lemma_residue_modulo_divisor(power(a, m), n, p);
        assert(x % p == 1);
        // p divides x - 1 and n, hence u * (x - 1) - v * n, which is one
        let y = (x - 1) as nat;
        assert(y % p == 0) by {
            lemma_mod_equivalence(x as int, 1, p as int);
            lemma_small_mod(1, p);
        }
        lemma_divides_quotient(p, y);
        lemma_divides_quotient(p, n);
        let s = y / p;
        let t = n / p;
        assert(1 == p * (u * s - v * t)) by (nonlinear_arith)
            requires
                u * y == v * n + 1,
                y == p * s,
                n == p * t,
        ;
        assert(false) by (nonlinear_arith)
            requires
                1 == p * (u * s - v * t),
                p > 1,
        ;
    }
}

/// One factor of the test of Pocklington. Let `p` divide `n`, and let `o` be
/// the order modulo `p` of a number `a` whose power `n - 1` is congruent to
/// one. If the power `(n - 1) / q` of `a` leaves a residue `x` modulo `n` with
/// `x - 1` invertible modulo `n`, for a prime `q`, then every power of `q`
/// that divides `n - 1` divides `o`.
pub proof fn lemma_pocklington_factor(
    a: nat,
    n: nat,
    p: nat,
    o: nat,
    q: nat,
    e: nat,
    quotient: nat,
    x: nat,
    u: nat,
    v: nat,
)
    requires
        n >= 2,
        p > 1,
        divides(p, n),
        is_order(a, p, o),
        power(a, (n - 1) as nat) % p == 1,
        is_prime(q),
        e >= 1,
        divides(power(q, e), (n - 1) as nat),
        quotient * q == n - 1,
        has_residue(a, quotient, n, x),
        x >= 1,
        u * (x - 1) == v * n + 1,
    ensures
        divides(power(q, e), o),
{
    reveal(has_residue);
    let m = (n - 1) as nat;
    assert(m / q == quotient) by {
        lemma_fundamental_div_mod_converse(m as int, q as int, quotient as int, 0);
        assert(quotient * q == q * quotient) by (nonlinear_arith);
    }
    lemma_not_one_modulo_divisor(a, m / q, n, p, x, u, v);
    lemma_prime_power_in_order(a, p, o, m, q, e);
}

} // verus!
