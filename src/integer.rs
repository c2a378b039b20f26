//! Facts about units over `i64`, whose arithmetic wraps modulo 2^64.
use vstd::prelude::*;
use vstd::arithmetic::div_mod::{lemma_fundamental_div_mod, lemma_mod_multiples_basic};
use crate::scalar::Scalar;
use crate::unit::{Params, dot_upto, net_input};

verus! {

/// The modulus of `i64` arithmetic.
pub open spec fn modulus() -> int {
    0x1_0000_0000_0000_0000
}

/// `a` and `b` are equal modulo 2^64.
pub open spec fn congruent(a: int, b: int) -> bool {
    (a - b) % modulus() == 0
}

/// `x[0] * w[0] + ... + x[k-1] * w[k-1]` computed without wrapping.
pub open spec fn exact_dot(w: Seq<i64>, x: Seq<i64>, k: nat) -> int
    decreases k,
{
    if k == 0 {
        0
    } else {
        exact_dot(w, x, (k - 1) as nat) + x[k - 1] * w[k - 1]
    }
}

/// The vector `a·x + b·y` computed entrywise in `i64`.
pub open spec fn combination(a: i64, x: Seq<i64>, b: i64, y: Seq<i64>) -> Seq<i64> {
    Seq::new(x.len(), |i: int| a.wrapping_mul(x[i]).wrapping_add(b.wrapping_mul(y[i])))
}

proof fn congruent_from_multiple(a: int, b: int, k: int)
    requires
        a - b == k * modulus(),
    ensures
        congruent(a, b),
{
    lemma_mod_multiples_basic(k, modulus());
}

proof fn multiple_from_congruent(a: int, b: int)
    requires
        congruent(a, b),
    ensures
        a - b == ((a - b) / modulus()) * modulus(),
{
    lemma_fundamental_div_mod(a - b, modulus());
    assert(modulus() * ((a - b) / modulus()) == ((a - b) / modulus()) * modulus()) by (nonlinear_arith);
}

proof fn congruent_refl(a: int)
    ensures
        congruent(a, a),
{
    congruent_from_multiple(a, a, 0);
}

proof fn congruent_sym(a: int, b: int)
    requires
        congruent(a, b),
    ensures
        congruent(b, a),
{
    multiple_from_congruent(a, b);
    let k = (a - b) / modulus();
    assert(b - a == (-k) * modulus()) by (nonlinear_arith)
        requires a - b == k * modulus();
    congruent_from_multiple(b, a, -k);
}

proof fn congruent_trans(a: int, b: int, c: int)
    requires
        congruent(a, b),
        congruent(b, c),
    ensures
        congruent(a, c),
{
    multiple_from_congruent(a, b);
    multiple_from_congruent(b, c);
    let k1 = (a - b) / modulus();
    let k2 = (b - c) / modulus();
    assert(a - c == (k1 + k2) * modulus()) by (nonlinear_arith)
        requires a - b == k1 * modulus(), b - c == k2 * modulus();
    congruent_from_multiple(a, c, k1 + k2);
}

proof fn congruent_add(a: int, b: int, c: int, d: int)
    requires
        congruent(a, b),
        congruent(c, d),
    ensures
        congruent(a + c, b + d),
{
    multiple_from_congruent(a, b);
    multiple_from_congruent(c, d);
    let k1 = (a - b) / modulus();
    let k2 = (c - d) / modulus();
    assert((a + c) - (b + d) == (k1 + k2) * modulus()) by (nonlinear_arith)
        requires a - b == k1 * modulus(), c - d == k2 * modulus();
    congruent_from_multiple(a + c, b + d, k1 + k2);
}

proof fn congruent_scale(a: int, b: int, c: int)
    requires
        congruent(a, b),
    ensures
        congruent(c * a, c * b),
{
    multiple_from_congruent(a, b);
    let k = (a - b) / modulus();
    assert(c * a - c * b == (c * k) * modulus()) by (nonlinear_arith)
        requires a - b == k * modulus();
    congruent_from_multiple(c * a, c * b, c * k);
}

proof fn congruent_i64_equal(a: i64, b: i64)
    requires
        congruent(a as int, b as int),
    ensures
        a == b,
{
    multiple_from_congruent(a as int, b as int);
    let k = (a - b) / modulus();
    assert(k == 0) by (nonlinear_arith)
        requires
            a - b == k * modulus(),
            -modulus() < a - b < modulus(),
            modulus() > 0;
}

proof fn wrapping_add_congruent(x: i64, y: i64)
    ensures
        congruent(x.wrapping_add(y) as int, x + y),
{
    if x + y > i64::MAX {
        congruent_from_multiple(x.wrapping_add(y) as int, x + y, -1);
    } else if x + y < i64::MIN {
        congruent_from_multiple(x.wrapping_add(y) as int, x + y, 1);
    } else {
        congruent_from_multiple(x.wrapping_add(y) as int, x + y, 0);
    }
}

proof fn wrapping_mul_congruent(x: i64, y: i64)
    ensures
        congruent(x.wrapping_mul(y) as int, x * y),
{
    let v = x * y;
    lemma_fundamental_div_mod(v, modulus());
    let q = v / modulus();
    let r = v % modulus();
    assert(modulus() * q == q * modulus()) by (nonlinear_arith);
    if r > i64::MAX {
        assert(x.wrapping_mul(y) as int == r - modulus());
        congruent_from_multiple(x.wrapping_mul(y) as int, v, -q - 1);
    } else {
        assert(x.wrapping_mul(y) as int == r);
        congruent_from_multiple(x.wrapping_mul(y) as int, v, -q);
    }
}

/// Over `i64` the weighted sum is the exact one, modulo 2^64.
proof fn dot_congruent(w: Seq<i64>, x: Seq<i64>, k: nat)
    requires
        k <= w.len(),
        k <= x.len(),
    ensures
        congruent(dot_upto(w, x, k) as int, exact_dot(w, x, k)),
    decreases k,
{
    if k == 0 {
        congruent_refl(0);
    } else {
        let k1 = (k - 1) as nat;
        dot_congruent(w, x, k1);
        let d = dot_upto(w, x, k1);
        let t = x[k1 as int].wrapping_mul(w[k1 as int]);
        wrapping_mul_congruent(x[k1 as int], w[k1 as int]);
        wrapping_add_congruent(d, t);
        congruent_add(d as int, exact_dot(w, x, k1), t as int, x[k1 as int] * w[k1 as int]);
        congruent_trans(d.wrapping_add(t) as int, d + t, exact_dot(w, x, k));
    }
}

/// The exact weighted sum of `a·x + b·y`, computed entrywise in `i64`, is
/// `a` times that of `x` plus `b` times that of `y`, modulo 2^64.
proof fn exact_dot_of_combination(w: Seq<i64>, a: i64, x: Seq<i64>, b: i64, y: Seq<i64>, k: nat)
    requires
        x.len() == y.len(),
        k <= w.len(),
        k <= x.len(),
    ensures
        congruent(exact_dot(w, combination(a, x, b, y), k), a * exact_dot(w, x, k) + b * exact_dot(w, y, k)),
    decreases k,
{
    let z = combination(a, x, b, y);
    if k == 0 {
        assert(a * 0 + b * 0 == 0) by (nonlinear_arith);
        congruent_refl(0);
    } else {
        let k1 = (k - 1) as nat;
        let i = k1 as int;
        exact_dot_of_combination(w, a, x, b, y, k1);
        let ax = a.wrapping_mul(x[i]);
        let by = b.wrapping_mul(y[i]);
        wrapping_mul_congruent(a, x[i]);
        wrapping_mul_congruent(b, y[i]);
        wrapping_add_congruent(ax, by);
        congruent_add(ax as int, a * x[i], by as int, b * y[i]);
        congruent_trans(z[i] as int, ax + by, a * x[i] + b * y[i]);
        congruent_scale(z[i] as int, a * x[i] + b * y[i], w[i] as int);
        let ex = exact_dot(w, x, k1);
        let ey = exact_dot(w, y, k1);
        congruent_add(
            exact_dot(w, z, k1), a * ex + b * ey,
            w[i] * z[i], w[i] * (a * x[i] + b * y[i]),
        );
        assert(a * ex + b * ey + w[i] * (a * x[i] + b * y[i])
            == a * (ex + x[i] * w[i]) + b * (ey + y[i] * w[i])) by (nonlinear_arith);
        assert(w[i] * z[i] == z[i] * w[i]) by (nonlinear_arith);
    }
}

/// On `i64`, prediction is linear modulo 2^64: for a combination
/// `a·x + b·y` of two inputs, computed entrywise in `i64`, the output is
/// `a * f(x) + b * f(y) - (a + b - 1) * bias`.
pub proof fn predict_is_linear(p: Params<i64>, a: i64, x: Seq<i64>, b: i64, y: Seq<i64>)
    requires
        x.len() == p.weights.len(),
        y.len() == p.weights.len(),
    ensures
        congruent(
            net_input(p, combination(a, x, b, y)) as int,
            a * net_input(p, x) + b * net_input(p, y) - (a + b - 1) * p.bias,
        ),
{
    let w = p.weights;
    let n = w.len();
    let z = combination(a, x, b, y);
    let ex = exact_dot(w, x, n);
    let ey = exact_dot(w, y, n);
    let fx = net_input(p, x);
    let fy = net_input(p, y);
    dot_congruent(w, z, n);
    dot_congruent(w, x, n);
    dot_congruent(w, y, n);
    exact_dot_of_combination(w, a, x, b, y, n);
    // f(z) = bias + dot(z), which is bias + a * ex + b * ey
    let dz = dot_upto(w, z, n);
    wrapping_add_congruent(p.bias, dz);
    congruent_trans(dz as int, exact_dot(w, z, n), a * ex + b * ey);
    congruent_add(p.bias as int, p.bias as int, dz as int, a * ex + b * ey);
    congruent_refl(p.bias as int);
    congruent_trans(net_input(p, z) as int, p.bias + dz, p.bias + a * ex + b * ey);
    // f(x) = bias + ex and f(y) = bias + ey, modulo 2^64
    let dx = dot_upto(w, x, n);
    let dy = dot_upto(w, y, n);
    wrapping_add_congruent(p.bias, dx);
    wrapping_add_congruent(p.bias, dy);
    congruent_add(p.bias as int, p.bias as int, dx as int, ex);
    congruent_add(p.bias as int, p.bias as int, dy as int, ey);
    congruent_trans(fx as int, p.bias + dx, p.bias + ex);
    congruent_trans(fy as int, p.bias + dy, p.bias + ey);
    congruent_scale(fx as int, p.bias + ex, a as int);
    congruent_scale(fy as int, p.bias + ey, b as int);
    congruent_add(a * fx, a * (p.bias + ex), b * fy, b * (p.bias + ey));
    let c = -(a + b - 1) * p.bias;
    congruent_refl(c);
    congruent_add(a * fx + b * fy, a * (p.bias + ex) + b * (p.bias + ey), c, c);
    assert(a * (p.bias + ex) + b * (p.bias + ey) + c == p.bias + a * ex + b * ey) by (nonlinear_arith)
        requires c == -(a + b - 1) * p.bias;
    assert(a * fx + b * fy + c == a * fx + b * fy - (a + b - 1) * p.bias) by (nonlinear_arith)
        requires c == -(a + b - 1) * p.bias;
    congruent_sym(a * fx + b * fy + c, p.bias + a * ex + b * ey);
    congruent_trans(net_input(p, z) as int, p.bias + a * ex + b * ey, a * fx + b * fy + c);
}

} // verus!
