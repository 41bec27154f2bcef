use vstd::prelude::*;

verus! {

/// The remainder of Rust's `%` on integers: it takes the sign of `n`.
pub open spec fn trunc_rem(n: int, m: int) -> int {
    if n >= 0 {
        n % m
    } else {
        -((-n) % m)
    }
}

/// Python's modulo: the remainder that takes the sign of `m`.
pub open spec fn py_mod(n: int, m: int) -> int {
    if m > 0 || n % m == 0 {
        n % m
    } else {
        n % m + m
    }
}

proof fn lemma_euclid(x: int, m: int)
    requires
        m != 0,
    ensures
        x == m * (x / m) + x % m,
        0 <= x % m,
        m > 0 ==> x % m < m,
        m < 0 ==> x % m < -m,
{
    assert(x == m * (x / m) + x % m) by (nonlinear_arith)
        requires m != 0;
    assert(0 <= x % m) by (nonlinear_arith)
        requires m != 0;
    assert(m > 0 ==> x % m < m) by (nonlinear_arith)
        requires m != 0;
    assert(m < 0 ==> x % m < -m) by (nonlinear_arith)
        requires m != 0;
}

proof fn lemma_mod_unique(x: int, m: int, q: int, r: int)
    requires
        m != 0,
        x == m * q + r,
        0 <= r,
        m > 0 ==> r < m,
        m < 0 ==> r < -m,
    ensures
        x % m == r,
{
    lemma_euclid(x, m);
    let q2 = x / m;
    let r2 = x % m;
    assert(m * (q - q2) == r2 - r) by (nonlinear_arith)
        requires x == m * q + r, x == m * q2 + r2;
    if q != q2 {
        assert(q - q2 >= 1 || q - q2 <= -1);
        if m > 0 {
            assert(m * (q - q2) >= m || m * (q - q2) <= -m) by (nonlinear_arith)
                requires m > 0, q - q2 >= 1 || q - q2 <= -1;
        } else {
            assert(m * (q - q2) >= -m || m * (q - q2) <= m) by (nonlinear_arith)
                requires m < 0, q - q2 >= 1 || q - q2 <= -1;
        }
    }
}

/// Rust's remainder of `trunc_rem(n, m) + m` by `m` is Python's modulo.
proof fn lemma_pymod(n: int, m: int)
    requires
        m != 0,
    ensures
        trunc_rem(trunc_rem(n, m) + m, m) == py_mod(n, m),
{
    lemma_euclid(n, m);
    lemma_euclid(-n, m);
    let e = n % m;
    let q = n / m;
    let f = (-n) % m;
    let qf = (-n) / m;
    let t = trunc_rem(n, m);
    let s = t + m;
    if m > 0 {
        if n >= 0 {
            assert(s == m * 1 + e);
            lemma_mod_unique(s, m, 1, e);
        } else if f == 0 {
            assert(n == m * (-qf) + 0) by (nonlinear_arith)
                requires -n == m * qf + f, f == 0;
            lemma_mod_unique(n, m, -qf, 0);
            assert(s == m * 1 + 0);
            lemma_mod_unique(s, m, 1, 0);
        } else {
            assert(n == m * (-qf - 1) + (m - f)) by (nonlinear_arith)
                requires -n == m * qf + f;
            lemma_mod_unique(n, m, -qf - 1, m - f);
            assert(s == m * 0 + (m - f));
            lemma_mod_unique(s, m, 0, m - f);
        }
    } else {
        let a = -m;
        if n >= 0 {
            if e == 0 {
                assert(-s == m * (-1) + 0);
                lemma_mod_unique(-s, m, -1, 0);
            } else {
                assert(-s == m * 0 + (a - e));
                lemma_mod_unique(-s, m, 0, a - e);
            }
        } else {
            assert(-s == m * (-1) + f);
            lemma_mod_unique(-s, m, -1, f);
            if f == 0 {
                assert(n == m * (-qf) + 0) by (nonlinear_arith)
                    requires -n == m * qf + f, f == 0;
                lemma_mod_unique(n, m, -qf, 0);
            } else {
                assert(n == m * (-qf + 1) + (a - f)) by (nonlinear_arith)
                    requires -n == m * qf + f, a == -m;
                lemma_mod_unique(n, m, -qf + 1, a - f);
            }
        }
    }
}

/// The result of `pymod` lies between zero and the divisor: in `[0, m)` for a
/// positive `m` and in `(m, 0]` for a negative one.
pub proof fn lemma_py_mod_range(n: int, m: int)
    requires
        m != 0,
    ensures
        m > 0 ==> 0 <= py_mod(n, m) < m,
        m < 0 ==> m < py_mod(n, m) <= 0,
{
    lemma_euclid(n, m);
}

/// The result of `pymod` differs from `n` by a multiple of `m`.
pub proof fn lemma_py_mod_congruent(n: int, m: int)
    requires
        m != 0,
    ensures
        (n - py_mod(n, m)) % m == 0,
{
    lemma_euclid(n, m);
    let q = n / m;
    if m > 0 || n % m == 0 {
        assert(n - py_mod(n, m) == m * q + 0);
        lemma_mod_unique(n - py_mod(n, m), m, q, 0);
    } else {
        assert(n - py_mod(n, m) == m * (q - 1) + 0) by (nonlinear_arith)
            requires n == m * q + n % m, py_mod(n, m) == n % m + m;
        lemma_mod_unique(n - py_mod(n, m), m, q - 1, 0);
    }
}

/// Applying `pymod` twice gives the same as applying it once.
pub proof fn lemma_py_mod_idempotent(n: int, m: int)
    requires
        m != 0,
    ensures
        py_mod(py_mod(n, m), m) == py_mod(n, m),
{
    let p = py_mod(n, m);
    lemma_py_mod_range(n, m);
    lemma_euclid(p, m);
    if m > 0 {
        lemma_mod_unique(p, m, 0, p);
    } else if p == 0 {
        lemma_mod_unique(p, m, 0, 0);
    } else {
        assert(p == m * 1 + (p - m));
        lemma_mod_unique(p, m, 1, p - m);
    }
}

/// Modulo with the sign of the divisor, as Python's `%` computes it.
pub fn pymod(n: i64, m: i64) -> (r: i64)
    requires
        m != 0,
        !(n == i64::MIN && m == -1),
        i64::MIN <= trunc_rem(n as int, m as int) + m <= i64::MAX,
    ensures
        r == py_mod(n as int, m as int),
{
    proof {
        lemma_pymod(n as int, m as int);
    }
    ((n % m) + m) % m
}

/// The cross product of two 3-vectors of integers.
pub open spec fn spec_cross(a: Seq<int>, b: Seq<int>) -> Seq<int> {
    seq![
        a[1] * b[2] - a[2] * b[1],
        a[2] * b[0] - a[0] * b[2],
        a[0] * b[1] - a[1] * b[0],
    ]
}

/// An `[i64; 3]` as a sequence of mathematical integers.
pub open spec fn vec3(a: [i64; 3]) -> Seq<int> {
    seq![a@[0] as int, a@[1] as int, a@[2] as int]
}

/// Whether a value fits into an `i64`.
pub open spec fn fits_i64(v: int) -> bool {
    i64::MIN <= v <= i64::MAX
}

/// Whether the cross product of `a` and `b` can be computed in `i64` without
/// any product or difference overflowing.
pub open spec fn cross_fits(a: Seq<int>, b: Seq<int>) -> bool {
    &&& fits_i64(a[1] * b[2]) && fits_i64(a[2] * b[1]) && fits_i64(a[1] * b[2] - a[2] * b[1])
    &&& fits_i64(a[2] * b[0]) && fits_i64(a[0] * b[2]) && fits_i64(a[2] * b[0] - a[0] * b[2])
    &&& fits_i64(a[0] * b[1]) && fits_i64(a[1] * b[0]) && fits_i64(a[0] * b[1] - a[1] * b[0])
}

/// Cross product of two 3-vectors.
pub trait Cross<Rhs> {
    type Output;

    /// Whether `cross` can be computed for these operands.
    spec fn cross_defined(&self, rhs: &Rhs) -> bool;

    fn cross(&self, rhs: &Rhs) -> Self::Output
        requires
            self.cross_defined(rhs),
    ;
}

impl Cross<[i64; 3]> for [i64; 3] {
    type Output = [i64; 3];

    open spec fn cross_defined(&self, rhs: &[i64; 3]) -> bool {
        cross_fits(vec3(*self), vec3(*rhs))
    }

    fn cross(&self, rhs: &[i64; 3]) -> (r: [i64; 3])
        ensures
            vec3(r) == spec_cross(vec3(*self), vec3(*rhs)),
    {
        let a = self;
        let b = rhs;
        let r = [
            a[1] * b[2] - a[2] * b[1],
            a[2] * b[0] - a[0] * b[2],
            a[0] * b[1] - a[1] * b[0],
        ];
        assert(vec3(r) =~= spec_cross(vec3(*self), vec3(*rhs)));
        r
    }
}

/// Swapping the operands of a cross product negates it.
pub proof fn lemma_cross_anticommutative(a: Seq<int>, b: Seq<int>)
    requires
        a.len() == 3,
        b.len() == 3,
    ensures
        forall|i: int| 0 <= i < 3 ==> #[trigger] spec_cross(a, b)[i] == -spec_cross(b, a)[i],
{
    assert(a[1] * b[2] == b[2] * a[1]) by (nonlinear_arith);
    assert(a[2] * b[1] == b[1] * a[2]) by (nonlinear_arith);
    assert(a[2] * b[0] == b[0] * a[2]) by (nonlinear_arith);
    assert(a[0] * b[2] == b[2] * a[0]) by (nonlinear_arith);
    assert(a[0] * b[1] == b[1] * a[0]) by (nonlinear_arith);
    assert(a[1] * b[0] == b[0] * a[1]) by (nonlinear_arith);
}

/// The cross product is orthogonal to its first operand.
pub proof fn lemma_cross_orthogonal(a: Seq<int>, b: Seq<int>)
    requires
        a.len() == 3,
        b.len() == 3,
    ensures
        a[0] * spec_cross(a, b)[0] + a[1] * spec_cross(a, b)[1] + a[2] * spec_cross(a, b)[2] == 0,
{
    let (a0, a1, a2, b0, b1, b2) = (a[0], a[1], a[2], b[0], b[1], b[2]);
    assert(a0 * (a1 * b2 - a2 * b1) + a1 * (a2 * b0 - a0 * b2) + a2 * (a0 * b1 - a1 * b0) == 0)
        by (nonlinear_arith);
}

/// The dot product of two 3-vectors.
pub open spec fn dot3(a: Seq<int>, b: Seq<int>) -> int {
    a[0] * b[0] + a[1] * b[1] + a[2] * b[2]
}

proof fn lemma_square_of_difference(p: int, q: int)
    ensures
        (p - q) * (p - q) == p * p - 2 * (p * q) + q * q,
{
    assert((p - q) * (p - q) == p * p - 2 * (p * q) + q * q) by (nonlinear_arith);
}

proof fn lemma_product_of_sums(s0: int, s1: int, s2: int, t0: int, t1: int, t2: int)
    ensures
        (s0 + s1 + s2) * (t0 + t1 + t2) == s0 * t0 + s0 * t1 + s0 * t2 + s1 * t0 + s1 * t1 + s1 * t2
            + s2 * t0 + s2 * t1 + s2 * t2,
{
    assert((s0 + s1 + s2) * (t0 + t1 + t2) == s0 * t0 + s0 * t1 + s0 * t2 + s1 * t0 + s1 * t1 + s1 * t2
        + s2 * t0 + s2 * t1 + s2 * t2) by (nonlinear_arith);
}

proof fn lemma_regroup(p: int, q: int, r: int, s: int)
    ensures
        (p * q) * (r * s) == (p * r) * (q * s),
        (p * q) * (r * s) == (p * s) * (r * q),
{
    assert((p * q) * (r * s) == (p * r) * (q * s)) by (nonlinear_arith);
    assert((p * q) * (r * s) == (p * s) * (r * q)) by (nonlinear_arith);
}

/// Lagrange's identity: the squared length of `a x b` is
/// `|a|^2 |b|^2 - (a . b)^2`.
pub proof fn lemma_cross_lagrange(a: Seq<int>, b: Seq<int>)
    requires
        a.len() == 3,
        b.len() == 3,
    ensures
        dot3(spec_cross(a, b), spec_cross(a, b)) == dot3(a, a) * dot3(b, b) - dot3(a, b) * dot3(a, b),
{
    let (a0, a1, a2, b0, b1, b2) = (a[0], a[1], a[2], b[0], b[1], b[2]);
    let (x00, x01, x02) = (a0 * b0, a0 * b1, a0 * b2);
    let (x10, x11, x12) = (a1 * b0, a1 * b1, a1 * b2);
    let (x20, x21, x22) = (a2 * b0, a2 * b1, a2 * b2);
    // the squared components of a x b
    lemma_square_of_difference(x12, x21);
    lemma_square_of_difference(x20, x02);
    lemma_square_of_difference(x01, x10);
    // |a|^2 |b|^2 as a sum of squared products a_i b_j
    lemma_product_of_sums(a0 * a0, a1 * a1, a2 * a2, b0 * b0, b1 * b1, b2 * b2);
    lemma_regroup(a0, a0, b0, b0);
    lemma_regroup(a0, a0, b1, b1);
    lemma_regroup(a0, a0, b2, b2);
    lemma_regroup(a1, a1, b0, b0);
    lemma_regroup(a1, a1, b1, b1);
    lemma_regroup(a1, a1, b2, b2);
    lemma_regroup(a2, a2, b0, b0);
    lemma_regroup(a2, a2, b1, b1);
    lemma_regroup(a2, a2, b2, b2);
    // (a . b)^2 as a sum of products a_i b_i a_j b_j
    lemma_product_of_sums(x00, x11, x22, x00, x11, x22);
    lemma_regroup(a0, b0, a1, b1);
    lemma_regroup(a1, b1, a0, b0);
    lemma_regroup(a0, b0, a2, b2);
    lemma_regroup(a2, b2, a0, b0);
    lemma_regroup(a1, b1, a2, b2);
    lemma_regroup(a2, b2, a1, b1);
    assert(x01 * x10 == x10 * x01) by (nonlinear_arith);
    assert(x02 * x20 == x20 * x02) by (nonlinear_arith);
    assert(x12 * x21 == x21 * x12) by (nonlinear_arith);
}

/// The sum of two 3-vectors.
pub open spec fn add3(a: Seq<int>, b: Seq<int>) -> Seq<int> {
    seq![a[0] + b[0], a[1] + b[1], a[2] + b[2]]
}

/// A 3-vector scaled by `k`.
pub open spec fn scale3(k: int, a: Seq<int>) -> Seq<int> {
    seq![k * a[0], k * a[1], k * a[2]]
}

/// The cross product is linear in its first operand:
/// `(a + c) x b == a x b + c x b` and `(k a) x b == k (a x b)`.
pub proof fn lemma_cross_linear(a: Seq<int>, c: Seq<int>, b: Seq<int>, k: int)
    requires
        a.len() == 3,
        b.len() == 3,
        c.len() == 3,
    ensures
        spec_cross(add3(a, c), b) == add3(spec_cross(a, b), spec_cross(c, b)),
        spec_cross(scale3(k, a), b) == scale3(k, spec_cross(a, b)),
{
    let (a0, a1, a2, b0, b1, b2, c0, c1, c2) = (a[0], a[1], a[2], b[0], b[1], b[2], c[0], c[1], c[2]);
    assert((a1 + c1) * b2 - (a2 + c2) * b1 == (a1 * b2 - a2 * b1) + (c1 * b2 - c2 * b1)) by (nonlinear_arith);
    assert((a2 + c2) * b0 - (a0 + c0) * b2 == (a2 * b0 - a0 * b2) + (c2 * b0 - c0 * b2)) by (nonlinear_arith);
    assert((a0 + c0) * b1 - (a1 + c1) * b0 == (a0 * b1 - a1 * b0) + (c0 * b1 - c1 * b0)) by (nonlinear_arith);
    assert((k * a1) * b2 - (k * a2) * b1 == k * (a1 * b2 - a2 * b1)) by (nonlinear_arith);
    assert((k * a2) * b0 - (k * a0) * b2 == k * (a2 * b0 - a0 * b2)) by (nonlinear_arith);
    assert((k * a0) * b1 - (k * a1) * b0 == k * (a0 * b1 - a1 * b0)) by (nonlinear_arith);
    assert(spec_cross(add3(a, c), b) =~= add3(spec_cross(a, b), spec_cross(c, b)));
    assert(spec_cross(scale3(k, a), b) =~= scale3(k, spec_cross(a, b)));
}

/// The unit vectors of a right-handed frame: `e1 x e2 == e3`,
/// `e2 x e3 == e1` and `e3 x e1 == e2`.
pub proof fn lemma_cross_basis()
    ensures
        spec_cross(seq![1int, 0, 0], seq![0int, 1, 0]) == seq![0int, 0, 1],
        spec_cross(seq![0int, 1, 0], seq![0int, 0, 1]) == seq![1int, 0, 0],
        spec_cross(seq![0int, 0, 1], seq![1int, 0, 0]) == seq![0int, 1, 0],
{
    let e1 = seq![1int, 0, 0];
    let e2 = seq![0int, 1, 0];
    let e3 = seq![0int, 0, 1];
    assert(e1[0] == 1 && e1[1] == 0 && e1[2] == 0);
    assert(e2[0] == 0 && e2[1] == 1 && e2[2] == 0);
    assert(e3[0] == 0 && e3[1] == 0 && e3[2] == 1);
    assert(spec_cross(seq![1int, 0, 0], seq![0int, 1, 0]) =~= seq![0int, 0, 1]);
    assert(spec_cross(seq![0int, 1, 0], seq![0int, 0, 1]) =~= seq![1int, 0, 0]);
    assert(spec_cross(seq![0int, 0, 1], seq![1int, 0, 0]) =~= seq![0int, 1, 0]);
}

} // verus!
