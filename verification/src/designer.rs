//! The offline PFC design and the online controller.
//!
//! The offline design spreads `n_h` coincidence points over the closed-loop
//! response time, computes the basis-response vector and the free-response
//! row at each, accumulates the Gram matrix of the basis responses, inverts
//! it, and condenses everything into a scalar gain `k_0` and a state-feedback
//! row `ν_x`. The controller owns a copy of the plant's discrete dynamics and
//! an internal state; each `update` turns a reference and a measurement into
//! a saturated control input and advances the internal state with that
//! saturated input.
//!
//! Every step is pinned, via the specification functions below, to a
//! mathematical function of the inputs and of the scalar backend's abstract
//! operations, so the whole design is deterministic by construction.

use vstd::prelude::*;

use crate::matrix::{
    add_v, block_v, grid_v, mul_v, neg_v, one_t, pow_v, scale_v, sub_v, transpose_v, zero_t,
    zeros_v, Mat, MatV,
};
use crate::model::{SsV, StateSpace};
use crate::scalar::Scalar;
use crate::{DesignError, PreconditionError, SingularMatrixError};

verus! {

/// `base^e` in wrapping 32-bit arithmetic, as a left-to-right product.
pub open spec fn pow_wrap_s(base: u32, e: nat) -> u32
    decreases e,
{
    if e == 0 {
        1u32
    } else {
        (((pow_wrap_s(base, (e - 1) as nat) as nat) * (base as nat)) % 0x1_0000_0000) as u32
    }
}

/// `base^e` in wrapping 32-bit arithmetic.
fn pow_u32_wrap(base: u32, e: usize) -> (r: u32)
    ensures
        r == pow_wrap_s(base, e as nat),
{
    let mut acc: u32 = 1;
    for t in 0..e
        invariant
            acc == pow_wrap_s(base, t as nat),
    {
        assert((acc as int) * (base as int) < 0x1_0000_0000_0000_0000) by (nonlinear_arith)
            requires
                (acc as int) < 0x1_0000_0000,
                (base as int) < 0x1_0000_0000,
        ;
        acc = (((acc as u64) * (base as u64)) % 0x1_0000_0000u64) as u32;
    }
    acc
}

/// The per-sample decay rate `α = exp(−3·τ / t_clrt)` of the ideal
/// first-order reference trajectory.
pub open spec fn alpha_s<T: Scalar>(st: T, t_clrt: T) -> T {
    T::exp_s(T::div_s(T::mul_s(T::neg_s(T::from_usize_s(3)), st), t_clrt))
}

/// The coincidence horizon `⌊t_clrt / (τ·k)⌋` in samples, where `k` counts
/// down from `n_h` to `1` as the coincidence index rises.
pub open spec fn horizon_s<T: Scalar>(st: T, t_clrt: T, k: usize) -> u32 {
    T::floor_u32_s(T::div_s(t_clrt, T::mul_s(st, T::from_usize_s(k))))
}

/// The first `q` terms of the basis response of order `l` at horizon `h`:
/// `Σ_{t<q} (C·A^{h−1−t}·B)·t^l`, accumulated left to right from zero.
pub open spec fn ysum_s<T: Scalar>(s: SsV<T>, l: usize, h: u32, q: nat) -> T
    decreases q,
{
    if q == 0 || q > h {
        zero_t::<T>()
    } else {
        let impulse = mul_v(mul_v(s.c, pow_v(s.a, (h - q) as nat)), s.b).entry(0, 0);
        let coef = T::from_usize_s(pow_wrap_s((q - 1) as u32, l as nat) as usize);
        T::add_s(ysum_s(s, l, h, (q - 1) as nat), T::mul_s(impulse, coef))
    }
}

/// The basis-response vector `y_b(h)` of length `n_b` at horizon `h`.
pub open spec fn ycol_s<T: Scalar>(s: SsV<T>, n_b: usize, h: u32) -> MatV<T> {
    grid_v(n_b as nat, 1, |l: int, j: int| ysum_s(s, l as usize, h, h as nat))
}

/// The Gram matrix after the first `i` coincidence points:
/// `Σ y_b(h_x)·y_b(h_x)ᵗ`, accumulated in coincidence order.
pub open spec fn gram_s<T: Scalar>(s: SsV<T>, n_b: usize, n_h: usize, t_clrt: T, i: nat) -> MatV<
    T,
>
    decreases i,
{
    if i == 0 {
        zeros_v::<T>(n_b as nat, n_b as nat)
    } else {
        let y = ycol_s(s, n_b, horizon_s(s.sample_time, t_clrt, (n_h + 1 - i) as usize));
        add_v(gram_s(s, n_b, n_h, t_clrt, (i - 1) as nat), mul_v(y, transpose_v(y)))
    }
}

/// The `n_b × n_h` matrix whose column `i` is the basis-response vector at
/// the `i`-th coincidence horizon.
pub open spec fn ymat_s<T: Scalar>(s: SsV<T>, n_b: usize, n_h: usize, t_clrt: T) -> MatV<T> {
    grid_v(
        n_b as nat,
        n_h as nat,
        |l: int, i: int|
            {
                let h = horizon_s(s.sample_time, t_clrt, (n_h - i) as usize);
                ysum_s(s, l as usize, h, h as nat)
            },
    )
}

/// The `n_h × n` free-response matrix whose row `i` is the first row of
/// `C·A^{h_i} − C`.
pub open spec fn phi_s<T: Scalar>(s: SsV<T>, n_h: usize, t_clrt: T) -> MatV<T> {
    grid_v(
        n_h as nat,
        s.a.cols,
        |i: int, j: int|
            {
                let h = horizon_s(s.sample_time, t_clrt, (n_h - i) as usize);
                sub_v(mul_v(s.c, pow_v(s.a, h as nat)), s.c).entry(0, j)
            },
    )
}

/// The `n_h × 1` vector of reference-trajectory fractions `1 − α^{h_i}`.
pub open spec fn tvec_s<T: Scalar>(s: SsV<T>, n_h: usize, t_clrt: T) -> MatV<T> {
    grid_v(
        n_h as nat,
        1,
        |i: int, j: int|
            {
                let h = horizon_s(s.sample_time, t_clrt, (n_h - i) as usize);
                T::sub_s(one_t::<T>(), T::powi_s(alpha_s(s.sample_time, t_clrt), h))
            },
    )
}

/// The design's preconditions: a discrete model (positive sample period), at
/// least one basis function, at least one coincidence point, and a positive
/// closed-loop response time.
pub open spec fn design_pre_s<T: Scalar>(s: SsV<T>, n_b: usize, n_h: usize, t_clrt: T) -> bool {
    &&& T::lt_s(zero_t::<T>(), s.sample_time)
    &&& n_b >= 1
    &&& n_h >= 1
    &&& T::lt_s(zero_t::<T>(), t_clrt)
}

/// Whether the backend can invert the design's Gram matrix.
pub open spec fn design_ok_s<T: Scalar>(s: SsV<T>, n_b: usize, n_h: usize, t_clrt: T) -> bool {
    T::mat_invertible_s(gram_s(s, n_b, n_h, t_clrt, n_h as nat))
}

/// The basis-coefficient vector `ν = Yᵗ · (G⁻¹'s first column)`.
pub open spec fn nu_s<T: Scalar>(s: SsV<T>, n_b: usize, n_h: usize, t_clrt: T) -> MatV<T> {
    mul_v(
        transpose_v(ymat_s(s, n_b, n_h, t_clrt)),
        block_v(T::mat_inverse_s(gram_s(s, n_b, n_h, t_clrt, n_h as nat)), 0, 0, n_b as nat, 1),
    )
}

/// The scalar gain `k_0 = νᵗ · T`.
pub open spec fn k0_s<T: Scalar>(s: SsV<T>, n_b: usize, n_h: usize, t_clrt: T) -> T {
    mul_v(transpose_v(nu_s(s, n_b, n_h, t_clrt)), tvec_s(s, n_h, t_clrt)).entry(0, 0)
}

/// The state-feedback vector `ν_x = −Φᵗ · ν`.
pub open spec fn nux_s<T: Scalar>(s: SsV<T>, n_b: usize, n_h: usize, t_clrt: T) -> MatV<T> {
    mul_v(neg_v(transpose_v(phi_s(s, n_h, t_clrt))), nu_s(s, n_b, n_h, t_clrt))
}

/// The basis-response vector `y_b(h)` at coincidence horizon `h`: entry `l`
/// is the plant's impulse response convolved with the order-`l` polynomial
/// basis function.
fn calc_y_b<T: Scalar>(sys: &StateSpace<T>, n_b: usize, h: u32) -> (r: Mat<T>)
    requires
        sys.wf(),
        sys@.c.rows >= 1,
        sys@.b.cols >= 1,
    ensures
        r.wf(),
        r@ == ycol_s(sys@, n_b, h),
        r@.rows == n_b,
        r@.cols == 1,
{
    let mut data: Vec<Vec<T>> = Vec::new();
    let target = Ghost(ycol_s(sys@, n_b, h));
    for l in 0..n_b
        invariant
            sys.wf(),
            sys@.c.rows >= 1,
            sys@.b.cols >= 1,
            target@ == ycol_s(sys@, n_b, h),
            data@.len() == l,
            forall|x: int| 0 <= x < l ==> (#[trigger] data@[x])@ == target@.elems[x],
    {
        let mut acc = T::from_usize(0);
        for q in 0..h
            invariant
                sys.wf(),
                sys@.c.rows >= 1,
                sys@.b.cols >= 1,
                l < n_b,
                acc == ysum_s(sys@, l, h, q as nat),
        {
            let a_pow = sys.a.pow_mat(h - 1 - q);
            let coef = T::from_usize(pow_u32_wrap(q, l) as usize);
            let impulse = sys.c.mul_mat(&a_pow).mul_mat(&sys.b);
            acc = T::add(acc, T::mul(impulse.get(0, 0), coef));
        }
        let mut row: Vec<T> = Vec::new();
        row.push(acc);
        assert(row@ =~= target@.elems[l as int]);
        data.push(row);
    }
    let r = Mat { rows: n_b, cols: 1, data };
    assert(r@ =~~= target@);
    r
}

/// Designs the offline PFC law for a discrete-time model: the scalar gain
/// `k_0` and the state-feedback vector `ν_x` (returned as an `n × 1` matrix).
///
/// Fails with a precondition error exactly when the model is not discrete,
/// `n_b` or `n_h` is zero, or the response time is not positive; fails with a
/// singular-matrix error exactly when the backend cannot invert the Gram
/// matrix that those parameters produce.
pub fn design<T: Scalar>(sys: &StateSpace<T>, n_b: usize, n_h: usize, t_clrt: T) -> (r: Result<
    (T, Mat<T>),
    DesignError,
>)
    requires
        sys.wf(),
        sys@.c.rows >= 1,
        sys@.b.cols >= 1,
    ensures
        r is Ok <==> (design_pre_s(sys@, n_b, n_h, t_clrt) && design_ok_s(
            sys@,
            n_b,
            n_h,
            t_clrt,
        )),
        (r matches Err(DesignError::Precondition(_)) <==> !design_pre_s(
            sys@,
            n_b,
            n_h,
            t_clrt,
        )),
        (r matches Err(DesignError::SingularMatrix(_)) <==> (design_pre_s(sys@, n_b, n_h, t_clrt)
            && !design_ok_s(sys@, n_b, n_h, t_clrt))),
        (r matches Ok(kv) ==> {
            &&& kv.0 == k0_s(sys@, n_b, n_h, t_clrt)
            &&& kv.1.wf()
            &&& kv.1@ == nux_s(sys@, n_b, n_h, t_clrt)
            &&& kv.1@.rows == sys@.a.rows
            &&& kv.1@.cols == 1
        }),
{
    let pre = T::lt(T::from_usize(0), sys.sample_time) && n_b >= 1 && n_h >= 1 && T::lt(
        T::from_usize(0),
        t_clrt,
    );
    if !pre {
        return Err(DesignError::Precondition(PreconditionError));
    }
    let n = sys.a.nrows();

    let alpha = T::exp(T::div(T::mul(T::neg(T::from_usize(3)), sys.sample_time), t_clrt));

    let mut gram = Mat::<T>::zeros(n_b, n_b);
    let mut hs: Vec<u32> = Vec::new();
    let mut ys: Vec<Mat<T>> = Vec::new();
    for i in 0..n_h
        invariant
            sys.wf(),
            sys@.c.rows >= 1,
            sys@.b.cols >= 1,
            n == sys@.a.rows,
            n_h >= 1,
            gram.wf(),
            gram@ == gram_s(sys@, n_b, n_h, t_clrt, i as nat),
            gram@.rows == n_b,
            gram@.cols == n_b,
            hs@.len() == i,
            ys@.len() == i,
            forall|x: int|
                0 <= x < i ==> (#[trigger] hs@[x]) == horizon_s(
                    sys@.sample_time,
                    t_clrt,
                    (n_h - x) as usize,
                ),
            forall|x: int|
                0 <= x < i ==> {
                    &&& (#[trigger] ys@[x]).wf()
                    &&& ys@[x]@ == ycol_s(sys@, n_b, hs@[x])
                    &&& ys@[x]@.rows == n_b
                    &&& ys@[x]@.cols == 1
                },
    {
        let h = T::floor_u32(T::div(t_clrt, T::mul(sys.sample_time, T::from_usize(n_h - i))));
        let y = calc_y_b(sys, n_b, h);
        gram = gram.add_mat(&y.mul_mat(&y.transpose()));
        hs.push(h);
        ys.push(y);
    }

    let inv = match T::mat_inverse(&gram) {
        None => {
            return Err(DesignError::SingularMatrix(SingularMatrixError));
        },
        Some(g) => g,
    };

    // Assemble Y (n_b × n_h) from the stored basis-response columns.
    let mut ydata: Vec<Vec<T>> = Vec::new();
    let ytarget = Ghost(ymat_s(sys@, n_b, n_h, t_clrt));
    for l in 0..n_b
        invariant
            ytarget@ == ymat_s(sys@, n_b, n_h, t_clrt),
            hs@.len() == n_h,
            ys@.len() == n_h,
            forall|x: int|
                0 <= x < n_h ==> (#[trigger] hs@[x]) == horizon_s(
                    sys@.sample_time,
                    t_clrt,
                    (n_h - x) as usize,
                ),
            forall|x: int|
                0 <= x < n_h ==> {
                    &&& (#[trigger] ys@[x]).wf()
                    &&& ys@[x]@ == ycol_s(sys@, n_b, hs@[x])
                    &&& ys@[x]@.rows == n_b
                    &&& ys@[x]@.cols == 1
                },
            ydata@.len() == l,
            forall|x: int| 0 <= x < l ==> (#[trigger] ydata@[x])@ == ytarget@.elems[x],
    {
        let mut row: Vec<T> = Vec::new();
        for i in 0..n_h
            invariant
                ytarget@ == ymat_s(sys@, n_b, n_h, t_clrt),
                l < n_b,
                hs@.len() == n_h,
                ys@.len() == n_h,
                forall|x: int|
                    0 <= x < n_h ==> (#[trigger] hs@[x]) == horizon_s(
                        sys@.sample_time,
                        t_clrt,
                        (n_h - x) as usize,
                    ),
                forall|x: int|
                    0 <= x < n_h ==> {
                        &&& (#[trigger] ys@[x]).wf()
                        &&& ys@[x]@ == ycol_s(sys@, n_b, hs@[x])
                        &&& ys@[x]@.rows == n_b
                        &&& ys@[x]@.cols == 1
                    },
                row@.len() == i,
                forall|y: int| 0 <= y < i ==> (#[trigger] row@[y]) == ytarget@.entry(l as int, y),
        {
            row.push(ys[i].get(l, 0));
        }
        assert(row@ =~= ytarget@.elems[l as int]);
        ydata.push(row);
    }
    let ymat = Mat { rows: n_b, cols: n_h, data: ydata };
    assert(ymat@ =~~= ytarget@);

    // Assemble Φ (n_h × n): row i is the first row of C·A^{h_i} − C.
    let mut pdata: Vec<Vec<T>> = Vec::new();
    let ptarget = Ghost(phi_s(sys@, n_h, t_clrt));
    for i in 0..n_h
        invariant
            sys.wf(),
            sys@.c.rows >= 1,
            n == sys@.a.rows,
            ptarget@ == phi_s(sys@, n_h, t_clrt),
            hs@.len() == n_h,
            forall|x: int|
                0 <= x < n_h ==> (#[trigger] hs@[x]) == horizon_s(
                    sys@.sample_time,
                    t_clrt,
                    (n_h - x) as usize,
                ),
            pdata@.len() == i,
            forall|x: int| 0 <= x < i ==> (#[trigger] pdata@[x])@ == ptarget@.elems[x],
    {
        let free = sys.c.mul_mat(&sys.a.pow_mat(hs[i])).sub_mat(&sys.c);
        let mut row: Vec<T> = Vec::new();
        for j in 0..n
            invariant
                sys.wf(),
                sys@.c.rows >= 1,
                n == sys@.a.rows,
                ptarget@ == phi_s(sys@, n_h, t_clrt),
                i < n_h,
                hs@.len() == n_h,
                hs@[i as int] == horizon_s(sys@.sample_time, t_clrt, (n_h - i) as usize),
                free.wf(),
                free@ == sub_v(
                    mul_v(sys@.c, pow_v(sys@.a, hs@[i as int] as nat)),
                    sys@.c,
                ),
                free@.rows == sys@.c.rows,
                free@.cols == n,
                row@.len() == j,
                forall|y: int| 0 <= y < j ==> (#[trigger] row@[y]) == ptarget@.entry(i as int, y),
        {
            row.push(free.get(0, j));
        }
        assert(row@ =~= ptarget@.elems[i as int]);
        pdata.push(row);
    }
    let phi = Mat { rows: n_h, cols: n, data: pdata };
    assert(phi@ =~~= ptarget@);

    // Assemble T (n_h × 1): the reference-trajectory fractions.
    let mut tdata: Vec<Vec<T>> = Vec::new();
    let ttarget = Ghost(tvec_s(sys@, n_h, t_clrt));
    for i in 0..n_h
        invariant
            ttarget@ == tvec_s(sys@, n_h, t_clrt),
            alpha == alpha_s(sys@.sample_time, t_clrt),
            hs@.len() == n_h,
            forall|x: int|
                0 <= x < n_h ==> (#[trigger] hs@[x]) == horizon_s(
                    sys@.sample_time,
                    t_clrt,
                    (n_h - x) as usize,
                ),
            tdata@.len() == i,
            forall|x: int| 0 <= x < i ==> (#[trigger] tdata@[x])@ == ttarget@.elems[x],
    {
        let mut row: Vec<T> = Vec::new();
        row.push(T::sub(T::from_usize(1), T::powi(alpha, hs[i])));
        assert(row@ =~= ttarget@.elems[i as int]);
        tdata.push(row);
    }
    let tvec = Mat { rows: n_h, cols: 1, data: tdata };
    assert(tvec@ =~~= ttarget@);

    let nu = ymat.transpose().mul_mat(&inv.block(0, 0, n_b, 1));
    let k_0 = nu.transpose().mul_mat(&tvec).get(0, 0);
    let nu_x = phi.transpose().neg_mat().mul_mat(&nu);

    Ok((k_0, nu_x))
}

/// Mathematical model of a controller: the internal model's matrices, the
/// internal state, the designed gains and the saturation bounds.
pub ghost struct PfcV<T> {
    pub a_m: MatV<T>,
    pub b_m: MatV<T>,
    pub x_m: MatV<T>,
    pub k_0: T,
    pub nu_x_t: MatV<T>,
    pub u_min: T,
    pub u_max: T,
}

impl<T> PfcV<T> {
    /// The internal model is a square single-input system and every stored
    /// grid is rectangular and consistently sized.
    pub open spec fn wf(self) -> bool {
        &&& self.a_m.wf()
        &&& self.b_m.wf()
        &&& self.x_m.wf()
        &&& self.nu_x_t.wf()
        &&& self.a_m.rows == self.a_m.cols
        &&& self.b_m.rows == self.a_m.rows
        &&& self.b_m.cols == 1
        &&& self.x_m.rows == self.a_m.rows
        &&& self.x_m.cols == 1
        &&& self.nu_x_t.rows == 1
        &&& self.nu_x_t.cols == self.a_m.rows
    }
}

/// The unsaturated control input `k_0·(r − y) + ν_xᵗ·x_m`.
pub open spec fn raw_s<T: Scalar>(s: PfcV<T>, r: T, y: T) -> T {
    T::add_s(T::mul_s(s.k_0, T::sub_s(r, y)), mul_v(s.nu_x_t, s.x_m).entry(0, 0))
}

/// `x` saturated into `[lo, hi]`: `lo` when `x` compares below `lo`, `hi`
/// when `hi` compares below `x`, otherwise `x` itself.
pub open spec fn clamp_s<T: Scalar>(x: T, lo: T, hi: T) -> T {
    if T::lt_s(x, lo) {
        lo
    } else if T::lt_s(hi, x) {
        hi
    } else {
        x
    }
}

/// The internal state after one update with saturated input `u`:
/// `A_m·x_m + B_m·u`.
pub open spec fn next_x_s<T: Scalar>(s: PfcV<T>, u: T) -> MatV<T> {
    add_v(mul_v(s.a_m, s.x_m), scale_v(s.b_m, u))
}

/// A Predictive Functional Controller: designed once, then driven by
/// `update` calls at the model's sample rate.
pub struct PFC<T> {
    a_m: Mat<T>,
    b_m: Mat<T>,
    x_m: Mat<T>,
    k_0: T,
    nu_x_t: Mat<T>,
    u_min: T,
    u_max: T,
}

impl<T> View for PFC<T> {
    type V = PfcV<T>;

    closed spec fn view(&self) -> PfcV<T> {
        PfcV {
            a_m: self.a_m@,
            b_m: self.b_m@,
            x_m: self.x_m@,
            k_0: self.k_0,
            nu_x_t: self.nu_x_t@,
            u_min: self.u_min,
            u_max: self.u_max,
        }
    }
}

impl<T: Scalar> PFC<T> {
    /// Runs the offline design on the discrete single-input model `sys` and
    /// builds the controller: a copy of the model's `A` and `B`, a zero
    /// initial internal state, the designed gains and the saturation bounds
    /// `limit = [u_min, u_max]`. Fails exactly as [`design`] fails.
    pub fn new(sys: &StateSpace<T>, n_b: usize, n_h: usize, t_clrt: T, limit: [T; 2]) -> (r:
        Result<PFC<T>, DesignError>)
        requires
            sys.wf(),
            sys@.c.rows >= 1,
            sys@.b.cols == 1,
        ensures
            r is Ok <==> (design_pre_s(sys@, n_b, n_h, t_clrt) && design_ok_s(
                sys@,
                n_b,
                n_h,
                t_clrt,
            )),
            (r matches Err(e) ==> {
                &&& (e matches DesignError::Precondition(_) <==> !design_pre_s(
                    sys@,
                    n_b,
                    n_h,
                    t_clrt,
                ))
                &&& (e matches DesignError::SingularMatrix(_) <==> (design_pre_s(
                    sys@,
                    n_b,
                    n_h,
                    t_clrt,
                ) && !design_ok_s(sys@, n_b, n_h, t_clrt)))
            }),
            (r matches Ok(c) ==> {
                &&& c@.wf()
                &&& c@ == (PfcV {
                    a_m: sys@.a,
                    b_m: sys@.b,
                    x_m: zeros_v::<T>(sys@.a.rows, 1),
                    k_0: k0_s(sys@, n_b, n_h, t_clrt),
                    nu_x_t: transpose_v(nux_s(sys@, n_b, n_h, t_clrt)),
                    u_min: limit@[0],
                    u_max: limit@[1],
                })
            }),
    {
        let n = sys.a.nrows();
        match design(sys, n_b, n_h, t_clrt) {
            Err(e) => Err(e),
            Ok((k_0, nu_x)) => Ok(
                PFC {
                    a_m: sys.a.dup(),
                    b_m: sys.b.dup(),
                    x_m: Mat::<T>::zeros(n, 1),
                    k_0,
                    nu_x_t: nu_x.transpose(),
                    u_min: limit[0],
                    u_max: limit[1],
                },
            ),
        }
    }

    /// The saturation bounds `[u_min, u_max]`.
    pub fn limit(&self) -> (r: [T; 2])
        ensures
            r@[0] == self@.u_min,
            r@[1] == self@.u_max,
    {
        [self.u_min, self.u_max]
    }

    /// One step of the online law: computes
    /// `k_0·(reference − measurement) + ν_xᵗ·x_m`, saturates it into
    /// `[u_min, u_max]`, advances the internal state with the saturated
    /// input, and returns that input.
    pub fn update(&mut self, r: T, y: T) -> (u: T)
        requires
            old(self)@.wf(),
        ensures
            u == clamp_s(raw_s(old(self)@, r, y), old(self)@.u_min, old(self)@.u_max),
            u == old(self)@.u_min || u == old(self)@.u_max || (!T::lt_s(u, old(self)@.u_min)
                && !T::lt_s(old(self)@.u_max, u)),
            final(self)@ == (PfcV { x_m: next_x_s(old(self)@, u), ..old(self)@ }),
            final(self)@.wf(),
    {
        let raw = T::add(T::mul(self.k_0, T::sub(r, y)), self.nu_x_t.mul_mat(&self.x_m).get(0, 0));
        let u = if T::lt(raw, self.u_min) {
            self.u_min
        } else if T::lt(self.u_max, raw) {
            self.u_max
        } else {
            raw
        };
        let next = self.a_m.mul_mat(&self.x_m).add_mat(&self.b_m.scale(u));
        self.x_m = next;
        u
    }
}

/// Saturation law: for every controller state and every input pair, the
/// update's output is one of the two bounds, or compares neither below
/// `u_min` nor above `u_max`.
pub proof fn lemma_update_saturates<T: Scalar>(s: PfcV<T>, r: T, y: T)
    ensures
        ({
            let u = clamp_s(raw_s(s, r, y), s.u_min, s.u_max);
            u == s.u_min || u == s.u_max || (!T::lt_s(u, s.u_min) && !T::lt_s(s.u_max, u))
        }),
{
}

/// The outputs of a controller driven by a sequence of
/// `(reference, measurement)` pairs, one update per pair.
pub open spec fn run_s<T: Scalar>(s: PfcV<T>, inputs: Seq<(T, T)>) -> Seq<T>
    decreases inputs.len(),
{
    if inputs.len() == 0 {
        Seq::empty()
    } else {
        let u = clamp_s(raw_s(s, inputs[0].0, inputs[0].1), s.u_min, s.u_max);
        let stepped = PfcV { x_m: next_x_s(s, u), ..s };
        seq![u] + run_s(stepped, inputs.drop_first())
    }
}

/// Determinism law: two controllers in identical states, fed identical
/// input sequences, produce identical output sequences. Together with
/// `update`'s contract — each call returns `clamp_s(raw_s(..))` and steps the
/// state to `next_x_s(..)` — every run of a controller is the mathematical
/// function `run_s` of its initial state and its inputs.
pub proof fn lemma_controller_deterministic<T: Scalar>(
    s1: PfcV<T>,
    s2: PfcV<T>,
    inputs: Seq<(T, T)>,
)
    requires
        s1 == s2,
    ensures
        run_s(s1, inputs) == run_s(s2, inputs),
{
}

/// Idempotence law: the offline design is a mathematical function of its
/// inputs. Any two results that satisfy [`design`]'s contract for the same
/// model and parameters are bit-identical.
pub proof fn lemma_design_deterministic<T: Scalar>(
    s: SsV<T>,
    n_b: usize,
    n_h: usize,
    t_clrt: T,
    k1: T,
    v1: MatV<T>,
    k2: T,
    v2: MatV<T>,
)
    requires
        k1 == k0_s(s, n_b, n_h, t_clrt),
        v1 == nux_s(s, n_b, n_h, t_clrt),
        k2 == k0_s(s, n_b, n_h, t_clrt),
        v2 == nux_s(s, n_b, n_h, t_clrt),
    ensures
        k1 == k2,
        v1 == v2,
{
}

} // verus!
