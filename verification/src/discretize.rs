//! Zero-order-hold discretization of a continuous-time model.

use vstd::prelude::*;

use crate::matrix::{block_v, put_block_v, scale_v, zero_t, zeros_v, Mat};
use crate::model::{SsV, StateSpace};
use crate::scalar::Scalar;
use crate::PreconditionError;

verus! {

/// The zero-order-hold equivalent of the continuous-time model `s` at sample
/// period `dt`: a single augmented matrix `M = [[A·dt, B·dt], [0, 0]]` is
/// exponentiated, and the discrete `A_d`, `B_d` are the top-left `n×n` and
/// top-right `n×l` blocks of `exp(M)`. `C` and `D` pass through unchanged.
pub open spec fn c2d_v<T: Scalar>(s: SsV<T>, dt: T) -> SsV<T> {
    let n = s.a.rows;
    let l = s.b.cols;
    let m0 = put_block_v(zeros_v::<T>(n + l, n + l), 0, 0, scale_v(s.a, dt));
    let m1 = put_block_v(m0, 0, n as int, scale_v(s.b, dt));
    let e = T::mat_exp_s(m1);
    SsV {
        a: block_v(e, 0, 0, n, n),
        b: block_v(e, 0, n as int, n, l),
        c: s.c,
        d: s.d,
        sample_time: dt,
    }
}

/// Converts a continuous-time model to its zero-order-hold discrete
/// equivalent with sample period `dt`. Fails exactly when the model is not
/// continuous (its sample period is nonzero) or `dt` is not positive.
pub fn discretize<T: Scalar>(sys: &StateSpace<T>, dt: T) -> (r: Result<
    StateSpace<T>,
    PreconditionError,
>)
    requires
        sys.wf(),
        sys@.a.rows + sys@.b.cols <= usize::MAX,
    ensures
        r is Ok <==> (T::is_zero_s(sys@.sample_time) && T::lt_s(zero_t::<T>(), dt)),
        (r matches Ok(d) ==> {
            &&& d.wf()
            &&& d@ == c2d_v(sys@, dt)
        }),
{
    if !(T::is_zero(sys.sample_time) && T::lt(T::from_usize(0), dt)) {
        return Err(PreconditionError);
    }
    let n = sys.a.nrows();
    let l = sys.b.ncols();
    let m0 = Mat::<T>::zeros(n + l, n + l);
    let m1 = m0.put_block(0, 0, &sys.a.scale(dt));
    let m2 = m1.put_block(0, n, &sys.b.scale(dt));
    let e = T::mat_exp(&m2);
    let a_d = e.block(0, 0, n, n);
    let b_d = e.block(0, n, n, l);
    let r = StateSpace {
        a: a_d,
        b: b_d,
        c: sys.c.dup(),
        d: sys.d.dup(),
        sample_time: dt,
    };
    assert(r@ == c2d_v(sys@, dt));
    Ok(r)
}

} // verus!
