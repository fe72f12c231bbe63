//! The numeric capability the control law depends on.
//!
//! The control law never computes with a concrete number type: every scalar
//! operation, together with the two dense-linear-algebra operations that are
//! whole algorithms of their own (matrix exponential, matrix inverse), is a
//! method of the [`Scalar`] trait. Each method is pinned to an abstract
//! per-implementation specification function, so for any one backend every
//! operation is a mathematical function of its operands: the verified code
//! above this trait is exact and deterministic relative to the backend.
//!
//! A compliant backend (for example IEEE-754 doubles with a dense
//! linear-algebra library supplying `exp` and `try_inverse`) implements the
//! trait outside the verified crate; its methods must be pure functions of
//! their arguments and must report the matrix dimensions truthfully.

use vstd::prelude::*;

use crate::matrix::{Mat, MatV};

verus! {

/// An abstract real-arithmetic backend.
pub trait Scalar: Sized + Copy {
    /// The scalar denoted by the integer `v`.
    spec fn from_usize_s(v: usize) -> Self;

    /// The sum `a + b`.
    spec fn add_s(a: Self, b: Self) -> Self;

    /// The difference `a - b`.
    spec fn sub_s(a: Self, b: Self) -> Self;

    /// The product `a · b`.
    spec fn mul_s(a: Self, b: Self) -> Self;

    /// The quotient `a / b`.
    spec fn div_s(a: Self, b: Self) -> Self;

    /// The negation `-a`.
    spec fn neg_s(a: Self) -> Self;

    /// The natural exponential `e^a`.
    spec fn exp_s(a: Self) -> Self;

    /// The `k`-th power `a^k`.
    spec fn powi_s(a: Self, k: u32) -> Self;

    /// Whether `a` compares strictly below `b`.
    spec fn lt_s(a: Self, b: Self) -> bool;

    /// Whether `a` equals the backend's zero.
    spec fn is_zero_s(a: Self) -> bool;

    /// `a` rounded toward negative infinity, then taken to `u32`.
    spec fn floor_u32_s(a: Self) -> u32;

    /// The matrix exponential of the square matrix `m`.
    spec fn mat_exp_s(m: MatV<Self>) -> MatV<Self>;

    /// Whether the backend can invert the square matrix `m`.
    spec fn mat_invertible_s(m: MatV<Self>) -> bool;

    /// The inverse of `m`, meaningful when `mat_invertible_s(m)` holds.
    spec fn mat_inverse_s(m: MatV<Self>) -> MatV<Self>;

    fn from_usize(v: usize) -> (r: Self)
        ensures
            r == Self::from_usize_s(v),
    ;

    fn add(a: Self, b: Self) -> (r: Self)
        ensures
            r == Self::add_s(a, b),
    ;

    fn sub(a: Self, b: Self) -> (r: Self)
        ensures
            r == Self::sub_s(a, b),
    ;

    fn mul(a: Self, b: Self) -> (r: Self)
        ensures
            r == Self::mul_s(a, b),
    ;

    fn div(a: Self, b: Self) -> (r: Self)
        ensures
            r == Self::div_s(a, b),
    ;

    fn neg(a: Self) -> (r: Self)
        ensures
            r == Self::neg_s(a),
    ;

    fn exp(a: Self) -> (r: Self)
        ensures
            r == Self::exp_s(a),
    ;

    fn powi(a: Self, k: u32) -> (r: Self)
        ensures
            r == Self::powi_s(a, k),
    ;

    fn lt(a: Self, b: Self) -> (r: bool)
        ensures
            r == Self::lt_s(a, b),
    ;

    fn is_zero(a: Self) -> (r: bool)
        ensures
            r == Self::is_zero_s(a),
    ;

    fn floor_u32(a: Self) -> (r: u32)
        ensures
            r == Self::floor_u32_s(a),
    ;

    fn mat_exp(m: &Mat<Self>) -> (r: Mat<Self>)
        requires
            m.wf(),
            m@.rows == m@.cols,
        ensures
            r.wf(),
            r@.rows == m@.rows,
            r@.cols == m@.cols,
            r@ == Self::mat_exp_s(m@),
    ;

    fn mat_inverse(m: &Mat<Self>) -> (r: Option<Mat<Self>>)
        requires
            m.wf(),
            m@.rows == m@.cols,
        ensures
            r is Some <==> Self::mat_invertible_s(m@),
            (r matches Some(inv) ==> {
                &&& inv.wf()
                &&& inv@.rows == m@.rows
                &&& inv@.cols == m@.cols
                &&& inv@ == Self::mat_inverse_s(m@)
            }),
    ;
}

} // verus!
