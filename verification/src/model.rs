//! The state-space model and its dimensional validation.

use vstd::prelude::*;

use crate::matrix::{Mat, MatV};
use crate::ValidationError;

verus! {

/// Mathematical model of a state-space model: four matrix grids and the
/// sample period.
pub ghost struct SsV<T> {
    pub a: MatV<T>,
    pub b: MatV<T>,
    pub c: MatV<T>,
    pub d: MatV<T>,
    pub sample_time: T,
}

/// The dimensional consistency that a state-space model must satisfy:
/// `A` is square, `A`, `B` and `C` agree on the state dimension `n`,
/// `B` and `D` agree on the input width, and `C` and `D` agree on the
/// output count.
pub open spec fn dims_consistent<T>(a: MatV<T>, b: MatV<T>, c: MatV<T>, d: MatV<T>) -> bool {
    &&& a.rows == a.cols
    &&& a.rows == b.rows
    &&& a.rows == c.cols
    &&& b.cols == d.cols
    &&& c.rows == d.rows
}

impl<T> SsV<T> {
    /// All grids are rectangular and the dimensions are consistent.
    pub open spec fn wf(self) -> bool {
        &&& self.a.wf()
        &&& self.b.wf()
        &&& self.c.wf()
        &&& self.d.wf()
        &&& dims_consistent(self.a, self.b, self.c, self.d)
    }
}

/// A linear state-space model `x⁺ = A·x + B·u`, `y = C·x + D·u`, together
/// with its sample period (zero denotes continuous time). Validated once at
/// construction; no operation of this crate mutates it.
pub struct StateSpace<T> {
    /// System matrix `A` (n×n).
    pub a: Mat<T>,
    /// Input matrix `B` (n×l).
    pub b: Mat<T>,
    /// Output matrix `C` (p×n).
    pub c: Mat<T>,
    /// Feed-through matrix `D` (p×l).
    pub d: Mat<T>,
    /// Sample period; zero denotes a continuous-time model.
    pub sample_time: T,
}

impl<T> View for StateSpace<T> {
    type V = SsV<T>;

    open spec fn view(&self) -> SsV<T> {
        SsV { a: self.a@, b: self.b@, c: self.c@, d: self.d@, sample_time: self.sample_time }
    }
}

impl<T> StateSpace<T> {
    /// The stored grids are rectangular and dimensionally consistent.
    pub open spec fn wf(&self) -> bool {
        self@.wf()
    }

    /// Validates the dimensional invariants and builds the model.
    /// Fails exactly when the matrix dimensions are mutually inconsistent.
    pub fn new(a: Mat<T>, b: Mat<T>, c: Mat<T>, d: Mat<T>, dt: T) -> (r: Result<
        StateSpace<T>,
        ValidationError,
    >)
        requires
            a.wf(),
            b.wf(),
            c.wf(),
            d.wf(),
        ensures
            r is Ok <==> dims_consistent(a@, b@, c@, d@),
            (r matches Ok(m) ==> {
                &&& m.wf()
                &&& m@ == (SsV { a: a@, b: b@, c: c@, d: d@, sample_time: dt })
            }),
    {
        let check_n = (a.nrows() == a.ncols()) && (a.nrows() == b.nrows()) && (a.nrows()
            == c.ncols());
        let check_l = b.ncols() == d.ncols();
        let check_p = c.nrows() == d.nrows();
        if check_n && check_l && check_p {
            Ok(StateSpace { a, b, c, d, sample_time: dt })
        } else {
            Err(ValidationError)
        }
    }
}

} // verus!
