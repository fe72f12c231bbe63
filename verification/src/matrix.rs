//! Dense matrices over an abstract scalar, with exact elementwise contracts.
//!
//! A [`Mat`] is a row-major grid of scalars. Its mathematical model is
//! [`MatV`]: dimensions plus a sequence of rows. Every operation that the
//! control law needs — product, sum, difference, negation, transpose, scaling,
//! integer power and block movement — is implemented and verified here, each
//! pinned to a specification function over [`MatV`]. The accumulation order of
//! every sum is part of the specification, so results are reproducible
//! bit-for-bit for any given scalar backend.

use vstd::prelude::*;

use crate::scalar::Scalar;

verus! {

/// Mathematical model of a matrix: a `rows × cols` grid of scalars, row-major.
#[verifier::ext_equal]
pub ghost struct MatV<T> {
    pub rows: nat,
    pub cols: nat,
    pub elems: Seq<Seq<T>>,
}

impl<T> MatV<T> {
    /// The grid is rectangular and matches the stated dimensions.
    pub open spec fn wf(self) -> bool {
        &&& self.elems.len() == self.rows
        &&& forall|i: int| 0 <= i < self.rows ==> (#[trigger] self.elems[i]).len() == self.cols
    }

    /// The scalar in row `i`, column `j`.
    pub open spec fn entry(self, i: int, j: int) -> T {
        self.elems[i][j]
    }
}

/// A grid built from an entry function.
pub open spec fn grid_v<T>(rows: nat, cols: nat, f: spec_fn(int, int) -> T) -> MatV<T> {
    MatV { rows, cols, elems: Seq::new(rows, |i: int| Seq::new(cols, |j: int| f(i, j))) }
}

/// The additive identity of the scalar backend.
pub open spec fn zero_t<T: Scalar>() -> T {
    T::from_usize_s(0)
}

/// The multiplicative identity of the scalar backend.
pub open spec fn one_t<T: Scalar>() -> T {
    T::from_usize_s(1)
}

/// The all-zero matrix.
pub open spec fn zeros_v<T: Scalar>(rows: nat, cols: nat) -> MatV<T> {
    grid_v(rows, cols, |i: int, j: int| zero_t::<T>())
}

/// The identity matrix.
pub open spec fn identity_v<T: Scalar>(n: nat) -> MatV<T> {
    grid_v(n, n, |i: int, j: int| if i == j { one_t::<T>() } else { zero_t::<T>() })
}

/// The first `k` terms of the inner product of row `i` of `a` with column `j`
/// of `b`, accumulated left to right from zero.
pub open spec fn dot_s<T: Scalar>(a: MatV<T>, b: MatV<T>, i: int, j: int, k: nat) -> T
    decreases k,
{
    if k == 0 {
        zero_t::<T>()
    } else {
        T::add_s(dot_s(a, b, i, j, (k - 1) as nat), T::mul_s(a.entry(i, k - 1), b.entry(k - 1, j)))
    }
}

/// The matrix product `a · b`.
pub open spec fn mul_v<T: Scalar>(a: MatV<T>, b: MatV<T>) -> MatV<T> {
    grid_v(a.rows, b.cols, |i: int, j: int| dot_s(a, b, i, j, a.cols))
}

/// The elementwise sum `a + b`.
pub open spec fn add_v<T: Scalar>(a: MatV<T>, b: MatV<T>) -> MatV<T> {
    grid_v(a.rows, a.cols, |i: int, j: int| T::add_s(a.entry(i, j), b.entry(i, j)))
}

/// The elementwise difference `a - b`.
pub open spec fn sub_v<T: Scalar>(a: MatV<T>, b: MatV<T>) -> MatV<T> {
    grid_v(a.rows, a.cols, |i: int, j: int| T::sub_s(a.entry(i, j), b.entry(i, j)))
}

/// The elementwise negation `-a`.
pub open spec fn neg_v<T: Scalar>(a: MatV<T>) -> MatV<T> {
    grid_v(a.rows, a.cols, |i: int, j: int| T::neg_s(a.entry(i, j)))
}

/// The transpose of `a`.
pub open spec fn transpose_v<T>(a: MatV<T>) -> MatV<T> {
    grid_v(a.cols, a.rows, |i: int, j: int| a.entry(j, i))
}

/// Every entry of `a` multiplied on the right by the scalar `s`.
pub open spec fn scale_v<T: Scalar>(a: MatV<T>, s: T) -> MatV<T> {
    grid_v(a.rows, a.cols, |i: int, j: int| T::mul_s(a.entry(i, j), s))
}

/// The `k`-th power of the square matrix `a`, accumulated as
/// `((I · a) · a) ⋯ · a`.
pub open spec fn pow_v<T: Scalar>(a: MatV<T>, k: nat) -> MatV<T>
    decreases k,
{
    if k == 0 {
        identity_v(a.rows)
    } else {
        mul_v(pow_v(a, (k - 1) as nat), a)
    }
}

/// `m` with the block starting at `(r0, c0)` overwritten by `s`.
pub open spec fn put_block_v<T>(m: MatV<T>, r0: int, c0: int, s: MatV<T>) -> MatV<T> {
    grid_v(
        m.rows,
        m.cols,
        |i: int, j: int|
            if r0 <= i < r0 + s.rows && c0 <= j < c0 + s.cols {
                s.entry(i - r0, j - c0)
            } else {
                m.entry(i, j)
            },
    )
}

/// The `h × w` block of `m` whose top-left corner is `(r0, c0)`.
pub open spec fn block_v<T>(m: MatV<T>, r0: int, c0: int, h: nat, w: nat) -> MatV<T> {
    grid_v(h, w, |i: int, j: int| m.entry(i + r0, j + c0))
}

/// A dense matrix over the scalar type `T`, stored row-major.
pub struct Mat<T> {
    pub rows: usize,
    pub cols: usize,
    pub data: Vec<Vec<T>>,
}

impl<T> View for Mat<T> {
    type V = MatV<T>;

    open spec fn view(&self) -> MatV<T> {
        MatV {
            rows: self.rows as nat,
            cols: self.cols as nat,
            elems: Seq::new(self.data@.len(), |i: int| self.data@[i]@),
        }
    }
}

impl<T> Mat<T> {
    /// The stored grid is rectangular and matches the stated dimensions.
    pub open spec fn wf(&self) -> bool {
        self@.wf()
    }

    /// Number of rows.
    pub fn nrows(&self) -> (r: usize)
        ensures
            r == self@.rows,
    {
        self.rows
    }

    /// Number of columns.
    pub fn ncols(&self) -> (r: usize)
        ensures
            r == self@.cols,
    {
        self.cols
    }

    /// Builds a matrix from its rows. Returns `None` when the rows are not
    /// all of length `cols`.
    pub fn from_rows(cols: usize, rows_data: Vec<Vec<T>>) -> (r: Option<Mat<T>>)
        ensures
            r is Some <==> (forall|i: int|
                0 <= i < rows_data@.len() ==> (#[trigger] rows_data@[i])@.len() == cols),
            (r matches Some(m) ==> {
                &&& m.wf()
                &&& m@.rows == rows_data@.len()
                &&& m@.cols == cols
                &&& forall|i: int| 0 <= i < rows_data@.len() ==> m@.elems[i] == (#[trigger] rows_data@[i])@
            }),
    {
        let n = rows_data.len();
        let mut ok = true;
        for i in 0..n
            invariant
                n == rows_data@.len(),
                ok <==> (forall|x: int|
                    0 <= x < i ==> (#[trigger] rows_data@[x])@.len() == cols),
        {
            if rows_data[i].len() != cols {
                ok = false;
            }
        }
        if ok {
            let m = Mat { rows: n, cols, data: rows_data };
            assert(m@.wf());
            Some(m)
        } else {
            None
        }
    }
}

impl<T: Scalar> Mat<T> {
    /// The scalar in row `i`, column `j`.
    pub fn get(&self, i: usize, j: usize) -> (r: T)
        requires
            self.wf(),
            i < self@.rows,
            j < self@.cols,
        ensures
            r == self@.entry(i as int, j as int),
    {
        proof {
            assert(self@.elems[i as int].len() == self@.cols);
            assert(self@.elems[i as int] == self.data@[i as int]@);
        }
        self.data[i][j]
    }

    /// An exact copy.
    pub fn dup(&self) -> (r: Mat<T>)
        requires
            self.wf(),
        ensures
            r.wf(),
            r@ == self@,
    {
        let mut data: Vec<Vec<T>> = Vec::new();
        for i in 0..self.rows
            invariant
                self.wf(),
                data@.len() == i,
                forall|x: int| 0 <= x < i ==> (#[trigger] data@[x])@ == self@.elems[x],
        {
            let mut row: Vec<T> = Vec::new();
            for j in 0..self.cols
                invariant
                    self.wf(),
                    i < self@.rows,
                    row@.len() == j,
                    forall|y: int| 0 <= y < j ==> (#[trigger] row@[y]) == self@.entry(i as int, y),
            {
                row.push(self.get(i, j));
            }
            assert(row@ =~= self@.elems[i as int]);
            data.push(row);
        }
        let r = Mat { rows: self.rows, cols: self.cols, data };
        assert(r@ =~~= self@);
        r
    }

    /// The all-zero matrix.
    pub fn zeros(rows: usize, cols: usize) -> (r: Mat<T>)
        ensures
            r.wf(),
            r@ == zeros_v::<T>(rows as nat, cols as nat),
    {
        let mut data: Vec<Vec<T>> = Vec::new();
        let target = Ghost(zeros_v::<T>(rows as nat, cols as nat));
        for i in 0..rows
            invariant
                target@ == zeros_v::<T>(rows as nat, cols as nat),
                data@.len() == i,
                forall|x: int| 0 <= x < i ==> (#[trigger] data@[x])@ == target@.elems[x],
        {
            let mut row: Vec<T> = Vec::new();
            for j in 0..cols
                invariant
                    target@ == zeros_v::<T>(rows as nat, cols as nat),
                    i < rows,
                    row@.len() == j,
                    forall|y: int| 0 <= y < j ==> (#[trigger] row@[y]) == target@.entry(i as int, y),
            {
                row.push(T::from_usize(0));
            }
            assert(row@ =~= target@.elems[i as int]);
            data.push(row);
        }
        let r = Mat { rows, cols, data };
        assert(r@ =~~= target@);
        r
    }

    /// The identity matrix.
    pub fn identity(n: usize) -> (r: Mat<T>)
        ensures
            r.wf(),
            r@ == identity_v::<T>(n as nat),
    {
        let mut data: Vec<Vec<T>> = Vec::new();
        let target = Ghost(identity_v::<T>(n as nat));
        for i in 0..n
            invariant
                target@ == identity_v::<T>(n as nat),
                data@.len() == i,
                forall|x: int| 0 <= x < i ==> (#[trigger] data@[x])@ == target@.elems[x],
        {
            let mut row: Vec<T> = Vec::new();
            for j in 0..n
                invariant
                    target@ == identity_v::<T>(n as nat),
                    i < n,
                    row@.len() == j,
                    forall|y: int| 0 <= y < j ==> (#[trigger] row@[y]) == target@.entry(i as int, y),
            {
                if i == j {
                    row.push(T::from_usize(1));
                } else {
                    row.push(T::from_usize(0));
                }
            }
            assert(row@ =~= target@.elems[i as int]);
            data.push(row);
        }
        let r = Mat { rows: n, cols: n, data };
        assert(r@ =~~= target@);
        r
    }

    /// The matrix product `self · other`.
    pub fn mul_mat(&self, other: &Mat<T>) -> (r: Mat<T>)
        requires
            self.wf(),
            other.wf(),
            self@.cols == other@.rows,
        ensures
            r.wf(),
            r@ == mul_v(self@, other@),
    {
        let mut data: Vec<Vec<T>> = Vec::new();
        let target = Ghost(mul_v(self@, other@));
        for i in 0..self.rows
            invariant
                self.wf(),
                other.wf(),
                self@.cols == other@.rows,
                target@ == mul_v(self@, other@),
                data@.len() == i,
                forall|x: int| 0 <= x < i ==> (#[trigger] data@[x])@ == target@.elems[x],
        {
            let mut row: Vec<T> = Vec::new();
            for j in 0..other.cols
                invariant
                    self.wf(),
                    other.wf(),
                    self@.cols == other@.rows,
                    target@ == mul_v(self@, other@),
                    i < self@.rows,
                    row@.len() == j,
                    forall|y: int| 0 <= y < j ==> (#[trigger] row@[y]) == target@.entry(i as int, y),
            {
                let mut acc = T::from_usize(0);
                for q in 0..self.cols
                    invariant
                        self.wf(),
                        other.wf(),
                        self@.cols == other@.rows,
                        i < self@.rows,
                        j < other@.cols,
                        acc == dot_s(self@, other@, i as int, j as int, q as nat),
                {
                    acc = T::add(acc, T::mul(self.get(i, q), other.get(q, j)));
                }
                row.push(acc);
            }
            assert(row@ =~= target@.elems[i as int]);
            data.push(row);
        }
        let r = Mat { rows: self.rows, cols: other.cols, data };
        assert(r@ =~~= target@);
        r
    }

    /// The elementwise sum `self + other`.
    pub fn add_mat(&self, other: &Mat<T>) -> (r: Mat<T>)
        requires
            self.wf(),
            other.wf(),
            self@.rows == other@.rows,
            self@.cols == other@.cols,
        ensures
            r.wf(),
            r@ == add_v(self@, other@),
    {
        let mut data: Vec<Vec<T>> = Vec::new();
        let target = Ghost(add_v(self@, other@));
        for i in 0..self.rows
            invariant
                self.wf(),
                other.wf(),
                self@.rows == other@.rows,
                self@.cols == other@.cols,
                target@ == add_v(self@, other@),
                data@.len() == i,
                forall|x: int| 0 <= x < i ==> (#[trigger] data@[x])@ == target@.elems[x],
        {
            let mut row: Vec<T> = Vec::new();
            for j in 0..self.cols
                invariant
                    self.wf(),
                    other.wf(),
                    self@.rows == other@.rows,
                    self@.cols == other@.cols,
                    target@ == add_v(self@, other@),
                    i < self@.rows,
                    row@.len() == j,
                    forall|y: int| 0 <= y < j ==> (#[trigger] row@[y]) == target@.entry(i as int, y),
            {
                row.push(T::add(self.get(i, j), other.get(i, j)));
            }
            assert(row@ =~= target@.elems[i as int]);
            data.push(row);
        }
        let r = Mat { rows: self.rows, cols: self.cols, data };
        assert(r@ =~~= target@);
        r
    }

    /// The elementwise difference `self - other`.
    pub fn sub_mat(&self, other: &Mat<T>) -> (r: Mat<T>)
        requires
            self.wf(),
            other.wf(),
            self@.rows == other@.rows,
            self@.cols == other@.cols,
        ensures
            r.wf(),
            r@ == sub_v(self@, other@),
    {
        let mut data: Vec<Vec<T>> = Vec::new();
        let target = Ghost(sub_v(self@, other@));
        for i in 0..self.rows
            invariant
                self.wf(),
                other.wf(),
                self@.rows == other@.rows,
                self@.cols == other@.cols,
                target@ == sub_v(self@, other@),
                data@.len() == i,
                forall|x: int| 0 <= x < i ==> (#[trigger] data@[x])@ == target@.elems[x],
        {
            let mut row: Vec<T> = Vec::new();
            for j in 0..self.cols
                invariant
                    self.wf(),
                    other.wf(),
                    self@.rows == other@.rows,
                    self@.cols == other@.cols,
                    target@ == sub_v(self@, other@),
                    i < self@.rows,
                    row@.len() == j,
                    forall|y: int| 0 <= y < j ==> (#[trigger] row@[y]) == target@.entry(i as int, y),
            {
                row.push(T::sub(self.get(i, j), other.get(i, j)));
            }
            assert(row@ =~= target@.elems[i as int]);
            data.push(row);
        }
        let r = Mat { rows: self.rows, cols: self.cols, data };
        assert(r@ =~~= target@);
        r
    }

    /// The elementwise negation `-self`.
    pub fn neg_mat(&self) -> (r: Mat<T>)
        requires
            self.wf(),
        ensures
            r.wf(),
            r@ == neg_v(self@),
    {
        let mut data: Vec<Vec<T>> = Vec::new();
        let target = Ghost(neg_v(self@));
        for i in 0..self.rows
            invariant
                self.wf(),
                target@ == neg_v(self@),
                data@.len() == i,
                forall|x: int| 0 <= x < i ==> (#[trigger] data@[x])@ == target@.elems[x],
        {
            let mut row: Vec<T> = Vec::new();
            for j in 0..self.cols
                invariant
                    self.wf(),
                    target@ == neg_v(self@),
                    i < self@.rows,
                    row@.len() == j,
                    forall|y: int| 0 <= y < j ==> (#[trigger] row@[y]) == target@.entry(i as int, y),
            {
                row.push(T::neg(self.get(i, j)));
            }
            assert(row@ =~= target@.elems[i as int]);
            data.push(row);
        }
        let r = Mat { rows: self.rows, cols: self.cols, data };
        assert(r@ =~~= target@);
        r
    }

    /// The transpose.
    pub fn transpose(&self) -> (r: Mat<T>)
        requires
            self.wf(),
        ensures
            r.wf(),
            r@ == transpose_v(self@),
    {
        let mut data: Vec<Vec<T>> = Vec::new();
        let target = Ghost(transpose_v(self@));
        for i in 0..self.cols
            invariant
                self.wf(),
                target@ == transpose_v(self@),
                data@.len() == i,
                forall|x: int| 0 <= x < i ==> (#[trigger] data@[x])@ == target@.elems[x],
        {
            let mut row: Vec<T> = Vec::new();
            for j in 0..self.rows
                invariant
                    self.wf(),
                    target@ == transpose_v(self@),
                    i < self@.cols,
                    row@.len() == j,
                    forall|y: int| 0 <= y < j ==> (#[trigger] row@[y]) == target@.entry(i as int, y),
            {
                row.push(self.get(j, i));
            }
            assert(row@ =~= target@.elems[i as int]);
            data.push(row);
        }
        let r = Mat { rows: self.cols, cols: self.rows, data };
        assert(r@ =~~= target@);
        r
    }

    /// Every entry multiplied on the right by `s`.
    pub fn scale(&self, s: T) -> (r: Mat<T>)
        requires
            self.wf(),
        ensures
            r.wf(),
            r@ == scale_v(self@, s),
    {
        let mut data: Vec<Vec<T>> = Vec::new();
        let target = Ghost(scale_v(self@, s));
        for i in 0..self.rows
            invariant
                self.wf(),
                target@ == scale_v(self@, s),
                data@.len() == i,
                forall|x: int| 0 <= x < i ==> (#[trigger] data@[x])@ == target@.elems[x],
        {
            let mut row: Vec<T> = Vec::new();
            for j in 0..self.cols
                invariant
                    self.wf(),
                    target@ == scale_v(self@, s),
                    i < self@.rows,
                    row@.len() == j,
                    forall|y: int| 0 <= y < j ==> (#[trigger] row@[y]) == target@.entry(i as int, y),
            {
                row.push(T::mul(self.get(i, j), s));
            }
            assert(row@ =~= target@.elems[i as int]);
            data.push(row);
        }
        let r = Mat { rows: self.rows, cols: self.cols, data };
        assert(r@ =~~= target@);
        r
    }

    /// The `k`-th power of a square matrix, by repeated multiplication.
    pub fn pow_mat(&self, k: u32) -> (r: Mat<T>)
        requires
            self.wf(),
            self@.rows == self@.cols,
        ensures
            r.wf(),
            r@ == pow_v(self@, k as nat),
            r@.rows == self@.rows,
            r@.cols == self@.cols,
    {
        let n = self.rows;
        let mut acc = Mat::<T>::identity(n);
        for t in 0..k
            invariant
                self.wf(),
                self@.rows == self@.cols,
                n == self@.rows,
                acc.wf(),
                acc@.rows == n,
                acc@.cols == n,
                acc@ == pow_v(self@, t as nat),
        {
            acc = acc.mul_mat(self);
        }
        acc
    }

    /// `self` with the block whose top-left corner is `(r0, c0)` overwritten
    /// by `s`.
    pub fn put_block(&self, r0: usize, c0: usize, s: &Mat<T>) -> (r: Mat<T>)
        requires
            self.wf(),
            s.wf(),
            r0 + s@.rows <= self@.rows,
            c0 + s@.cols <= self@.cols,
        ensures
            r.wf(),
            r@ == put_block_v(self@, r0 as int, c0 as int, s@),
    {
        let mut data: Vec<Vec<T>> = Vec::new();
        let target = Ghost(put_block_v(self@, r0 as int, c0 as int, s@));
        for i in 0..self.rows
            invariant
                self.wf(),
                s.wf(),
                r0 + s@.rows <= self@.rows,
                c0 + s@.cols <= self@.cols,
                target@ == put_block_v(self@, r0 as int, c0 as int, s@),
                data@.len() == i,
                forall|x: int| 0 <= x < i ==> (#[trigger] data@[x])@ == target@.elems[x],
        {
            let mut row: Vec<T> = Vec::new();
            for j in 0..self.cols
                invariant
                    self.wf(),
                    s.wf(),
                    r0 + s@.rows <= self@.rows,
                    c0 + s@.cols <= self@.cols,
                    target@ == put_block_v(self@, r0 as int, c0 as int, s@),
                    i < self@.rows,
                    row@.len() == j,
                    forall|y: int| 0 <= y < j ==> (#[trigger] row@[y]) == target@.entry(i as int, y),
            {
                let inside = r0 <= i && i < r0 + s.rows && c0 <= j && j < c0 + s.cols;
                if inside {
                    row.push(s.get(i - r0, j - c0));
                } else {
                    row.push(self.get(i, j));
                }
            }
            assert(row@ =~= target@.elems[i as int]);
            data.push(row);
        }
        let r = Mat { rows: self.rows, cols: self.cols, data };
        assert(r@ =~~= target@);
        r
    }

    /// The `h × w` block of `self` whose top-left corner is `(r0, c0)`.
    pub fn block(&self, r0: usize, c0: usize, h: usize, w: usize) -> (r: Mat<T>)
        requires
            self.wf(),
            r0 + h <= self@.rows,
            c0 + w <= self@.cols,
        ensures
            r.wf(),
            r@ == block_v(self@, r0 as int, c0 as int, h as nat, w as nat),
    {
        let mut data: Vec<Vec<T>> = Vec::new();
        let target = Ghost(block_v(self@, r0 as int, c0 as int, h as nat, w as nat));
        for i in 0..h
            invariant
                self.wf(),
                r0 + h <= self@.rows,
                c0 + w <= self@.cols,
                target@ == block_v(self@, r0 as int, c0 as int, h as nat, w as nat),
                data@.len() == i,
                forall|x: int| 0 <= x < i ==> (#[trigger] data@[x])@ == target@.elems[x],
        {
            let mut row: Vec<T> = Vec::new();
            for j in 0..w
                invariant
                    self.wf(),
                    r0 + h <= self@.rows,
                    c0 + w <= self@.cols,
                    target@ == block_v(self@, r0 as int, c0 as int, h as nat, w as nat),
                    i < h,
                    row@.len() == j,
                    forall|y: int| 0 <= y < j ==> (#[trigger] row@[y]) == target@.entry(i as int, y),
            {
                row.push(self.get(r0 + i, c0 + j));
            }
            assert(row@ =~= target@.elems[i as int]);
            data.push(row);
        }
        let r = Mat { rows: h, cols: w, data };
        assert(r@ =~~= target@);
        r
    }
}

} // verus!
