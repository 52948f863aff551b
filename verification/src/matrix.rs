//! Dense matrices of scalars, stored column by column.
use vstd::prelude::*;
use crate::error::Error;
use crate::linear_program::copy_scalars;
use crate::linear_program::rows_model;
use crate::scalar::Scalar;

verus! {

/// A matrix with `nrows` rows and `ncols` columns.
///
/// The entries are stored column after column: entry `(i, j)` is element
/// `j * nrows + i` of the storage, whose length is always `nrows * ncols`.
#[derive(Debug, PartialEq, Eq)]
pub struct Matrix {
    nrows: usize,
    ncols: usize,
    data: Vec<Scalar>,
}

/// `j * nrows + i` is a valid index into a storage of `nrows * ncols` entries.
proof fn lemma_index_in_range(i: int, j: int, nrows: int, ncols: int)
    requires
        0 <= i < nrows,
        0 <= j < ncols,
    ensures
        0 <= j * nrows,
        0 <= j * nrows + i < nrows * ncols,
        nrows * ncols == ncols * nrows,
{
    assert(nrows * ncols == ncols * nrows) by (nonlinear_arith);
    assert(0 <= j * nrows) by (nonlinear_arith)
        requires
            0 <= j,
            0 <= nrows,
    ;
    assert(j * nrows + nrows <= nrows * ncols) by (nonlinear_arith)
        requires
            0 <= j < ncols,
            0 <= nrows,
    ;
}

/// The entry in row `i` and column `j` of a column-major storage with
/// `nrows` rows.
pub open spec fn stored(storage: Seq<Scalar>, nrows: nat, i: int, j: int) -> Scalar {
    storage[j * nrows + i]
}

impl Matrix {
    #[verifier::type_invariant]
    spec fn well_formed(self) -> bool {
        self.data@.len() == self.nrows * self.ncols
    }

    /// The number of rows.
    pub closed spec fn spec_nrows(self) -> nat {
        self.nrows as nat
    }

    /// The number of columns.
    pub closed spec fn spec_ncols(self) -> nat {
        self.ncols as nat
    }

    /// The storage, column after column.
    pub closed spec fn spec_column_major(self) -> Seq<Scalar> {
        self.data@
    }

    /// The entry in row `i` and column `j`.
    pub open spec fn spec_entry(self, i: int, j: int) -> Scalar {
        stored(self.spec_column_major(), self.spec_nrows(), i, j)
    }

    /// Row `i`, from the first column to the last.
    pub open spec fn row(self, i: int) -> Seq<Scalar> {
        Seq::new(self.spec_ncols(), |j: int| self.spec_entry(i, j))
    }

    /// The rows, from the first to the last.
    pub open spec fn rows(self) -> Seq<Seq<Scalar>> {
        Seq::new(self.spec_nrows(), |i: int| self.row(i))
    }

    /// The matrix of the given shape over column-major storage; the storage
    /// must hold exactly `nrows * ncols` entries.
    pub fn from_column_major(nrows: usize, ncols: usize, data: Vec<Scalar>) -> (r: Result<
        Matrix,
        Error,
    >)
        ensures
            r is Ok <==> data@.len() == nrows * ncols,
            r is Err ==> r == Err::<Matrix, Error>(Error::DimensionMismatch),
            r is Ok ==> r->Ok_0.spec_nrows() == nrows && r->Ok_0.spec_ncols() == ncols
                && r->Ok_0.spec_column_major() == data@,
    {
        let len = data.len();
        match nrows.checked_mul(ncols) {
            Some(n) => {
                if n == len {
                    Ok(Matrix { nrows, ncols, data })
                } else {
                    Err(Error::DimensionMismatch)
                }
            },
            None => Err(Error::DimensionMismatch),
        }
    }

    /// The matrix of the given shape over row-major storage: entry `(i, j)`
    /// is element `i * ncols + j` of `data`, which must hold exactly
    /// `nrows * ncols` entries.
    pub fn from_row_major(nrows: usize, ncols: usize, data: &Vec<Scalar>) -> (r: Result<
        Matrix,
        Error,
    >)
        ensures
            r is Ok <==> data@.len() == nrows * ncols,
            r is Err ==> r == Err::<Matrix, Error>(Error::DimensionMismatch),
            r is Ok ==> r->Ok_0.spec_nrows() == nrows && r->Ok_0.spec_ncols() == ncols && (forall|
                i: int,
                j: int,
            |
                0 <= i < nrows && 0 <= j < ncols ==> #[trigger] r->Ok_0.spec_entry(i, j) == data@[i
                    * ncols + j]),
    {
        let len = data.len();
        match nrows.checked_mul(ncols) {
            Some(n) => {
                if n != len {
                    return Err(Error::DimensionMismatch);
                }
            },
            None => {
                return Err(Error::DimensionMismatch);
            },
        }
        let mut columns: Vec<Scalar> = Vec::new();
        let mut j: usize = 0;
        while j < ncols
            invariant
                j <= ncols,
                len == data@.len(),
                data@.len() == nrows * ncols,
                columns@.len() == j * nrows,
                forall|c: int, r: int|
                    0 <= c < j && 0 <= r < nrows ==> #[trigger] stored(columns@, nrows as nat, r, c)
                        == data@[r * ncols + c],
            decreases ncols - j,
        {
            let mut i: usize = 0;
            while i < nrows
                invariant
                    j < ncols,
                    i <= nrows,
                    len == data@.len(),
                    data@.len() == nrows * ncols,
                    columns@.len() == j * nrows + i,
                    forall|c: int, r: int|
                        0 <= c < j && 0 <= r < nrows ==> #[trigger] stored(
                            columns@,
                            nrows as nat,
                            r,
                            c,
                        ) == data@[r * ncols + c],
                    forall|r: int|
                        0 <= r < i ==> #[trigger] stored(columns@, nrows as nat, r, j as int)
                            == data@[r * ncols + j],
                decreases nrows - i,
            {
                let ghost before = columns@;
                proof {
                    lemma_index_in_range(j as int, i as int, ncols as int, nrows as int);
                }
                columns.push(data[i * ncols + j]);
                proof {
                    assert forall|c: int, r: int| 0 <= c < j && 0 <= r < nrows implies #[trigger] stored(
                        columns@,
                        nrows as nat,
                        r,
                        c,
                    ) == data@[r * ncols + c] by {
                        lemma_index_in_range(r, c, nrows as int, j as int);
                        assert(stored(columns@, nrows as nat, r, c) == stored(
                            before,
                            nrows as nat,
                            r,
                            c,
                        ));
                    }
                    assert forall|r: int| 0 <= r < i + 1 implies #[trigger] stored(
                        columns@,
                        nrows as nat,
                        r,
                        j as int,
                    ) == data@[r * ncols + j] by {
                        if r < i {
                            assert(stored(columns@, nrows as nat, r, j as int) == stored(
                                before,
                                nrows as nat,
                                r,
                                j as int,
                            ));
                        }
                    }
                }
                i += 1;
            }
            proof {
                assert((j + 1) * nrows == j * nrows + nrows) by (nonlinear_arith);
                assert forall|c: int, r: int| 0 <= c < j + 1 && 0 <= r < nrows implies #[trigger] stored(
                    columns@,
                    nrows as nat,
                    r,
                    c,
                ) == data@[r * ncols + c] by {
                    if c == j {
                    }
                }
            }
            j += 1;
        }
        proof {
            assert(ncols * nrows == nrows * ncols) by (nonlinear_arith);
        }
        Ok(Matrix { nrows, ncols, data: columns })
    }

    /// The matrix whose rows are the given vectors, each of length `ncols`.
    pub fn from_rows(rows: &Vec<Vec<Scalar>>, ncols: usize) -> (r: Result<Matrix, Error>)
        ensures
            r is Ok <==> (forall|i: int| 0 <= i < rows@.len() ==> (#[trigger] rows@[i])@.len() == ncols),
            r is Err ==> r == Err::<Matrix, Error>(Error::DimensionMismatch),
            r is Ok ==> r->Ok_0.spec_nrows() == rows@.len() && r->Ok_0.spec_ncols() == ncols
                && r->Ok_0.rows() == rows_model(rows),
    {
        let nrows = rows.len();
        let mut i: usize = 0;
        while i < nrows
            invariant
                nrows == rows@.len(),
                i <= nrows,
                forall|k: int| 0 <= k < i ==> (#[trigger] rows@[k])@.len() == ncols,
            decreases nrows - i,
        {
            if rows[i].len() != ncols {
                return Err(Error::DimensionMismatch);
            }
            i += 1;
        }
        let mut data: Vec<Scalar> = Vec::new();
        let mut j: usize = 0;
        while j < ncols
            invariant
                nrows == rows@.len(),
                j <= ncols,
                forall|k: int| 0 <= k < nrows ==> (#[trigger] rows@[k])@.len() == ncols,
                data@.len() == j * nrows,
                forall|c: int, r: int|
                    0 <= c < j && 0 <= r < nrows ==> data@[c * nrows + r] == rows@[r]@[c],
            decreases ncols - j,
        {
            let mut i: usize = 0;
            while i < nrows
                invariant
                    nrows == rows@.len(),
                    j < ncols,
                    i <= nrows,
                    forall|k: int| 0 <= k < nrows ==> (#[trigger] rows@[k])@.len() == ncols,
                    data@.len() == j * nrows + i,
                    forall|c: int, r: int|
                        0 <= c < j && 0 <= r < nrows ==> data@[c * nrows + r] == rows@[r]@[c],
                    forall|r: int| 0 <= r < i ==> data@[j * nrows + r] == rows@[r]@[j as int],
                decreases nrows - i,
            {
                let ghost before = data@;
                data.push(rows[i][j]);
                proof {
                    assert forall|c: int, r: int| 0 <= c < j && 0 <= r < nrows implies data@[c
                        * nrows + r] == rows@[r]@[c] by {
                        lemma_index_in_range(r, c, nrows as int, j as int);
                        assert(data@[c * nrows + r] == before[c * nrows + r]);
                    }
                }
                i += 1;
            }
            proof {
                assert((j + 1) * nrows == j * nrows + nrows) by (nonlinear_arith);
                assert forall|c: int, r: int| 0 <= c < j + 1 && 0 <= r < nrows implies data@[c
                    * nrows + r] == rows@[r]@[c] by {
                    if c == j {
                    }
                }
            }
            j += 1;
        }
        proof {
            assert(ncols * nrows == nrows * ncols) by (nonlinear_arith);
        }
        let m = Matrix { nrows, ncols, data };
        proof {
            assert forall|i: int| 0 <= i < nrows implies #[trigger] m.rows()[i] == rows_model(
                rows,
            )[i] by {
                assert(m.row(i) =~= rows@[i]@);
            }
            assert(m.rows() =~= rows_model(rows));
        }
        Ok(m)
    }

    /// The number of rows.
    pub fn nrows(&self) -> (n: usize)
        ensures
            n == self.spec_nrows(),
    {
        self.nrows
    }

    /// The number of columns.
    pub fn ncols(&self) -> (n: usize)
        ensures
            n == self.spec_ncols(),
    {
        self.ncols
    }

    /// The storage, column after column.
    pub fn column_major(&self) -> (data: &Vec<Scalar>)
        ensures
            data@ == self.spec_column_major(),
            data@.len() == self.spec_nrows() * self.spec_ncols(),
    {
        proof {
            use_type_invariant(self);
        }
        &self.data
    }

    /// The entry in row `i` and column `j`.
    pub fn get(&self, i: usize, j: usize) -> (x: Scalar)
        requires
            i < self.spec_nrows(),
            j < self.spec_ncols(),
        ensures
            x == self.spec_entry(i as int, j as int),
    {
        proof {
            use_type_invariant(self);
            lemma_index_in_range(i as int, j as int, self.nrows as int, self.ncols as int);
            assert(self.data@.len() == self.data.len());
        }
        self.data[j * self.nrows + i]
    }

    /// A copy of row `i`.
    pub fn row_vec(&self, i: usize) -> (v: Vec<Scalar>)
        requires
            i < self.spec_nrows(),
        ensures
            v@ == self.row(i as int),
    {
        let mut v: Vec<Scalar> = Vec::new();
        let mut j: usize = 0;
        while j < self.ncols
            invariant
                i < self.spec_nrows(),
                j <= self.spec_ncols(),
                self.ncols == self.spec_ncols(),
                v@.len() == j,
                forall|k: int| 0 <= k < j ==> v@[k] == self.spec_entry(i as int, k),
            decreases self.ncols - j,
        {
            v.push(self.get(i, j));
            j += 1;
        }
        assert(v@ =~= self.row(i as int));
        v
    }
}

impl Clone for Matrix {
    fn clone(&self) -> (m: Matrix)
        ensures
            m.spec_nrows() == self.spec_nrows(),
            m.spec_ncols() == self.spec_ncols(),
            m.spec_column_major() == self.spec_column_major(),
    {
        proof {
            use_type_invariant(self);
        }
        Matrix { nrows: self.nrows, ncols: self.ncols, data: copy_scalars(&self.data) }
    }
}

} // verus!
