//! Square grids of scalars: building them and taking them apart.
use vstd::prelude::*;
use crate::scalar::{is_zero, negated, opposite, zero, ONE};

verus! {

/// A square grid of single-precision bit patterns, `size` rows of `size`
/// cells.
#[derive(Clone, Debug, PartialEq, Eq)]
pub struct Matrice {
    pub size: usize,
    pub matrice: Vec<Vec<u32>>,
}

impl Matrice {
    /// The rows are as many and as long as the grid says.
    pub open spec fn wf(&self) -> bool {
        &&& self.matrice@.len() == self.size
        &&& forall|r: int| 0 <= r < self.size ==> (#[trigger] self.matrice@[r])@.len() == self.size
    }

    /// The cell in row `row` and column `column`.
    pub open spec fn cell(&self, row: int, column: int) -> u32 {
        self.matrice@[row]@[column]
    }

    /// A cell of the identity: one on the diagonal, zero off it.
    pub open spec fn identity_cell(row: int, column: int) -> u32 {
        if row == column {
            ONE
        } else {
            0
        }
    }

    /// The grid is the identity of four rows and columns, which leaves every
    /// point where it is.
    pub open spec fn is_identity(&self) -> bool {
        &&& self.wf()
        &&& self.size == 4
        &&& forall|i: int, j: int|
            0 <= i < 4 && 0 <= j < 4 ==> self.cell(i, j) == Matrice::identity_cell(i, j)
    }

    /// The grid of zeros.
    pub fn new(size: usize) -> (r: Matrice)
        ensures
            r.wf(),
            r.size == size,
            forall|i: int, j: int| 0 <= i < size && 0 <= j < size ==> r.cell(i, j) == 0,
    {
        let mut rows: Vec<Vec<u32>> = Vec::new();
        let mut i: usize = 0;
        while i < size
            invariant
                i <= size,
                rows@.len() == i,
                forall|k: int| 0 <= k < i ==> (#[trigger] rows@[k])@.len() == size,
                forall|k: int, j: int| 0 <= k < i && 0 <= j < size ==> rows@[k]@[j] == 0,
            decreases size - i,
        {
            let mut row: Vec<u32> = Vec::new();
            let mut j: usize = 0;
            while j < size
                invariant
                    j <= size,
                    row@.len() == j,
                    forall|k: int| 0 <= k < j ==> row@[k] == 0,
                decreases size - j,
            {
                row.push(0);
                j += 1;
            }
            rows.push(row);
            i += 1;
        }
        Matrice { size, matrice: rows }
    }

    pub fn size(&self) -> (r: usize)
        ensures
            r == self.size,
    {
        self.size
    }

    pub fn element_at(&self, row: usize, column: usize) -> (r: u32)
        requires
            self.wf(),
            row < self.size,
            column < self.size,
        ensures
            r == self.cell(row as int, column as int),
    {
        self.matrice[row][column]
    }

    /// Writes one cell; every other cell keeps its value.
    pub fn write_element(&mut self, row: usize, column: usize, element: u32)
        requires
            old(self).wf(),
            row < old(self).size,
            column < old(self).size,
        ensures
            final(self).wf(),
            final(self).size == old(self).size,
            final(self).cell(row as int, column as int) == element,
            forall|i: int, j: int|
                0 <= i < old(self).size && 0 <= j < old(self).size && (i != row || j != column)
                    ==> final(self).cell(i, j) == old(self).cell(i, j),
    {
        self.matrice[row][column] = element;
    }

    /// The identity: ones on the diagonal, zeros elsewhere.
    pub fn identity_matrix(size: usize) -> (r: Matrice)
        ensures
            r.wf(),
            r.size == size,
            forall|i: int, j: int|
                0 <= i < size && 0 <= j < size ==> r.cell(i, j) == Matrice::identity_cell(i, j),
    {
        let mut out = Matrice::new(size);
        let mut k: usize = 0;
        while k < size
            invariant
                k <= size,
                out.wf(),
                out.size == size,
                forall|i: int, j: int|
                    0 <= i < size && 0 <= j < size ==> out.cell(i, j) == if i == j && i < k {
                        ONE
                    } else {
                        0
                    },
            decreases size - k,
        {
            out.write_element(k, k, ONE);
            k += 1;
        }
        out
    }

    /// Rows become columns.
    pub fn transpose(&self) -> (r: Matrice)
        requires
            self.wf(),
        ensures
            r.wf(),
            r.size == self.size,
            forall|i: int, j: int|
                0 <= i < self.size && 0 <= j < self.size ==> r.cell(i, j) == self.cell(j, i),
    {
        let mut out = Matrice::new(self.size);
        let mut i: usize = 0;
        while i < self.size
            invariant
                i <= self.size,
                self.wf(),
                out.wf(),
                out.size == self.size,
                forall|a: int, b: int|
                    0 <= a < i && 0 <= b < self.size ==> out.cell(a, b) == self.cell(b, a),
            decreases self.size - i,
        {
            let mut j: usize = 0;
            while j < self.size
                invariant
                    i < self.size,
                    j <= self.size,
                    self.wf(),
                    out.wf(),
                    out.size == self.size,
                    forall|a: int, b: int|
                        0 <= a < i && 0 <= b < self.size ==> out.cell(a, b) == self.cell(b, a),
                    forall|b: int| 0 <= b < j ==> out.cell(i as int, b) == self.cell(b, i as int),
                decreases self.size - j,
            {
                out.write_element(i, j, self.element_at(j, i));
                j += 1;
            }
            i += 1;
        }
        out
    }

    /// The cofactor of the cell in row `row` and column `column`, from the
    /// minor there: the minor itself where row and column add up to an even
    /// number, its negative where they add up to an odd one.
    pub fn cofactor(row: usize, column: usize, minor: u32) -> (r: u32)
        ensures
            r == if (row + column) % 2 != 0 {
                opposite(minor)
            } else {
                minor
            },
    {
        if (row % 2) != (column % 2) {
            negated(minor)
        } else {
            minor
        }
    }

    /// The inverse, from the determinant and the grid of cofactors, each
    /// divided by the determinant: none where the determinant is zero, else
    /// that grid with rows and columns exchanged.
    pub fn inverse(determinant: u32, cofactors: &Matrice) -> (r: Option<Matrice>)
        requires
            cofactors.wf(),
        ensures
            r.is_none() == zero(determinant),
            r.is_some() ==> r.unwrap().wf() && r.unwrap().size == cofactors.size && forall|
                i: int,
                j: int,
            |
                0 <= i < cofactors.size && 0 <= j < cofactors.size ==> r.unwrap().cell(i, j)
                    == cofactors.cell(j, i),
    {
        if is_zero(determinant) {
            None
        } else {
            Some(cofactors.transpose())
        }
    }

    /// The row or column of this grid that stands at place `i` once the one
    /// at `gone` has been taken out.
    pub open spec fn skipping(i: int, gone: int) -> int {
        if i < gone {
            i
        } else {
            i + 1
        }
    }

    /// The grid without row `r` and column `c`.
    pub fn submatrix(&self, r: usize, c: usize) -> (m: Matrice)
        requires
            self.wf(),
            r < self.size,
            c < self.size,
        ensures
            m.wf(),
            m.size == self.size - 1,
            forall|i: int, j: int|
                0 <= i < m.size && 0 <= j < m.size ==> m.cell(i, j) == self.cell(
                    Matrice::skipping(i, r as int),
                    Matrice::skipping(j, c as int),
                ),
    {
        let mut rows: Vec<Vec<u32>> = Vec::new();
        let mut row: usize = 0;
        while row < self.size
            invariant
                self.wf(),
                r < self.size,
                c < self.size,
                row <= self.size,
                rows@.len() == if row <= r {
                    row as int
                } else {
                    row - 1
                },
                forall|i: int| 0 <= i < rows@.len() ==> (#[trigger] rows@[i])@.len() == self.size - 1,
                forall|i: int, j: int|
                    0 <= i < rows@.len() && 0 <= j < self.size - 1 ==> rows@[i]@[j] == self.cell(
                        Matrice::skipping(i, r as int),
                        Matrice::skipping(j, c as int),
                    ),
            decreases self.size - row,
        {
            if row != r {
                let mut row_to_add: Vec<u32> = Vec::new();
                let mut column: usize = 0;
                while column < self.size
                    invariant
                        self.wf(),
                        c < self.size,
                        row < self.size,
                        column <= self.size,
                        row_to_add@.len() == if column <= c {
                            column as int
                        } else {
                            column - 1
                        },
                        forall|j: int|
                            0 <= j < row_to_add@.len() ==> row_to_add@[j] == self.cell(
                                row as int,
                                Matrice::skipping(j, c as int),
                            ),
                    decreases self.size - column,
                {
                    if column != c {
                        row_to_add.push(self.element_at(row, column));
                    }
                    column += 1;
                }
                rows.push(row_to_add);
            }
            row += 1;
        }
        Matrice { size: self.size - 1, matrice: rows }
    }
}

} // verus!
