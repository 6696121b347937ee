//! Column layout of the two traces of the SELECT chip.
//!
//! A row of either trace is a flat run of cells. The structures here name the
//! cells, and the conversions fix the order in which the named cells lie in a
//! row. They are generic over the cell type, so the same layout serves field
//! values in a trace and symbolic variables in a constraint builder.

use vstd::prelude::*;

verus! {

/// A symbolic memory cell. Addresses only tag bus messages; no arithmetic is
/// done on them.
#[derive(Clone, Copy, Debug, PartialEq, Eq, Hash)]
pub struct Address<F>(pub F);

/// The five operands of one SELECT: the selector bit, the two inputs and the
/// two outputs.
#[derive(Clone, Copy, Debug, PartialEq, Eq, Hash)]
pub struct SelectIo<V> {
    pub bit: V,
    pub in1: V,
    pub in2: V,
    pub out1: V,
    pub out2: V,
}

/// Width of a main-trace row.
pub const SELECT_COLS: usize = 5;

/// A row of the main trace: the operand values of one execution.
#[derive(Clone, Copy, Debug, PartialEq, Eq)]
pub struct SelectCols<F: Copy> {
    pub vals: SelectIo<F>,
}

/// Width of a preprocessed-trace row.
pub const SELECT_PREPROCESSED_COLS: usize = 8;

/// A row of the preprocessed trace: what is fixed when the program is
/// compiled. `is_real` is one on the row of an instruction and zero on
/// padding.
#[derive(Clone, Copy, Debug, PartialEq, Eq)]
pub struct SelectPreprocessedCols<F: Copy> {
    pub is_real: F,
    pub addrs: SelectIo<Address<F>>,
    pub mult1: F,
    pub mult2: F,
}

impl<F: Copy> SelectCols<F> {
    /// The cells of the row, in column order.
    pub open spec fn spec_row(self) -> Seq<F> {
        seq![self.vals.bit, self.vals.in1, self.vals.in2, self.vals.out1, self.vals.out2]
    }

    /// The row whose cells are `row`, read in column order.
    pub open spec fn spec_from_row(row: Seq<F>) -> Self {
        SelectCols {
            vals: SelectIo { bit: row[0], in1: row[1], in2: row[2], out1: row[3], out2: row[4] },
        }
    }

    pub fn to_row(&self) -> (row: [F; 5])
        ensures
            row@ == self.spec_row(),
    {
        let row = [self.vals.bit, self.vals.in1, self.vals.in2, self.vals.out1, self.vals.out2];
        assert(row@ =~= self.spec_row());
        row
    }

    pub fn from_row(row: &[F]) -> (cols: Self)
        requires
            row@.len() == SELECT_COLS,
        ensures
            cols == Self::spec_from_row(row@),
            cols.spec_row() == row@,
    {
        let cols = SelectCols {
            vals: SelectIo { bit: row[0], in1: row[1], in2: row[2], out1: row[3], out2: row[4] },
        };
        assert(cols.spec_row() =~= row@);
        cols
    }
}

impl<F: Copy> SelectPreprocessedCols<F> {
    /// The cells of the row, in column order.
    pub open spec fn spec_row(self) -> Seq<F> {
        seq![
            self.is_real,
            self.addrs.bit.0,
            self.addrs.in1.0,
            self.addrs.in2.0,
            self.addrs.out1.0,
            self.addrs.out2.0,
            self.mult1,
            self.mult2,
        ]
    }

    /// The row whose cells are `row`, read in column order.
    pub open spec fn spec_from_row(row: Seq<F>) -> Self {
        SelectPreprocessedCols {
            is_real: row[0],
            addrs: SelectIo {
                bit: Address(row[1]),
                in1: Address(row[2]),
                in2: Address(row[3]),
                out1: Address(row[4]),
                out2: Address(row[5]),
            },
            mult1: row[6],
            mult2: row[7],
        }
    }

    pub fn to_row(&self) -> (row: [F; 8])
        ensures
            row@ == self.spec_row(),
    {
        let row = [
            self.is_real,
            self.addrs.bit.0,
            self.addrs.in1.0,
            self.addrs.in2.0,
            self.addrs.out1.0,
            self.addrs.out2.0,
            self.mult1,
            self.mult2,
        ];
        assert(row@ =~= self.spec_row());
        row
    }

    pub fn from_row(row: &[F]) -> (cols: Self)
        requires
            row@.len() == SELECT_PREPROCESSED_COLS,
        ensures
            cols == Self::spec_from_row(row@),
            cols.spec_row() == row@,
    {
        let cols = SelectPreprocessedCols {
            is_real: row[0],
            addrs: SelectIo {
                bit: Address(row[1]),
                in1: Address(row[2]),
                in2: Address(row[3]),
                out1: Address(row[4]),
                out2: Address(row[5]),
            },
            mult1: row[6],
            mult2: row[7],
        };
        assert(cols.spec_row() =~= row@);
        cols
    }
}

} // verus!
