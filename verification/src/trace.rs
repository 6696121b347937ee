//! The cells of a padded trace, and how they are written.
//!
//! A trace is stated as a flat sequence of cells: the real rows first, in
//! their order, then rows of zeros up to the height of the trace. A cell
//! depends on nothing but its own row, so rows may be written in any order
//! and in any grouping.

use crate::field::Felt;
use vstd::arithmetic::div_mod::{lemma_fundamental_div_mod, lemma_fundamental_div_mod_converse};
use vstd::prelude::*;

verus! {

/// The trace of `height` rows of `width` cells whose first rows are `rows`
/// and whose other rows are zero. Rows beyond `height` are not in it.
pub open spec fn padded_trace(rows: Seq<Seq<Felt>>, width: nat, height: nat) -> Seq<Felt> {
    Seq::new(
        height * width,
        |k: int|
            if k / (width as int) < rows.len() {
                rows[k / (width as int)][k % (width as int)]
            } else {
                Felt::spec_zero()
            },
    )
}

/// `len` cells, all zero.
pub open spec fn zero_cells(len: nat) -> Seq<Felt> {
    Seq::new(len, |k: int| Felt::spec_zero())
}

/// Row `i` of a flat trace whose rows have `width` cells.
pub open spec fn trace_row(values: Seq<Felt>, width: nat, i: int) -> Seq<Felt> {
    values.subrange(i * width, (i + 1) * width)
}

/// `values` with the rows from `lo` up to `hi` taken from `rows`.
pub open spec fn write_rows(
    values: Seq<Felt>,
    rows: Seq<Seq<Felt>>,
    width: nat,
    lo: int,
    hi: int,
) -> Seq<Felt> {
    Seq::new(
        values.len(),
        |k: int|
            if lo <= k / (width as int) < hi {
                rows[k / (width as int)][k % (width as int)]
            } else {
                values[k]
            },
    )
}

/// `values` with row `i` replaced by `row`.
pub open spec fn with_row(values: Seq<Felt>, width: nat, i: int, row: Seq<Felt>) -> Seq<Felt> {
    Seq::new(
        values.len(),
        |k: int|
            if k / (width as int) == i {
                row[k % (width as int)]
            } else {
                values[k]
            },
    )
}

/// Writing over zeros every real row that the trace has room for gives the
/// padded trace.
pub proof fn lemma_write_all_rows(rows: Seq<Seq<Felt>>, width: nat, height: nat)
    requires
        width > 0,
    ensures
        write_rows(
            zero_cells(height * width),
            rows,
            width,
            0,
            if rows.len() <= height {
                rows.len() as int
            } else {
                height as int
            },
        ) == padded_trace(rows, width, height),
{
    let room: int = if rows.len() <= height {
        rows.len() as int
    } else {
        height as int
    };
    let written = write_rows(zero_cells(height * width), rows, width, 0, room);
    assert forall|k: int| 0 <= k < height * width implies written[k] == padded_trace(
        rows,
        width,
        height,
    )[k] by {
        lemma_fundamental_div_mod(k, width as int);
        let r = k / (width as int);
        assert(0 <= r < height) by (nonlinear_arith)
            requires
                0 <= k < height * width,
                width > 0,
                k == width * r + k % (width as int),
                0 <= k % (width as int) < width,
        ;
    }
    assert(written =~= padded_trace(rows, width, height));
}

/// The rows of a padded trace: a real row where there is one, else zeros.
pub proof fn lemma_padded_trace_row(rows: Seq<Seq<Felt>>, width: nat, height: nat, i: int)
    requires
        width > 0,
        0 <= i < height,
        i < rows.len() ==> rows[i].len() == width,
    ensures
        i < rows.len() ==> trace_row(padded_trace(rows, width, height), width, i) == rows[i],
        i >= rows.len() ==> trace_row(padded_trace(rows, width, height), width, i) == zero_cells(
            width,
        ),
{
    let trace = padded_trace(rows, width, height);
    let row = trace_row(trace, width, i);
    assert(0 <= i * width && (i + 1) * width <= height * width) by (nonlinear_arith)
        requires
            0 <= i < height,
            width > 0,
    ;
    assert((i + 1) * width == i * width + width) by (nonlinear_arith);
    assert forall|j: int| 0 <= j < width implies #[trigger] row[j] == if i < rows.len() {
        rows[i][j]
    } else {
        Felt::spec_zero()
    } by {
        lemma_fundamental_div_mod_converse(i * width + j, width as int, i, j);
    }
    if i < rows.len() {
        assert(row =~= rows[i]);
    } else {
        assert(row =~= zero_cells(width));
    }
}

/// Writing a row is writing the chunk that holds that row alone.
pub proof fn lemma_with_row(values: Seq<Felt>, rows: Seq<Seq<Felt>>, width: nat, i: int)
    ensures
        with_row(values, width, i, rows[i]) == write_rows(values, rows, width, i, i + 1),
{
    assert(with_row(values, width, i, rows[i]) =~= write_rows(values, rows, width, i, i + 1));
}

/// Row `r` lies in one of the chunks. A chunk is a pair of its first row and
/// the row after its last.
pub open spec fn in_some_chunk(chunks: Seq<(int, int)>, r: int) -> bool {
    exists|j: int| 0 <= j < chunks.len() && (#[trigger] chunks[j]).0 <= r < chunks[j].1
}

/// The chunks hold no row but the first `n`.
pub open spec fn chunks_within(chunks: Seq<(int, int)>, n: nat) -> bool {
    forall|j: int| 0 <= j < chunks.len() ==> 0 <= (#[trigger] chunks[j]).0 && chunks[j].1 <= n
}

/// Each of the first `n` rows lies in one of the chunks.
pub open spec fn chunks_cover(chunks: Seq<(int, int)>, n: nat) -> bool {
    forall|r: int| 0 <= r < n ==> in_some_chunk(chunks, r)
}

/// `values` after the chunks have been written, one after the other.
pub open spec fn write_chunks(
    values: Seq<Felt>,
    rows: Seq<Seq<Felt>>,
    width: nat,
    chunks: Seq<(int, int)>,
) -> Seq<Felt>
    decreases chunks.len(),
{
    if chunks.len() == 0 {
        values
    } else {
        write_rows(
            write_chunks(values, rows, width, chunks.drop_last()),
            rows,
            width,
            chunks.last().0,
            chunks.last().1,
        )
    }
}

/// After the chunks have been written, a cell holds its row's cell where
/// its row lies in a chunk, and what it held before where not.
pub proof fn lemma_write_chunks(
    values: Seq<Felt>,
    rows: Seq<Seq<Felt>>,
    width: nat,
    chunks: Seq<(int, int)>,
)
    ensures
        write_chunks(values, rows, width, chunks).len() == values.len(),
        forall|k: int|
            0 <= k < values.len() ==> #[trigger] write_chunks(values, rows, width, chunks)[k]
                == if in_some_chunk(chunks, k / (width as int)) {
                rows[k / (width as int)][k % (width as int)]
            } else {
                values[k]
            },
    decreases chunks.len(),
{
    if chunks.len() > 0 {
        let earlier = chunks.drop_last();
        lemma_write_chunks(values, rows, width, earlier);
        assert forall|k: int| 0 <= k < values.len() implies #[trigger] write_chunks(
            values,
            rows,
            width,
            chunks,
        )[k] == if in_some_chunk(chunks, k / (width as int)) {
            rows[k / (width as int)][k % (width as int)]
        } else {
            values[k]
        } by {
            let r = k / (width as int);
            let last = chunks.len() - 1;
            if chunks[last].0 <= r < chunks[last].1 {
                assert(in_some_chunk(chunks, r));
            } else if in_some_chunk(earlier, r) {
                let j = choose|j: int|
                    0 <= j < earlier.len() && (#[trigger] earlier[j]).0 <= r < earlier[j].1;
                assert(chunks[j] == earlier[j]);
                assert(in_some_chunk(chunks, r));
            } else if in_some_chunk(chunks, r) {
                let j = choose|j: int|
                    0 <= j < chunks.len() && (#[trigger] chunks[j]).0 <= r < chunks[j].1;
                assert(earlier[j] == chunks[j]);
                assert(false);
            }
        }
    }
}

/// However the real rows are cut into chunks, and in whatever order the
/// chunks are written over zeros, the outcome is the padded trace: the same
/// as when one chunk holds all rows.
pub proof fn lemma_any_chunking(
    rows: Seq<Seq<Felt>>,
    width: nat,
    height: nat,
    chunks: Seq<(int, int)>,
)
    requires
        width > 0,
        chunks_within(chunks, rows.len()),
        chunks_cover(chunks, rows.len()),
    ensures
        write_chunks(zero_cells(height * width), rows, width, chunks) == padded_trace(
            rows,
            width,
            height,
        ),
        write_chunks(zero_cells(height * width), rows, width, chunks) == write_chunks(
            zero_cells(height * width),
            rows,
            width,
            seq![(0int, rows.len() as int)],
        ),
{
    let zeros = zero_cells(height * width);
    let whole = seq![(0int, rows.len() as int)];
    lemma_write_chunks(zeros, rows, width, chunks);
    lemma_write_chunks(zeros, rows, width, whole);
    let trace = padded_trace(rows, width, height);
    assert forall|k: int| 0 <= k < trace.len() implies write_chunks(zeros, rows, width, chunks)[k]
        == trace[k] && write_chunks(zeros, rows, width, whole)[k] == trace[k] by {
        let r = k / (width as int);
        assert(0 <= r) by (nonlinear_arith)
            requires
                0 <= k,
                width > 0,
                r == k / (width as int),
        ;
        if r < rows.len() {
            assert(in_some_chunk(chunks, r));
            assert(whole[0].0 <= r < whole[0].1);
            assert(in_some_chunk(whole, r));
        } else {
            if in_some_chunk(chunks, r) {
                let j = choose|j: int|
                    0 <= j < chunks.len() && (#[trigger] chunks[j]).0 <= r < chunks[j].1;
                assert(false);
            }
            if in_some_chunk(whole, r) {
                let j = choose|j: int|
                    0 <= j < whole.len() && (#[trigger] whole[j]).0 <= r < whole[j].1;
                assert(false);
            }
        }
    }
    assert(write_chunks(zeros, rows, width, chunks) =~= trace);
    assert(write_chunks(zeros, rows, width, whole) =~= trace);
}

/// `height * width` zero cells.
pub fn zeroed(height: usize, width: usize) -> (values: Vec<Felt>)
    requires
        height * width <= usize::MAX,
    ensures
        values@ == zero_cells((height * width) as nat),
{
    let len: usize = height * width;
    let values = vec![Felt::zero(); len];
    assert(values@ =~= zero_cells((height * width) as nat));
    values
}

/// Writes `row` over row `i` of `values`, and nothing else.
pub fn write_row(values: &mut Vec<Felt>, width: usize, i: usize, row: &[Felt])
    requires
        width > 0,
        row@.len() == width,
        (i + 1) * width <= old(values)@.len(),
    ensures
        final(values)@ == with_row(old(values)@, width as nat, i as int, row@),
{
    let ghost before = values@;
    let len: usize = values.len();
    assert(i * width + width == (i + 1) * width && 0 <= i * width) by (nonlinear_arith);
    let start: usize = i * width;
    let mut j: usize = 0;
    while j < width
        invariant
            width > 0,
            row@.len() == width,
            start == i * width,
            start + width <= before.len(),
            before.len() == len,
            j <= width,
            values@.len() == before.len(),
            forall|k: int|
                0 <= k < before.len() ==> values@[k] == if start <= k < start + j {
                    row@[k - start]
                } else {
                    before[k]
                },
        decreases width - j,
    {
        values.set(start + j, row[j]);
        j = j + 1;
    }
    proof {
        let after = with_row(before, width as nat, i as int, row@);
        assert forall|k: int| 0 <= k < before.len() implies values@[k] == after[k] by {
            lemma_fundamental_div_mod(k, width as int);
            if start <= k < start + width {
                lemma_fundamental_div_mod_converse(k, width as int, i as int, k - start);
            } else if k / (width as int) == i {
                assert(k == i * width + k % (width as int)) by (nonlinear_arith)
                    requires
                        k == (width as int) * (k / (width as int)) + k % (width as int),
                        k / (width as int) == i,
                ;
            }
        }
        assert(values@ =~= after);
    }
}

} // verus!
