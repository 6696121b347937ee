//! The SELECT chip: its two traces.
//!
//! The preprocessed trace has one row for each SELECT instruction of the
//! program, the main trace one row for each SELECT event of the execution.
//! Row `i` of either describes the same occurrence as long as the events
//! come in the order of the instructions.
//!
//! A fixed size is taken as it is given. Where it holds fewer rows than
//! there are real rows, the real rows beyond it are not in the trace, and
//! nothing warns of it: whether to go on with such a trace is for the caller
//! to decide, and `check_rows_suffice` tells beforehand.

use crate::air::{claims_hold, received, select_claims, sent};
use crate::columns::{SelectCols, SelectIo, SelectPreprocessedCols, SELECT_COLS,
    SELECT_PREPROCESSED_COLS};
use crate::field::Felt;
use crate::matrix::{matrix_values, matrix_width, new_matrix};
use crate::program::{extract_select_instrs, select_instrs, ExecutionRecord, RecursionProgram,
    SelectInstr};
use crate::sizing::{checked_next_power_of_two, lemma_padded_rows, next_power_of_two, padded_rows};
use crate::soundness::lemma_padding_row_sound;
use crate::trace::{lemma_padded_trace_row, lemma_with_row, lemma_write_all_rows, padded_trace,
    trace_row, write_row, write_rows, zero_cells, zeroed};
use p3_matrix::dense::RowMajorMatrix;
use vstd::prelude::*;

verus! {

/// The chip that arithmetizes SELECT.
#[derive(Clone, Copy, Debug, Default)]
pub struct SelectChip;

/// The preprocessed row of an instruction: a real row that carries the
/// instruction's addresses and multiplicities.
pub open spec fn preprocessed_cols(instr: SelectInstr) -> SelectPreprocessedCols<Felt> {
    SelectPreprocessedCols {
        is_real: Felt::spec_one(),
        addrs: instr.addrs,
        mult1: instr.mult1,
        mult2: instr.mult2,
    }
}

/// The real rows of the main trace: the events, each as its row.
pub open spec fn main_rows(events: Seq<SelectIo<Felt>>) -> Seq<Seq<Felt>> {
    Seq::new(events.len(), |i: int| SelectCols { vals: events[i] }.spec_row())
}

/// The real rows of the preprocessed trace: the SELECT instructions, each as
/// its row.
pub open spec fn preprocessed_rows(instrs: Seq<SelectInstr>) -> Seq<Seq<Felt>> {
    Seq::new(instrs.len(), |i: int| preprocessed_cols(instrs[i]).spec_row())
}

/// A trace of `width` columns for `n` real rows can be built: its rows and
/// its cells can be counted in a `usize`.
pub open spec fn trace_fits(n: nat, fixed_log2_rows: Option<usize>, width: nat) -> bool {
    &&& padded_rows(n, fixed_log2_rows) <= usize::MAX
    &&& padded_rows(n, fixed_log2_rows) * width <= usize::MAX
}

/// The trace has a row for each of `n` real rows. Without a fixed size it
/// always has.
pub open spec fn rows_suffice(n: nat, fixed_log2_rows: Option<usize>) -> bool {
    n <= padded_rows(n, fixed_log2_rows)
}

/// The cells of the main trace of `record`.
pub open spec fn main_trace(record: ExecutionRecord) -> Seq<Felt> {
    padded_trace(
        main_rows(record.select_events@),
        SELECT_COLS as nat,
        padded_rows(record.select_events@.len(), record.fixed_log2_rows),
    )
}

/// The cells of the preprocessed trace of `program`.
pub open spec fn preprocessed_trace(program: RecursionProgram) -> Seq<Felt> {
    padded_trace(
        preprocessed_rows(select_instrs(program.instructions@)),
        SELECT_PREPROCESSED_COLS as nat,
        padded_rows(select_instrs(program.instructions@).len(), program.fixed_log2_rows),
    )
}

/// The main trace can be built for `record`.
pub open spec fn main_trace_fits(record: ExecutionRecord) -> bool {
    trace_fits(record.select_events@.len(), record.fixed_log2_rows, SELECT_COLS as nat)
}

/// The preprocessed trace can be built for `program`.
pub open spec fn preprocessed_trace_fits(program: RecursionProgram) -> bool {
    trace_fits(
        select_instrs(program.instructions@).len(),
        program.fixed_log2_rows,
        SELECT_PREPROCESSED_COLS as nat,
    )
}

/// Either trace has as many rows as the sizing rule tells, each of the
/// width of its trace.
pub proof fn lemma_trace_heights(record: ExecutionRecord, program: RecursionProgram)
    ensures
        main_trace(record).len() == padded_rows(
            record.select_events@.len(),
            record.fixed_log2_rows,
        ) * SELECT_COLS,
        preprocessed_trace(program).len() == padded_rows(
            select_instrs(program.instructions@).len(),
            program.fixed_log2_rows,
        ) * SELECT_PREPROCESSED_COLS,
{
}

/// Where a record has as many events as a program has SELECT instructions,
/// row `i` of the main trace is the `i`-th event and row `i` of the
/// preprocessed trace is the row of the `i`-th SELECT instruction.
pub proof fn lemma_traces_aligned(record: ExecutionRecord, program: RecursionProgram, i: int)
    requires
        rows_suffice(record.select_events@.len(), record.fixed_log2_rows),
        rows_suffice(select_instrs(program.instructions@).len(), program.fixed_log2_rows),
        record.select_events@.len() == select_instrs(program.instructions@).len(),
        0 <= i < record.select_events@.len(),
    ensures
        SelectCols::spec_from_row(trace_row(main_trace(record), SELECT_COLS as nat, i))
            == (SelectCols { vals: record.select_events@[i] }),
        SelectPreprocessedCols::spec_from_row(
            trace_row(preprocessed_trace(program), SELECT_PREPROCESSED_COLS as nat, i),
        ) == preprocessed_cols(select_instrs(program.instructions@)[i]),
{
    let events = record.select_events@;
    let instrs = select_instrs(program.instructions@);
    lemma_padded_trace_row(
        main_rows(events),
        SELECT_COLS as nat,
        padded_rows(events.len(), record.fixed_log2_rows),
        i,
    );
    lemma_padded_trace_row(
        preprocessed_rows(instrs),
        SELECT_PREPROCESSED_COLS as nat,
        padded_rows(instrs.len(), program.fixed_log2_rows),
        i,
    );
}

/// A row of the main trace after the last event is a row of zeros.
pub proof fn lemma_main_padding(record: ExecutionRecord, i: int)
    requires
        record.select_events@.len() <= i < padded_rows(
            record.select_events@.len(),
            record.fixed_log2_rows,
        ),
    ensures
        trace_row(main_trace(record), SELECT_COLS as nat, i) == zero_cells(SELECT_COLS as nat),
{
    lemma_padded_trace_row(
        main_rows(record.select_events@),
        SELECT_COLS as nat,
        padded_rows(record.select_events@.len(), record.fixed_log2_rows),
        i,
    );
}

/// A row of the preprocessed trace after the last SELECT instruction is a
/// row of zeros.
pub proof fn lemma_preprocessed_padding(program: RecursionProgram, i: int)
    requires
        select_instrs(program.instructions@).len() <= i < padded_rows(
            select_instrs(program.instructions@).len(),
            program.fixed_log2_rows,
        ),
    ensures
        trace_row(preprocessed_trace(program), SELECT_PREPROCESSED_COLS as nat, i) == zero_cells(
            SELECT_PREPROCESSED_COLS as nat,
        ),
{
    lemma_padded_trace_row(
        preprocessed_rows(select_instrs(program.instructions@)),
        SELECT_PREPROCESSED_COLS as nat,
        padded_rows(select_instrs(program.instructions@).len(), program.fixed_log2_rows),
        i,
    );
}

/// Where row `i` is padding in both traces, the pair of rows meets every
/// claim of the chip, and none of its bus messages has weight.
pub proof fn lemma_padding_sound(record: ExecutionRecord, program: RecursionProgram, i: int)
    requires
        record.select_events@.len() <= i < padded_rows(
            record.select_events@.len(),
            record.fixed_log2_rows,
        ),
        select_instrs(program.instructions@).len() <= i < padded_rows(
            select_instrs(program.instructions@).len(),
            program.fixed_log2_rows,
        ),
    ensures
        ({
            let claims = select_claims(
                SelectCols::spec_from_row(trace_row(main_trace(record), SELECT_COLS as nat, i)),
                SelectPreprocessedCols::spec_from_row(
                    trace_row(preprocessed_trace(program), SELECT_PREPROCESSED_COLS as nat, i),
                ),
            );
            &&& claims_hold(claims)
            &&& forall|j: int|
                0 <= j < received(claims).len() ==> (#[trigger] received(claims)[j]).mult
                    == Felt::spec_zero()
            &&& forall|j: int|
                0 <= j < sent(claims).len() ==> (#[trigger] sent(claims)[j]).mult
                    == Felt::spec_zero()
        }),
{
    lemma_main_padding(record, i);
    lemma_preprocessed_padding(program, i);
    lemma_padding_row_sound();
}

impl SelectPreprocessedCols<Felt> {
    /// The preprocessed row of `instr`.
    pub fn from_instr(instr: &SelectInstr) -> (cols: Self)
        ensures
            cols == preprocessed_cols(*instr),
    {
        SelectPreprocessedCols {
            is_real: Felt::one(),
            addrs: instr.addrs,
            mult1: instr.mult1,
            mult2: instr.mult2,
        }
    }
}

/// Whether a trace of `width` columns for `n` real rows can be built.
pub fn check_trace_fits(n: usize, fixed_log2_rows: Option<usize>, width: usize) -> (yes: bool)
    ensures
        yes == trace_fits(n as nat, fixed_log2_rows, width as nat),
{
    match checked_next_power_of_two(n, fixed_log2_rows) {
        Some(rows) => rows.checked_mul(width).is_some(),
        None => false,
    }
}

/// Whether the trace has a row for each of `n` real rows.
pub fn check_rows_suffice(n: usize, fixed_log2_rows: Option<usize>) -> (yes: bool)
    ensures
        yes == rows_suffice(n as nat, fixed_log2_rows),
{
    proof {
        lemma_padded_rows(n as nat, fixed_log2_rows);
    }
    match checked_next_power_of_two(n, fixed_log2_rows) {
        Some(rows) => n <= rows,
        None => true,
    }
}

impl SelectChip {
    /// Whether the main trace can be built for `input`.
    pub fn fits(&self, input: &ExecutionRecord) -> (yes: bool)
        ensures
            yes == main_trace_fits(*input),
    {
        check_trace_fits(input.select_events.len(), input.fixed_log2_rows, SELECT_COLS)
    }

    /// Whether the main trace has a row for each event of `input`.
    pub fn holds_all_events(&self, input: &ExecutionRecord) -> (yes: bool)
        ensures
            yes == rows_suffice(input.select_events@.len(), input.fixed_log2_rows),
    {
        check_rows_suffice(input.select_events.len(), input.fixed_log2_rows)
    }

    /// Whether the preprocessed trace has a row for each SELECT instruction
    /// of `program`.
    pub fn holds_all_instructions(&self, program: &RecursionProgram) -> (yes: bool)
        ensures
            yes == rows_suffice(
                select_instrs(program.instructions@).len(),
                program.fixed_log2_rows,
            ),
    {
        let instrs = extract_select_instrs(program);
        check_rows_suffice(instrs.len(), program.fixed_log2_rows)
    }

    /// Whether the preprocessed trace can be built for `program`.
    pub fn preprocessed_fits(&self, program: &RecursionProgram) -> (yes: bool)
        ensures
            yes == preprocessed_trace_fits(*program),
    {
        let instrs = extract_select_instrs(program);
        check_trace_fits(instrs.len(), program.fixed_log2_rows, SELECT_PREPROCESSED_COLS)
    }

    /// The number of columns of the main trace.
    pub fn width(&self) -> (w: usize)
        ensures
            w == SELECT_COLS,
    {
        SELECT_COLS
    }

    /// The name under which the chip is known to a machine.
    pub fn name(&self) -> (name: String)
        ensures
            name@ == "Select"@,
    {
        "Select".to_owned()
    }

    /// The number of columns of the preprocessed trace.
    pub fn preprocessed_width(&self) -> (w: usize)
        ensures
            w == SELECT_PREPROCESSED_COLS,
    {
        SELECT_PREPROCESSED_COLS
    }

    /// The number of rows of the preprocessed trace of a program with
    /// `instrs_len` SELECT instructions.
    pub fn preprocessed_num_rows(&self, program: &RecursionProgram, instrs_len: usize) -> (rows:
        Option<usize>)
        requires
            padded_rows(instrs_len as nat, program.fixed_log2_rows) <= usize::MAX,
        ensures
            rows == Some(padded_rows(instrs_len as nat, program.fixed_log2_rows) as usize),
    {
        Some(next_power_of_two(instrs_len, program.fixed_log2_rows))
    }

    /// The preprocessed trace of `program`: row `i` is the row of its `i`-th
    /// SELECT instruction, and every row after the last instruction is zero.
    /// Instructions beyond a fixed size are left out.
    pub fn generate_preprocessed_trace(&self, program: &RecursionProgram) -> (trace: Option<
        RowMajorMatrix<Felt>,
    >)
        requires
            preprocessed_trace_fits(*program),
        ensures
            trace matches Some(matrix) && matrix_width(matrix) == SELECT_PREPROCESSED_COLS
                && matrix_values(matrix) == preprocessed_trace(*program),
    {
        let instrs = extract_select_instrs(program);
        let ghost rows = preprocessed_rows(instrs@);
        let ghost height = padded_rows(instrs@.len(), program.fixed_log2_rows);
        let padded_nb_rows = next_power_of_two(instrs.len(), program.fixed_log2_rows);
        let mut values = zeroed(padded_nb_rows, SELECT_PREPROCESSED_COLS);
        let room = if instrs.len() <= padded_nb_rows {
            instrs.len()
        } else {
            padded_nb_rows
        };
        let mut i: usize = 0;
        while i < room
            invariant
                i <= room <= height,
                room <= instrs@.len(),
                height * SELECT_PREPROCESSED_COLS <= usize::MAX,
                rows == preprocessed_rows(instrs@),
                values@ == write_rows(
                    zero_cells(height * (SELECT_PREPROCESSED_COLS as nat)),
                    rows,
                    SELECT_PREPROCESSED_COLS as nat,
                    0,
                    i as int,
                ),
            decreases room - i,
        {
            let ghost before = values@;
            let row = SelectPreprocessedCols::from_instr(&instrs[i]).to_row();
            write_row(&mut values, SELECT_PREPROCESSED_COLS, i, row.as_slice());
            proof {
                lemma_with_row(before, rows, SELECT_PREPROCESSED_COLS as nat, i as int);
            }
            assert(values@ =~= write_rows(
                zero_cells(height * (SELECT_PREPROCESSED_COLS as nat)),
                rows,
                SELECT_PREPROCESSED_COLS as nat,
                0,
                i + 1,
            ));
            i = i + 1;
        }
        proof {
            lemma_write_all_rows(rows, SELECT_PREPROCESSED_COLS as nat, height);
        }
        Some(new_matrix(values, SELECT_PREPROCESSED_COLS))
    }

    /// Nothing: the chip adds no events to the record.
    pub fn generate_dependencies(&self, input: &ExecutionRecord, output: &mut ExecutionRecord)
        ensures
            *final(output) == *old(output),
    {
    }

    /// The number of rows of the main trace of `input`.
    pub fn num_rows(&self, input: &ExecutionRecord) -> (rows: Option<usize>)
        requires
            padded_rows(input.select_events@.len(), input.fixed_log2_rows) <= usize::MAX,
        ensures
            rows == Some(
                padded_rows(input.select_events@.len(), input.fixed_log2_rows) as usize,
            ),
    {
        Some(next_power_of_two(input.select_events.len(), input.fixed_log2_rows))
    }

    /// The main trace of `input`: row `i` holds the `i`-th event as it is,
    /// and every row after the last event is zero. Events beyond a fixed
    /// size are left out. `output` is left alone.
    pub fn generate_trace(&self, input: &ExecutionRecord, output: &mut ExecutionRecord) -> (trace:
        RowMajorMatrix<Felt>)
        requires
            main_trace_fits(*input),
        ensures
            matrix_width(trace) == SELECT_COLS,
            matrix_values(trace) == main_trace(*input),
            *final(output) == *old(output),
    {
        let events = &input.select_events;
        let ghost rows = main_rows(events@);
        let ghost height = padded_rows(events@.len(), input.fixed_log2_rows);
        let padded_nb_rows = next_power_of_two(events.len(), input.fixed_log2_rows);
        let mut values = zeroed(padded_nb_rows, SELECT_COLS);
        let room = if events.len() <= padded_nb_rows {
            events.len()
        } else {
            padded_nb_rows
        };
        let mut i: usize = 0;
        while i < room
            invariant
                i <= room <= height,
                room <= events@.len(),
                height * SELECT_COLS <= usize::MAX,
                rows == main_rows(events@),
                values@ == write_rows(
                    zero_cells(height * (SELECT_COLS as nat)),
                    rows,
                    SELECT_COLS as nat,
                    0,
                    i as int,
                ),
            decreases room - i,
        {
            let ghost before = values@;
            let row = SelectCols { vals: events[i] }.to_row();
            write_row(&mut values, SELECT_COLS, i, row.as_slice());
            proof {
                lemma_with_row(before, rows, SELECT_COLS as nat, i as int);
            }
            assert(values@ =~= write_rows(
                zero_cells(height * (SELECT_COLS as nat)),
                rows,
                SELECT_COLS as nat,
                0,
                i + 1,
            ));
            i = i + 1;
        }
        proof {
            lemma_write_all_rows(rows, SELECT_COLS as nat, height);
        }
        new_matrix(values, SELECT_COLS)
    }

    /// The chip takes part in every proof.
    pub fn included(&self, record: &ExecutionRecord) -> (yes: bool)
        ensures
            yes,
    {
        true
    }

    /// The main trace depends on the chip's own events alone.
    pub fn local_only(&self) -> (yes: bool)
        ensures
            yes,
    {
        true
    }
}

} // verus!
