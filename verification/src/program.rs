//! What the chip reads of a compiled program and of an execution record.

use crate::columns::{Address, SelectIo};
use crate::field::Felt;
use vstd::prelude::*;

verus! {

/// One static occurrence of SELECT in a program: the addresses of its
/// operands, and how often each output is supplied to the memory bus.
#[derive(Clone, Copy, Debug, PartialEq, Eq)]
pub struct SelectInstr {
    pub addrs: SelectIo<Address<Felt>>,
    pub mult1: Felt,
    pub mult2: Felt,
}

/// Whether a memory instruction supplies a value to the bus or consumes one.
#[derive(Clone, Copy, Debug, PartialEq, Eq)]
pub enum MemAccessKind {
    Read,
    Write,
}

/// A memory instruction on a single cell. It belongs to another chip; here
/// it is an instruction that is not a SELECT.
#[derive(Clone, Copy, Debug, PartialEq, Eq)]
pub struct MemInstr {
    pub kind: MemAccessKind,
    pub mult: Felt,
    pub addr: Address<Felt>,
    pub val: Felt,
}

/// An instruction of the virtual machine.
#[derive(Clone, Copy, Debug, PartialEq, Eq)]
pub enum Instruction {
    Mem(MemInstr),
    Select(SelectInstr),
}

/// A compiled program.
#[derive(Clone, Debug, PartialEq, Eq)]
pub struct RecursionProgram {
    pub instructions: Vec<Instruction>,
    /// Where set, the preprocessed trace has `2^k` rows.
    pub fixed_log2_rows: Option<usize>,
}

/// The events of one execution, in the order in which they happened.
#[derive(Clone, Debug, PartialEq, Eq)]
pub struct ExecutionRecord {
    pub select_events: Vec<SelectIo<Felt>>,
    /// Where set, the main trace has `2^k` rows.
    pub fixed_log2_rows: Option<usize>,
}

impl Default for RecursionProgram {
    fn default() -> (program: Self)
        ensures
            program.instructions@ == Seq::<Instruction>::empty(),
            program.fixed_log2_rows is None,
    {
        RecursionProgram { instructions: Vec::new(), fixed_log2_rows: None }
    }
}

impl Default for ExecutionRecord {
    fn default() -> (record: Self)
        ensures
            record.select_events@ == Seq::<SelectIo<Felt>>::empty(),
            record.fixed_log2_rows is None,
    {
        ExecutionRecord { select_events: Vec::new(), fixed_log2_rows: None }
    }
}

/// The SELECT instructions among `instructions`, in program order.
pub open spec fn select_instrs(instructions: Seq<Instruction>) -> Seq<SelectInstr>
    decreases instructions.len(),
{
    if instructions.len() == 0 {
        Seq::empty()
    } else {
        let before = select_instrs(instructions.drop_last());
        match instructions.last() {
            Instruction::Select(instr) => before.push(instr),
            Instruction::Mem(_) => before,
        }
    }
}

/// Every SELECT instruction of the program, in program order. The program is
/// left as it is.
pub fn extract_select_instrs(program: &RecursionProgram) -> (instrs: Vec<SelectInstr>)
    ensures
        instrs@ == select_instrs(program.instructions@),
{
    let mut instrs: Vec<SelectInstr> = Vec::new();
    let mut i: usize = 0;
    while i < program.instructions.len()
        invariant
            i <= program.instructions@.len(),
            instrs@ == select_instrs(program.instructions@.take(i as int)),
        decreases program.instructions@.len() - i,
    {
        assert(program.instructions@.take(i + 1).drop_last() =~= program.instructions@.take(
            i as int,
        ));
        match program.instructions[i] {
            Instruction::Select(instr) => {
                instrs.push(instr);
            },
            Instruction::Mem(_) => {},
        }
        i = i + 1;
    }
    assert(program.instructions@.take(i as int) =~= program.instructions@);
    instrs
}

} // verus!
