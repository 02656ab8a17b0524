use vstd::prelude::*;

use crate::dex::instruction::Instruction;

verus! {

impl Instruction {
    /// The branch distance that this instruction carries, in 16-bit code
    /// units from its own start; `None` for an instruction that carries none.
    pub open spec fn spec_offset(self) -> Option<i32> {
        match self {
            Instruction::Goto { offset } => Some(offset as i32),
            Instruction::Goto16 { offset }
            | Instruction::IfEq { offset, .. }
            | Instruction::IfNe { offset, .. }
            | Instruction::IfLt { offset, .. }
            | Instruction::IfGe { offset, .. }
            | Instruction::IfGt { offset, .. }
            | Instruction::IfLe { offset, .. }
            | Instruction::IfEqz { offset, .. }
            | Instruction::IfNez { offset, .. }
            | Instruction::IfLtz { offset, .. }
            | Instruction::IfGez { offset, .. }
            | Instruction::IfGtz { offset, .. }
            | Instruction::IfLez { offset, .. } => Some(offset as i32),
            Instruction::FillArrayData { offset, .. }
            | Instruction::Goto32 { offset }
            | Instruction::PackedSwitch { offset, .. }
            | Instruction::SparseSwitch { offset, .. } => Some(offset),
            _ => None,
        }
    }

    /// The byte offset that this instruction jumps to when it starts at byte
    /// `pc`: `pc` plus twice its branch distance. `None` for an instruction
    /// that carries no branch distance.
    pub open spec fn spec_target(self, pc: int) -> Option<int> {
        match self.spec_offset() {
            Some(offset) => Some(pc + 2 * offset),
            None => None,
        }
    }

    /// The branch distance that this instruction carries, in 16-bit code
    /// units from its own start.
    pub fn offset(&self) -> (r: Option<i32>)
        ensures
            r == self.spec_offset(),
    {
        match self {
            Instruction::Goto { offset } => Some(*offset as i32),
            Instruction::Goto16 { offset }
            | Instruction::IfEq { offset, .. }
            | Instruction::IfNe { offset, .. }
            | Instruction::IfLt { offset, .. }
            | Instruction::IfGe { offset, .. }
            | Instruction::IfGt { offset, .. }
            | Instruction::IfLe { offset, .. }
            | Instruction::IfEqz { offset, .. }
            | Instruction::IfNez { offset, .. }
            | Instruction::IfLtz { offset, .. }
            | Instruction::IfGez { offset, .. }
            | Instruction::IfGtz { offset, .. }
            | Instruction::IfLez { offset, .. } => Some(*offset as i32),
            Instruction::FillArrayData { offset, .. }
            | Instruction::Goto32 { offset }
            | Instruction::PackedSwitch { offset, .. }
            | Instruction::SparseSwitch { offset, .. } => Some(*offset),
            _ => None,
        }
    }
}

} // verus!
