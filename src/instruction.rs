//! The 35-entry instruction table: a tagged variant per opcode family and
//! the decoder from nibbles to variants.
use crate::opcode::Opcode;
use vstd::prelude::*;

verus! {

/// A decoded instruction. `x` and `y` select registers, `kk` is an 8-bit
/// immediate, `addr` a 12-bit address and `n` a sprite height.
#[derive(Clone, Copy, Debug, PartialEq, Eq, Structural)]
pub enum Instruction {
    Cls,
    Ret,
    Jump { addr: u16 },
    Call { addr: u16 },
    SkipEqByte { x: u8, kk: u8 },
    SkipNeByte { x: u8, kk: u8 },
    SkipEqReg { x: u8, y: u8 },
    LoadByte { x: u8, kk: u8 },
    AddByte { x: u8, kk: u8 },
    LoadReg { x: u8, y: u8 },
    Or { x: u8, y: u8 },
    And { x: u8, y: u8 },
    Xor { x: u8, y: u8 },
    AddReg { x: u8, y: u8 },
    Sub { x: u8, y: u8 },
    Shr { x: u8, y: u8 },
    SubN { x: u8, y: u8 },
    Shl { x: u8, y: u8 },
    SkipNeReg { x: u8, y: u8 },
    LoadIndex { addr: u16 },
    JumpV0 { addr: u16 },
    Random { x: u8, kk: u8 },
    Draw { x: u8, y: u8, n: u8 },
    SkipKey { x: u8 },
    SkipNoKey { x: u8 },
    LoadDelay { x: u8 },
    WaitKey { x: u8 },
    SetDelay { x: u8 },
    SetSound { x: u8 },
    AddIndex { x: u8 },
    LoadFont { x: u8 },
    StoreBcd { x: u8 },
    StoreRegs { x: u8 },
    LoadRegs { x: u8 },
}

/// The instruction that `op` encodes, or `None` where no table entry matches.
pub open spec fn instruction_of(op: Opcode) -> Option<Instruction> {
    let (n0, x, y, n) = (op.n0, op.n1, op.n2, op.n3);
    let (addr, kk) = (op.addr, op.byte);
    if n0 == 0x0 && x == 0x0 && y == 0xE && n == 0x0 {
        Some(Instruction::Cls)
    } else if n0 == 0x0 && x == 0x0 && y == 0xE && n == 0xE {
        Some(Instruction::Ret)
    } else if n0 == 0x1 {
        Some(Instruction::Jump { addr })
    } else if n0 == 0x2 {
        Some(Instruction::Call { addr })
    } else if n0 == 0x3 {
        Some(Instruction::SkipEqByte { x, kk })
    } else if n0 == 0x4 {
        Some(Instruction::SkipNeByte { x, kk })
    } else if n0 == 0x5 && n == 0x0 {
        Some(Instruction::SkipEqReg { x, y })
    } else if n0 == 0x6 {
        Some(Instruction::LoadByte { x, kk })
    } else if n0 == 0x7 {
        Some(Instruction::AddByte { x, kk })
    } else if n0 == 0x8 && n == 0x0 {
        Some(Instruction::LoadReg { x, y })
    } else if n0 == 0x8 && n == 0x1 {
        Some(Instruction::Or { x, y })
    } else if n0 == 0x8 && n == 0x2 {
        Some(Instruction::And { x, y })
    } else if n0 == 0x8 && n == 0x3 {
        Some(Instruction::Xor { x, y })
    } else if n0 == 0x8 && n == 0x4 {
        Some(Instruction::AddReg { x, y })
    } else if n0 == 0x8 && n == 0x5 {
        Some(Instruction::Sub { x, y })
    } else if n0 == 0x8 && n == 0x6 {
        Some(Instruction::Shr { x, y })
    } else if n0 == 0x8 && n == 0x7 {
        Some(Instruction::SubN { x, y })
    } else if n0 == 0x8 && n == 0xE {
        Some(Instruction::Shl { x, y })
    } else if n0 == 0x9 && n == 0x0 {
        Some(Instruction::SkipNeReg { x, y })
    } else if n0 == 0xA {
        Some(Instruction::LoadIndex { addr })
    } else if n0 == 0xB {
        Some(Instruction::JumpV0 { addr })
    } else if n0 == 0xC {
        Some(Instruction::Random { x, kk })
    } else if n0 == 0xD {
        Some(Instruction::Draw { x, y, n })
    } else if n0 == 0xE && y == 0x9 && n == 0xE {
        Some(Instruction::SkipKey { x })
    } else if n0 == 0xE && y == 0xA && n == 0x1 {
        Some(Instruction::SkipNoKey { x })
    } else if n0 == 0xF && y == 0x0 && n == 0x7 {
        Some(Instruction::LoadDelay { x })
    } else if n0 == 0xF && y == 0x0 && n == 0xA {
        Some(Instruction::WaitKey { x })
    } else if n0 == 0xF && y == 0x1 && n == 0x5 {
        Some(Instruction::SetDelay { x })
    } else if n0 == 0xF && y == 0x1 && n == 0x8 {
        Some(Instruction::SetSound { x })
    } else if n0 == 0xF && y == 0x1 && n == 0xE {
        Some(Instruction::AddIndex { x })
    } else if n0 == 0xF && y == 0x2 && n == 0x9 {
        Some(Instruction::LoadFont { x })
    } else if n0 == 0xF && y == 0x3 && n == 0x3 {
        Some(Instruction::StoreBcd { x })
    } else if n0 == 0xF && y == 0x5 && n == 0x5 {
        Some(Instruction::StoreRegs { x })
    } else if n0 == 0xF && y == 0x6 && n == 0x5 {
        Some(Instruction::LoadRegs { x })
    } else {
        None
    }
}

impl Instruction {
    /// Register selectors are below 16 and addresses below 0x1000, as the
    /// decoder produces them.
    pub open spec fn wf(self) -> bool {
        match self {
            Instruction::Cls | Instruction::Ret => true,
            Instruction::Jump { addr } | Instruction::Call { addr } | Instruction::LoadIndex { addr }
            | Instruction::JumpV0 { addr } => addr < 0x1000,
            Instruction::SkipEqByte { x, .. } | Instruction::SkipNeByte { x, .. }
            | Instruction::LoadByte { x, .. } | Instruction::AddByte { x, .. }
            | Instruction::Random { x, .. } => x < 16,
            Instruction::SkipEqReg { x, y } | Instruction::LoadReg { x, y } | Instruction::Or { x, y }
            | Instruction::And { x, y } | Instruction::Xor { x, y } | Instruction::AddReg { x, y }
            | Instruction::Sub { x, y } | Instruction::Shr { x, y } | Instruction::SubN { x, y }
            | Instruction::Shl { x, y } | Instruction::SkipNeReg { x, y }
            | Instruction::Draw { x, y, .. } => x < 16 && y < 16,
            Instruction::SkipKey { x } | Instruction::SkipNoKey { x } | Instruction::LoadDelay { x }
            | Instruction::WaitKey { x } | Instruction::SetDelay { x } | Instruction::SetSound { x }
            | Instruction::AddIndex { x } | Instruction::LoadFont { x } | Instruction::StoreBcd { x }
            | Instruction::StoreRegs { x } | Instruction::LoadRegs { x } => x < 16,
        }
    }

    /// Looks `op` up in the instruction table.
    pub fn decode(op: &Opcode) -> (r: Option<Instruction>)
        requires
            op.wf(),
        ensures
            r == instruction_of(*op),
            r matches Some(ins) ==> ins.wf(),
    {
        let (n0, x, y, n) = (op.n0, op.n1, op.n2, op.n3);
        let (addr, kk) = (op.addr, op.byte);
        match (n0, x, y, n) {
            (0x0, 0x0, 0xE, 0x0) => Some(Instruction::Cls),
            (0x0, 0x0, 0xE, 0xE) => Some(Instruction::Ret),
            (0x1, _, _, _) => Some(Instruction::Jump { addr }),
            (0x2, _, _, _) => Some(Instruction::Call { addr }),
            (0x3, _, _, _) => Some(Instruction::SkipEqByte { x, kk }),
            (0x4, _, _, _) => Some(Instruction::SkipNeByte { x, kk }),
            (0x5, _, _, 0x0) => Some(Instruction::SkipEqReg { x, y }),
            (0x6, _, _, _) => Some(Instruction::LoadByte { x, kk }),
            (0x7, _, _, _) => Some(Instruction::AddByte { x, kk }),
            (0x8, _, _, 0x0) => Some(Instruction::LoadReg { x, y }),
            (0x8, _, _, 0x1) => Some(Instruction::Or { x, y }),
            (0x8, _, _, 0x2) => Some(Instruction::And { x, y }),
            (0x8, _, _, 0x3) => Some(Instruction::Xor { x, y }),
            (0x8, _, _, 0x4) => Some(Instruction::AddReg { x, y }),
            (0x8, _, _, 0x5) => Some(Instruction::Sub { x, y }),
            (0x8, _, _, 0x6) => Some(Instruction::Shr { x, y }),
            (0x8, _, _, 0x7) => Some(Instruction::SubN { x, y }),
            (0x8, _, _, 0xE) => Some(Instruction::Shl { x, y }),
            (0x9, _, _, 0x0) => Some(Instruction::SkipNeReg { x, y }),
            (0xA, _, _, _) => Some(Instruction::LoadIndex { addr }),
            (0xB, _, _, _) => Some(Instruction::JumpV0 { addr }),
            (0xC, _, _, _) => Some(Instruction::Random { x, kk }),
            (0xD, _, _, _) => Some(Instruction::Draw { x, y, n }),
            (0xE, _, 0x9, 0xE) => Some(Instruction::SkipKey { x }),
            (0xE, _, 0xA, 0x1) => Some(Instruction::SkipNoKey { x }),
            (0xF, _, 0x0, 0x7) => Some(Instruction::LoadDelay { x }),
            (0xF, _, 0x0, 0xA) => Some(Instruction::WaitKey { x }),
            (0xF, _, 0x1, 0x5) => Some(Instruction::SetDelay { x }),
            (0xF, _, 0x1, 0x8) => Some(Instruction::SetSound { x }),
            (0xF, _, 0x1, 0xE) => Some(Instruction::AddIndex { x }),
            (0xF, _, 0x2, 0x9) => Some(Instruction::LoadFont { x }),
            (0xF, _, 0x3, 0x3) => Some(Instruction::StoreBcd { x }),
            (0xF, _, 0x5, 0x5) => Some(Instruction::StoreRegs { x }),
            (0xF, _, 0x6, 0x5) => Some(Instruction::LoadRegs { x }),
            _ => None,
        }
    }
}

} // verus!
