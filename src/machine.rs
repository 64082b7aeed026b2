//! The machine state, its mathematical model and the semantics of every
//! instruction over that model.
use crate::instruction::{instruction_of, Instruction};
use crate::opcode::{opcode_of, Opcode};
use vstd::prelude::*;

verus! {

/// Bytes of addressable memory.
pub const MEMORY_SIZE: usize = 4096;

/// Address where a program is loaded and where execution starts.
pub const PROGRAM_START: u16 = 0x200;

/// Address of the first font glyph; glyph `d` starts at `FONT_START + 5 * d`.
pub const FONT_START: u16 = 0x050;

/// Rows of the display; each row is a 64-bit mask, most significant bit leftmost.
pub const DISPLAY_ROWS: usize = 32;

/// Fatal conditions that abort emulation.
#[derive(Clone, Copy, Debug, PartialEq, Eq, Structural)]
pub enum Chip8Error {
    /// A return with an empty call stack.
    StackUnderflow,
    /// No table entry matches the fetched opcode.
    UnknownOpcode(Opcode),
    /// A fetch or an indexed access reaches past the end of memory.
    MemoryAccessViolation,
    /// A program image larger than the program region, under the reject policy.
    RomTooLarge { size: usize, capacity: usize },
}

/// The model of a machine: its memory, display rows, registers, call stack
/// and timers as mathematical sequences and values.
pub struct MachineView {
    pub memory: Seq<u8>,
    pub display: Seq<u64>,
    pub pc: u16,
    pub stack: Seq<u16>,
    pub delay: u8,
    pub sound: u8,
    pub v: Seq<u8>,
    pub i: u16,
}

impl MachineView {
    /// Memory, display and register file have their fixed sizes.
    pub open spec fn wf(self) -> bool {
        &&& self.memory.len() == MEMORY_SIZE
        &&& self.display.len() == DISPLAY_ROWS
        &&& self.v.len() == 16
    }
}

/// `n` reduced to 16 bits.
pub open spec fn wrap16(n: int) -> u16 {
    (n % 0x10000) as u16
}

/// The glyph table: five rows of pixels for each hexadecimal digit.
pub open spec fn font_glyphs() -> Seq<u8> {
    seq![
        0xF0u8, 0x90, 0x90, 0x90, 0xF0, 0x20, 0x60, 0x20, 0x20, 0x70,
        0xF0, 0x10, 0xF0, 0x80, 0xF0, 0xF0, 0x10, 0xF0, 0x10, 0xF0,
        0x90, 0x90, 0xF0, 0x10, 0x10, 0xF0, 0x80, 0xF0, 0x10, 0xF0,
        0xF0, 0x80, 0xF0, 0x90, 0xF0, 0xF0, 0x10, 0x20, 0x40, 0x40,
        0xF0, 0x90, 0xF0, 0x90, 0xF0, 0xF0, 0x90, 0xF0, 0x10, 0xF0,
        0xF0, 0x90, 0xF0, 0x90, 0x90, 0xE0, 0x90, 0xE0, 0x90, 0xE0,
        0xF0, 0x80, 0x80, 0x80, 0xF0, 0xE0, 0x90, 0x90, 0x90, 0xE0,
        0xF0, 0x80, 0xF0, 0x80, 0xF0, 0xF0, 0x80, 0xF0, 0x80, 0x80,
    ]
}

/// Where the glyph of hexadecimal digit `d` starts.
pub open spec fn font_addr(d: u8) -> u16 {
    (FONT_START + 5 * (d % 16)) as u16
}

/// Sets the program counter past the next instruction when `c` holds.
pub open spec fn skip_if(m: MachineView, c: bool) -> MachineView {
    if c {
        MachineView { pc: wrap16(m.pc + 2), ..m }
    } else {
        m
    }
}

/// Writes `val` into register `x`.
pub open spec fn set_reg(m: MachineView, x: u8, val: u8) -> MachineView {
    MachineView { v: m.v.update(x as int, val), ..m }
}

/// Writes `val` into register `x`, then `flag` into register 0xF.
pub open spec fn set_reg_flag(m: MachineView, x: u8, val: u8, flag: u8) -> MachineView {
    MachineView { v: m.v.update(x as int, val).update(15, flag), ..m }
}

/// The result of a bitwise register operation: 0xF is cleared only under
/// the flag-resetting compatibility profile.
pub open spec fn logic_result(m: MachineView, x: u8, val: u8, resets_vf: bool) -> MachineView {
    if resets_vf {
        set_reg_flag(m, x, val, 0)
    } else {
        set_reg(m, x, val)
    }
}

/// The display mask of one sprite byte `b` whose leftmost pixel stands at
/// column `col`; pixels right of the last column are clipped.
pub open spec fn sprite_mask(b: u8, col: u8) -> u64 {
    ((b as u64) << 56u64) >> (col as u64)
}

/// How many sprite rows a draw of height `n` from row `row0` shows before
/// the bottom edge clips it.
pub open spec fn visible_rows(row0: int, n: int) -> int {
    if n < DISPLAY_ROWS - row0 {
        n
    } else {
        DISPLAY_ROWS - row0
    }
}

/// The sprite byte that is drawn on display row `r`.
pub open spec fn sprite_byte(m: MachineView, row0: int, r: int) -> u8 {
    m.memory[m.i + r - row0]
}

/// The display after XOR-ing a sprite of `rows` rows from memory at `i`,
/// with its top left pixel at (`col`, `row0`).
pub open spec fn drawn_display(m: MachineView, col: u8, row0: int, rows: int) -> Seq<u64> {
    Seq::new(
        DISPLAY_ROWS as nat,
        |r: int|
            if row0 <= r < row0 + rows {
                m.display[r] ^ sprite_mask(sprite_byte(m, row0, r), col)
            } else {
                m.display[r]
            },
    )
}

/// Whether a set sprite pixel of the draw meets a set display pixel.
pub open spec fn draw_collides(m: MachineView, col: u8, row0: int, rows: int) -> bool {
    exists|r: int|
        row0 <= r < row0 + rows && #[trigger] m.display[r] & sprite_mask(sprite_byte(m, row0, r), col)
            != 0
}

/// The sprite draw `Dxyn`.
pub open spec fn draw_spec(m: MachineView, x: u8, y: u8, n: u8) -> Result<MachineView, Chip8Error> {
    let col = (m.v[x as int] % 64) as u8;
    let row0 = m.v[y as int] % 32;
    let rows = visible_rows(row0 as int, n as int);
    if m.i + rows > MEMORY_SIZE {
        Err(Chip8Error::MemoryAccessViolation)
    } else {
        let flag: u8 = if draw_collides(m, col, row0 as int, rows) { 1 } else { 0 };
        Ok(MachineView {
            display: drawn_display(m, col, row0 as int, rows),
            v: m.v.update(15, flag),
            ..m
        })
    }
}

/// The lowest key index from `k` on that was held on the previous tick and
/// is released on this one.
pub open spec fn first_release(prev: Seq<bool>, now: Seq<bool>, k: int) -> Option<u8>
    decreases 16 - k,
{
    if !(0 <= k < 16) {
        None
    } else if prev[k] && !now[k] {
        Some(k as u8)
    } else {
        first_release(prev, now, k + 1)
    }
}

/// The effect of executing `ins` on `m`, whose program counter already
/// points past the instruction. `now` and `prev` are the keypad of this tick
/// and of the previous one, `rnd` the random byte that `Cxkk` masks.
pub open spec fn exec_spec(
    m: MachineView,
    ins: Instruction,
    resets_vf: bool,
    now: Seq<bool>,
    prev: Seq<bool>,
    rnd: u8,
) -> Result<MachineView, Chip8Error> {
    match ins {
        Instruction::Cls => Ok(MachineView { display: Seq::new(DISPLAY_ROWS as nat, |r: int| 0u64), ..m }),
        Instruction::Ret => if m.stack.len() == 0 {
            Err(Chip8Error::StackUnderflow)
        } else {
            Ok(MachineView { pc: m.stack.last(), stack: m.stack.drop_last(), ..m })
        },
        Instruction::Jump { addr } => Ok(MachineView { pc: addr, ..m }),
        Instruction::Call { addr } => Ok(MachineView { pc: addr, stack: m.stack.push(m.pc), ..m }),
        Instruction::SkipEqByte { x, kk } => Ok(skip_if(m, m.v[x as int] == kk)),
        Instruction::SkipNeByte { x, kk } => Ok(skip_if(m, m.v[x as int] != kk)),
        Instruction::SkipEqReg { x, y } => Ok(skip_if(m, m.v[x as int] == m.v[y as int])),
        Instruction::LoadByte { x, kk } => Ok(set_reg(m, x, kk)),
        Instruction::AddByte { x, kk } => Ok(set_reg(m, x, ((m.v[x as int] + kk) % 256) as u8)),
        Instruction::LoadReg { x, y } => Ok(set_reg(m, x, m.v[y as int])),
        Instruction::Or { x, y } => Ok(logic_result(m, x, m.v[x as int] | m.v[y as int], resets_vf)),
        Instruction::And { x, y } => Ok(logic_result(m, x, m.v[x as int] & m.v[y as int], resets_vf)),
        Instruction::Xor { x, y } => Ok(logic_result(m, x, m.v[x as int] ^ m.v[y as int], resets_vf)),
        Instruction::AddReg { x, y } => {
            let sum = m.v[x as int] + m.v[y as int];
            Ok(set_reg_flag(m, x, (sum % 256) as u8, if sum > 255 { 1 } else { 0 }))
        },
        Instruction::Sub { x, y } => {
            let (a, b) = (m.v[x as int], m.v[y as int]);
            Ok(set_reg_flag(m, x, ((a - b + 256) % 256) as u8, if a >= b { 1 } else { 0 }))
        },
        Instruction::Shr { x, y } => Ok(set_reg_flag(m, x, m.v[y as int] / 2, m.v[y as int] % 2)),
        Instruction::SubN { x, y } => {
            let (a, b) = (m.v[x as int], m.v[y as int]);
            Ok(set_reg_flag(m, x, ((b - a + 256) % 256) as u8, if b >= a { 1 } else { 0 }))
        },
        Instruction::Shl { x, y } => Ok(
            set_reg_flag(m, x, ((m.v[y as int] * 2) % 256) as u8, m.v[y as int] / 128),
        ),
        Instruction::SkipNeReg { x, y } => Ok(skip_if(m, m.v[x as int] != m.v[y as int])),
        Instruction::LoadIndex { addr } => Ok(MachineView { i: addr, ..m }),
        Instruction::JumpV0 { addr } => Ok(MachineView { pc: wrap16(addr + m.v[0]), ..m }),
        Instruction::Random { x, kk } => Ok(set_reg(m, x, rnd & kk)),
        Instruction::Draw { x, y, n } => draw_spec(m, x, y, n),
        Instruction::SkipKey { x } => Ok(skip_if(m, now[(m.v[x as int] % 16) as int])),
        Instruction::SkipNoKey { x } => Ok(skip_if(m, !now[(m.v[x as int] % 16) as int])),
        Instruction::LoadDelay { x } => Ok(set_reg(m, x, m.delay)),
        Instruction::WaitKey { x } => match first_release(prev, now, 0) {
            Some(k) => Ok(set_reg(m, x, k)),
            None => Ok(MachineView { pc: wrap16(m.pc + 0x10000 - 2), ..m }),
        },
        Instruction::SetDelay { x } => Ok(MachineView { delay: m.v[x as int], ..m }),
        Instruction::SetSound { x } => Ok(MachineView { sound: m.v[x as int], ..m }),
        Instruction::AddIndex { x } => {
            let sum = wrap16(m.i + m.v[x as int]);
            Ok(MachineView { i: sum, v: m.v.update(15, if sum > 0xFFF { 1 } else { 0 }), ..m })
        },
        Instruction::LoadFont { x } => Ok(MachineView { i: font_addr(m.v[x as int]), ..m }),
        Instruction::StoreBcd { x } => if m.i + 2 >= MEMORY_SIZE {
            Err(Chip8Error::MemoryAccessViolation)
        } else {
            let val = m.v[x as int];
            Ok(
                MachineView {
                    memory: m.memory.update(m.i as int, val / 100).update(
                        m.i + 1,
                        (val % 100) / 10,
                    ).update(m.i + 2, val % 10),
                    ..m
                },
            )
        },
        Instruction::StoreRegs { x } => if m.i + x >= MEMORY_SIZE {
            Err(Chip8Error::MemoryAccessViolation)
        } else {
            Ok(
                MachineView {
                    memory: Seq::new(
                        MEMORY_SIZE as nat,
                        |a: int|
                            if m.i <= a <= m.i + x {
                                m.v[a - m.i]
                            } else {
                                m.memory[a]
                            },
                    ),
                    ..m
                },
            )
        },
        Instruction::LoadRegs { x } => if m.i + x >= MEMORY_SIZE {
            Err(Chip8Error::MemoryAccessViolation)
        } else {
            Ok(
                MachineView {
                    v: Seq::new(16, |r: int| if r <= x { m.memory[m.i + r] } else { m.v[r] }),
                    ..m
                },
            )
        },
    }
}

/// The opcode at the program counter, or a violation where its second byte
/// lies past the end of memory.
pub open spec fn fetch_spec(m: MachineView) -> Result<Opcode, Chip8Error> {
    if m.pc + 1 < MEMORY_SIZE {
        Ok(opcode_of(m.memory[m.pc as int], m.memory[m.pc + 1]))
    } else {
        Err(Chip8Error::MemoryAccessViolation)
    }
}

/// One fetch-decode-execute cycle.
pub open spec fn step_spec(
    m: MachineView,
    resets_vf: bool,
    now: Seq<bool>,
    prev: Seq<bool>,
    rnd: u8,
) -> Result<MachineView, Chip8Error> {
    match fetch_spec(m) {
        Err(e) => Err(e),
        Ok(op) => match instruction_of(op) {
            None => Err(Chip8Error::UnknownOpcode(op)),
            Some(ins) => exec_spec(MachineView { pc: wrap16(m.pc + 2), ..m }, ins, resets_vf, now, prev, rnd),
        },
    }
}

/// The machine after one timer tick: each nonzero timer counts down by one.
pub open spec fn timers_ticked(m: MachineView) -> MachineView {
    MachineView {
        delay: if m.delay > 0 { (m.delay - 1) as u8 } else { 0 },
        sound: if m.sound > 0 { (m.sound - 1) as u8 } else { 0 },
        ..m
    }
}

/// Bytes available for a program when `reserved_tail` bytes at the top of
/// memory are kept out of the program region.
pub open spec fn program_capacity(reserved_tail: u16) -> int {
    MEMORY_SIZE - PROGRAM_START - reserved_tail
}

/// Memory at power-on: the glyph table at `FONT_START`, the first `count`
/// bytes of `rom` at `PROGRAM_START`, zero elsewhere.
pub open spec fn initial_memory(rom: Seq<u8>, count: int) -> Seq<u8> {
    Seq::new(
        MEMORY_SIZE as nat,
        |a: int|
            if FONT_START <= a < FONT_START + 80 {
                font_glyphs()[a - FONT_START]
            } else if PROGRAM_START <= a < PROGRAM_START + count {
                rom[a - PROGRAM_START]
            } else {
                0u8
            },
    )
}

/// A machine at power-on with `count` bytes of `rom` loaded: blank display,
/// zeroed registers and timers, empty stack, execution at `PROGRAM_START`.
pub open spec fn initial_machine(rom: Seq<u8>, count: int) -> MachineView {
    MachineView {
        memory: initial_memory(rom, count),
        display: Seq::new(DISPLAY_ROWS as nat, |r: int| 0u64),
        pc: PROGRAM_START,
        stack: Seq::empty(),
        delay: 0,
        sound: 0,
        v: Seq::new(16, |r: int| 0u8),
        i: 0,
    }
}

/// Loading `rom`: it fits when its length is at most the capacity; a longer
/// one is cut to the capacity when `truncate` holds and rejected otherwise.
pub open spec fn load_spec(rom: Seq<u8>, reserved_tail: u16, truncate: bool) -> Result<
    MachineView,
    Chip8Error,
> {
    let cap = program_capacity(reserved_tail);
    if rom.len() <= cap {
        Ok(initial_machine(rom, rom.len() as int))
    } else if truncate {
        Ok(initial_machine(rom, cap))
    } else {
        Err(Chip8Error::RomTooLarge { size: rom.len() as usize, capacity: cap as usize })
    }
}

} // verus!
