//! The executable machine: state, decoder entry point and instruction
//! execution, each proved against the model in `machine`.
use crate::instruction::Instruction;
use crate::machine::{
    draw_collides, draw_spec, drawn_display, exec_spec, fetch_spec, first_release, font_glyphs,
    initial_memory, load_spec, logic_result, program_capacity, set_reg_flag, skip_if,
    sprite_byte, sprite_mask, step_spec, timers_ticked, visible_rows, wrap16, Chip8Error,
    MachineView, DISPLAY_ROWS, FONT_START, MEMORY_SIZE, PROGRAM_START,
};
use crate::opcode::Opcode;
use vstd::prelude::*;

verus! {

/// A machine: 4096 bytes of memory, 32 display rows, sixteen registers, a
/// call stack, two timers, the program counter and the index register.
pub struct Chip8 {
    pub memory: Vec<u8>,
    pub display: Vec<u64>,
    pub pc: u16,
    pub stack: Vec<u16>,
    pub delay: u8,
    pub sound: u8,
    pub v: Vec<u8>,
    pub i: u16,
}

impl View for Chip8 {
    type V = MachineView;

    open spec fn view(&self) -> MachineView {
        MachineView {
            memory: self.memory@,
            display: self.display@,
            pc: self.pc,
            stack: self.stack@,
            delay: self.delay,
            sound: self.sound,
            v: self.v@,
            i: self.i,
        }
    }
}

/// Adds two bytes modulo 256.
fn add_wrapping(a: u8, b: u8) -> (r: u8)
    ensures
        r == (a + b) % 256,
{
    ((a as u16 + b as u16) % 256) as u8
}

/// Subtracts `b` from `a` modulo 256.
fn sub_wrapping(a: u8, b: u8) -> (r: u8)
    ensures
        r == (a - b + 256) % 256,
{
    ((a as u16 + 256 - b as u16) % 256) as u8
}

/// Adds `d` to a 16-bit value modulo 2^16.
fn add_wrapping16(a: u16, d: u32) -> (r: u16)
    requires
        d <= 0x10000,
    ensures
        r == wrap16(a + d),
{
    ((a as u32 + d) % 0x10000) as u16
}

impl Chip8 {
    /// Memory, display and register file have their fixed sizes.
    pub open spec fn wf(&self) -> bool {
        self@.wf()
    }

    /// Moves the program counter past the next instruction when `c` holds.
    fn skip_if(&mut self, c: bool)
        ensures
            final(self)@ == skip_if(old(self)@, c),
    {
        if c {
            self.pc = add_wrapping16(self.pc, 2);
        }
    }

    /// Writes `val` into register `x`, then `flag` into register 0xF.
    fn set_reg_flag(&mut self, x: u8, val: u8, flag: u8)
        requires
            old(self).wf(),
            x < 16,
        ensures
            final(self)@ == set_reg_flag(old(self)@, x, val, flag),
    {
        self.v.set(x as usize, val);
        self.v.set(15, flag);
    }

    /// Writes the result of a bitwise operation into register `x`.
    fn set_logic(&mut self, x: u8, val: u8, resets_vf: bool)
        requires
            old(self).wf(),
            x < 16,
        ensures
            final(self)@ == logic_result(old(self)@, x, val, resets_vf),
    {
        self.v.set(x as usize, val);
        if resets_vf {
            self.v.set(15, 0);
        }
    }

    /// Draws the `n`-row sprite at memory `i` with its top left pixel at
    /// (`Vx mod 64`, `Vy mod 32`): each row is XOR-ed into the display,
    /// rows below the bottom edge and pixels right of the last column are
    /// clipped, and 0xF is set to 1 exactly when a set pixel was cleared.
    fn draw(&mut self, x: u8, y: u8, n: u8) -> (r: Result<(), Chip8Error>)
        requires
            old(self).wf(),
            x < 16,
            y < 16,
        ensures
            match draw_spec(old(self)@, x, y, n) {
                Ok(m) => r is Ok && final(self)@ == m,
                Err(e) => r == Err::<(), Chip8Error>(e) && final(self)@ == old(self)@,
            },
    {
        let col = self.v[x as usize] % 64;
        let row0 = (self.v[y as usize] % 32) as usize;
        let rows: usize = if (n as usize) < DISPLAY_ROWS - row0 {
            n as usize
        } else {
            DISPLAY_ROWS - row0
        };
        let base = self.i as usize;
        if base + rows > MEMORY_SIZE {
            return Err(Chip8Error::MemoryAccessViolation);
        }
        let ghost m0 = self@;
        assert(rows == visible_rows(row0 as int, n as int));
        let mut collided = false;
        let mut k: usize = 0;
        while k < rows
            invariant
                m0 == old(self)@,
                m0.wf(),
                self.wf(),
                x < 16,
                self.memory@ == m0.memory,
                self.v@ == m0.v,
                self.i == m0.i,
                self.pc == m0.pc,
                self.stack@ == m0.stack,
                self.delay == m0.delay,
                self.sound == m0.sound,
                col == m0.v[x as int] % 64,
                col < 64,
                row0 + rows <= DISPLAY_ROWS,
                base == m0.i,
                base + rows <= MEMORY_SIZE,
                k <= rows,
                forall|r: int|
                    0 <= r < DISPLAY_ROWS ==> #[trigger] self.display@[r] == (if row0 <= r < row0 + k {
                        m0.display[r] ^ sprite_mask(sprite_byte(m0, row0 as int, r), col)
                    } else {
                        m0.display[r]
                    }),
                collided == draw_collides(m0, col, row0 as int, k as int),
            decreases rows - k,
        {
            let b = self.memory[base + k];
            let mask: u64 = ((b as u64) << 56u64) >> (col as u64);
            let row = self.display[row0 + k];
            assert(mask == sprite_mask(sprite_byte(m0, row0 as int, (row0 + k) as int), col));
            if row & mask != 0 {
                assert(draw_collides(m0, col, row0 as int, (k + 1) as int));
                collided = true;
            } else {
                assert(draw_collides(m0, col, row0 as int, (k + 1) as int) == collided);
            }
            self.display.set(row0 + k, row ^ mask);
            k += 1;
        }
        self.v.set(15, if collided { 1 } else { 0 });
        assert(self.display@ =~= drawn_display(m0, col, row0 as int, rows as int));
        Ok(())
    }

    /// Reads the instruction word at the program counter.
    pub fn fetch(&self) -> (r: Result<Opcode, Chip8Error>)
        requires
            self.wf(),
        ensures
            r == fetch_spec(self@),
            r matches Ok(op) ==> op.wf(),
    {
        let pc = self.pc as usize;
        if pc + 1 < MEMORY_SIZE {
            Ok(Opcode::from_slice(vstd::slice::slice_subrange(self.memory.as_slice(), pc, pc + 2)))
        } else {
            Err(Chip8Error::MemoryAccessViolation)
        }
    }
}

/// The lowest key index that was held on the previous tick and is released
/// on this one, if any.
pub fn released_key(prev: &[bool; 16], now: &[bool; 16]) -> (r: Option<u8>)
    ensures
        r == first_release(prev@, now@, 0),
{
    let mut k: usize = 0;
    while k < 16
        invariant
            k <= 16,
            first_release(prev@, now@, 0) == first_release(prev@, now@, k as int),
        decreases 16 - k,
    {
        if prev[k] && !now[k] {
            return Some(k as u8);
        }
        k += 1;
    }
    None
}

impl Chip8 {
    /// Copies registers `V0..=Vx` into memory from address `i` on.
    fn store_regs(&mut self, x: u8) -> (r: Result<(), Chip8Error>)
        requires
            old(self).wf(),
            x < 16,
        ensures
            match exec_spec(old(self)@, Instruction::StoreRegs { x }, false, seq![], seq![], 0) {
                Ok(m) => r is Ok && final(self)@ == m,
                Err(e) => r == Err::<(), Chip8Error>(e) && final(self)@ == old(self)@,
            },
    {
        let base = self.i as usize;
        if base + x as usize >= MEMORY_SIZE {
            return Err(Chip8Error::MemoryAccessViolation);
        }
        let ghost m0 = self@;
        let mut k: usize = 0;
        while k <= x as usize
            invariant
                m0 == old(self)@,
                self.wf(),
                x < 16,
                base == m0.i,
                base + x < MEMORY_SIZE,
                k <= x + 1,
                self.display@ == m0.display,
                self.v@ == m0.v,
                self.i == m0.i,
                self.pc == m0.pc,
                self.stack@ == m0.stack,
                self.delay == m0.delay,
                self.sound == m0.sound,
                forall|a: int|
                    0 <= a < MEMORY_SIZE ==> #[trigger] self.memory@[a] == (if base <= a < base + k {
                        m0.v[a - base]
                    } else {
                        m0.memory[a]
                    }),
            decreases x + 1 - k,
        {
            let val = self.v[k];
            self.memory.set(base + k, val);
            k += 1;
        }
        assert(self.memory@ =~= Seq::new(
            MEMORY_SIZE as nat,
            |a: int| if m0.i <= a <= m0.i + x { m0.v[a - m0.i] } else { m0.memory[a] },
        ));
        Ok(())
    }

    /// Copies memory from address `i` on into registers `V0..=Vx`.
    fn load_regs(&mut self, x: u8) -> (r: Result<(), Chip8Error>)
        requires
            old(self).wf(),
            x < 16,
        ensures
            match exec_spec(old(self)@, Instruction::LoadRegs { x }, false, seq![], seq![], 0) {
                Ok(m) => r is Ok && final(self)@ == m,
                Err(e) => r == Err::<(), Chip8Error>(e) && final(self)@ == old(self)@,
            },
    {
        let base = self.i as usize;
        if base + x as usize >= MEMORY_SIZE {
            return Err(Chip8Error::MemoryAccessViolation);
        }
        let ghost m0 = self@;
        let mut k: usize = 0;
        while k <= x as usize
            invariant
                m0 == old(self)@,
                self.wf(),
                x < 16,
                base == m0.i,
                base + x < MEMORY_SIZE,
                k <= x + 1,
                self.display@ == m0.display,
                self.memory@ == m0.memory,
                self.i == m0.i,
                self.pc == m0.pc,
                self.stack@ == m0.stack,
                self.delay == m0.delay,
                self.sound == m0.sound,
                forall|r: int|
                    0 <= r < 16 ==> #[trigger] self.v@[r] == (if r < k {
                        m0.memory[base + r]
                    } else {
                        m0.v[r]
                    }),
            decreases x + 1 - k,
        {
            let val = self.memory[base + k];
            self.v.set(k, val);
            k += 1;
        }
        assert(self.v@ =~= Seq::new(
            16,
            |r: int| if r <= x { m0.memory[m0.i + r] } else { m0.v[r] },
        ));
        Ok(())
    }

    /// Stores the hundreds, tens and ones digits of `Vx` at `i`, `i+1`, `i+2`.
    fn store_bcd(&mut self, x: u8) -> (r: Result<(), Chip8Error>)
        requires
            old(self).wf(),
            x < 16,
        ensures
            match exec_spec(old(self)@, Instruction::StoreBcd { x }, false, seq![], seq![], 0) {
                Ok(m) => r is Ok && final(self)@ == m,
                Err(e) => r == Err::<(), Chip8Error>(e) && final(self)@ == old(self)@,
            },
    {
        let base = self.i as usize;
        if base + 2 >= MEMORY_SIZE {
            return Err(Chip8Error::MemoryAccessViolation);
        }
        let val = self.v[x as usize];
        self.memory.set(base, val / 100);
        self.memory.set(base + 1, (val % 100) / 10);
        self.memory.set(base + 2, val % 10);
        Ok(())
    }

    /// Executes `ins` on a machine whose program counter already points past
    /// it. `now` and `prev` are the keypad of this tick and of the previous
    /// one, `rnd` the random byte that `Cxkk` masks; `resets_vf` selects
    /// whether the bitwise operations clear 0xF. On an error the machine is
    /// left as it was.
    pub fn execute(
        &mut self,
        ins: Instruction,
        resets_vf: bool,
        now: &[bool; 16],
        prev: &[bool; 16],
        rnd: u8,
    ) -> (r: Result<(), Chip8Error>)
        requires
            old(self).wf(),
            ins.wf(),
        ensures
            final(self).wf(),
            match exec_spec(old(self)@, ins, resets_vf, now@, prev@, rnd) {
                Ok(m) => r is Ok && final(self)@ == m,
                Err(e) => r == Err::<(), Chip8Error>(e) && final(self)@ == old(self)@,
            },
    {
        match ins {
            Instruction::Cls => {
                let mut k: usize = 0;
                while k < DISPLAY_ROWS
                    invariant
                        self.display@.len() == DISPLAY_ROWS,
                        k <= DISPLAY_ROWS,
                        forall|r: int| 0 <= r < k ==> #[trigger] self.display@[r] == 0u64,
                        self.memory@ == old(self).memory@,
                        self.v@ == old(self).v@,
                        self.stack@ == old(self).stack@,
                        self.pc == old(self).pc,
                        self.i == old(self).i,
                        self.delay == old(self).delay,
                        self.sound == old(self).sound,
                    decreases DISPLAY_ROWS - k,
                {
                    self.display.set(k, 0);
                    k += 1;
                }
                assert(self.display@ =~= Seq::new(DISPLAY_ROWS as nat, |r: int| 0u64));
            },
            Instruction::Ret => {
                match self.stack.pop() {
                    Some(a) => self.pc = a,
                    None => return Err(Chip8Error::StackUnderflow),
                }
            },
            Instruction::Jump { addr } => self.pc = addr,
            Instruction::Call { addr } => {
                self.stack.push(self.pc);
                self.pc = addr;
            },
            Instruction::SkipEqByte { x, kk } => {
                let c = self.v[x as usize] == kk;
                self.skip_if(c);
            },
            Instruction::SkipNeByte { x, kk } => {
                let c = self.v[x as usize] != kk;
                self.skip_if(c);
            },
            Instruction::SkipEqReg { x, y } => {
                let c = self.v[x as usize] == self.v[y as usize];
                self.skip_if(c);
            },
            Instruction::LoadByte { x, kk } => self.v.set(x as usize, kk),
            Instruction::AddByte { x, kk } => {
                let val = add_wrapping(self.v[x as usize], kk);
                self.v.set(x as usize, val);
            },
            Instruction::LoadReg { x, y } => {
                let val = self.v[y as usize];
                self.v.set(x as usize, val);
            },
            Instruction::Or { x, y } => {
                let val = self.v[x as usize] | self.v[y as usize];
                self.set_logic(x, val, resets_vf);
            },
            Instruction::And { x, y } => {
                let val = self.v[x as usize] & self.v[y as usize];
                self.set_logic(x, val, resets_vf);
            },
            Instruction::Xor { x, y } => {
                let val = self.v[x as usize] ^ self.v[y as usize];
                self.set_logic(x, val, resets_vf);
            },
            Instruction::AddReg { x, y } => {
                let (a, b) = (self.v[x as usize], self.v[y as usize]);
                let carry: u8 = if a as u16 + b as u16 > 255 { 1 } else { 0 };
                self.set_reg_flag(x, add_wrapping(a, b), carry);
            },
            Instruction::Sub { x, y } => {
                let (a, b) = (self.v[x as usize], self.v[y as usize]);
                let no_borrow: u8 = if a >= b { 1 } else { 0 };
                self.set_reg_flag(x, sub_wrapping(a, b), no_borrow);
            },
            Instruction::Shr { x, y } => {
                let b = self.v[y as usize];
                self.set_reg_flag(x, b / 2, b % 2);
            },
            Instruction::SubN { x, y } => {
                let (a, b) = (self.v[x as usize], self.v[y as usize]);
                let no_borrow: u8 = if b >= a { 1 } else { 0 };
                self.set_reg_flag(x, sub_wrapping(b, a), no_borrow);
            },
            Instruction::Shl { x, y } => {
                let b = self.v[y as usize];
                self.set_reg_flag(x, ((b as u16 * 2) % 256) as u8, b / 128);
            },
            Instruction::SkipNeReg { x, y } => {
                let c = self.v[x as usize] != self.v[y as usize];
                self.skip_if(c);
            },
            Instruction::LoadIndex { addr } => self.i = addr,
            Instruction::JumpV0 { addr } => {
                self.pc = add_wrapping16(addr, self.v[0] as u32);
            },
            Instruction::Random { x, kk } => self.v.set(x as usize, rnd & kk),
            Instruction::Draw { x, y, n } => {
                return self.draw(x, y, n);
            },
            Instruction::SkipKey { x } => {
                let c = now[(self.v[x as usize] % 16) as usize];
                self.skip_if(c);
            },
            Instruction::SkipNoKey { x } => {
                let c = !now[(self.v[x as usize] % 16) as usize];
                self.skip_if(c);
            },
            Instruction::LoadDelay { x } => {
                let d = self.delay;
                self.v.set(x as usize, d);
            },
            Instruction::WaitKey { x } => match released_key(prev, now) {
                Some(k) => self.v.set(x as usize, k),
                None => self.pc = add_wrapping16(self.pc, 0x10000 - 2),
            },
            Instruction::SetDelay { x } => self.delay = self.v[x as usize],
            Instruction::SetSound { x } => self.sound = self.v[x as usize],
            Instruction::AddIndex { x } => {
                let sum = add_wrapping16(self.i, self.v[x as usize] as u32);
                self.i = sum;
                self.v.set(15, if sum > 0xFFF { 1 } else { 0 });
            },
            Instruction::LoadFont { x } => {
                self.i = FONT_START + 5 * (self.v[x as usize] % 16) as u16;
            },
            Instruction::StoreBcd { x } => {
                return self.store_bcd(x);
            },
            Instruction::StoreRegs { x } => {
                return self.store_regs(x);
            },
            Instruction::LoadRegs { x } => {
                return self.load_regs(x);
            },
        }
        Ok(())
    }
}

impl Chip8 {
    /// A machine at power-on with `rom` loaded at `PROGRAM_START`. The top
    /// `reserved_tail` bytes of memory are not program space; a longer image
    /// is cut to fit when `truncate` holds and refused with `RomTooLarge`
    /// otherwise.
    pub fn new(rom: &[u8], reserved_tail: u16, truncate: bool) -> (r: Result<Chip8, Chip8Error>)
        requires
            reserved_tail as int <= MEMORY_SIZE - PROGRAM_START,
        ensures
            match load_spec(rom@, reserved_tail, truncate) {
                Ok(m) => r matches Ok(c) && c@ == m && c.wf(),
                Err(e) => r == Err::<Chip8, Chip8Error>(e),
            },
    {
        let cap: usize = MEMORY_SIZE - PROGRAM_START as usize - reserved_tail as usize;
        let count: usize = if rom.len() <= cap {
            rom.len()
        } else if truncate {
            cap
        } else {
            return Err(Chip8Error::RomTooLarge { size: rom.len(), capacity: cap });
        };
        assert(cap == program_capacity(reserved_tail));
        let font: [u8; 80] = [
            0xF0, 0x90, 0x90, 0x90, 0xF0, 0x20, 0x60, 0x20, 0x20, 0x70,
            0xF0, 0x10, 0xF0, 0x80, 0xF0, 0xF0, 0x10, 0xF0, 0x10, 0xF0,
            0x90, 0x90, 0xF0, 0x10, 0x10, 0xF0, 0x80, 0xF0, 0x10, 0xF0,
            0xF0, 0x80, 0xF0, 0x90, 0xF0, 0xF0, 0x10, 0x20, 0x40, 0x40,
            0xF0, 0x90, 0xF0, 0x90, 0xF0, 0xF0, 0x90, 0xF0, 0x10, 0xF0,
            0xF0, 0x90, 0xF0, 0x90, 0x90, 0xE0, 0x90, 0xE0, 0x90, 0xE0,
            0xF0, 0x80, 0x80, 0x80, 0xF0, 0xE0, 0x90, 0x90, 0x90, 0xE0,
            0xF0, 0x80, 0xF0, 0x80, 0xF0, 0xF0, 0x80, 0xF0, 0x80, 0x80,
        ];
        assert(font@ =~= font_glyphs());
        let mut memory: Vec<u8> = vec![0u8; MEMORY_SIZE];
        let mut k: usize = 0;
        while k < 80
            invariant
                font@ == font_glyphs(),
                memory@.len() == MEMORY_SIZE,
                k <= 80,
                forall|a: int|
                    0 <= a < MEMORY_SIZE ==> #[trigger] memory@[a] == (if FONT_START <= a
                        < FONT_START + k {
                        font_glyphs()[a - FONT_START]
                    } else {
                        0u8
                    }),
            decreases 80 - k,
        {
            memory.set(FONT_START as usize + k, font[k]);
            k += 1;
        }
        let mut k: usize = 0;
        while k < count
            invariant
                font@ == font_glyphs(),
                memory@.len() == MEMORY_SIZE,
                count <= rom@.len(),
                PROGRAM_START + count <= MEMORY_SIZE,
                k <= count,
                forall|a: int|
                    0 <= a < MEMORY_SIZE ==> #[trigger] memory@[a] == (if FONT_START <= a
                        < FONT_START + 80 {
                        font_glyphs()[a - FONT_START]
                    } else if PROGRAM_START <= a < PROGRAM_START + k {
                        rom@[a - PROGRAM_START]
                    } else {
                        0u8
                    }),
            decreases count - k,
        {
            memory.set(PROGRAM_START as usize + k, rom[k]);
            k += 1;
        }
        assert(memory@ =~= initial_memory(rom@, count as int));
        let c = Chip8 {
            memory,
            display: vec![0u64; DISPLAY_ROWS],
            pc: PROGRAM_START,
            stack: Vec::new(),
            delay: 0,
            sound: 0,
            v: vec![0u8; 16],
            i: 0,
        };
        assert(c.display@ =~= Seq::new(DISPLAY_ROWS as nat, |r: int| 0u64));
        assert(c.v@ =~= Seq::new(16, |r: int| 0u8));
        Ok(c)
    }

    /// One fetch-decode-execute cycle. On an error the machine is left as
    /// it was.
    pub fn step(&mut self, resets_vf: bool, now: &[bool; 16], prev: &[bool; 16], rnd: u8) -> (r:
        Result<(), Chip8Error>)
        requires
            old(self).wf(),
        ensures
            final(self).wf(),
            match step_spec(old(self)@, resets_vf, now@, prev@, rnd) {
                Ok(m) => r is Ok && final(self)@ == m,
                Err(e) => r == Err::<(), Chip8Error>(e) && final(self)@ == old(self)@,
            },
    {
        let op = match self.fetch() {
            Ok(op) => op,
            Err(e) => return Err(e),
        };
        let ins = match Instruction::decode(&op) {
            Some(ins) => ins,
            None => return Err(Chip8Error::UnknownOpcode(op)),
        };
        let pc = self.pc;
        self.pc = add_wrapping16(pc, 2);
        let r = self.execute(ins, resets_vf, now, prev, rnd);
        if r.is_err() {
            self.pc = pc;
        }
        r
    }

    /// One timer tick: each nonzero timer counts down by one. Returns
    /// whether the tone is audible, that is whether the sound timer was
    /// nonzero.
    pub fn tick_timers(&mut self) -> (audible: bool)
        ensures
            final(self)@ == timers_ticked(old(self)@),
            audible == (old(self).sound > 0),
    {
        if self.delay > 0 {
            self.delay = self.delay - 1;
        }
        if self.sound > 0 {
            self.sound = self.sound - 1;
            true
        } else {
            false
        }
    }
}

} // verus!
