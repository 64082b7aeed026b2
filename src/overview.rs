//! The memory overview for debugging displays: what each 32-byte block of
//! memory holds of the program counter, the index register and the stack.
use vstd::prelude::*;

verus! {

/// Bytes per block of the overview.
pub const BLOCK_SIZE: u16 = 32;

/// What a memory block shows in the overview.
#[derive(Clone, Copy, Debug, PartialEq, Eq, Structural)]
pub enum BlockMark {
    /// A return address on the stack lies in the block; `depth` counts from
    /// the top of the stack (0 is the most recent call).
    Stack { depth: usize },
    /// The program counter lies in the block.
    ProgramCounter,
    /// The index register lies in the block.
    Index,
    /// None of them.
    Plain,
}

/// Whether address `a` lies in the block that starts at `start`.
pub open spec fn in_block(a: u16, start: u16) -> bool {
    start <= a < start + BLOCK_SIZE
}

/// The lowest stack position from `k` on whose address lies in the block.
pub open spec fn lowest_in_block(stack: Seq<u16>, start: u16, k: int) -> Option<int>
    decreases stack.len() - k,
{
    if !(0 <= k < stack.len()) {
        None
    } else if in_block(stack[k], start) {
        Some(k)
    } else {
        lowest_in_block(stack, start, k + 1)
    }
}

/// The mark of the block that starts at `start`: a stack entry wins, the
/// deepest one (the oldest call) when several lie there; then the program
/// counter; then the index register.
pub open spec fn block_mark_spec(pc: u16, i: u16, stack: Seq<u16>, start: u16) -> BlockMark {
    match lowest_in_block(stack, start, 0) {
        Some(k) => BlockMark::Stack { depth: (stack.len() - 1 - k) as usize },
        None => if in_block(pc, start) {
            BlockMark::ProgramCounter
        } else if in_block(i, start) {
            BlockMark::Index
        } else {
            BlockMark::Plain
        },
    }
}

/// Marks the block of memory that starts at `start`.
pub fn block_mark(pc: u16, i: u16, stack: &[u16], start: u16) -> (r: BlockMark)
    ensures
        r == block_mark_spec(pc, i, stack@, start),
{
    let end: u32 = start as u32 + BLOCK_SIZE as u32;
    let mut k: usize = 0;
    while k < stack.len()
        invariant
            k <= stack@.len(),
            end == start + BLOCK_SIZE,
            lowest_in_block(stack@, start, 0) == lowest_in_block(stack@, start, k as int),
        decreases stack@.len() - k,
    {
        if start <= stack[k] && (stack[k] as u32) < end {
            return BlockMark::Stack { depth: stack.len() - 1 - k };
        }
        k += 1;
    }
    if start <= pc && (pc as u32) < end {
        BlockMark::ProgramCounter
    } else if start <= i && (i as u32) < end {
        BlockMark::Index
    } else {
        BlockMark::Plain
    }
}

/// The 256-colour palette entry for a stack entry at `depth`: 21 for the
/// top, one darker per level, 17 from depth 4 on.
pub fn stack_shade(depth: usize) -> (r: u8)
    ensures
        r == (if depth < 4 { 21 - depth } else { 17 }),
{
    if depth < 4 {
        21 - depth as u8
    } else {
        17
    }
}

} // verus!
