//! Laws that relate the instruction semantics across inputs and calls,
//! stated over the model and proved.
use crate::emulator::{run_steps, tick_spec, Config};
use crate::instruction::{instruction_of, Instruction};
use crate::machine::{
    exec_spec, fetch_spec, set_reg, sprite_mask, step_spec, timers_ticked, Chip8Error, MachineView,
    MEMORY_SIZE,
};
use vstd::prelude::*;

verus! {

/// `8xy4` sets 0xF to 1 exactly when `Vx + Vy` exceeds 255, and leaves the
/// sum modulo 256 in `Vx` (unless `Vx` is 0xF itself, which the flag
/// overwrites).
pub proof fn lemma_add_carry(
    m: MachineView,
    x: u8,
    y: u8,
    resets_vf: bool,
    now: Seq<bool>,
    prev: Seq<bool>,
    rnd: u8,
)
    requires
        m.wf(),
        x < 16,
        y < 16,
    ensures
        exec_spec(m, Instruction::AddReg { x, y }, resets_vf, now, prev, rnd) matches Ok(m2) && (m2.v[15]
            == 1 <==> m.v[x as int] + m.v[y as int] > 255) && (m2.v[15] == 0 || m2.v[15] == 1) && (x
            != 15 ==> m2.v[x as int] == (m.v[x as int] + m.v[y as int]) % 256),
{
}

/// `8xy5` sets 0xF to 1 exactly when `Vx >= Vy` before the subtraction
/// (no borrow), and to 0 otherwise.
pub proof fn lemma_sub_no_borrow(
    m: MachineView,
    x: u8,
    y: u8,
    resets_vf: bool,
    now: Seq<bool>,
    prev: Seq<bool>,
    rnd: u8,
)
    requires
        m.wf(),
        x < 16,
        y < 16,
    ensures
        exec_spec(m, Instruction::Sub { x, y }, resets_vf, now, prev, rnd) matches Ok(m2) && (m2.v[15]
            == 1 <==> m.v[x as int] >= m.v[y as int]) && (m2.v[15] == 0 || m2.v[15] == 1),
{
}

/// The shifts `8xy6` and `8xyE` take their operand from `Vy`: the result
/// (when `x` is not 0xF) and the flag are functions of `Vy`, and where `x`
/// and `y` differ, what `Vx` held before makes no difference to the outcome.
pub proof fn lemma_shifts_read_vy(
    m: MachineView,
    x: u8,
    y: u8,
    b: u8,
    resets_vf: bool,
    now: Seq<bool>,
    prev: Seq<bool>,
    rnd: u8,
)
    requires
        m.wf(),
        x < 16,
        y < 16,
    ensures
        exec_spec(m, Instruction::Shr { x, y }, resets_vf, now, prev, rnd) matches Ok(m2) && m2.v[15]
            == m.v[y as int] % 2 && (x != 15 ==> m2.v[x as int] == m.v[y as int] / 2),
        exec_spec(m, Instruction::Shl { x, y }, resets_vf, now, prev, rnd) matches Ok(m2) && m2.v[15]
            == m.v[y as int] / 128 && (x != 15 ==> m2.v[x as int] == (m.v[y as int] * 2) % 256),
        x != y ==> exec_spec(set_reg(m, x, b), Instruction::Shr { x, y }, resets_vf, now, prev, rnd)
            == exec_spec(
            m,
            Instruction::Shr { x, y },
            resets_vf,
            now,
            prev,
            rnd,
        ),
        x != y ==> exec_spec(set_reg(m, x, b), Instruction::Shl { x, y }, resets_vf, now, prev, rnd)
            == exec_spec(
            m,
            Instruction::Shl { x, y },
            resets_vf,
            now,
            prev,
            rnd,
        ),
{
    assert(set_reg(m, x, b).v.update(x as int, m.v[y as int] / 2) =~= m.v.update(x as int, m.v[y as int] / 2));
    assert(set_reg(m, x, b).v.update(x as int, ((m.v[y as int] * 2) % 256) as u8) =~= m.v.update(
        x as int,
        ((m.v[y as int] * 2) % 256) as u8,
    ));
}

/// Return with an empty call stack is the error `StackUnderflow`.
pub proof fn lemma_ret_empty_underflows(
    m: MachineView,
    resets_vf: bool,
    now: Seq<bool>,
    prev: Seq<bool>,
    rnd: u8,
)
    requires
        m.stack.len() == 0,
    ensures
        exec_spec(m, Instruction::Ret, resets_vf, now, prev, rnd) == Err::<MachineView, Chip8Error>(
            Chip8Error::StackUnderflow,
        ),
{
}

/// Drawing a one-row sprite of byte 0xFF twice at the same place over
/// blank pixels sets those eight pixels and reports no collision the first
/// time, then clears them again, restoring the display, and reports a
/// collision the second time.
pub proof fn lemma_draw_twice_clears(
    m: MachineView,
    x: u8,
    y: u8,
    resets_vf: bool,
    now: Seq<bool>,
    prev: Seq<bool>,
    rnd: u8,
)
    requires
        m.wf(),
        x < 15,
        y < 15,
        m.i < MEMORY_SIZE,
        m.memory[m.i as int] == 0xFF,
        m.display[(m.v[y as int] % 32) as int] & sprite_mask(0xFF, (m.v[x as int] % 64) as u8) == 0,
    ensures
        exec_spec(m, Instruction::Draw { x, y, n: 1 }, resets_vf, now, prev, rnd) is Ok,
        ({
            let row = (m.v[y as int] % 32) as int;
            let mask = sprite_mask(0xFF, (m.v[x as int] % 64) as u8);
            let ins = Instruction::Draw { x, y, n: 1 };
            let m1 = exec_spec(m, ins, resets_vf, now, prev, rnd)->Ok_0;
            let r2 = exec_spec(m1, ins, resets_vf, now, prev, rnd);
            &&& m1.v[15] == 0
            &&& m1.display[row] == m.display[row] | mask
            &&& r2 is Ok
            &&& r2->Ok_0.display == m.display
            &&& r2->Ok_0.v[15] == 1
        }),
{
    let row = (m.v[y as int] % 32) as int;
    let col = (m.v[x as int] % 64) as u8;
    let mask = sprite_mask(0xFF, col);
    let d = m.display[row];
    assert(mask != 0) by (bit_vector)
        requires
            col < 64,
            mask == ((0xFFu8 as u64) << 56u64) >> (col as u64),
    ;
    assert((d ^ mask) ^ mask == d) by (bit_vector);
    assert(d & mask == 0 ==> (d ^ mask) & mask == mask) by (bit_vector);
    assert(d & mask == 0 ==> d ^ mask == d | mask) by (bit_vector);
    let ins = Instruction::Draw { x, y, n: 1 };
    let m1 = exec_spec(m, ins, resets_vf, now, prev, rnd)->Ok_0;
    assert(m1.display[row] == d ^ mask);
    assert forall|r: int|
        row <= r < row + 1 implies #[trigger] m.display[r] & sprite_mask(m.memory[m.i + r - row], col)
        == 0 by {
        assert(r == row);
    }
    assert(m1.v[x as int] == m.v[x as int] && m1.v[y as int] == m.v[y as int]);
    let m2 = exec_spec(m1, ins, resets_vf, now, prev, rnd)->Ok_0;
    assert(m1.display[row] & sprite_mask(m1.memory[m1.i + row - row], col) != 0);
    assert(m2.display =~= m.display);
}

/// A sprite that starts on the last row is clipped at the bottom edge:
/// only that row of the display changes.
pub proof fn lemma_draw_clips_bottom(
    m: MachineView,
    x: u8,
    y: u8,
    resets_vf: bool,
    now: Seq<bool>,
    prev: Seq<bool>,
    rnd: u8,
)
    requires
        m.wf(),
        x < 16,
        y < 16,
        m.v[y as int] % 32 == 31,
        m.i < MEMORY_SIZE,
    ensures
        exec_spec(m, Instruction::Draw { x, y, n: 4 }, resets_vf, now, prev, rnd) matches Ok(m2) && (
        forall|r: int| 0 <= r < 31 ==> #[trigger] m2.display[r] == m.display[r]),
{
}

/// Whether none of the instructions that a run of `run_steps` executes
/// writes a timer (`Fx15`, `Fx18`).
pub open spec fn run_writes_no_timer(
    m: MachineView,
    resets_vf: bool,
    now: Seq<bool>,
    prev: Seq<bool>,
    rnds: Seq<u8>,
) -> bool
    decreases rnds.len(),
{
    if rnds.len() == 0 {
        true
    } else {
        match fetch_spec(m) {
            Err(_) => true,
            Ok(op) => match instruction_of(op) {
                Some(Instruction::SetDelay { .. }) => false,
                Some(Instruction::SetSound { .. }) => false,
                _ => match step_spec(m, resets_vf, now, prev, rnds[0]) {
                    Ok(m2) => run_writes_no_timer(m2, resets_vf, now, prev, rnds.drop_first()),
                    Err(_) => true,
                },
            },
        }
    }
}

/// A run whose instructions write no timer leaves both timers as they were.
pub proof fn lemma_run_keeps_timers(
    m: MachineView,
    resets_vf: bool,
    now: Seq<bool>,
    prev: Seq<bool>,
    rnds: Seq<u8>,
)
    requires
        run_writes_no_timer(m, resets_vf, now, prev, rnds),
    ensures
        run_steps(m, resets_vf, now, prev, rnds).0.delay == m.delay,
        run_steps(m, resets_vf, now, prev, rnds).0.sound == m.sound,
    decreases rnds.len(),
{
    if rnds.len() > 0 {
        if let Ok(m2) = step_spec(m, resets_vf, now, prev, rnds[0]) {
            lemma_run_keeps_timers(m2, resets_vf, now, prev, rnds.drop_first());
        }
    }
}

/// Timers count down once per tick, however many instructions a tick runs:
/// where the tick's instructions do not write the timers themselves, each
/// nonzero timer ends exactly one lower and a zero timer stays zero.
pub proof fn lemma_timer_cadence(
    m: MachineView,
    cfg: Config,
    now: Seq<bool>,
    prev: Seq<bool>,
    rnds: Seq<u8>,
)
    requires
        rnds.len() == cfg.instructions_per_tick,
        run_writes_no_timer(timers_ticked(m), cfg.logic_resets_vf, now, prev, rnds),
    ensures
        tick_spec(m, cfg, now, prev, rnds).0.delay == (if m.delay > 0 {
            m.delay - 1
        } else {
            0
        }),
        tick_spec(m, cfg, now, prev, rnds).0.sound == (if m.sound > 0 {
            m.sound - 1
        } else {
            0
        }),
{
    lemma_run_keeps_timers(timers_ticked(m), cfg.logic_resets_vf, now, prev, rnds);
}

} // verus!
