//! The stepper: compatibility profiles, the keypad memory between ticks,
//! and the per-frame entry point that runs the timers once and then a fixed
//! number of instructions.
use crate::chip8::Chip8;
use crate::machine::{load_spec, step_spec, timers_ticked, Chip8Error, MachineView, MEMORY_SIZE, PROGRAM_START};
use vstd::prelude::*;

verus! {

/// The behaviours in which historical interpreters differ.
#[derive(Clone, Copy, Debug, PartialEq, Eq, Structural)]
pub struct Config {
    /// Whether `8xy1`, `8xy2` and `8xy3` clear register 0xF.
    pub logic_resets_vf: bool,
    /// Instructions executed per tick.
    pub instructions_per_tick: u32,
    /// Bytes at the top of memory kept out of the program region.
    pub reserved_tail: u16,
    /// Whether an over-long program image is cut to fit rather than refused.
    pub truncate_long_rom: bool,
}

impl Config {
    /// The reserved region fits in memory above `PROGRAM_START`.
    pub open spec fn wf(self) -> bool {
        self.reserved_tail as int <= MEMORY_SIZE - PROGRAM_START
    }

    /// The early interpreters' behaviour: bitwise operations clear 0xF,
    /// twelve instructions per tick, 352 bytes reserved for variables and
    /// display bookkeeping, over-long images cut to fit.
    pub fn legacy() -> (r: Config)
        ensures
            r == (Config {
                logic_resets_vf: true,
                instructions_per_tick: 12,
                reserved_tail: 352,
                truncate_long_rom: true,
            }),
            r.wf(),
    {
        Config {
            logic_resets_vf: true,
            instructions_per_tick: 12,
            reserved_tail: 352,
            truncate_long_rom: true,
        }
    }

    /// The later behaviour: bitwise operations leave 0xF alone, one
    /// instruction per tick, all memory above `PROGRAM_START` is program
    /// space, over-long images refused.
    pub fn modern() -> (r: Config)
        ensures
            r == (Config {
                logic_resets_vf: false,
                instructions_per_tick: 1,
                reserved_tail: 0,
                truncate_long_rom: false,
            }),
            r.wf(),
    {
        Config {
            logic_resets_vf: false,
            instructions_per_tick: 1,
            reserved_tail: 0,
            truncate_long_rom: false,
        }
    }

    /// Bytes available for a program image.
    pub fn program_capacity(&self) -> (r: usize)
        requires
            self.wf(),
        ensures
            r == crate::machine::program_capacity(self.reserved_tail),
    {
        MEMORY_SIZE - PROGRAM_START as usize - self.reserved_tail as usize
    }
}

/// What a tick reports to the host besides the machine itself.
#[derive(Clone, Copy, Debug, PartialEq, Eq, Structural)]
pub struct TickReport {
    /// Whether the tone should sound during this frame.
    pub audible: bool,
}

/// Runs one instruction per byte of `rnds`, each masking `Cxkk` with its
/// byte, until the bytes run out or a step fails. Gives the machine after
/// the last successful step, and the error if one came.
pub open spec fn run_steps(
    m: MachineView,
    resets_vf: bool,
    now: Seq<bool>,
    prev: Seq<bool>,
    rnds: Seq<u8>,
) -> (MachineView, Result<(), Chip8Error>)
    decreases rnds.len(),
{
    if rnds.len() == 0 {
        (m, Ok(()))
    } else {
        match step_spec(m, resets_vf, now, prev, rnds[0]) {
            Ok(m2) => run_steps(m2, resets_vf, now, prev, rnds.drop_first()),
            Err(e) => (m, Err(e)),
        }
    }
}

/// One tick: the timers count down once, then one instruction runs per
/// byte of `rnds`.
pub open spec fn tick_spec(
    m: MachineView,
    cfg: Config,
    now: Seq<bool>,
    prev: Seq<bool>,
    rnds: Seq<u8>,
) -> (MachineView, Result<TickReport, Chip8Error>) {
    let (m2, r) = run_steps(timers_ticked(m), cfg.logic_resets_vf, now, prev, rnds);
    (
        m2,
        match r {
            Ok(_) => Ok(TickReport { audible: m.sound > 0 }),
            Err(e) => Err(e),
        },
    )
}

/// Relies on rand::random::<u8>: one byte drawn from the thread-local
/// generator; nothing is known of its value.
#[verifier::external_body]
fn random_byte() -> (r: u8) {
    rand::random::<u8>()
}

/// A machine together with its profile and the keypad of the previous tick.
pub struct Emulator {
    pub machine: Chip8,
    pub config: Config,
    pub keys_prev: [bool; 16],
}

impl Emulator {
    /// The machine has its fixed sizes and the profile is valid.
    pub open spec fn wf(&self) -> bool {
        self.machine.wf() && self.config.wf()
    }

    /// A machine at power-on running `rom` under `config`, with no key held
    /// on the (virtual) previous tick.
    pub fn new(rom: &[u8], config: Config) -> (r: Result<Emulator, Chip8Error>)
        requires
            config.wf(),
        ensures
            match load_spec(rom@, config.reserved_tail, config.truncate_long_rom) {
                Ok(m) => r matches Ok(e) && e.machine@ == m && e.config == config && e.keys_prev@
                    == seq![false; 16] && e.wf(),
                Err(err) => r matches Err(e2) && e2 == err,
            },
    {
        match Chip8::new(rom, config.reserved_tail, config.truncate_long_rom) {
            Ok(machine) => {
                let e = Emulator { machine, config, keys_prev: [false; 16] };
                assert(e.keys_prev@ =~= seq![false; 16]);
                Ok(e)
            },
            Err(err) => Err(err),
        }
    }

    /// One tick with the given random bytes, one per instruction: the
    /// timers count down once, then the configured number of instructions
    /// run, each seeing this tick's keypad `now` and the previous one. The
    /// keypad `now` is remembered for the next tick, also after an error.
    pub fn tick_with(&mut self, now: [bool; 16], rnds: &[u8]) -> (r: Result<TickReport, Chip8Error>)
        requires
            old(self).wf(),
            rnds@.len() == old(self).config.instructions_per_tick,
        ensures
            final(self).wf(),
            final(self).config == old(self).config,
            final(self).keys_prev == now,
            (final(self).machine@, r) == tick_spec(
                old(self).machine@,
                old(self).config,
                now@,
                old(self).keys_prev@,
                rnds@,
            ),
    {
        let prev = self.keys_prev;
        self.keys_prev = now;
        let audible = self.machine.tick_timers();
        let ghost m1 = self.machine@;
        let n = rnds.len();
        assert(rnds@.subrange(0, n as int) =~= rnds@);
        let mut k: usize = 0;
        while k < n
            invariant
                self.machine.wf(),
                self.config == old(self).config,
                self.config.wf(),
                self.keys_prev == now,
                m1 == timers_ticked(old(self).machine@),
                prev == old(self).keys_prev,
                audible == (old(self).machine.sound > 0),
                n == rnds@.len(),
                k <= n,
                run_steps(m1, self.config.logic_resets_vf, now@, prev@, rnds@) == run_steps(
                    self.machine@,
                    self.config.logic_resets_vf,
                    now@,
                    prev@,
                    rnds@.subrange(k as int, n as int),
                ),
            decreases n - k,
        {
            let ghost rest = rnds@.subrange(k as int, n as int);
            assert(rest.drop_first() =~= rnds@.subrange(k + 1, n as int));
            assert(rest[0] == rnds@[k as int]);
            let ghost before = self.machine@;
            match self.machine.step(self.config.logic_resets_vf, &now, &prev, rnds[k]) {
                Ok(()) => {},
                Err(e) => {
                    assert(self.machine@ == before);
                    assert(run_steps(before, self.config.logic_resets_vf, now@, prev@, rest) == (
                        before,
                        Err::<(), Chip8Error>(e),
                    ));
                    return Err(e);
                },
            }
            k += 1;
        }
        assert(rnds@.subrange(n as int, n as int).len() == 0);
        Ok(TickReport { audible })
    }

    /// One tick with fresh random bytes: as `tick_with`, for some sequence
    /// of random bytes, one per instruction.
    pub fn tick(&mut self, now: [bool; 16]) -> (r: Result<TickReport, Chip8Error>)
        requires
            old(self).wf(),
        ensures
            final(self).wf(),
            final(self).config == old(self).config,
            final(self).keys_prev == now,
            exists|rnds: Seq<u8>|
                rnds.len() == old(self).config.instructions_per_tick && (final(self).machine@, r)
                    == tick_spec(
                    old(self).machine@,
                    old(self).config,
                    now@,
                    old(self).keys_prev@,
                    rnds,
                ),
    {
        let n = self.config.instructions_per_tick;
        let mut rnds: Vec<u8> = Vec::new();
        let mut k: u32 = 0;
        while k < n
            invariant
                k <= n,
                rnds@.len() == k,
            decreases n - k,
        {
            rnds.push(random_byte());
            k += 1;
        }
        self.tick_with(now, rnds.as_slice())
    }
}

} // verus!
