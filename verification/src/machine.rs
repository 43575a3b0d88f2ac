use crate::cpu::Cpu;
use crate::fault::Fault;
use crate::memory::{blank_screen, load_image, Memory, MEMORY_SIZE};
use crate::registers::{RegistersView, REGISTER_COUNT};
use crate::semantics::{carried_out, state, State};
use vstd::prelude::*;

verus! {

/// The CHIP-8 ran at roughly ~500Hz and clocks tick at 60Hhz, so we should tick the clocks
/// roughly once per 8 steps
pub const CLOCKS_PER_DELAY: usize = 8;

/// Where a program is loaded
pub const PROGRAM_START: usize = 0x200;

/// The whole machine: processor, memory, and the pacing of the timers
pub struct Machine {
    pub cpu: Cpu,
    pub memory: Memory,
    /// Steps counted since the timers last ticked
    pub clocks_since_delay: usize,
}

/// A machine as its steps see it: registers, memory, and the steps counted
/// since the timers last ticked
#[verifier::ext_equal]
pub struct MachineView {
    pub state: State,
    pub clocks: int,
}

impl MachineView {
    /// The machine after a step was attempted: the step is counted, and with the
    /// last of `CLOCKS_PER_DELAY` steps the timers tick and the count starts again
    pub open spec fn pace(self) -> MachineView {
        if self.clocks + 1 >= CLOCKS_PER_DELAY {
            MachineView { state: self.state.with_regs(self.state.regs.tick_timers()), clocks: 0 }
        } else {
            MachineView { clocks: self.clocks + 1, ..self }
        }
    }

    /// Whether this step executes the instruction that draws a random byte
    pub open spec fn draws_random(self) -> bool {
        self.state.regs.wait_for_key is None && self.state.draws_random()
    }

    /// One step of the machine: an instruction is executed unless a register waits
    /// for a key, and then the step is counted. A fault leaves the step uncounted
    pub open spec fn step(self, random: u8) -> Result<MachineView, Fault> {
        match self.state.regs.wait_for_key {
            None => match self.state.step(random) {
                Ok(next) => Ok(MachineView { state: next, ..self }.pace()),
                Err(fault) => Err(fault),
            },
            Some(_) => Ok(self.pace()),
        }
    }
}

impl View for Machine {
    type V = MachineView;

    open spec fn view(&self) -> MachineView {
        MachineView {
            state: state(self.cpu.registers@, self.memory@),
            clocks: self.clocks_since_delay as int,
        }
    }
}

impl Machine {
    /// The processor is well formed and the count of steps is below `CLOCKS_PER_DELAY`
    pub open spec fn wf(&self) -> bool {
        self.cpu.wf() && self.clocks_since_delay < CLOCKS_PER_DELAY
    }

    /// Whether the machine is well formed: for a caller that has written to the
    /// fields itself
    pub fn is_wf(&self) -> (yes: bool)
        ensures
            yes == self.wf(),
    {
        self.cpu.is_wf() && self.clocks_since_delay < CLOCKS_PER_DELAY
    }

    /// Create a new machine with the specific data loaded at the start address (0x200)
    pub fn of_bytes(data: Vec<u8>) -> (machine: Self)
        ensures
            machine.wf(),
            machine.cpu.op_tables.described(),
            machine@.state.regs == RegistersView::initial(),
            machine@.state.mem.data == load_image(data@, PROGRAM_START as int),
            machine@.state.mem.frame_buffer == blank_screen(),
            machine@.clocks == 0,
    {
        Self {
            cpu: Cpu::new(),
            memory: Memory::of_bytes(data.as_slice(), PROGRAM_START),
            clocks_since_delay: 0,
        }
    }

    /// Create a new machine with empty memory
    pub fn new() -> (machine: Self)
        ensures
            machine.wf(),
            machine.cpu.op_tables.described(),
            machine@.state.regs == RegistersView::initial(),
            machine@.state.mem.data == Seq::new(MEMORY_SIZE as nat, |a: int| 0u8),
            machine@.state.mem.frame_buffer == blank_screen(),
            machine@.clocks == 0,
    {
        Self { cpu: Cpu::new(), memory: Memory::new(), clocks_since_delay: 0 }
    }

    /// Set the machine key to the given state and clear the wait_for_key register if necessary
    pub fn set_key(&mut self, key: u8, state: bool)
        requires
            old(self).wf(),
            key < REGISTER_COUNT,
        ensures
            final(self)@ == (MachineView {
                state: old(self)@.state.with_regs(old(self)@.state.regs.set_key(key, state)),
                ..old(self)@
            }),
            final(self).wf(),
            final(self).cpu.op_tables == old(self).cpu.op_tables,
    {
        let current = self.cpu.registers.keys[key as usize];

        if state && !current {
            if let Some(register) = self.cpu.registers.wait_for_key {
                self.cpu.registers.v[register] = key;
                self.cpu.registers.wait_for_key = None;
            }
        }
        self.cpu.registers.keys[key as usize] = state;
    }

    /// Return true if the device should currently be playing sound
    pub fn sound(&self) -> (playing: bool)
        ensures
            playing == (self@.state.regs.sound > 0),
    {
        self.cpu.registers.sound > 0
    }

    /// Count a step, and let the timers tick with every `CLOCKS_PER_DELAY`th
    fn pace(&mut self)
        requires
            old(self).wf(),
        ensures
            final(self)@ == old(self)@.pace(),
            final(self).wf(),
            final(self).cpu.op_tables == old(self).cpu.op_tables,
    {
        // Increment the timers at roughly 1 clock per 8 steps
        self.clocks_since_delay += 1;

        if self.clocks_since_delay >= CLOCKS_PER_DELAY {
            if self.cpu.registers.sound > 0 {
                self.cpu.registers.sound -= 1;
            }
            if self.cpu.registers.delay > 0 {
                self.cpu.registers.delay -= 1;
            }
            self.clocks_since_delay = 0;
        }
    }

    /// Step the machine, this steps the CPU and decrements the delay and sound timers when
    /// appropriate. On a fault nothing has changed
    pub fn step(&mut self) -> (result: Result<(), Fault>)
        requires
            old(self).wf(),
        ensures
            exists|random: u8|
                carried_out(#[trigger] old(self)@.step(random), old(self)@, final(self)@, result),
            !old(self)@.draws_random() ==> carried_out(
                old(self)@.step(0),
                old(self)@,
                final(self)@,
                result,
            ),
            final(self).wf(),
            final(self).cpu.op_tables == old(self).cpu.op_tables,
    {
        // Only step the CPU if we are not waiting for a key press
        let ghost before = self@;
        let mut stepped: Result<(), Fault> = Ok(());
        if let None = self.cpu.registers.wait_for_key {
            stepped = self.cpu.step(&mut self.memory);
        }
        let ghost executed = self@;
        match stepped {
            Ok(()) => {
                self.pace();
                proof {
                    let random = if before.state.regs.wait_for_key is None {
                        choose|random: u8|
                            carried_out(
                                #[trigger] before.state.step(random),
                                before.state,
                                executed.state,
                                stepped,
                            )
                    } else {
                        0u8
                    };
                    assert(carried_out(before.step(random), before, self@, stepped));
                    if !before.draws_random() {
                        assert(carried_out(before.step(0), before, self@, stepped));
                    }
                }
                Ok(())
            },
            Err(fault) => {
                proof {
                    let random = choose|random: u8|
                        carried_out(
                            #[trigger] before.state.step(random),
                            before.state,
                            executed.state,
                            stepped,
                        );
                    assert(executed =~= before);
                    assert(carried_out(before.step(random), before, self@, stepped));
                    if !before.draws_random() {
                        assert(carried_out(before.step(0), before, self@, stepped));
                    }
                }
                Err(fault)
            },
        }
    }

    /// Step the machine, taking `random` as the byte that the masked random
    /// operation draws. On a fault nothing has changed
    pub fn step_with(&mut self, random: u8) -> (result: Result<(), Fault>)
        requires
            old(self).wf(),
        ensures
            carried_out(old(self)@.step(random), old(self)@, final(self)@, result),
            final(self).wf(),
            final(self).cpu.op_tables == old(self).cpu.op_tables,
    {
        let ghost before = self@;
        let mut stepped: Result<(), Fault> = Ok(());
        if let None = self.cpu.registers.wait_for_key {
            stepped = self.cpu.step_with(&mut self.memory, random);
        }
        match stepped {
            Ok(()) => {
                self.pace();
                Ok(())
            },
            Err(fault) => {
                assert(self@ =~= before);
                Err(fault)
            },
        }
    }
}

} // verus!
