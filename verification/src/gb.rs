use vstd::prelude::*;

use crate::cartridge::{Cartridge, CartridgeError};
use crate::cpu::{lemma_step_cycles, step_spec, Cpu, Registers};
use crate::memory::{loaded_mem, mem_wf, MemView, Memory};

verus! {

/// The machine state after at most `n` steps from the given state: the
/// registers and bus reached, and the total cycle cost of the steps taken,
/// or the fault that stopped the machine early with the state as it stood at
/// the fault.
pub open spec fn run_spec(regs: Registers, mem: MemView, n: nat) -> (Registers, MemView, Result<
    int,
    CartridgeError,
>)
    decreases n,
{
    if n == 0 {
        (regs, mem, Ok(0))
    } else {
        let stepped = step_spec(regs, mem);
        match stepped.2 {
            Err(e) => (stepped.0, stepped.1, Err(e)),
            Ok(c) => {
                let rest = run_spec(stepped.0, stepped.1, (n - 1) as nat);
                match rest.2 {
                    Err(e) => (rest.0, rest.1, Err(e)),
                    Ok(t) => (rest.0, rest.1, Ok(c + t)),
                }
            },
        }
    }
}

/// The machine: it owns the bus and the execution engine (with its register
/// file) for their whole lifetime; the engine borrows the bus only for the
/// duration of one step.
#[derive(Debug)]
pub struct Gb {
    pub cpu: Cpu,
    pub memory: Memory,
}

impl Gb {
    /// A machine with boot registers and an empty bus.
    pub fn new() -> (g: Gb)
        ensures
            g.cpu.registers == (Registers {
                af: 0x01B0u16,
                bc: 0x0013u16,
                de: 0x00D8u16,
                hl: 0x014Du16,
                sp: 0xFFFEu16,
                pc: 0x0100u16,
            }),
            g.memory@ == crate::memory::initial_mem(),
            mem_wf(g.memory@),
    {
        Gb { cpu: Cpu::new(), memory: Memory::new() }
    }

    /// Loads a cartridge into the bus: its bytes become the ROM region and
    /// its header selects and parameterizes the controller. Registers are
    /// untouched.
    pub fn load(&mut self, cartridge: Cartridge)
        requires
            mem_wf(old(self).memory@),
        ensures
            final(self).memory@ == loaded_mem(
                old(self).memory@,
                cartridge@,
                cartridge.spec_header(),
            ),
            mem_wf(final(self).memory@),
            final(self).cpu == old(self).cpu,
    {
        let (rom, header) = cartridge.into_parts();
        self.memory.load(rom, &header);
    }

    /// Runs one instruction to completion, reporting its cycle cost; the
    /// outcome is pinned by `step_spec`.
    pub fn step(&mut self) -> (r: Result<u32, CartridgeError>)
        requires
            mem_wf(old(self).memory@),
        ensures
            mem_wf(final(self).memory@),
            final(self).cpu.registers == step_spec(
                old(self).cpu.registers,
                old(self).memory@,
            ).0,
            final(self).memory@ == step_spec(old(self).cpu.registers, old(self).memory@).1,
            r == step_spec(old(self).cpu.registers, old(self).memory@).2,
    {
        self.cpu.step(&mut self.memory)
    }

    /// Loads the cartridge and steps the machine at most `max_steps` times,
    /// returning the total cycle cost, or the first fault with the machine
    /// left as it stood at the fault; the outcome is pinned by `run_spec`
    /// over the freshly loaded bus.
    #[verifier::rlimit(100)]
    #[verifier::loop_isolation(false)]
    pub fn run(&mut self, cartridge: Cartridge, max_steps: u32) -> (r: Result<u64, CartridgeError>)
        requires
            mem_wf(old(self).memory@),
        ensures
            mem_wf(final(self).memory@),
            ({
                let trace = run_spec(
                    old(self).cpu.registers,
                    loaded_mem(old(self).memory@, cartridge@, cartridge.spec_header()),
                    max_steps as nat,
                );
                final(self).cpu.registers == trace.0 && final(self).memory@ == trace.1 && (
                match trace.2 {
                    Ok(t) => r == Ok::<u64, CartridgeError>(t as u64),
                    Err(e) => r == Err::<u64, CartridgeError>(e),
                })
            }),
    {
        self.load(cartridge);
        let ghost regs0 = self.cpu.registers;
        let ghost m0 = self.memory@;
        let mut total: u64 = 0;
        let mut i: u32 = 0;
        while i < max_steps
            invariant
                mem_wf(self.memory@),
                i <= max_steps,
                total <= 20 * (i as int),
                ({
                    let full = run_spec(regs0, m0, max_steps as nat);
                    let rest = run_spec(
                        self.cpu.registers,
                        self.memory@,
                        (max_steps - i) as nat,
                    );
                    full.0 == rest.0 && full.1 == rest.1 && (match rest.2 {
                        Ok(t) => full.2 == Ok::<int, CartridgeError>(total + t),
                        Err(e) => full.2 == Err::<int, CartridgeError>(e),
                    })
                }),
            decreases max_steps - i,
        {
            proof {
                lemma_step_cycles(self.cpu.registers, self.memory@);
            }
            match self.cpu.step(&mut self.memory) {
                Ok(c) => {
                    total = total + (c as u64);
                    i = i + 1;
                },
                Err(e) => {
                    return Err(e);
                },
            }
        }
        Ok(total)
    }
}

} // verus!
