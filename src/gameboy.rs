//! The whole console: each tick advances the CPU, then the PPU, each against
//! its own cycle budget.
use vstd::prelude::*;
use crate::bus::{Bus, BOOT_ROM_LEN};
use crate::cartridge::{load_cartridge, load_error_of, LoadError};
use crate::cpu::{tick_spec, Cpu};
use crate::ppu::{ppu_tick_spec, Ppu};

verus! {

pub struct Gameboy {
    pub bus: Bus,
    pub cpu: Cpu,
    pub ppu: Ppu,
    /// The CPU's budget in machine cycles; at most 0 between ticks.
    pub clock_cpu: i32,
    /// The PPU's budget in machine cycles.
    pub clock_ppu: i32,
}

impl Gameboy {
    pub open spec fn wf(&self) -> bool {
        &&& self.bus.wf()
        &&& self.ppu.wf()
        &&& -64 <= self.clock_cpu <= 0
        &&& 0 <= self.clock_ppu <= 456
    }

    /// A console running `rom` from 0x0100 with the registers the boot
    /// overlay leaves behind; fails as loading the cartridge fails.
    pub fn new(rom: Vec<u8>) -> (r: Result<Gameboy, LoadError>)
        ensures
            r is Err <==> load_error_of(rom@) is Some,
            r matches Err(e) ==> load_error_of(rom@) == Some(e),
            r matches Ok(g) ==> g.wf() && g.cpu == Cpu::post_boot_spec() && !g.bus@.io.boot
                && g.clock_cpu == 0 && g.clock_ppu == 0,
    {
        match load_cartridge(rom) {
            Ok(cart) => Ok(
                Gameboy {
                    bus: Bus::without_boot_rom(cart),
                    cpu: Cpu::post_boot(),
                    ppu: Ppu::new(),
                    clock_cpu: 0,
                    clock_ppu: 0,
                },
            ),
            Err(e) => Err(e),
        }
    }

    /// A console that starts at 0x0000 in the boot overlay `bios`.
    pub fn with_boot_rom(rom: Vec<u8>, bios: Vec<u8>) -> (r: Result<Gameboy, LoadError>)
        requires
            bios@.len() == BOOT_ROM_LEN,
        ensures
            r is Err <==> load_error_of(rom@) is Some,
            r matches Err(e) ==> load_error_of(rom@) == Some(e),
            r matches Ok(g) ==> g.wf() && g.cpu == Cpu::new_spec() && g.bus@.io.boot && g.bus@.bios
                == bios@ && g.clock_cpu == 0 && g.clock_ppu == 0,
    {
        match load_cartridge(rom) {
            Ok(cart) => Ok(
                Gameboy {
                    bus: Bus::with_boot_rom(cart, bios),
                    cpu: Cpu::new(),
                    ppu: Ppu::new(),
                    clock_cpu: 0,
                    clock_ppu: 0,
                },
            ),
            Err(e) => Err(e),
        }
    }

    /// Grows both budgets by one and runs a CPU tick, then a PPU tick.
    pub fn tick(&mut self)
        requires
            old(self).wf(),
        ensures
            final(self).wf(),
            ({
                let (c1, m1, l1) = tick_spec(
                    old(self).cpu,
                    old(self).bus@,
                    (old(self).clock_cpu + 1) as i32,
                );
                let (p2, m2, l2) = ppu_tick_spec(
                    old(self).ppu@,
                    m1,
                    (old(self).clock_ppu + 1) as i32,
                );
                &&& final(self).cpu == c1
                &&& final(self).bus@ == m2
                &&& final(self).ppu@ == p2
                &&& final(self).clock_cpu == l1
                &&& final(self).clock_ppu == l2
            }),
    {
        let ghost c0 = self.cpu;
        let ghost m0 = self.bus@;
        let cpu_steps = self.clock_cpu + 1;
        self.clock_cpu = self.cpu.tick(&mut self.bus, cpu_steps);
        proof {
            crate::cpu::lemma_tick_budget(c0, m0, cpu_steps);
        }
        let ghost p1 = self.ppu@;
        let ghost m1 = self.bus@;
        let ppu_steps = self.clock_ppu + 1;
        self.clock_ppu = self.ppu.tick(&mut self.bus, ppu_steps);
        proof {
            crate::ppu::lemma_ppu_budget(p1, m1, ppu_steps);
        }
    }
}

} // verus!
