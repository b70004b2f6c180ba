//! The CPU: one tick runs the timer, then services an interrupt, idles in
//! HALT, performs a pending DMA copy, or fetches and executes one instruction.
use vstd::prelude::*;
use crate::alu::{res_spec, reset_bit};
use crate::bus::{Bus, BusView};
use crate::instructions::{
    arith_spec, cb_spec, is_arith, is_cb, is_jump, is_load, jump_spec, load_spec, push16, push_spec,
    step, step_spec,
};
use crate::io::IoView;
use crate::opcode::{
    decode, decode_cb, interrupt_of, interrupt_vector, opcode_wf, InterruptType, Opcode,
};
use crate::registers::{lemma_f_low_nibble_zero, Registers, R, RR};

verus! {

/// Address of the interrupt-request register.
pub const IF: u16 = 0xFF0F;

/// Cost of dispatching an interrupt, in machine cycles.
pub const INTERRUPT_COST: i32 = 5;

/// Cost of an OAM DMA copy, in machine cycles.
pub const DMA_COST: i32 = 40;

/// Number of bytes an OAM DMA copy moves.
pub const DMA_LEN: u16 = 0xA0;

#[derive(Debug, Clone, Copy)]
pub struct Cpu {
    pub registers: Registers,
    /// The interrupt master enable.
    pub ime: bool,
    /// Set by EI: IME comes on at the start of the next tick.
    pub ime_delay: bool,
    pub waiting_for_interrupt: bool,
    /// Machine cycles counted toward the next TIMA increment.
    pub tima_ctr: u16,
    /// TIMA overflowed: TMA is copied in, and the timer interrupt raised, on the next tick.
    pub tma_flag: bool,
    pub halted: bool,
}

/// Machine cycles per TIMA increment for the TAC clock select.
pub open spec fn period(tac: u8) -> u16 {
    match tac % 4 {
        0 => 16,
        1 => 1,
        2 => 4,
        _ => 8,
    }
}

/// The timer step that starts every tick: DIV counts, and when TAC enables
/// it, TIMA counts at the selected period and reloads from TMA one tick
/// after it wraps.
pub open spec fn timer_spec(c: Cpu, io: IoView) -> (Cpu, IoView) {
    let io1 = IoView { div: io.div.wrapping_add(1), ..io };
    if (io.tac / 4) % 2 == 0 {
        (c, io1)
    } else {
        let (c2, io2) = if c.tma_flag {
            (
                Cpu { tma_flag: false, ..c },
                IoView { interrupt_flag: io1.interrupt_flag | 4, tima: io1.tma, ..io1 },
            )
        } else {
            (Cpu { tima_ctr: c.tima_ctr.wrapping_add(1), ..c }, io1)
        };
        let p = period(io.tac);
        if c2.tima_ctr >= p {
            let c3 = Cpu { tima_ctr: (c2.tima_ctr - p) as u16, ..c2 };
            if io2.tima == 0xFF {
                (Cpu { tma_flag: true, ..c3 }, IoView { tima: 0, ..io2 })
            } else {
                (c3, IoView { tima: (io2.tima + 1) as u8, ..io2 })
            }
        } else {
            (c2, io2)
        }
    }
}

/// The requested and enabled interrupts, as a 5-bit mask.
pub open spec fn pending(m: BusView) -> u8 {
    m.ie & m.io.interrupt_flag & 0x1F
}

/// The lowest set bit among bits 0..4 (4 when none of 0..3 is set).
pub open spec fn lowest_set(p: u8) -> u8 {
    if p % 2 == 1 {
        0
    } else if (p / 2) % 2 == 1 {
        1
    } else if (p / 4) % 2 == 1 {
        2
    } else if (p / 8) % 2 == 1 {
        3
    } else {
        4
    }
}

/// The bus after an OAM DMA copy: the 160 bytes from `DMA * 0x100` land in OAM.
pub open spec fn dma_spec(m: BusView) -> BusView {
    BusView {
        oam: Seq::new(DMA_LEN as nat, |k: int| m.read((m.io.dma * 0x100 + k) as u16)),
        io: IoView { dma_triggered: false, ..m.io },
        ..m
    }
}

/// What executing a decoded instruction does to the CPU and the bus, with its cost.
pub open spec fn execute_spec(op: Opcode, c: Cpu, m: BusView) -> (Cpu, BusView, u8) {
    match op {
        Opcode::Halt | Opcode::Stop => (Cpu { halted: true, ..c }, m, 1),
        Opcode::Di => (Cpu { ime: false, ime_delay: false, ..c }, m, 1),
        Opcode::Ei => (Cpu { ime_delay: true, ..c }, m, 1),
        _ => {
            let (r, m1, cost) = step_spec(op, c.registers, m);
            let c1 = Cpu { registers: r, ..c };
            (if op == Opcode::Reti {
                Cpu { ime_delay: true, ..c1 }
            } else {
                c1
            }, m1, cost)
        },
    }
}

/// The instruction at PC, and the registers after its opcode bytes were read.
pub open spec fn fetch_spec(r: Registers, m: BusView) -> (Opcode, Registers) {
    let b = m.read(r.pc);
    let pc1 = r.pc.wrapping_add(1);
    if b == 0xCB {
        (decode_cb(m.read(pc1)), Registers { pc: pc1.wrapping_add(1), ..r })
    } else {
        (decode(b), Registers { pc: pc1, ..r })
    }
}

/// The CPU and bus where a tick decides what to do: the timer has run, a
/// pending EI has taken effect, and a pending interrupt has woken the CPU.
pub open spec fn tick_entry(c: Cpu, m: BusView) -> (Cpu, BusView) {
    let (c1, io1) = timer_spec(c, m.io);
    let m1 = BusView { io: io1, ..m };
    let c2 = if c1.ime_delay {
        Cpu { ime_delay: false, ime: true, ..c1 }
    } else {
        c1
    };
    let c3 = if pending(m1) != 0 {
        Cpu { waiting_for_interrupt: true, halted: false, ..c2 }
    } else {
        c2
    };
    (c3, m1)
}

/// The tick dispatches an interrupt.
pub open spec fn dispatches(c: Cpu, m: BusView) -> bool {
    let (c3, m1) = tick_entry(c, m);
    c3.ime && c3.waiting_for_interrupt && pending(m1) != 0
}

/// The tick performs an OAM DMA copy.
pub open spec fn copies_dma(c: Cpu, m: BusView) -> bool {
    let (c3, m1) = tick_entry(c, m);
    !dispatches(c, m) && !c3.halted && m1.io.dma_triggered
}

/// The tick fetches and executes an instruction.
pub open spec fn runs_instruction(c: Cpu, m: BusView) -> bool {
    let (c3, m1) = tick_entry(c, m);
    !dispatches(c, m) && !c3.halted && !m1.io.dma_triggered
}

/// One CPU tick with `steps` machine cycles of budget; returns the budget left.
pub open spec fn tick_spec(c: Cpu, m: BusView, steps: i32) -> (Cpu, BusView, i32) {
    if steps < 1 {
        (c, m, steps)
    } else {
        let (c3, m1) = tick_entry(c, m);
        let p = pending(m1);
        if c3.ime && c3.waiting_for_interrupt && p != 0 {
            let i = lowest_set(p);
            let m2 = BusView {
                io: IoView { interrupt_flag: res_spec(m1.io.interrupt_flag, i), ..m1.io },
                ..m1
            };
            let (r, m3) = push_spec(c3.registers, m2, c3.registers.pc);
            (
                Cpu {
                    registers: r.with_r16(RR::PC, interrupt_vector(interrupt_of(i))),
                    ime: false,
                    waiting_for_interrupt: false,
                    ..c3
                },
                m3,
                (steps - INTERRUPT_COST) as i32,
            )
        } else {
            let c4 = if c3.ime && c3.waiting_for_interrupt {
                Cpu { waiting_for_interrupt: false, ..c3 }
            } else {
                c3
            };
            if c4.halted {
                (c4, m1, (steps - 1) as i32)
            } else if m1.io.dma_triggered {
                (c4, dma_spec(m1), (steps - DMA_COST) as i32)
            } else {
                let (op, r) = fetch_spec(c4.registers, m1);
                let (c5, m5, cost) = execute_spec(op, Cpu { registers: r, ..c4 }, m1);
                (c5, m5, (steps - cost) as i32)
            }
        }
    }
}

/// Every instruction costs between 1 and 6 machine cycles.
pub proof fn lemma_execute_cost(op: Opcode, c: Cpu, m: BusView)
    ensures
        1 <= execute_spec(op, c, m).2 <= 6,
{
    let r = c.registers;
    if is_load(op) {
        assert(1 <= load_spec(op, r, m).2 <= 5);
    } else if is_arith(op) {
        assert(1 <= arith_spec(op, r, m).2 <= 4);
    } else if is_cb(op) {
        assert(1 <= cb_spec(op, r, m).2 <= 2);
    } else if is_jump(op) {
        assert(1 <= jump_spec(op, r, m).2 <= 6);
    }
}

/// F's low nibble is zero after every instruction.
pub proof fn lemma_execute_f_nibble(op: Opcode, c: Cpu, m: BusView)
    ensures
        execute_spec(op, c, m).0.registers.r8(R::F) & 0x0F == 0,
{
    lemma_f_low_nibble_zero(execute_spec(op, c, m).0.registers);
}

/// What a tick charges: an interrupt dispatch exactly 5 machine cycles, a
/// DMA copy exactly 40, an instruction between 1 and 6.
pub proof fn lemma_tick_costs(c: Cpu, m: BusView, steps: i32)
    requires
        steps >= 1,
    ensures
        dispatches(c, m) ==> tick_spec(c, m, steps).2 == steps - 5,
        copies_dma(c, m) ==> tick_spec(c, m, steps).2 == steps - 40,
        runs_instruction(c, m) ==> steps - 6 <= tick_spec(c, m, steps).2 <= steps - 1,
{
    let (c3, m1) = tick_entry(c, m);
    let c4 = if c3.ime && c3.waiting_for_interrupt {
        Cpu { waiting_for_interrupt: false, ..c3 }
    } else {
        c3
    };
    let (op, r) = fetch_spec(c4.registers, m1);
    lemma_execute_cost(op, Cpu { registers: r, ..c4 }, m1);
}

/// A tick leaves the CPU budget between -64 and 0 when it starts between -63 and 1.
pub proof fn lemma_tick_budget(c: Cpu, m: BusView, steps: i32)
    requires
        -63 <= steps <= 1,
    ensures
        -64 <= tick_spec(c, m, steps).2 <= 0,
{
    if steps >= 1 {
        lemma_tick_costs(c, m, steps);
    }
}

impl Opcode {
    /// Executes the instruction (its opcode bytes already fetched) and
    /// returns its cost in machine cycles.
    pub fn execute(&self, cpu: &mut Cpu, bus: &mut Bus) -> (cost: u8)
        requires
            old(bus).wf(),
            opcode_wf(*self),
        ensures
            final(bus).wf(),
            (*final(cpu), final(bus)@, cost) == execute_spec(*self, *old(cpu), old(bus)@),
    {
        match *self {
            Opcode::Halt | Opcode::Stop => {
                cpu.halted = true;
                1
            },
            Opcode::Di => {
                cpu.ime = false;
                cpu.ime_delay = false;
                1
            },
            Opcode::Ei => {
                cpu.ime_delay = true;
                1
            },
            op => {
                let cost = step(op, &mut cpu.registers, bus);
                if op == Opcode::Reti {
                    cpu.ime_delay = true;
                }
                cost
            },
        }
    }
}

impl Cpu {
    /// Every register zero, interrupts off, timer idle.
    pub open spec fn new_spec() -> Cpu {
        Cpu {
            registers: Registers::zeroed(),
            ime: false,
            ime_delay: false,
            waiting_for_interrupt: false,
            tima_ctr: 0,
            tma_flag: false,
            halted: false,
        }
    }

    /// The state the boot overlay leaves behind: PC at 0x0100, SP at
    /// 0xFFFE, AF=0x01B0, BC=0x0013, DE=0x00D8, HL=0x014D.
    pub open spec fn post_boot_spec() -> Cpu {
        Cpu {
            registers: Registers {
                a: 0x01,
                zf: true,
                nf: false,
                hf: true,
                cf: true,
                b: 0x00,
                c: 0x13,
                d: 0x00,
                e: 0xD8,
                h: 0x01,
                l: 0x4D,
                sp: 0xFFFE,
                pc: 0x0100,
            },
            ..Cpu::new_spec()
        }
    }

    /// A CPU with every register zero, as the boot overlay expects.
    pub fn new() -> (r: Self)
        ensures
            r == Cpu::new_spec(),
    {
        Cpu {
            registers: Registers::default(),
            ime: false,
            ime_delay: false,
            waiting_for_interrupt: false,
            tima_ctr: 0,
            tma_flag: false,
            halted: false,
        }
    }

    /// A CPU in the state the boot overlay leaves behind.
    pub fn post_boot() -> (r: Self)
        ensures
            r == Cpu::post_boot_spec(),
            r.registers.r16(RR::AF) == 0x01B0,
            r.registers.r16(RR::BC) == 0x0013,
            r.registers.r16(RR::DE) == 0x00D8,
            r.registers.r16(RR::HL) == 0x014D,
    {
        Cpu {
            registers: Registers {
                a: 0x01,
                zf: true,
                nf: false,
                hf: true,
                cf: true,
                b: 0x00,
                c: 0x13,
                d: 0x00,
                e: 0xD8,
                h: 0x01,
                l: 0x4D,
                sp: 0xFFFE,
                pc: 0x0100,
            },
            ime: false,
            ime_delay: false,
            waiting_for_interrupt: false,
            tima_ctr: 0,
            tma_flag: false,
            halted: false,
        }
    }

    /// Runs one tick with `steps` machine cycles of budget and returns the
    /// budget left after the work done; nothing happens without budget.
    pub fn tick(&mut self, bus: &mut Bus, steps: i32) -> (left: i32)
        requires
            old(bus).wf(),
        ensures
            final(bus).wf(),
            (*final(self), final(bus)@, left) == tick_spec(*old(self), old(bus)@, steps),
    {
        if steps < 1 {
            return steps;
        }
        self.update_timer_registers(bus);
        if self.ime_delay {
            self.ime_delay = false;
            self.ime = true;
        }
        let p = self.pending_interrupts(bus);
        if p != 0 {
            self.waiting_for_interrupt = true;
            self.halted = false;
        }
        if self.ime && self.waiting_for_interrupt {
            self.waiting_for_interrupt = false;
            if p != 0 {
                let i = Self::get_interrupt_type(p);
                self.ime = false;
                self.unset_interrupt_flag(bus, i);
                let pc = self.registers.pc;
                push16(&mut self.registers, bus, pc);
                let op = Opcode::new_interrupt(InterruptType::from(i));
                if let Opcode::Rst(v) = op {
                    self.registers.set_r16(RR::PC, v);
                }
                return steps - INTERRUPT_COST;
            }
        }
        if self.halted {
            return steps - 1;
        }
        if bus.io_registers.dma_triggered {
            self.execute_dma(bus);
            bus.io_registers.dma_triggered = false;
            return steps - DMA_COST;
        }
        let instruction = self.get_instruction(bus);
        let cost = instruction.execute(self, bus);
        steps - cost as i32
    }

    fn update_timer_registers(&mut self, bus: &mut Bus)
        requires
            old(bus).wf(),
        ensures
            final(bus).wf(),
            (*final(self), final(bus)@.io) == timer_spec(*old(self), old(bus)@.io),
            final(bus)@ == (BusView { io: final(bus)@.io, ..old(bus)@ }),
    {
        let io = &mut bus.io_registers;
        io.div = io.div.wrapping_add(1);
        if (io.tac / 4) % 2 == 0 {
            return;
        }
        let clock: u16 = match io.tac % 4 {
            0 => 16,
            1 => 1,
            2 => 4,
            _ => 8,
        };
        if self.tma_flag {
            self.tma_flag = false;
            io.interrupt_flag = io.interrupt_flag | 4;
            io.tima = io.tma;
        } else {
            self.tima_ctr = self.tima_ctr.wrapping_add(1);
        }
        if self.tima_ctr >= clock {
            self.tima_ctr = self.tima_ctr - clock;
            if io.tima == 0xFF {
                io.tima = 0;
                self.tma_flag = true;
            } else {
                io.tima = io.tima + 1;
            }
        }
    }

    /// Copies the 160 bytes at `DMA * 0x100` into OAM.
    fn execute_dma(&self, bus: &mut Bus)
        requires
            old(bus).wf(),
        ensures
            final(bus).wf(),
            final(bus)@ == (BusView { oam: dma_spec(old(bus)@).oam, ..old(bus)@ }),
    {
        let start: u16 = bus.io_registers.dma as u16 * 0x100;
        let ghost m0 = bus@;
        let mut i: u16 = 0;
        assert(bus@.oam =~= Seq::new(
            DMA_LEN as nat,
            |k: int|
                if k < i {
                    m0.read((start + k) as u16)
                } else {
                    m0.oam[k]
                },
        ));
        while i < DMA_LEN
            invariant
                bus.wf(),
                i <= DMA_LEN,
                start == m0.io.dma * 0x100,
                m0.wf(),
                bus@ == (BusView {
                    oam: Seq::new(
                        DMA_LEN as nat,
                        |k: int|
                            if k < i {
                                m0.read((start + k) as u16)
                            } else {
                                m0.oam[k]
                            },
                    ),
                    ..m0
                }),
            decreases DMA_LEN - i,
        {
            let v = bus.get_byte(start + i);
            assert(v == m0.read((start + i) as u16));
            bus.set_byte(0xFE00 + i, v);
            i = i + 1;
            assert(bus@.oam =~= Seq::new(
                DMA_LEN as nat,
                |k: int|
                    if k < i {
                        m0.read((start + k) as u16)
                    } else {
                        m0.oam[k]
                    },
            ));
        }
        assert(bus@.oam =~= dma_spec(m0).oam);
    }

    /// Clears the request bit `i` in IF.
    fn unset_interrupt_flag(&self, bus: &mut Bus, i: u8)
        requires
            old(bus).wf(),
            i < 5,
        ensures
            final(bus).wf(),
            final(bus)@ == (BusView {
                io: IoView {
                    interrupt_flag: res_spec(old(bus)@.io.interrupt_flag, i),
                    ..old(bus)@.io
                },
                ..old(bus)@
            }),
    {
        bus.io_registers.interrupt_flag = reset_bit(bus.io_registers.interrupt_flag, i);
    }

    /// The interrupts both requested and enabled.
    fn pending_interrupts(&self, bus: &Bus) -> (p: u8)
        ensures
            p == pending(bus@),
    {
        bus.interrupts.value & bus.io_registers.interrupt_flag & 0x1F
    }

    /// The highest-priority interrupt among those pending.
    fn get_interrupt_type(p: u8) -> (i: u8)
        ensures
            i == lowest_set(p),
            i < 5,
    {
        if p % 2 == 1 {
            0
        } else if (p / 2) % 2 == 1 {
            1
        } else if (p / 4) % 2 == 1 {
            2
        } else if (p / 8) % 2 == 1 {
            3
        } else {
            4
        }
    }

    /// Reads the opcode at PC (two bytes for the 0xCB prefix) and decodes it.
    fn get_instruction(&mut self, bus: &Bus) -> (op: Opcode)
        requires
            bus.wf(),
        ensures
            (op, final(self).registers) == fetch_spec(old(self).registers, bus@),
            *final(self) == (Cpu { registers: final(self).registers, ..*old(self) }),
            opcode_wf(op),
    {
        let b = bus.get_byte(self.registers.get_pc_and_increase());
        if b == 0xCB {
            let b2 = bus.get_byte(self.registers.get_pc_and_increase());
            return Opcode::fetch_cb(b2);
        }
        Opcode::fetch(b)
    }
}

} // verus!
