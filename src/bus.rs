//! The memory bus: decodes each 16-bit address to the region that owns it.
use vstd::prelude::*;
use crate::cartridge::{CartView, Cartridge};
use crate::io::{IORegisters, Interrupt, IoView};
use crate::memory::{zeroed, ExtRam, HRam, VRam, WorkRam, OAM};

verus! {

/// Size of the boot overlay.
pub const BOOT_ROM_LEN: usize = 0x100;

/// The whole addressable state, as the decoder sees it.
pub ghost struct BusView {
    pub bios: Seq<u8>,
    pub cart: CartView,
    pub vram: Seq<u8>,
    pub ext_ram: Seq<u8>,
    pub wram: Seq<u8>,
    pub oam: Seq<u8>,
    pub io: IoView,
    pub hram: Seq<u8>,
    pub ie: u8,
}

impl BusView {
    pub open spec fn wf(self) -> bool {
        &&& self.bios.len() == BOOT_ROM_LEN
        &&& self.cart.wf()
        &&& self.vram.len() == 0x2000
        &&& self.ext_ram.len() == 0x2000
        &&& self.wram.len() == 0x2000
        &&& self.oam.len() == 0xA0
        &&& self.io.wf()
        &&& self.hram.len() == 0x7F
    }

    /// The byte a read of `address` returns.
    pub open spec fn read(self, address: u16) -> u8 {
        if address < 0x8000 {
            if self.io.boot && address < 0x100 {
                self.bios[address as int]
            } else {
                self.cart.read(address)
            }
        } else if address < 0xA000 {
            self.vram[address - 0x8000]
        } else if address < 0xC000 {
            if self.cart.has_mapper() {
                self.cart.read(address)
            } else {
                self.ext_ram[address - 0xA000]
            }
        } else if address < 0xE000 {
            self.wram[address - 0xC000]
        } else if address < 0xFE00 {
            self.wram[address - 0xE000]
        } else if address < 0xFEA0 {
            self.oam[address - 0xFE00]
        } else if address < 0xFF00 {
            0xFF
        } else if address < 0xFF80 {
            self.io.read(address)
        } else if address < 0xFFFF {
            self.hram[address - 0xFF80]
        } else {
            self.ie
        }
    }

    /// The state after a write of `value` to `address`.
    pub open spec fn write(self, address: u16, value: u8) -> BusView {
        if address < 0x8000 {
            BusView { cart: self.cart.write(address, value), ..self }
        } else if address < 0xA000 {
            BusView { vram: self.vram.update(address - 0x8000, value), ..self }
        } else if address < 0xC000 {
            if self.cart.has_mapper() {
                BusView { cart: self.cart.write(address, value), ..self }
            } else {
                BusView { ext_ram: self.ext_ram.update(address - 0xA000, value), ..self }
            }
        } else if address < 0xE000 {
            BusView { wram: self.wram.update(address - 0xC000, value), ..self }
        } else if address < 0xFE00 {
            BusView { wram: self.wram.update(address - 0xE000, value), ..self }
        } else if address < 0xFEA0 {
            BusView { oam: self.oam.update(address - 0xFE00, value), ..self }
        } else if address < 0xFF00 {
            self
        } else if address < 0xFF80 {
            BusView { io: self.io.write(address, value), ..self }
        } else if address < 0xFFFF {
            BusView { hram: self.hram.update(address - 0xFF80, value), ..self }
        } else {
            BusView { ie: value, ..self }
        }
    }
}

/// No bus write changes LY, except the LCDC write that switches the display
/// off, which puts LY at 0; a write to LY itself changes nothing at all.
pub proof fn lemma_write_keeps_ly(m: BusView, address: u16, value: u8)
    ensures
        m.write(address, value).io.ly == m.io.ly || (address == 0xFF40 && value & 0x80 == 0
            && m.write(address, value).io.ly == 0),
        m.write(0xFF44, value) == m,
{
}

/// The state after a sequence of writes, in order.
pub open spec fn apply_writes(m: BusView, ws: Seq<(u16, u8)>) -> BusView
    decreases ws.len(),
{
    if ws.len() == 0 {
        m
    } else {
        apply_writes(m, ws.drop_last()).write(ws.last().0, ws.last().1)
    }
}

/// After any sequence of bus writes LY is what it was, or 0 when the
/// display was switched off; with no such switch it is what it was.
pub proof fn lemma_writes_keep_ly(m: BusView, ws: Seq<(u16, u8)>)
    ensures
        apply_writes(m, ws).io.ly == m.io.ly || apply_writes(m, ws).io.ly == 0,
        (forall|i: int| 0 <= i < ws.len() ==> !(#[trigger] ws[i].0 == 0xFF40 && ws[i].1 & 0x80 == 0))
            ==> apply_writes(m, ws).io.ly == m.io.ly,
    decreases ws.len(),
{
    if ws.len() > 0 {
        lemma_writes_keep_ly(m, ws.drop_last());
        let prev = apply_writes(m, ws.drop_last());
        lemma_write_keeps_ly(prev, ws.last().0, ws.last().1);
        if forall|i: int| 0 <= i < ws.len() ==> !(#[trigger] ws[i].0 == 0xFF40 && ws[i].1 & 0x80
            == 0) {
            assert forall|i: int| 0 <= i < ws.drop_last().len() implies !(
            #[trigger] ws.drop_last()[i].0 == 0xFF40 && ws.drop_last()[i].1 & 0x80 == 0) by {
                assert(ws.drop_last()[i] == ws[i]);
            }
            assert(ws[ws.len() - 1] == ws.last());
        }
    }
}

/// Writing any value to DIV makes the next read of DIV return 0.
pub proof fn lemma_div_write_resets(m: BusView, value: u8)
    ensures
        m.write(0xFF04, value).read(0xFF04) == 0,
{
}

/// Writes to 0xFEA0..0xFEFF change nothing, and reads there return 0xFF.
pub proof fn lemma_unusable_region(m: BusView, address: u16, value: u8)
    requires
        0xFEA0 <= address <= 0xFEFF,
    ensures
        m.write(address, value) == m,
        m.write(address, value).read(address) == 0xFF,
{
}

/// Addresses backed by plain RAM: VRAM, work RAM and its echo, OAM, HRAM.
pub open spec fn plain_ram(address: u16) -> bool {
    (0x8000 <= address < 0xA000) || (0xC000 <= address < 0xFEA0) || (0xFF80 <= address < 0xFFFF)
}

/// The cell a plain-RAM address lands in; echo addresses share their mirror's cell.
pub open spec fn cell(address: u16) -> int {
    if 0xE000 <= address < 0xFE00 {
        address - 0x2000
    } else {
        address as int
    }
}

/// A byte written to plain RAM reads back; a write to another cell leaves a
/// plain-RAM byte alone.
pub proof fn lemma_ram_read_write(m: BusView, a: u16, b: u16, v: u8)
    requires
        m.wf(),
        plain_ram(a),
        plain_ram(b),
    ensures
        m.write(a, v).read(a) == v,
        cell(a) != cell(b) ==> m.write(b, v).read(a) == m.read(a),
        m.write(b, v).wf(),
{
}

pub struct Bus {
    /// 0x0000..0x00FF while the boot latch is set.
    pub bios: Vec<u8>,
    /// 0x0000..0x7FFF, and 0xA000..0xBFFF when the cartridge has a mapper.
    pub cartridge: Cartridge,
    /// 0x8000..0x9FFF.
    pub vram: VRam,
    /// 0xA000..0xBFFF when the cartridge has no mapper.
    pub ext_ram: ExtRam,
    /// 0xC000..0xDFFF, mirrored at 0xE000..0xFDFF.
    pub work_ram: WorkRam,
    /// 0xFE00..0xFE9F.
    pub oam: OAM,
    /// 0xFF00..0xFF7F.
    pub io_registers: IORegisters,
    /// 0xFF80..0xFFFE.
    pub hram: HRam,
    /// 0xFFFF.
    pub interrupts: Interrupt,
}

impl View for Bus {
    type V = BusView;

    open spec fn view(&self) -> BusView {
        BusView {
            bios: self.bios@,
            cart: self.cartridge@,
            vram: self.vram@,
            ext_ram: self.ext_ram@,
            wram: self.work_ram@,
            oam: self.oam@,
            io: self.io_registers@,
            hram: self.hram@,
            ie: self.interrupts.value,
        }
    }
}

impl Bus {
    pub open spec fn wf(&self) -> bool {
        self@.wf()
    }

    /// A bus around `rom` with every RAM zeroed and the boot latch set over
    /// a zeroed overlay.
    pub fn new(rom: Cartridge) -> (r: Self)
        requires
            rom.wf(),
        ensures
            r.wf(),
            r@.cart == rom@,
            r@.io.boot,
            r@.bios == Seq::new(BOOT_ROM_LEN as nat, |i: int| 0u8),
            r@.vram == Seq::new(0x2000, |i: int| 0u8),
            r@.wram == Seq::new(0x2000, |i: int| 0u8),
            r@.oam == Seq::new(0xA0, |i: int| 0u8),
            r@.hram == Seq::new(0x7F, |i: int| 0u8),
            r@.ie == 0,
            r@.io.interrupt_flag == 0 && r@.io.lcdc == 0 && r@.io.stat == 0 && r@.io.ly == 0,
            r@.io.div == 0 && r@.io.tima == 0 && r@.io.tma == 0 && r@.io.tac == 0,
            !r@.io.dma_triggered,
    {
        Self::with_boot_rom(rom, zeroed(BOOT_ROM_LEN))
    }

    /// A bus around `rom` with every RAM zeroed and the boot latch already
    /// released, for a start at 0x0100 without an overlay.
    pub fn without_boot_rom(rom: Cartridge) -> (r: Self)
        requires
            rom.wf(),
        ensures
            r.wf(),
            r@.cart == rom@,
            !r@.io.boot,
            r@.vram == Seq::new(0x2000, |i: int| 0u8),
            r@.wram == Seq::new(0x2000, |i: int| 0u8),
            r@.oam == Seq::new(0xA0, |i: int| 0u8),
            r@.hram == Seq::new(0x7F, |i: int| 0u8),
            r@.ie == 0,
            r@.io.interrupt_flag == 0 && r@.io.lcdc == 0 && r@.io.stat == 0 && r@.io.ly == 0,
            r@.io.div == 0 && r@.io.tima == 0 && r@.io.tma == 0 && r@.io.tac == 0,
            !r@.io.dma_triggered,
    {
        let mut bus = Self::with_boot_rom(rom, zeroed(BOOT_ROM_LEN));
        bus.io_registers.boot = false;
        bus
    }

    /// A bus around `rom` with `bios` overlaid on 0x0000..0x00FF until the
    /// boot latch is released.
    pub fn with_boot_rom(rom: Cartridge, bios: Vec<u8>) -> (r: Self)
        requires
            rom.wf(),
            bios@.len() == BOOT_ROM_LEN,
        ensures
            r.wf(),
            r@.cart == rom@,
            r@.bios == bios@,
            r@.io.boot,
            r@.vram == Seq::new(0x2000, |i: int| 0u8),
            r@.wram == Seq::new(0x2000, |i: int| 0u8),
            r@.oam == Seq::new(0xA0, |i: int| 0u8),
            r@.hram == Seq::new(0x7F, |i: int| 0u8),
            r@.ie == 0,
            r@.io.interrupt_flag == 0 && r@.io.lcdc == 0 && r@.io.stat == 0 && r@.io.ly == 0,
            r@.io.div == 0 && r@.io.tima == 0 && r@.io.tma == 0 && r@.io.tac == 0,
            !r@.io.dma_triggered,
    {
        Bus {
            bios,
            cartridge: rom,
            vram: VRam::default(),
            ext_ram: ExtRam::default(),
            work_ram: WorkRam::default(),
            oam: OAM::default(),
            io_registers: IORegisters::new(),
            hram: HRam::default(),
            interrupts: Interrupt::new(),
        }
    }

    pub fn get_byte(&self, address: u16) -> (r: u8)
        requires
            self.wf(),
        ensures
            r == self@.read(address),
    {
        if address < 0x8000 {
            if self.boot_rom() && address < 0x100 {
                self.bios[address as usize]
            } else {
                self.cartridge.get_byte(address)
            }
        } else if address < 0xA000 {
            self.vram.get_byte(address)
        } else if address < 0xC000 {
            if self.cartridge.has_mapper() {
                self.cartridge.get_byte(address)
            } else {
                self.ext_ram.get_byte(address)
            }
        } else if address < 0xE000 {
            self.work_ram.get_byte(address)
        } else if address < 0xFE00 {
            self.work_ram.get_byte(address - 0x2000)
        } else if address < 0xFEA0 {
            self.oam.get_byte(address)
        } else if address < 0xFF00 {
            0xFF
        } else if address < 0xFF80 {
            self.io_registers.get_byte(address)
        } else if address < 0xFFFF {
            self.hram.get_byte(address)
        } else {
            self.interrupts.get_byte()
        }
    }

    pub fn set_byte(&mut self, address: u16, value: u8)
        requires
            old(self).wf(),
        ensures
            final(self).wf(),
            final(self)@ == old(self)@.write(address, value),
    {
        if address < 0x8000 {
            self.cartridge.set_byte(address, value);
        } else if address < 0xA000 {
            self.vram.set_byte(address, value);
        } else if address < 0xC000 {
            if self.cartridge.has_mapper() {
                self.cartridge.set_byte(address, value);
            } else {
                self.ext_ram.set_byte(address, value);
            }
        } else if address < 0xE000 {
            self.work_ram.set_byte(address, value);
        } else if address < 0xFE00 {
            self.work_ram.set_byte(address - 0x2000, value);
        } else if address < 0xFEA0 {
            self.oam.set_byte(address, value);
        } else if address < 0xFF00 {
        } else if address < 0xFF80 {
            self.io_registers.set_byte(address, value);
        } else if address < 0xFFFF {
            self.hram.set_byte(address, value);
        } else {
            self.interrupts.set_byte(value);
        }
    }

    /// Whether the boot overlay is visible.
    pub fn boot_rom(&self) -> (r: bool)
        ensures
            r == self@.io.boot,
    {
        self.io_registers.boot
    }
}

} // verus!
