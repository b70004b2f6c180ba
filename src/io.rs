//! The memory-mapped I/O registers at 0xFF00..0xFF7F, the joypad matrix behind
//! the joypad register, and the interrupt-enable register at 0xFFFF.
use vstd::prelude::*;
use crate::memory::zeroed;

verus! {

/// Eight buttons, read through the joypad register (0xFF00) one row at a time.
#[derive(Debug, Clone, Copy, PartialEq, Eq, Structural)]
pub struct Joypad {
    /// The last value written to 0xFF00; bits 5 and 4 select the row.
    pub value: u8,
    pub a: bool,
    pub b: bool,
    pub select: bool,
    pub start: bool,
    pub up: bool,
    pub down: bool,
    pub left: bool,
    pub right: bool,
}

/// `bit` when `pressed`, else 0.
pub open spec fn pressed_bit(pressed: bool, bit: u8) -> u8 {
    if pressed {
        bit
    } else {
        0
    }
}

impl Joypad {
    /// The joypad register as read: 0xFF with the pressed buttons of the selected row cleared
    /// in bits 0..3, and the selecting bit cleared.
    pub open spec fn read_spec(self) -> u8 {
        if (self.value >> 5u8) & 1 == 0 {
            (0xFF - pressed_bit(self.a, 1) - pressed_bit(self.b, 2) - pressed_bit(self.select, 4)
                - pressed_bit(self.start, 8) - 0x20) as u8
        } else if (self.value >> 4u8) & 1 == 0 {
            (0xFF - pressed_bit(self.right, 1) - pressed_bit(self.left, 2) - pressed_bit(self.up, 4)
                - pressed_bit(self.down, 8) - 0x10) as u8
        } else {
            0xFF
        }
    }

    pub fn new() -> (r: Self)
        ensures
            r.value == 0xFF,
            !r.a && !r.b && !r.select && !r.start,
            !r.up && !r.down && !r.left && !r.right,
    {
        Joypad {
            value: 0xFF,
            a: false,
            b: false,
            select: false,
            start: false,
            up: false,
            down: false,
            left: false,
            right: false,
        }
    }

    pub fn get_byte(&self) -> (r: u8)
        ensures
            r == self.read_spec(),
    {
        let mut res: u8 = 0xFF;
        if (self.value >> 5u8) & 1 == 0 {
            if self.a {
                res = res - 1;
            }
            if self.b {
                res = res - 2;
            }
            if self.select {
                res = res - 4;
            }
            if self.start {
                res = res - 8;
            }
            res - 0x20
        } else if (self.value >> 4u8) & 1 == 0 {
            if self.right {
                res = res - 1;
            }
            if self.left {
                res = res - 2;
            }
            if self.up {
                res = res - 4;
            }
            if self.down {
                res = res - 8;
            }
            res - 0x10
        } else {
            res
        }
    }

    pub fn set_byte(&mut self, value: u8)
        ensures
            *final(self) == (Joypad { value, ..*old(self) }),
    {
        self.value = value;
    }
}

/// The interrupt-enable register IE at 0xFFFF.
#[derive(Debug, Clone, Copy, PartialEq, Eq, Structural)]
pub struct Interrupt {
    pub value: u8,
}

impl Interrupt {
    pub fn new() -> (r: Self)
        ensures
            r.value == 0,
    {
        Interrupt { value: 0 }
    }

    pub fn get_byte(&self) -> (r: u8)
        ensures
            r == self.value,
    {
        self.value
    }

    pub fn set_byte(&mut self, value: u8)
        ensures
            final(self).value == value,
    {
        self.value = value;
    }
}

/// First address of the sound registers and wave RAM (0xFF10..0xFF3F).
pub const SOUND_START: u16 = 0xFF10;

/// Number of bytes from 0xFF10 to 0xFF3F.
pub const SOUND_LEN: usize = 48;

/// The bits of a sound register that always read as 1; unused addresses read 0xFF.
pub open spec fn sound_mask(address: u16) -> u8 {
    if address == 0xFF10 {
        0x80
    } else if address == 0xFF1A {
        0x7F
    } else if address == 0xFF1C {
        0x9F
    } else if address == 0xFF20 {
        0xC0
    } else if address == 0xFF23 {
        0x3F
    } else if address == 0xFF26 {
        0x70
    } else if address == 0xFF15 || address == 0xFF1F || (0xFF27 <= address < 0xFF30) {
        0xFF
    } else {
        0
    }
}

fn sound_mask_of(address: u16) -> (m: u8)
    ensures
        m == sound_mask(address),
{
    if address == 0xFF10 {
        0x80
    } else if address == 0xFF1A {
        0x7F
    } else if address == 0xFF1C {
        0x9F
    } else if address == 0xFF20 {
        0xC0
    } else if address == 0xFF23 {
        0x3F
    } else if address == 0xFF26 {
        0x70
    } else if address == 0xFF15 || address == 0xFF1F || (0xFF27 <= address && address < 0xFF30) {
        0xFF
    } else {
        0
    }
}

/// The state of the I/O register file.
pub ghost struct IoView {
    pub interrupt_flag: u8,
    pub joypad: Joypad,
    pub sb: u8,
    pub sc: u8,
    pub div: u16,
    pub tima: u8,
    pub tma: u8,
    pub tac: u8,
    pub sound: Seq<u8>,
    pub lcdc: u8,
    pub stat: u8,
    pub scy: u8,
    pub scx: u8,
    pub ly: u8,
    pub lyc: u8,
    pub dma: u8,
    pub dma_triggered: bool,
    pub bgp: u8,
    pub obp0: u8,
    pub obp1: u8,
    pub wy: u8,
    pub wx: u8,
    pub boot: bool,
}

impl IoView {
    pub open spec fn wf(self) -> bool {
        self.sound.len() == SOUND_LEN
    }

    /// A register as the CPU reads it.
    pub open spec fn read(self, address: u16) -> u8 {
        if address == 0xFF00 {
            self.joypad.read_spec()
        } else if address == 0xFF01 {
            self.sb
        } else if address == 0xFF02 {
            self.sc | 0x7E
        } else if address == 0xFF04 {
            (self.div / 256) as u8
        } else if address == 0xFF05 {
            self.tima
        } else if address == 0xFF06 {
            self.tma
        } else if address == 0xFF07 {
            self.tac | 0xF8
        } else if address == 0xFF0F {
            self.interrupt_flag | 0xE0
        } else if 0xFF10 <= address < 0xFF40 {
            self.sound[address - 0xFF10] | sound_mask(address)
        } else if address == 0xFF40 {
            self.lcdc
        } else if address == 0xFF41 {
            self.stat | 0x80
        } else if address == 0xFF42 {
            self.scy
        } else if address == 0xFF43 {
            self.scx
        } else if address == 0xFF44 {
            self.ly
        } else if address == 0xFF45 {
            self.lyc
        } else if address == 0xFF46 {
            self.dma
        } else if address == 0xFF47 {
            self.bgp
        } else if address == 0xFF48 {
            self.obp0
        } else if address == 0xFF49 {
            self.obp1
        } else if address == 0xFF4A {
            self.wy
        } else if address == 0xFF4B {
            self.wx
        } else {
            0xFF
        }
    }

    /// The register file after the CPU writes `value` at `address`.
    pub open spec fn write(self, address: u16, value: u8) -> IoView {
        if address == 0xFF00 {
            IoView { joypad: Joypad { value, ..self.joypad }, ..self }
        } else if address == 0xFF01 {
            IoView { sb: value, ..self }
        } else if address == 0xFF02 {
            IoView { sc: value, ..self }
        } else if address == 0xFF04 {
            IoView { div: 0, ..self }
        } else if address == 0xFF05 {
            IoView { tima: value, ..self }
        } else if address == 0xFF06 {
            IoView { tma: value, ..self }
        } else if address == 0xFF07 {
            IoView { tac: value, ..self }
        } else if address == 0xFF0F {
            IoView { interrupt_flag: value, ..self }
        } else if 0xFF10 <= address < 0xFF40 {
            IoView { sound: self.sound.update(address - 0xFF10, value), ..self }
        } else if address == 0xFF40 {
            if value & 0x80 == 0 {
                IoView { lcdc: value, ly: 0, stat: self.stat & 0xF8, ..self }
            } else {
                IoView { lcdc: value, ..self }
            }
        } else if address == 0xFF41 {
            IoView { stat: (value & 0xF8) | (self.stat & 0x07), ..self }
        } else if address == 0xFF42 {
            IoView { scy: value, ..self }
        } else if address == 0xFF43 {
            IoView { scx: value, ..self }
        } else if address == 0xFF45 {
            IoView { lyc: value, ..self }
        } else if address == 0xFF46 {
            IoView { dma: value, dma_triggered: true, ..self }
        } else if address == 0xFF47 {
            IoView { bgp: value, ..self }
        } else if address == 0xFF48 {
            IoView { obp0: value, ..self }
        } else if address == 0xFF49 {
            IoView { obp1: value, ..self }
        } else if address == 0xFF4A {
            IoView { wy: value, ..self }
        } else if address == 0xFF4B {
            IoView { wx: value, ..self }
        } else if address == 0xFF50 {
            if self.boot && value == 1 {
                IoView { boot: false, ..self }
            } else {
                self
            }
        } else {
            self
        }
    }
}

/// The I/O register file. Registers with a meaning to the core are named
/// fields; the sound registers and wave RAM are plain storage.
pub struct IORegisters {
    pub interrupt_flag: u8,
    pub joypad: Joypad,
    pub sb: u8,
    pub sc: u8,
    /// The internal divider; its upper byte is DIV.
    pub div: u16,
    pub tima: u8,
    pub tma: u8,
    pub tac: u8,
    /// 0xFF10..0xFF3F.
    pub sound: Vec<u8>,
    pub lcdc: u8,
    pub stat: u8,
    pub scy: u8,
    pub scx: u8,
    pub ly: u8,
    pub lyc: u8,
    pub dma: u8,
    /// Set by a write to DMA; the CPU performs the copy and clears it.
    pub dma_triggered: bool,
    pub bgp: u8,
    pub obp0: u8,
    pub obp1: u8,
    pub wy: u8,
    pub wx: u8,
    /// The boot latch: while set, the boot overlay covers 0x0000..0x00FF.
    pub boot: bool,
}

impl View for IORegisters {
    type V = IoView;

    open spec fn view(&self) -> IoView {
        IoView {
            interrupt_flag: self.interrupt_flag,
            joypad: self.joypad,
            sb: self.sb,
            sc: self.sc,
            div: self.div,
            tima: self.tima,
            tma: self.tma,
            tac: self.tac,
            sound: self.sound@,
            lcdc: self.lcdc,
            stat: self.stat,
            scy: self.scy,
            scx: self.scx,
            ly: self.ly,
            lyc: self.lyc,
            dma: self.dma,
            dma_triggered: self.dma_triggered,
            bgp: self.bgp,
            obp0: self.obp0,
            obp1: self.obp1,
            wy: self.wy,
            wx: self.wx,
            boot: self.boot,
        }
    }
}

impl IORegisters {
    pub open spec fn wf(&self) -> bool {
        self@.wf()
    }

    /// All registers zero, the joypad released and the boot latch set.
    pub fn new() -> (r: Self)
        ensures
            r.wf(),
            r.interrupt_flag == 0 && r.div == 0 && r.tima == 0 && r.tma == 0 && r.tac == 0,
            r.lcdc == 0 && r.stat == 0 && r.ly == 0 && r.lyc == 0,
            r.scy == 0 && r.scx == 0 && r.wy == 0 && r.wx == 0,
            r.bgp == 0 && r.obp0 == 0 && r.obp1 == 0 && r.sb == 0 && r.sc == 0 && r.dma == 0,
            !r.dma_triggered,
            r.boot,
            r.joypad.value == 0xFF,
            r.sound@ == Seq::new(SOUND_LEN as nat, |i: int| 0u8),
    {
        IORegisters {
            interrupt_flag: 0,
            joypad: Joypad::new(),
            sb: 0,
            sc: 0,
            div: 0,
            tima: 0,
            tma: 0,
            tac: 0,
            sound: zeroed(SOUND_LEN),
            lcdc: 0,
            stat: 0,
            scy: 0,
            scx: 0,
            ly: 0,
            lyc: 0,
            dma: 0,
            dma_triggered: false,
            bgp: 0,
            obp0: 0,
            obp1: 0,
            wy: 0,
            wx: 0,
            boot: true,
        }
    }

    pub fn get_byte(&self, address: u16) -> (r: u8)
        requires
            self.wf(),
        ensures
            r == self@.read(address),
    {
        if address == 0xFF00 {
            self.joypad.get_byte()
        } else if address == 0xFF01 {
            self.sb
        } else if address == 0xFF02 {
            self.sc | 0x7E
        } else if address == 0xFF04 {
            (self.div / 256) as u8
        } else if address == 0xFF05 {
            self.tima
        } else if address == 0xFF06 {
            self.tma
        } else if address == 0xFF07 {
            self.tac | 0xF8
        } else if address == 0xFF0F {
            self.interrupt_flag | 0xE0
        } else if SOUND_START <= address && address < 0xFF40 {
            self.sound[(address - SOUND_START) as usize] | sound_mask_of(address)
        } else if address == 0xFF40 {
            self.lcdc
        } else if address == 0xFF41 {
            self.stat | 0x80
        } else if address == 0xFF42 {
            self.scy
        } else if address == 0xFF43 {
            self.scx
        } else if address == 0xFF44 {
            self.ly
        } else if address == 0xFF45 {
            self.lyc
        } else if address == 0xFF46 {
            self.dma
        } else if address == 0xFF47 {
            self.bgp
        } else if address == 0xFF48 {
            self.obp0
        } else if address == 0xFF49 {
            self.obp1
        } else if address == 0xFF4A {
            self.wy
        } else if address == 0xFF4B {
            self.wx
        } else {
            0xFF
        }
    }

    pub fn set_byte(&mut self, address: u16, value: u8)
        requires
            old(self).wf(),
        ensures
            final(self).wf(),
            final(self)@ == old(self)@.write(address, value),
    {
        if address == 0xFF00 {
            self.joypad.set_byte(value);
        } else if address == 0xFF01 {
            self.sb = value;
        } else if address == 0xFF02 {
            self.sc = value;
        } else if address == 0xFF04 {
            self.div = 0;
        } else if address == 0xFF05 {
            self.tima = value;
        } else if address == 0xFF06 {
            self.tma = value;
        } else if address == 0xFF07 {
            self.tac = value;
        } else if address == 0xFF0F {
            self.interrupt_flag = value;
        } else if SOUND_START <= address && address < 0xFF40 {
            self.sound.set((address - SOUND_START) as usize, value);
        } else if address == 0xFF40 {
            self.lcdc = value;
            if value & 0x80 == 0 {
                self.ly = 0;
                self.stat = self.stat & 0xF8;
            }
        } else if address == 0xFF41 {
            self.stat = (value & 0xF8) | (self.stat & 0x07);
        } else if address == 0xFF42 {
            self.scy = value;
        } else if address == 0xFF43 {
            self.scx = value;
        } else if address == 0xFF45 {
            self.lyc = value;
        } else if address == 0xFF46 {
            self.dma = value;
            self.dma_triggered = true;
        } else if address == 0xFF47 {
            self.bgp = value;
        } else if address == 0xFF48 {
            self.obp0 = value;
        } else if address == 0xFF49 {
            self.obp1 = value;
        } else if address == 0xFF4A {
            self.wy = value;
        } else if address == 0xFF4B {
            self.wx = value;
        } else if address == 0xFF50 {
            if self.boot && value == 1 {
                self.boot = false;
            }
        }
    }
}

} // verus!
