//! Cartridges: a plain 32 KiB ROM, or an MBC1 mapper that banks a larger ROM
//! and an optional RAM into the address map.
use vstd::prelude::*;
use crate::memory::zeroed;
use vstd::arithmetic::div_mod::lemma_small_mod;
use vstd::arithmetic::power2::{lemma2_to64, lemma_pow2_pos, lemma_pow2_strictly_increases, pow2};

verus! {

/// Why a ROM image cannot be loaded.
#[derive(Debug, Clone, Copy, PartialEq, Eq, Structural)]
pub enum LoadError {
    /// The image ends before its header (0x150 bytes).
    MissingHeader,
    /// Header byte 0x147 names a mapper that is not implemented.
    UnsupportedMapper,
    /// Header byte 0x149 (RAM size) is above 5.
    InvalidSizeCode,
}

/// The mapper that header byte 0x147 selects.
#[derive(Debug, Clone, Copy, PartialEq, Eq, Structural)]
pub enum CartridgeType {
    RomOnly,
    MBC1,
}

/// Length of the cartridge header; the mapper and size codes lie inside it.
pub const HEADER_END: usize = 0x150;

pub open spec fn cartridge_type_of(b: u8) -> Option<CartridgeType> {
    if b == 0 {
        Some(CartridgeType::RomOnly)
    } else if 1 <= b <= 3 {
        Some(CartridgeType::MBC1)
    } else {
        None
    }
}

/// ROM size in bytes for header code `code` (byte 0x148): 0x8000 << code.
pub open spec fn rom_size_of(code: u8) -> nat {
    0x8000 * pow2(code as nat)
}

/// A ROM offset wrapped at the size that header code `code` gives. The bank
/// registers form offsets below 0x200000, so larger ROMs never wrap them.
fn wrap_rom(idx: u32, code: u8) -> (r: u32)
    requires
        idx < 0x200000,
    ensures
        r == idx as int % (rom_size_of(code) as int),
{
    proof {
        lemma2_to64();
    }
    if code < 6 {
        let size: u32 = match code {
            0 => 0x8000,
            1 => 0x10000,
            2 => 0x20000,
            3 => 0x40000,
            4 => 0x80000,
            _ => 0x100000,
        };
        idx % size
    } else {
        proof {
            if code > 6 {
                lemma_pow2_strictly_increases(6, code as nat);
            }
            lemma_small_mod(idx as nat, rom_size_of(code));
        }
        idx
    }
}

/// RAM size in bytes for header code `code` (byte 0x149), if the code is known.
pub open spec fn ram_size_of(code: u8) -> Option<nat> {
    match code {
        0 => Some(0nat),
        1 => Some(0x800nat),
        2 => Some(0x2000nat),
        3 => Some(0x8000nat),
        4 => Some(0x20000nat),
        5 => Some(0x10000nat),
        _ => None,
    }
}

/// Byte `i` of a ROM image; a read past its end gives 0xFF.
pub open spec fn rom_at(rom: Seq<u8>, i: int) -> u8 {
    if 0 <= i < rom.len() {
        rom[i]
    } else {
        0xFF
    }
}

fn rom_byte(rom: &Vec<u8>, i: usize) -> (v: u8)
    ensures
        v == rom_at(rom@, i as int),
{
    if i < rom.len() {
        rom[i]
    } else {
        0xFF
    }
}

/// The mapper state that reads and writes depend on.
pub ghost struct Mbc1View {
    pub rom: Seq<u8>,
    pub ram: Seq<u8>,
    pub size: nat,
    pub ramg: bool,
    pub mode: bool,
    pub bank1: u8,
    pub bank2: u8,
}

impl Mbc1View {
    pub open spec fn wf(self) -> bool {
        &&& 0x8000 <= self.size
        &&& self.ram.len() <= 0x20000
        &&& 1 <= self.bank1 < 32
        &&& self.bank2 < 4
    }

    /// Index into RAM of the byte at `address` (0xA000..0xBFFF).
    pub open spec fn ram_index(self, address: u16) -> int {
        (if self.mode {
            self.bank2 as int * 0x2000 + (address - 0xA000)
        } else {
            address - 0xA000
        }) % (self.ram.len() as int)
    }

    pub open spec fn ram_on(self) -> bool {
        self.ramg && self.ram.len() > 0
    }

    pub open spec fn read(self, address: u16) -> u8 {
        if address < 0x4000 {
            if self.mode {
                rom_at(self.rom, (self.bank2 as int * 0x80000 + address) % (self.size as int))
            } else {
                rom_at(self.rom, address as int)
            }
        } else if address < 0x8000 {
            rom_at(
                self.rom,
                (self.bank2 as int * 0x80000 + self.bank1 as int * 0x4000 + (address - 0x4000)) % (
                self.size as int),
            )
        } else if 0xA000 <= address < 0xC000 {
            if self.ram_on() {
                self.ram[self.ram_index(address)]
            } else {
                0
            }
        } else {
            0
        }
    }

    pub open spec fn write(self, address: u16, value: u8) -> Mbc1View {
        if address < 0x2000 {
            Mbc1View { ramg: value % 16 == 0xA, ..self }
        } else if address < 0x4000 {
            Mbc1View { bank1: if value % 32 == 0 { 1 } else { (value % 32) as u8 }, ..self }
        } else if address < 0x6000 {
            Mbc1View { bank2: (value % 4) as u8, ..self }
        } else if address < 0x8000 {
            Mbc1View { mode: value % 2 == 1, ..self }
        } else if 0xA000 <= address < 0xC000 && self.ram_on() {
            Mbc1View { ram: self.ram.update(self.ram_index(address), value), ..self }
        } else {
            self
        }
    }
}

/// With RAM disabled, reads of 0xA000..0xBFFF return 0 and writes there
/// change nothing.
pub proof fn lemma_ram_disabled(c: Mbc1View, address: u16, value: u8)
    requires
        !c.ramg,
        0xA000 <= address < 0xC000,
    ensures
        c.read(address) == 0,
        c.write(address, value) == c,
{
}

/// A cartridge of 32 KiB ROM with no mapper; writes are ignored.
pub struct RomOnly {
    rom: Vec<u8>,
}

impl View for RomOnly {
    type V = Seq<u8>;

    closed spec fn view(&self) -> Seq<u8> {
        self.rom@
    }
}

impl RomOnly {
    pub fn load(v: Vec<u8>) -> (r: RomOnly)
        ensures
            r@ == v@,
    {
        RomOnly { rom: v }
    }

    pub fn get_byte(&self, address: u16) -> (v: u8)
        ensures
            v == rom_at(self@, address as int),
    {
        rom_byte(&self.rom, address as usize)
    }
}

/// The MBC1 mapper: a 5-bit ROM bank register, a 2-bit upper bank register,
/// a banking mode and a RAM enable latch.
pub struct MBC1 {
    rom: Vec<u8>,
    ram: Vec<u8>,
    size_code: u8,
    ramg: bool,
    mode: bool,
    bank1_reg: u8,
    bank2_reg: u8,
}

impl View for MBC1 {
    type V = Mbc1View;

    closed spec fn view(&self) -> Mbc1View {
        Mbc1View {
            rom: self.rom@,
            ram: self.ram@,
            size: rom_size_of(self.size_code),
            ramg: self.ramg,
            mode: self.mode,
            bank1: self.bank1_reg,
            bank2: self.bank2_reg,
        }
    }
}

impl MBC1 {
    pub open spec fn wf(&self) -> bool {
        self@.wf()
    }

    /// Sets the mapper up from a ROM image: sizes come from header bytes
    /// 0x148 and 0x149, RAM starts zeroed and disabled, bank 1 selected.
    pub fn load(v: Vec<u8>) -> (r: Result<MBC1, LoadError>)
        requires
            v@.len() >= HEADER_END,
        ensures
            r is Err <==> ram_size_of(v@[0x149]) is None,
            r is Err ==> r == Err::<MBC1, LoadError>(LoadError::InvalidSizeCode),
            r matches Ok(m) ==> {
                &&& m.wf()
                &&& m@.rom == v@
                &&& m@.size == rom_size_of(v@[0x148])
                &&& m@.ram == Seq::new(ram_size_of(v@[0x149])->0, |i: int| 0u8)
                &&& !m@.ramg && !m@.mode && m@.bank1 == 1 && m@.bank2 == 0
            },
    {
        let size_code: u8 = v[0x148];
        let ram_code: u8 = v[0x149];
        let ram_size: usize = match ram_code {
            0 => 0,
            1 => 0x800,
            2 => 0x2000,
            3 => 0x8000,
            4 => 0x20000,
            5 => 0x10000,
            _ => {
                return Err(LoadError::InvalidSizeCode);
            },
        };
        proof {
            lemma_pow2_pos(size_code as nat);
        }
        Ok(
            MBC1 {
                rom: v,
                ram: zeroed(ram_size),
                size_code,
                ramg: false,
                mode: false,
                bank1_reg: 1,
                bank2_reg: 0,
            },
        )
    }

    fn ram_index(&self, address: u16) -> (i: usize)
        requires
            self.wf(),
            self@.ram.len() > 0,
            0xA000 <= address < 0xC000,
        ensures
            i == self@.ram_index(address),
            i < self@.ram.len(),
    {
        let offset: usize = (address - 0xA000) as usize;
        let idx: usize = if self.mode {
            self.bank2_reg as usize * 0x2000 + offset
        } else {
            offset
        };
        idx % self.ram.len()
    }

    pub fn get_byte(&self, address: u16) -> (v: u8)
        requires
            self.wf(),
        ensures
            v == self@.read(address),
    {
        if address < 0x4000 {
            if self.mode {
                let idx: u32 = wrap_rom(self.bank2_reg as u32 * 0x80000 + address as u32, self.size_code);
                rom_byte(&self.rom, idx as usize)
            } else {
                rom_byte(&self.rom, address as usize)
            }
        } else if address < 0x8000 {
            let idx: u32 = wrap_rom(
                self.bank2_reg as u32 * 0x80000 + self.bank1_reg as u32 * 0x4000 + (address - 0x4000) as u32,
                self.size_code,
            );
            rom_byte(&self.rom, idx as usize)
        } else if 0xA000 <= address && address < 0xC000 {
            if self.ramg && self.ram.len() > 0 {
                self.ram[self.ram_index(address)]
            } else {
                0
            }
        } else {
            0
        }
    }

    pub fn set_byte(&mut self, address: u16, value: u8)
        requires
            old(self).wf(),
        ensures
            final(self).wf(),
            final(self)@ == old(self)@.write(address, value),
    {
        if address < 0x2000 {
            self.ramg = value % 16 == 0xA;
        } else if address < 0x4000 {
            let v5: u8 = value % 32;
            self.bank1_reg = if v5 == 0 {
                1
            } else {
                v5
            };
        } else if address < 0x6000 {
            self.bank2_reg = value % 4;
        } else if address < 0x8000 {
            self.mode = value % 2 == 1;
        } else if 0xA000 <= address && address < 0xC000 && self.ramg && self.ram.len() > 0 {
            let i = self.ram_index(address);
            self.ram.set(i, value);
        }
    }
}

/// The cartridge in the slot: one of the two mapper variants.
pub enum Cartridge {
    RomOnly(RomOnly),
    MBC1(MBC1),
}

/// What the bus sees of a cartridge.
pub ghost enum CartView {
    RomOnly(Seq<u8>),
    Mbc1(Mbc1View),
}

impl CartView {
    pub open spec fn wf(self) -> bool {
        match self {
            CartView::RomOnly(_) => true,
            CartView::Mbc1(m) => m.wf(),
        }
    }

    /// Whether the cartridge answers 0xA000..0xBFFF itself.
    pub open spec fn has_mapper(self) -> bool {
        self is Mbc1
    }

    pub open spec fn read(self, address: u16) -> u8 {
        match self {
            CartView::RomOnly(rom) => rom_at(rom, address as int),
            CartView::Mbc1(m) => m.read(address),
        }
    }

    pub open spec fn write(self, address: u16, value: u8) -> CartView {
        match self {
            CartView::RomOnly(rom) => self,
            CartView::Mbc1(m) => CartView::Mbc1(m.write(address, value)),
        }
    }
}

impl View for Cartridge {
    type V = CartView;

    open spec fn view(&self) -> CartView {
        match self {
            Cartridge::RomOnly(c) => CartView::RomOnly(c@),
            Cartridge::MBC1(m) => CartView::Mbc1(m@),
        }
    }
}

impl Cartridge {
    pub open spec fn wf(&self) -> bool {
        self@.wf()
    }

    pub fn has_mapper(&self) -> (r: bool)
        ensures
            r == self@.has_mapper(),
    {
        match self {
            Cartridge::RomOnly(_) => false,
            Cartridge::MBC1(_) => true,
        }
    }

    pub fn get_byte(&self, address: u16) -> (v: u8)
        requires
            self.wf(),
        ensures
            v == self@.read(address),
    {
        match self {
            Cartridge::RomOnly(c) => c.get_byte(address),
            Cartridge::MBC1(m) => m.get_byte(address),
        }
    }

    pub fn set_byte(&mut self, address: u16, value: u8)
        requires
            old(self).wf(),
        ensures
            final(self).wf(),
            final(self)@ == old(self)@.write(address, value),
    {
        match self {
            Cartridge::RomOnly(_) => {},
            Cartridge::MBC1(m) => m.set_byte(address, value),
        }
    }
}

impl CartridgeType {
    /// The mapper that header byte 0x147 names: 0 is ROM-only, 1 to 3 are MBC1.
    pub fn get_cartridge_type(b: u8) -> (r: Option<CartridgeType>)
        ensures
            r == cartridge_type_of(b),
    {
        match b {
            0 => Some(CartridgeType::RomOnly),
            1 | 2 | 3 => Some(CartridgeType::MBC1),
            _ => None,
        }
    }

    /// Builds the cartridge of this type around a ROM image.
    pub fn load(&self, v: Vec<u8>) -> (r: Result<Cartridge, LoadError>)
        requires
            v@.len() >= HEADER_END,
        ensures
            *self == CartridgeType::RomOnly ==> (r matches Ok(c) && c@ == CartView::RomOnly(v@)),
            *self == CartridgeType::MBC1 ==> {
                &&& r is Err <==> ram_size_of(v@[0x149]) is None
                &&& r is Err ==> r == Err::<Cartridge, LoadError>(LoadError::InvalidSizeCode)
                &&& r matches Ok(c) ==> c@ is Mbc1 && c@->Mbc1_0.rom == v@ && c@->Mbc1_0.size
                    == rom_size_of(v@[0x148]) && c@->Mbc1_0.bank1 == 1 && c@->Mbc1_0.bank2 == 0
                    && !c@->Mbc1_0.ramg && !c@->Mbc1_0.mode && c@->Mbc1_0.ram == Seq::new(
                    ram_size_of(v@[0x149])->0,
                    |i: int| 0u8,
                )
            },
            r matches Ok(c) ==> c.wf(),
    {
        match self {
            CartridgeType::RomOnly => Ok(Cartridge::RomOnly(RomOnly::load(v))),
            CartridgeType::MBC1 => match MBC1::load(v) {
                Ok(m) => Ok(Cartridge::MBC1(m)),
                Err(e) => Err(e),
            },
        }
    }
}

/// Why a ROM image cannot be loaded, if it cannot: the header must be
/// there, name a known mapper, and (for MBC1) carry a known RAM size code.
pub open spec fn load_error_of(rom: Seq<u8>) -> Option<LoadError> {
    if rom.len() < HEADER_END {
        Some(LoadError::MissingHeader)
    } else if cartridge_type_of(rom[0x147]) is None {
        Some(LoadError::UnsupportedMapper)
    } else if cartridge_type_of(rom[0x147]) == Some(CartridgeType::MBC1) && ram_size_of(rom[0x149]) is None {
        Some(LoadError::InvalidSizeCode)
    } else {
        None
    }
}

/// Reads a ROM header and builds the cartridge it describes.
pub fn load_cartridge(rom: Vec<u8>) -> (r: Result<Cartridge, LoadError>)
    ensures
        r is Err <==> load_error_of(rom@) is Some,
        r matches Err(e) ==> load_error_of(rom@) == Some(e),
        r matches Ok(c) ==> c.wf(),
        r is Ok && cartridge_type_of(rom@[0x147]) == Some(CartridgeType::RomOnly) ==> r->Ok_0@
            == CartView::RomOnly(rom@),
        r is Ok && cartridge_type_of(rom@[0x147]) == Some(CartridgeType::MBC1) ==> r->Ok_0@ is Mbc1
            && r->Ok_0@->Mbc1_0.rom == rom@ && r->Ok_0@->Mbc1_0.size == rom_size_of(rom@[0x148])
            && r->Ok_0@->Mbc1_0.bank1 == 1 && r->Ok_0@->Mbc1_0.bank2 == 0 && !r->Ok_0@->Mbc1_0.ramg
            && !r->Ok_0@->Mbc1_0.mode && r->Ok_0@->Mbc1_0.ram == Seq::new(
            ram_size_of(rom@[0x149])->0,
            |i: int| 0u8,
        ),
{
    if rom.len() < HEADER_END {
        return Err(LoadError::MissingHeader);
    }
    match CartridgeType::get_cartridge_type(rom[0x147]) {
        Some(t) => t.load(rom),
        None => Err(LoadError::UnsupportedMapper),
    }
}

} // verus!
