//! The plain RAM regions of the address map. Each holds its bytes in a vector
//! of fixed length and is addressed by bus addresses within its own range;
//! no region has side effects.
use vstd::prelude::*;

verus! {

/// A vector of `n` zero bytes.
pub fn zeroed(n: usize) -> (v: Vec<u8>)
    ensures
        v@ == Seq::new(n as nat, |i: int| 0u8),
{
    let mut v: Vec<u8> = Vec::new();
    let mut i: usize = 0;
    while i < n
        invariant
            i <= n,
            v@ == Seq::new(i as nat, |k: int| 0u8),
        decreases n - i,
    {
        v.push(0);
        i = i + 1;
        assert(v@ =~= Seq::new(i as nat, |k: int| 0u8));
    }
    v
}

/// Video RAM at 0x8000..0x9FFF (8 KiB): tile data and the two tile maps.
pub struct VRam {
    mem: Vec<u8>,
}

impl View for VRam {
    type V = Seq<u8>;

    closed spec fn view(&self) -> Seq<u8> {
        self.mem@
    }
}

impl VRam {
    pub open spec fn wf(&self) -> bool {
        self@.len() == 0x2000
    }

    pub open spec fn in_range(address: u16) -> bool {
        0x8000 <= address < 0xA000
    }

    pub open spec fn read_spec(&self, address: u16) -> u8 {
        self@[address - 0x8000]
    }

    pub fn get_byte(&self, address: u16) -> (v: u8)
        requires
            self.wf(),
            Self::in_range(address),
        ensures
            v == self.read_spec(address),
    {
        self.mem[(address - 0x8000) as usize]
    }

    pub fn set_byte(&mut self, address: u16, value: u8)
        requires
            old(self).wf(),
            Self::in_range(address),
        ensures
            final(self)@ == old(self)@.update(address - 0x8000, value),
    {
        self.mem.set((address - 0x8000) as usize, value);
    }
}

impl Default for VRam {
    fn default() -> (r: Self)
        ensures
            r.wf(),
            r@ == Seq::new(0x2000, |i: int| 0u8),
    {
        VRam { mem: zeroed(0x2000) }
    }
}

/// Plain external RAM at 0xA000..0xBFFF (8 KiB), used when the cartridge has no mapper.
pub struct ExtRam {
    mem: Vec<u8>,
}

impl View for ExtRam {
    type V = Seq<u8>;

    closed spec fn view(&self) -> Seq<u8> {
        self.mem@
    }
}

impl ExtRam {
    pub open spec fn wf(&self) -> bool {
        self@.len() == 0x2000
    }

    pub open spec fn in_range(address: u16) -> bool {
        0xA000 <= address < 0xC000
    }

    pub open spec fn read_spec(&self, address: u16) -> u8 {
        self@[address - 0xA000]
    }

    pub fn get_byte(&self, address: u16) -> (v: u8)
        requires
            self.wf(),
            Self::in_range(address),
        ensures
            v == self.read_spec(address),
    {
        self.mem[(address - 0xA000) as usize]
    }

    pub fn set_byte(&mut self, address: u16, value: u8)
        requires
            old(self).wf(),
            Self::in_range(address),
        ensures
            final(self)@ == old(self)@.update(address - 0xA000, value),
    {
        self.mem.set((address - 0xA000) as usize, value);
    }
}

impl Default for ExtRam {
    fn default() -> (r: Self)
        ensures
            r.wf(),
            r@ == Seq::new(0x2000, |i: int| 0u8),
    {
        ExtRam { mem: zeroed(0x2000) }
    }
}

/// Work RAM at 0xC000..0xDFFF (8 KiB, banks 0 and 1).
pub struct WorkRam {
    mem: Vec<u8>,
}

impl View for WorkRam {
    type V = Seq<u8>;

    closed spec fn view(&self) -> Seq<u8> {
        self.mem@
    }
}

impl WorkRam {
    pub open spec fn wf(&self) -> bool {
        self@.len() == 0x2000
    }

    pub open spec fn in_range(address: u16) -> bool {
        0xC000 <= address < 0xE000
    }

    pub open spec fn read_spec(&self, address: u16) -> u8 {
        self@[address - 0xC000]
    }

    pub fn get_byte(&self, address: u16) -> (v: u8)
        requires
            self.wf(),
            Self::in_range(address),
        ensures
            v == self.read_spec(address),
    {
        self.mem[(address - 0xC000) as usize]
    }

    pub fn set_byte(&mut self, address: u16, value: u8)
        requires
            old(self).wf(),
            Self::in_range(address),
        ensures
            final(self)@ == old(self)@.update(address - 0xC000, value),
    {
        self.mem.set((address - 0xC000) as usize, value);
    }
}

impl Default for WorkRam {
    fn default() -> (r: Self)
        ensures
            r.wf(),
            r@ == Seq::new(0x2000, |i: int| 0u8),
    {
        WorkRam { mem: zeroed(0x2000) }
    }
}

/// Object attribute memory at 0xFE00..0xFE9F: forty four-byte sprite entries.
pub struct OAM {
    mem: Vec<u8>,
}

impl View for OAM {
    type V = Seq<u8>;

    closed spec fn view(&self) -> Seq<u8> {
        self.mem@
    }
}

impl OAM {
    pub open spec fn wf(&self) -> bool {
        self@.len() == 0xA0
    }

    pub open spec fn in_range(address: u16) -> bool {
        0xFE00 <= address < 0xFEA0
    }

    pub open spec fn read_spec(&self, address: u16) -> u8 {
        self@[address - 0xFE00]
    }

    pub fn get_byte(&self, address: u16) -> (v: u8)
        requires
            self.wf(),
            Self::in_range(address),
        ensures
            v == self.read_spec(address),
    {
        self.mem[(address - 0xFE00) as usize]
    }

    pub fn set_byte(&mut self, address: u16, value: u8)
        requires
            old(self).wf(),
            Self::in_range(address),
        ensures
            final(self)@ == old(self)@.update(address - 0xFE00, value),
    {
        self.mem.set((address - 0xFE00) as usize, value);
    }
}

impl Default for OAM {
    fn default() -> (r: Self)
        ensures
            r.wf(),
            r@ == Seq::new(0xA0, |i: int| 0u8),
    {
        OAM { mem: zeroed(0xA0) }
    }
}

/// High RAM at 0xFF80..0xFFFE (127 bytes).
pub struct HRam {
    mem: Vec<u8>,
}

impl View for HRam {
    type V = Seq<u8>;

    closed spec fn view(&self) -> Seq<u8> {
        self.mem@
    }
}

impl HRam {
    pub open spec fn wf(&self) -> bool {
        self@.len() == 0x7F
    }

    pub open spec fn in_range(address: u16) -> bool {
        0xFF80 <= address < 0xFFFF
    }

    pub open spec fn read_spec(&self, address: u16) -> u8 {
        self@[address - 0xFF80]
    }

    pub fn get_byte(&self, address: u16) -> (v: u8)
        requires
            self.wf(),
            Self::in_range(address),
        ensures
            v == self.read_spec(address),
    {
        self.mem[(address - 0xFF80) as usize]
    }

    pub fn set_byte(&mut self, address: u16, value: u8)
        requires
            old(self).wf(),
            Self::in_range(address),
        ensures
            final(self)@ == old(self)@.update(address - 0xFF80, value),
    {
        self.mem.set((address - 0xFF80) as usize, value);
    }
}

impl Default for HRam {
    fn default() -> (r: Self)
        ensures
            r.wf(),
            r@ == Seq::new(0x7F, |i: int| 0u8),
    {
        HRam { mem: zeroed(0x7F) }
    }
}

} // verus!
