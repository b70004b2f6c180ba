//! The picture processor: a line-scan state machine (OAM search, pixel
//! transfer, H-blank, V-blank) that composes background, window and sprites
//! into a 160x144 image of palette indices and raises the STAT and V-blank
//! interrupts.
use vstd::prelude::*;
use crate::alu::signed;
use crate::bus::{Bus, BusView};
use crate::io::IoView;
use crate::memory::zeroed;

verus! {

pub const WIDTH: usize = 160;

pub const HEIGHT: usize = 144;

/// The most sprites one line can show.
pub const MAX_SPRITES: usize = 10;

/// Budgets of the four states, in machine cycles.
pub const OAM_SEARCH_CYCLES: i32 = 20;

pub const PIXEL_TRANSFER_CYCLES: i32 = 43;

pub const HBLANK_CYCLES: i32 = 51;

pub const VBLANK_LINE_CYCLES: i32 = 456;

/// STAT mode numbers.
pub const MODE_HBLANK: u8 = 0;

pub const MODE_VBLANK: u8 = 1;

pub const MODE_OAM_SEARCH: u8 = 2;

pub const MODE_PIXEL_TRANSFER: u8 = 3;

/// One sprite's attribute entry as read from OAM.
#[derive(Debug, Clone, Copy, PartialEq, Eq, Structural)]
pub struct OamEntry {
    /// Screen Y plus 16.
    pub ypos: u8,
    /// Screen X plus 8.
    pub xpos: u8,
    pub tile: u8,
    /// Bit 7: behind non-zero background; bit 6: Y flip; bit 5: X flip;
    /// bit 4: palette OBP1.
    pub attrs: u8,
}

/// Bit `n` of `v`.
pub open spec fn bit(v: u8, n: u8) -> bool {
    (v >> n) & 1 == 1
}

fn test(v: u8, n: u8) -> (r: bool)
    requires
        n < 8,
    ensures
        r == bit(v, n),
{
    (v >> n) & 1 == 1
}

/// The shade a palette register gives color index `ci`.
pub open spec fn palette(p: u8, ci: u8) -> u8 {
    (p >> (ci * 2) as u8) & 3
}

fn shade(p: u8, ci: u8) -> (r: u8)
    requires
        ci < 4,
    ensures
        r == palette(p, ci),
{
    (p >> (ci * 2)) & 3
}

/// The 2-bit color index of column `col` of a tile row given by its two bytes.
pub open spec fn color_index(lo: u8, hi: u8, col: u8) -> u8 {
    ((if bit(hi, (7 - col) as u8) {
        2int
    } else {
        0
    }) + (if bit(lo, (7 - col) as u8) {
        1int
    } else {
        0
    })) as u8
}

/// Address of row `row` of tile `tile`: from 0x8000 unsigned, or from 0x9000 signed.
pub open spec fn tile_row_addr(unsigned: bool, tile: u8, row: u8) -> u16 {
    if unsigned {
        (0x8000 + tile * 16 + row * 2) as u16
    } else {
        (0x9000 + signed(tile) * 16 + row * 2) as u16
    }
}

/// Color index at (`px`, `py`) of the 256x256 layer drawn from a tile map.
pub open spec fn layer_index(m: BusView, map: u16, unsigned: bool, px: u8, py: u8) -> u8 {
    let t = m.read((map + (py / 8) * 32 + px / 8) as u16);
    let a = tile_row_addr(unsigned, t, py % 8);
    color_index(m.read(a), m.read((a + 1) as u16), px % 8)
}

pub open spec fn bg_map(lcdc: u8) -> u16 {
    if bit(lcdc, 3) {
        0x9C00
    } else {
        0x9800
    }
}

pub open spec fn win_map(lcdc: u8) -> u16 {
    if bit(lcdc, 6) {
        0x9C00
    } else {
        0x9800
    }
}

/// Background color index of screen pixel (`x`, `ly`), scrolled by SCX/SCY.
pub open spec fn bg_index(m: BusView, x: u8, ly: u8) -> u8 {
    layer_index(
        m,
        bg_map(m.io.lcdc),
        bit(m.io.lcdc, 4),
        x.wrapping_add(m.io.scx),
        ly.wrapping_add(m.io.scy),
    )
}

/// Whether the window covers screen pixel (`x`, `ly`).
pub open spec fn window_covers(io: IoView, x: u8, ly: u8) -> bool {
    bit(io.lcdc, 5) && ly >= io.wy && x + 7 >= io.wx
}

/// Window color index of a pixel it covers; WX carries a bias of 7.
pub open spec fn win_index(m: BusView, x: u8, ly: u8) -> u8 {
    layer_index(
        m,
        win_map(m.io.lcdc),
        bit(m.io.lcdc, 4),
        (x + 7 - m.io.wx) as u8,
        (ly - m.io.wy) as u8,
    )
}

pub open spec fn sprite_height(lcdc: u8) -> u8 {
    if bit(lcdc, 2) {
        16
    } else {
        8
    }
}

/// Whether a sprite's rows include line `ly`.
pub open spec fn on_line(e: OamEntry, ly: u8, h: u8) -> bool {
    e.ypos <= ly + 16 < e.ypos + h
}

/// Whether a sprite's columns include column `x`.
pub open spec fn covers(e: OamEntry, x: u8) -> bool {
    e.xpos <= x + 8 < e.xpos + 8
}

/// Address of row `row` of a sprite's tile; 8x16 sprites use the even tile
/// and the one after it.
pub open spec fn sprite_row_addr(tile: u8, h: u8, row: u8) -> u16 {
    let t = if h == 16 {
        tile & 0xFE
    } else {
        tile
    };
    (0x8000 + t * 16 + row * 2) as u16
}

/// The color index a sprite shows at (`x`, `ly`), flips applied.
pub open spec fn sprite_index(m: BusView, e: OamEntry, x: u8, ly: u8) -> u8 {
    let h = sprite_height(m.io.lcdc);
    let row0 = ly.wrapping_add(16).wrapping_sub(e.ypos) % h;
    let row = if bit(e.attrs, 6) {
        (h - 1 - row0) as u8
    } else {
        row0
    };
    let a = sprite_row_addr(e.tile, h, row);
    let col0 = x.wrapping_add(8).wrapping_sub(e.xpos) % 8;
    let col = if bit(e.attrs, 5) {
        (7 - col0) as u8
    } else {
        col0
    };
    color_index(m.read(a), m.read((a + 1) as u16), col)
}

/// The sprite that shows at column `x` among `es`: of those covering `x`
/// with a non-transparent pixel, the lowest X, ties to the earlier entry.
pub open spec fn sprite_pick(m: BusView, es: Seq<OamEntry>, x: u8, ly: u8) -> Option<OamEntry>
    decreases es.len(),
{
    if es.len() == 0 {
        None
    } else {
        let prev = sprite_pick(m, es.drop_last(), x, ly);
        let e = es.last();
        if covers(e, x) && sprite_index(m, e, x, ly) != 0 && (prev is None || e.xpos
            < prev->0.xpos) {
            Some(e)
        } else {
            prev
        }
    }
}

/// Color index of the background, or of the window where it covers.
pub open spec fn back_index(m: BusView, x: u8, ly: u8) -> u8 {
    if window_covers(m.io, x, ly) {
        win_index(m, x, ly)
    } else {
        bg_index(m, x, ly)
    }
}

/// The shade of screen pixel (`x`, `ly`): background, or window where it
/// covers, then the chosen sprite unless it is behind a non-zero background.
pub open spec fn pixel_spec(m: BusView, es: Seq<OamEntry>, x: u8, ly: u8) -> u8 {
    let bgi = back_index(m, x, ly);
    let bgs = palette(m.io.bgp, bgi);
    if bit(m.io.lcdc, 1) {
        match sprite_pick(m, es, x, ly) {
            Some(e) => if bit(e.attrs, 7) && bgi != 0 {
                bgs
            } else {
                palette(
                    if bit(e.attrs, 4) {
                        m.io.obp1
                    } else {
                        m.io.obp0
                    },
                    sprite_index(m, e, x, ly),
                )
            },
            None => bgs,
        }
    } else {
        bgs
    }
}

/// The OAM entry `i` as stored in `oam`.
pub open spec fn entry_at(oam: Seq<u8>, i: int) -> OamEntry {
    OamEntry { ypos: oam[4 * i], xpos: oam[4 * i + 1], tile: oam[4 * i + 2], attrs: oam[4 * i + 3] }
}

/// The sprites of line `ly` among the first `n` OAM entries, in OAM order,
/// at most ten.
pub open spec fn select(oam: Seq<u8>, ly: u8, h: u8, n: int) -> Seq<OamEntry>
    decreases n,
{
    if n <= 0 {
        Seq::empty()
    } else {
        let prev = select(oam, ly, h, n - 1);
        let e = entry_at(oam, n - 1);
        if prev.len() < MAX_SPRITES && on_line(e, ly, h) {
            prev.push(e)
        } else {
            prev
        }
    }
}

pub proof fn lemma_select_len(oam: Seq<u8>, ly: u8, h: u8, n: int)
    ensures
        select(oam, ly, h, n).len() <= MAX_SPRITES,
    decreases n,
{
    if n > 0 {
        lemma_select_len(oam, ly, h, n - 1);
    }
}

impl OamEntry {
    pub fn new() -> (r: Self)
        ensures
            r == (OamEntry { ypos: 0, xpos: 0, tile: 0, attrs: 0 }),
    {
        OamEntry { ypos: 0, xpos: 0, tile: 0, attrs: 0 }
    }

    /// The OAM search: the first ten entries, in OAM order, whose rows
    /// include line `ly`; sprites are 8x16 when `obj16`, else 8x8.
    pub fn get_oam_line(bus: &Bus, ly: u8, obj16: bool) -> (r: Vec<OamEntry>)
        requires
            bus.wf(),
        ensures
            r@ == select(bus@.oam, ly, if obj16 { 16 } else { 8 }, 40),
            r@.len() <= MAX_SPRITES,
    {
        let h: u8 = if obj16 {
            16
        } else {
            8
        };
        let mut ret: Vec<OamEntry> = Vec::new();
        let mut i: u16 = 0;
        while i < 40
            invariant
                bus.wf(),
                i <= 40,
                ret@ == select(bus@.oam, ly, h, i as int),
            decreases 40 - i,
        {
            let base: u16 = 0xFE00 + i * 4;
            let e = OamEntry {
                ypos: bus.oam.get_byte(base),
                xpos: bus.oam.get_byte(base + 1),
                tile: bus.oam.get_byte(base + 2),
                attrs: bus.oam.get_byte(base + 3),
            };
            assert(e == entry_at(bus@.oam, i as int));
            if ret.len() < MAX_SPRITES && e.ypos as u16 <= ly as u16 + 16 && (ly as u16 + 16)
                < e.ypos as u16 + h as u16 {
                ret.push(e);
            }
            i = i + 1;
        }
        proof {
            lemma_select_len(bus@.oam, ly, h, 40);
        }
        ret
    }
}

/// The picture processor's own state.
pub ghost struct PpuView {
    pub image: Seq<u8>,
    pub ready: bool,
    pub entries: Seq<OamEntry>,
}

/// The image after line `ly` was drawn.
pub open spec fn with_line(image: Seq<u8>, m: BusView, es: Seq<OamEntry>, ly: u8) -> Seq<u8> {
    Seq::new(
        image.len(),
        |k: int|
            if ly * WIDTH <= k < ly * WIDTH + WIDTH {
                pixel_spec(m, es, (k - ly * WIDTH) as u8, ly)
            } else {
                image[k]
            },
    )
}

/// STAT with its mode bits replaced.
pub open spec fn with_mode(stat: u8, mode: u8) -> u8 {
    ((stat & 0xFC) | mode) as u8
}

/// OAM search ends: the line's sprites are captured and pixel transfer begins.
pub open spec fn oam_search_spec(p: PpuView, m: BusView) -> (PpuView, BusView) {
    (
        PpuView {
            entries: select(m.oam, m.io.ly, sprite_height(m.io.lcdc), 40),
            ..p
        },
        BusView { io: IoView { stat: with_mode(m.io.stat, MODE_PIXEL_TRANSFER), ..m.io }, ..m },
    )
}

/// Pixel transfer ends: the line is drawn, H-blank begins, and the mode-0
/// STAT interrupt is requested when enabled.
pub open spec fn pixel_transfer_spec(p: PpuView, m: BusView) -> (PpuView, BusView) {
    let image = if m.io.ly < HEIGHT {
        with_line(p.image, m, p.entries, m.io.ly)
    } else {
        p.image
    };
    let iflag = if bit(m.io.stat, 3) {
        m.io.interrupt_flag | 2
    } else {
        m.io.interrupt_flag
    };
    (
        PpuView { image, entries: Seq::empty(), ..p },
        BusView {
            io: IoView {
                stat: with_mode(m.io.stat, MODE_HBLANK),
                interrupt_flag: iflag,
                ..m.io
            },
            ..m
        },
    )
}

/// H-blank ends: LY advances; after line 143 V-blank begins (V-blank
/// interrupt, mode-1 STAT interrupt when enabled, frame ready), else OAM
/// search (mode-2 STAT interrupt when enabled).
pub open spec fn hblank_spec(p: PpuView, m: BusView) -> (PpuView, BusView) {
    let ly = m.io.ly;
    let stat = m.io.stat;
    if ly == 143 {
        let iflag = if bit(stat, 4) {
            m.io.interrupt_flag | 2 | 1
        } else {
            m.io.interrupt_flag | 1
        };
        (
            PpuView { ready: true, ..p },
            BusView {
                io: IoView {
                    ly: 144,
                    stat: with_mode(stat, MODE_VBLANK),
                    interrupt_flag: iflag,
                    ..m.io
                },
                ..m
            },
        )
    } else {
        let iflag = if bit(stat, 5) {
            m.io.interrupt_flag | 2
        } else {
            m.io.interrupt_flag
        };
        (
            p,
            BusView {
                io: IoView {
                    ly: ly.wrapping_add(1),
                    stat: with_mode(stat, MODE_OAM_SEARCH),
                    interrupt_flag: iflag,
                    ..m.io
                },
                ..m
            },
        )
    }
}

/// One V-blank line ends: LY advances, and past line 153 the frame restarts
/// at line 0 in OAM search.
pub open spec fn vblank_spec(m: BusView) -> BusView {
    let ly = m.io.ly as int + 1;
    if ly >= 154 {
        BusView { io: IoView { ly: 0, stat: with_mode(m.io.stat, MODE_OAM_SEARCH), ..m.io }, ..m }
    } else {
        BusView { io: IoView { ly: ly as u8, ..m.io }, ..m }
    }
}

/// The LYC comparison made at the start of every tick: STAT bit 2 follows
/// LY == LYC, and a match requests the STAT interrupt when STAT bit 6 is set.
pub open spec fn coincidence_spec(io: IoView) -> IoView {
    let same = io.ly == io.lyc;
    let stat = if same {
        io.stat | 4
    } else {
        io.stat & 0xFB
    };
    let iflag = if same && bit(stat, 6) {
        io.interrupt_flag | 2
    } else {
        io.interrupt_flag
    };
    IoView { stat, interrupt_flag: iflag, ..io }
}

/// One PPU tick with `steps` machine cycles of budget; returns the budget left.
pub open spec fn ppu_tick_spec(p: PpuView, m: BusView, steps: i32) -> (PpuView, BusView, i32) {
    if steps < 1 {
        (p, m, steps)
    } else if !bit(m.io.lcdc, 7) {
        (p, m, 0)
    } else {
        let m1 = BusView { io: coincidence_spec(m.io), ..m };
        let mode = m1.io.stat % 4;
        if mode == MODE_OAM_SEARCH {
            if steps < OAM_SEARCH_CYCLES {
                (p, m1, steps)
            } else {
                let (p2, m2) = oam_search_spec(p, m1);
                (p2, m2, (steps - OAM_SEARCH_CYCLES) as i32)
            }
        } else if mode == MODE_PIXEL_TRANSFER {
            if steps < PIXEL_TRANSFER_CYCLES {
                (p, m1, steps)
            } else {
                let (p2, m2) = pixel_transfer_spec(p, m1);
                (p2, m2, (steps - PIXEL_TRANSFER_CYCLES) as i32)
            }
        } else if mode == MODE_HBLANK {
            if steps < HBLANK_CYCLES {
                (p, m1, steps)
            } else {
                let (p2, m2) = hblank_spec(p, m1);
                (p2, m2, (steps - HBLANK_CYCLES) as i32)
            }
        } else {
            if steps < VBLANK_LINE_CYCLES {
                (p, m1, steps)
            } else {
                (p, vblank_spec(m1), (steps - VBLANK_LINE_CYCLES) as i32)
            }
        }
    }
}

/// A tick leaves the PPU budget between 0 and 456 when it starts between 1 and 457.
pub proof fn lemma_ppu_budget(p: PpuView, m: BusView, steps: i32)
    requires
        1 <= steps <= 457,
    ensures
        0 <= ppu_tick_spec(p, m, steps).2 <= 456,
{
}

proof fn lemma_stat_bits(s: u8, x: u8)
    by (bit_vector)
    ensures
        (s & 0xF8) % 4 == 0,
        ((x & 0xF8) | (s & 0x07)) % 4 == s % 4,
        (s | 4) % 4 == s % 4,
        (s & 0xFB) % 4 == s % 4,
        ((s & 0xFC) | 0) % 4 == 0,
        ((s & 0xFC) | 1) % 4 == 1,
        ((s & 0xFC) | 2) % 4 == 2,
        ((s & 0xFC) | 3) % 4 == 3,
        (x | 1) & 1 == 1,
        (x | 2 | 1) & 1 == 1,
{
}

/// The tick on which V-blank begins requests the V-blank interrupt (IF
/// bit 0) and marks the frame ready.
pub proof fn lemma_vblank_entry(p: PpuView, m: BusView, steps: i32)
    ensures
        ({
            let (p2, m2, left) = ppu_tick_spec(p, m, steps);
            m.io.stat % 4 != MODE_VBLANK && m2.io.stat % 4 == MODE_VBLANK ==> m2.io.interrupt_flag
                & 1 == 1 && p2.ready
        }),
{
    let io1 = coincidence_spec(m.io);
    lemma_stat_bits(m.io.stat, m.io.interrupt_flag);
    lemma_stat_bits(io1.stat, io1.interrupt_flag);
}

/// LY and the mode agree: LY is at most 153, and at least 144 exactly in V-blank.
pub open spec fn line_invariant(io: IoView) -> bool {
    &&& io.ly <= 153
    &&& (io.ly >= 144 <==> io.stat % 4 == MODE_VBLANK)
}

/// Side of the full tile-map layer, in pixels.
pub const MAP_SIDE: usize = 256;

/// Shade of pixel `k` (row by row) of the whole 256x256 layer drawn from a tile map.
pub open spec fn map_pixel(m: BusView, map: u16, unsigned: bool, k: int) -> u8 {
    palette(m.io.bgp, layer_index(m, map, unsigned, (k % 256) as u8, (k / 256) as u8))
}

/// A PPU tick keeps LY and the mode in agreement.
pub proof fn lemma_tick_keeps_line_invariant(p: PpuView, m: BusView, steps: i32)
    requires
        line_invariant(m.io),
    ensures
        line_invariant(ppu_tick_spec(p, m, steps).1.io),
{
    let io1 = coincidence_spec(m.io);
    lemma_stat_bits(m.io.stat, m.io.interrupt_flag);
    lemma_stat_bits(io1.stat, io1.interrupt_flag);
}

/// No bus write breaks the agreement of LY and the mode.
pub proof fn lemma_write_keeps_line_invariant(m: BusView, address: u16, value: u8)
    requires
        line_invariant(m.io),
    ensures
        line_invariant(m.write(address, value).io),
{
    lemma_stat_bits(m.io.stat, value);
}

pub struct Ppu {
    /// 160x144 palette indices, row by row.
    pub image: Vec<u8>,
    /// Set on V-blank entry: a full frame is in `image`.
    pub ready: bool,
    oam_entries: Vec<OamEntry>,
}

impl View for Ppu {
    type V = PpuView;

    closed spec fn view(&self) -> PpuView {
        PpuView { image: self.image@, ready: self.ready, entries: self.oam_entries@ }
    }
}

impl Ppu {
    pub open spec fn wf(&self) -> bool {
        self@.image.len() == WIDTH * HEIGHT
    }

    pub fn new() -> (r: Self)
        ensures
            r.wf(),
            r@.image == Seq::new((WIDTH * HEIGHT) as nat, |i: int| 0u8),
            !r@.ready,
            r@.entries.len() == 0,
    {
        Ppu { image: zeroed(WIDTH * HEIGHT), ready: false, oam_entries: Vec::new() }
    }

    /// Runs one tick with `steps` machine cycles of budget and returns the
    /// budget left; a state ends only when its whole budget is there.
    pub fn tick(&mut self, bus: &mut Bus, steps: i32) -> (left: i32)
        requires
            old(self).wf(),
            old(bus).wf(),
        ensures
            final(self).wf(),
            final(bus).wf(),
            (final(self)@, final(bus)@, left) == ppu_tick_spec(old(self)@, old(bus)@, steps),
    {
        if steps < 1 {
            return steps;
        }
        if !Self::lcdc_on(bus) {
            return 0;
        }
        self.check_coincidence(bus);
        let mode = bus.io_registers.stat % 4;
        if mode == MODE_OAM_SEARCH {
            if steps < OAM_SEARCH_CYCLES {
                return steps;
            }
            self.do_oam_search(bus);
            steps - OAM_SEARCH_CYCLES
        } else if mode == MODE_PIXEL_TRANSFER {
            if steps < PIXEL_TRANSFER_CYCLES {
                return steps;
            }
            self.do_pixel_transfer(bus);
            steps - PIXEL_TRANSFER_CYCLES
        } else if mode == MODE_HBLANK {
            if steps < HBLANK_CYCLES {
                return steps;
            }
            self.do_hblank(bus);
            steps - HBLANK_CYCLES
        } else {
            if steps < VBLANK_LINE_CYCLES {
                return steps;
            }
            Self::do_vblank(bus);
            steps - VBLANK_LINE_CYCLES
        }
    }

    /// Hands out the frame and clears `ready`.
    pub fn get_image(&mut self) -> (r: Vec<u8>)
        ensures
            r@ == old(self)@.image,
            final(self)@ == (PpuView { ready: false, ..old(self)@ }),
    {
        self.ready = false;
        let mut out: Vec<u8> = Vec::new();
        let mut i: usize = 0;
        while i < self.image.len()
            invariant
                i <= self.image@.len(),
                out@ == self.image@.subrange(0, i as int),
            decreases self.image@.len() - i,
        {
            out.push(self.image[i]);
            i = i + 1;
            assert(out@ =~= self.image@.subrange(0, i as int));
        }
        assert(out@ =~= self.image@);
        out
    }

    /// The whole 256x256 layer drawn from tile map `map` (0x9800 or 0x9C00),
    /// with tile data from 0x8000 unsigned or 0x9000 signed, through BGP.
    pub fn write_image(bus: &Bus, map: u16, unsigned: bool) -> (r: Vec<u8>)
        requires
            bus.wf(),
            map == 0x9800 || map == 0x9C00,
        ensures
            r@ == Seq::new((MAP_SIDE * MAP_SIDE) as nat, |k: int| map_pixel(bus@, map, unsigned, k)),
    {
        let mut out: Vec<u8> = Vec::new();
        let mut i: usize = 0;
        while i < MAP_SIDE * MAP_SIDE
            invariant
                bus.wf(),
                map == 0x9800 || map == 0x9C00,
                i <= MAP_SIDE * MAP_SIDE,
                out@ == Seq::new(i as nat, |k: int| map_pixel(bus@, map, unsigned, k)),
            decreases MAP_SIDE * MAP_SIDE - i,
        {
            let ci = Self::layer_pixel(bus, map, unsigned, (i % MAP_SIDE) as u8, (i / MAP_SIDE) as u8);
            out.push(shade(bus.io_registers.bgp, ci));
            i = i + 1;
            assert(out@ =~= Seq::new(i as nat, |k: int| map_pixel(bus@, map, unsigned, k)));
        }
        out
    }

    pub fn lcdc_on(bus: &Bus) -> (r: bool)
        ensures
            r == bit(bus@.io.lcdc, 7),
    {
        test(bus.io_registers.lcdc, 7)
    }

    fn check_coincidence(&self, bus: &mut Bus)
        requires
            old(bus).wf(),
        ensures
            final(bus).wf(),
            final(bus)@ == (BusView { io: coincidence_spec(old(bus)@.io), ..old(bus)@ }),
    {
        let io = &mut bus.io_registers;
        let same = io.ly == io.lyc;
        if same {
            io.stat = io.stat | 4;
        } else {
            io.stat = io.stat & 0xFB;
        }
        if same && test(io.stat, 6) {
            io.interrupt_flag = io.interrupt_flag | 2;
        }
    }

    fn set_video_mode(bus: &mut Bus, mode: u8)
        requires
            old(bus).wf(),
        ensures
            final(bus).wf(),
            final(bus)@ == (BusView {
                io: IoView { stat: with_mode(old(bus)@.io.stat, mode), ..old(bus)@.io },
                ..old(bus)@
            }),
    {
        bus.io_registers.stat = (bus.io_registers.stat & 0xFC) | mode;
    }

    fn do_oam_search(&mut self, bus: &mut Bus)
        requires
            old(self).wf(),
            old(bus).wf(),
        ensures
            final(self).wf(),
            final(bus).wf(),
            (final(self)@, final(bus)@) == oam_search_spec(old(self)@, old(bus)@),
    {
        let double_size = test(bus.io_registers.lcdc, 2);
        self.oam_entries = OamEntry::get_oam_line(bus, bus.io_registers.ly, double_size);
        Self::set_video_mode(bus, MODE_PIXEL_TRANSFER);
    }

    fn do_pixel_transfer(&mut self, bus: &mut Bus)
        requires
            old(self).wf(),
            old(bus).wf(),
        ensures
            final(self).wf(),
            final(bus).wf(),
            (final(self)@, final(bus)@) == pixel_transfer_spec(old(self)@, old(bus)@),
    {
        if (bus.io_registers.ly as usize) < HEIGHT {
            self.writeline(bus);
        }
        self.oam_entries = Vec::new();
        assert(self.oam_entries@ =~= Seq::<OamEntry>::empty());
        if test(bus.io_registers.stat, 3) {
            bus.io_registers.interrupt_flag = bus.io_registers.interrupt_flag | 2;
        }
        Self::set_video_mode(bus, MODE_HBLANK);
    }

    fn do_hblank(&mut self, bus: &mut Bus)
        requires
            old(self).wf(),
            old(bus).wf(),
        ensures
            final(self).wf(),
            final(bus).wf(),
            (final(self)@, final(bus)@) == hblank_spec(old(self)@, old(bus)@),
    {
        let line = bus.io_registers.ly;
        let stat = bus.io_registers.stat;
        if line == 143 {
            if test(stat, 4) {
                bus.io_registers.interrupt_flag = bus.io_registers.interrupt_flag | 2;
            }
            bus.io_registers.interrupt_flag = bus.io_registers.interrupt_flag | 1;
            Self::set_video_mode(bus, MODE_VBLANK);
            self.ready = true;
        } else {
            if test(stat, 5) {
                bus.io_registers.interrupt_flag = bus.io_registers.interrupt_flag | 2;
            }
            Self::set_video_mode(bus, MODE_OAM_SEARCH);
        }
        bus.io_registers.ly = line.wrapping_add(1);
    }

    fn do_vblank(bus: &mut Bus)
        requires
            old(bus).wf(),
        ensures
            final(bus).wf(),
            final(bus)@ == vblank_spec(old(bus)@),
    {
        let line = bus.io_registers.ly;
        if line >= 153 {
            bus.io_registers.ly = 0;
            Self::set_video_mode(bus, MODE_OAM_SEARCH);
        } else {
            bus.io_registers.ly = line + 1;
        }
    }

    /// Color index of (`px`, `py`) in the layer drawn from tile map `map`.
    fn layer_pixel(bus: &Bus, map: u16, unsigned: bool, px: u8, py: u8) -> (r: u8)
        requires
            bus.wf(),
            map == 0x9800 || map == 0x9C00,
        ensures
            r == layer_index(bus@, map, unsigned, px, py),
    {
        let t = bus.get_byte(map + (py / 8) as u16 * 32 + (px / 8) as u16);
        let row = (py % 8) as u16;
        let a: u16 = if unsigned {
            0x8000 + t as u16 * 16 + row * 2
        } else if t < 128 {
            0x9000 + t as u16 * 16 + row * 2
        } else {
            0x9000 - (256 - t as u16) * 16 + row * 2
        };
        Self::tile_pixel(bus, a, px % 8)
    }

    fn tile_pixel(bus: &Bus, a: u16, col: u8) -> (r: u8)
        requires
            bus.wf(),
            a < 0xFFFF,
            col < 8,
        ensures
            r == color_index(bus@.read(a), bus@.read((a + 1) as u16), col),
    {
        let lo = bus.get_byte(a);
        let hi = bus.get_byte(a + 1);
        let h: u8 = if test(hi, 7 - col) {
            2
        } else {
            0
        };
        let l: u8 = if test(lo, 7 - col) {
            1
        } else {
            0
        };
        h + l
    }

    fn sprite_pixel(bus: &Bus, e: OamEntry, x: u8, ly: u8) -> (r: u8)
        requires
            bus.wf(),
        ensures
            r == sprite_index(bus@, e, x, ly),
    {
        let h: u8 = if test(bus.io_registers.lcdc, 2) {
            16
        } else {
            8
        };
        let row0: u8 = ly.wrapping_add(16).wrapping_sub(e.ypos) % h;
        let row: u8 = if test(e.attrs, 6) {
            h - 1 - row0
        } else {
            row0
        };
        let a = Self::sprite_row(e.tile, h, row);
        let col0: u8 = x.wrapping_add(8).wrapping_sub(e.xpos) % 8;
        let col: u8 = if test(e.attrs, 5) {
            7 - col0
        } else {
            col0
        };
        Self::tile_pixel(bus, a, col)
    }

    fn sprite_row(tile: u8, h: u8, row: u8) -> (a: u16)
        requires
            row < 16,
        ensures
            a == sprite_row_addr(tile, h, row),
            a < 0xFFFF,
    {
        let t: u8 = if h == 16 {
            tile & 0xFE
        } else {
            tile
        };
        0x8000 + t as u16 * 16 + row as u16 * 2
    }

    fn back_pixel(bus: &Bus, x: u8, ly: u8) -> (r: u8)
        requires
            bus.wf(),
        ensures
            r == back_index(bus@, x, ly),
    {
        let io = &bus.io_registers;
        let lcdc = io.lcdc;
        let unsigned = test(lcdc, 4);
        if test(lcdc, 5) && ly >= io.wy && x as u16 + 7 >= io.wx as u16 {
            let map: u16 = if test(lcdc, 6) {
                0x9C00
            } else {
                0x9800
            };
            Self::layer_pixel(bus, map, unsigned, (x as u16 + 7 - io.wx as u16) as u8, ly - io.wy)
        } else {
            let map: u16 = if test(lcdc, 3) {
                0x9C00
            } else {
                0x9800
            };
            Self::layer_pixel(bus, map, unsigned, x.wrapping_add(io.scx), ly.wrapping_add(io.scy))
        }
    }

    fn pick_sprite(&self, bus: &Bus, x: u8, ly: u8) -> (r: Option<OamEntry>)
        requires
            bus.wf(),
        ensures
            r == sprite_pick(bus@, self@.entries, x, ly),
    {
        let mut best: Option<OamEntry> = None;
        let mut i: usize = 0;
        while i < self.oam_entries.len()
            invariant
                i <= self@.entries.len(),
                bus.wf(),
                best == sprite_pick(bus@, self@.entries.subrange(0, i as int), x, ly),
            decreases self@.entries.len() - i,
        {
            let e = self.oam_entries[i];
            let covering = e.xpos as u16 <= x as u16 + 8 && (x as u16 + 8) < e.xpos as u16 + 8;
            if covering && Self::sprite_pixel(bus, e, x, ly) != 0 {
                let better = match best {
                    None => true,
                    Some(b) => e.xpos < b.xpos,
                };
                if better {
                    best = Some(e);
                }
            }
            proof {
                let s = self@.entries.subrange(0, i + 1);
                assert(s.drop_last() =~= self@.entries.subrange(0, i as int));
                assert(s.last() == e);
            }
            i = i + 1;
        }
        assert(self@.entries.subrange(0, i as int) =~= self@.entries);
        best
    }

    fn pixel(&self, bus: &Bus, x: u8, ly: u8) -> (r: u8)
        requires
            bus.wf(),
        ensures
            r == pixel_spec(bus@, self@.entries, x, ly),
    {
        let io = &bus.io_registers;
        let lcdc = io.lcdc;
        let bgi = Self::back_pixel(bus, x, ly);
        let bgs = shade(io.bgp, bgi);
        if test(lcdc, 1) {
            match self.pick_sprite(bus, x, ly) {
                Some(e) => {
                    if test(e.attrs, 7) && bgi != 0 {
                        bgs
                    } else {
                        let p = if test(e.attrs, 4) {
                            io.obp1
                        } else {
                            io.obp0
                        };
                        shade(p, Self::sprite_pixel(bus, e, x, ly))
                    }
                },
                None => bgs,
            }
        } else {
            bgs
        }
    }

    /// Draws line `ly` of the image from the current bus state and the
    /// sprites captured by the OAM search.
    fn writeline(&mut self, bus: &Bus)
        requires
            old(self).wf(),
            bus.wf(),
            bus@.io.ly < HEIGHT,
        ensures
            final(self).wf(),
            final(self)@ == (PpuView {
                image: with_line(old(self)@.image, bus@, old(self)@.entries, bus@.io.ly),
                ..old(self)@
            }),
    {
        let ly = bus.io_registers.ly;
        let base: usize = ly as usize * WIDTH;
        let ghost old_image = self@.image;
        let mut x: usize = 0;
        while x < WIDTH
            invariant
                x <= WIDTH,
                bus.wf(),
                ly == bus@.io.ly,
                ly < HEIGHT,
                base == ly * WIDTH,
                self@.image.len() == WIDTH * HEIGHT,
                old_image.len() == WIDTH * HEIGHT,
                self@.entries == old(self)@.entries,
                self@.ready == old(self)@.ready,
                forall|k: int|
                    0 <= k < self@.image.len() ==> #[trigger] self@.image[k] == if base <= k < base
                        + x {
                        pixel_spec(bus@, self@.entries, (k - base) as u8, ly)
                    } else {
                        old_image[k]
                    },
            decreases WIDTH - x,
        {
            let v = self.pixel(bus, x as u8, ly);
            self.image.set(base + x, v);
            x = x + 1;
        }
        assert(self@.image =~= with_line(old_image, bus@, self@.entries, ly));
    }
}

} // verus!
