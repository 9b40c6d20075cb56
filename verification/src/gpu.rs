//! Display controller: tile and background memory, the LCD control register,
//! the background palette, scroll offsets, and the scanline/mode state
//! machine.
//!
//! The controller owns the video memory window `0x8000..=0x9FFF` and the
//! register window `0xFF40..=0xFF4B`.  [`GpuView`] is its mathematical model;
//! [`gpu_read_spec`] and [`gpu_write_spec`] are the transformers the verified
//! byte entry points are proved to implement.

use vstd::prelude::*;

use crate::fault::Fault;

verus! {

/// First address of the video memory window.
pub const VRAM_BASE: u16 = 0x8000;
/// Last address of the video memory window.
pub const VRAM_LAST: u16 = 0x9FFF;
/// Byte stride of one tile cell.
pub const TILE_STRIDE: usize = 16;
/// Tile cells held in tile memory.
pub const TILE_CELLS: usize = 0x180;
/// Bytes of tile pixel data.  The two bank views of it overlap: bank 0 is
/// cells `0..256`, bank 1 is cells `128..384`, so a write into the shared
/// middle region is visible through both banks.
pub const TILE_BYTES: usize = TILE_CELLS * TILE_STRIDE;
/// Tile cells per bank view.
pub const TILES_PER_BANK: usize = 256;
/// Bytes in each background map buffer.
pub const BG_MAP_SIZE: usize = 0x400;

/// Visible scanlines per frame.
pub const VISIBLE_LINES: u8 = 144;
/// Scanlines spent in the vertical blank interval.
pub const VBLANK_LINES: u8 = 10;
/// Total scanline count at which the line counter wraps.
pub const TOTAL_LINES: u8 = VISIBLE_LINES + VBLANK_LINES;

/// Screen width in pixels.
pub const SCREEN_WIDTH: usize = 160;
/// Screen height in pixels.
pub const SCREEN_HEIGHT: usize = 144;
/// Pixels in the full-frame hand-off buffer.
pub const SCREEN_PIXELS: usize = SCREEN_WIDTH * SCREEN_HEIGHT;

/// First address of the display register window.
pub const REG_BASE: u16 = 0xFF40;
/// Last address of the display register window.
pub const REG_LAST: u16 = 0xFF4B;
/// LCD control register.
pub const REG_LCD_CONTROL: u16 = 0xFF40;
/// Vertical scroll register.
pub const REG_SCROLL_Y: u16 = 0xFF42;
/// Horizontal scroll register.
pub const REG_SCROLL_X: u16 = 0xFF43;
/// Current scanline register (read-only).
pub const REG_CURRENT_LINE: u16 = 0xFF44;
/// Background palette register.
pub const REG_BG_PALETTE: u16 = 0xFF47;

/// The video memory window owned by the display controller.
pub open spec fn in_video_ram(addr: u16) -> bool {
    VRAM_BASE <= addr <= VRAM_LAST
}

/// The display register window owned by the display controller.
pub open spec fn in_display_regs(addr: u16) -> bool {
    REG_BASE <= addr <= REG_LAST
}

/// Every address the display controller answers for on the bus.
pub open spec fn gpu_owns(addr: u16) -> bool {
    in_video_ram(addr) || in_display_regs(addr)
}

/// One of the four color indices a pixel can take, lightest to darkest.
#[derive(Clone, Copy, Debug, PartialEq, Eq, Structural)]
pub enum Color {
    White,
    LightGray,
    DarkGray,
    Black,
}

/// The fixed mapping from a 2-bit palette field to a color: 0 is the
/// lightest, 3 the darkest.
pub open spec fn color_of(value: u8) -> Color {
    if value == 0 {
        Color::White
    } else if value == 1 {
        Color::LightGray
    } else if value == 2 {
        Color::DarkGray
    } else {
        Color::Black
    }
}

impl Color {
    /// Decode a 2-bit color index.
    pub fn from_u8(value: u8) -> (r: Color)
        requires
            value <= 3,
        ensures
            r == color_of(value),
    {
        if value == 0 {
            Color::White
        } else if value == 1 {
            Color::LightGray
        } else if value == 2 {
            Color::DarkGray
        } else {
            Color::Black
        }
    }
}

/// The background palette: four 2-bit color slots.
#[derive(Clone, Copy, Debug, PartialEq, Eq, Structural)]
pub struct Palette {
    pub color_0: Color,
    pub color_1: Color,
    pub color_2: Color,
    pub color_3: Color,
}

/// The palette decoded from one register byte: slot `n` comes from bits
/// `2n..=2n+1`.
pub open spec fn palette_of(value: u8) -> Palette {
    Palette {
        color_0: color_of(value & 0x3),
        color_1: color_of((value >> 2) & 0x3),
        color_2: color_of((value >> 4) & 0x3),
        color_3: color_of((value >> 6) & 0x3),
    }
}

impl Palette {
    /// Power-on palette: every slot lightest.
    pub fn new() -> (r: Self)
        ensures
            r == (Palette {
                color_0: Color::White,
                color_1: Color::White,
                color_2: Color::White,
                color_3: Color::White,
            }),
    {
        Palette {
            color_0: Color::White,
            color_1: Color::White,
            color_2: Color::White,
            color_3: Color::White,
        }
    }
}

/// The LCD control bitmask, with one named predicate per flag bit.
#[derive(Clone, Copy, Debug, PartialEq, Eq, Structural)]
pub struct Controls {
    pub bits: u8,
}

impl Controls {
    pub open spec fn spec_is_enabled(self) -> bool {
        self.bits & 0x80 != 0
    }

    pub open spec fn spec_window_map_select(self) -> bool {
        self.bits & 0x40 != 0
    }

    pub open spec fn spec_window_enable(self) -> bool {
        self.bits & 0x20 != 0
    }

    pub open spec fn spec_bg_window_select(self) -> bool {
        self.bits & 0x10 != 0
    }

    pub open spec fn spec_bg_map_select(self) -> bool {
        self.bits & 0x08 != 0
    }

    pub open spec fn spec_sprite_size(self) -> bool {
        self.bits & 0x04 != 0
    }

    pub open spec fn spec_sprite_enable(self) -> bool {
        self.bits & 0x02 != 0
    }

    pub open spec fn spec_bg_enable(self) -> bool {
        self.bits & 0x01 != 0
    }

    pub fn empty() -> (r: Self)
        ensures
            r == (Controls { bits: 0 }),
    {
        Controls { bits: 0 }
    }

    pub fn from_bits(value: u8) -> (r: Self)
        ensures
            r == (Controls { bits: value }),
    {
        Controls { bits: value }
    }

    pub fn is_enabled(&self) -> (r: bool)
        ensures
            r == self.spec_is_enabled(),
    {
        self.bits & 0x80 != 0
    }

    pub fn window_map_select(&self) -> (r: bool)
        ensures
            r == self.spec_window_map_select(),
    {
        self.bits & 0x40 != 0
    }

    pub fn window_enable(&self) -> (r: bool)
        ensures
            r == self.spec_window_enable(),
    {
        self.bits & 0x20 != 0
    }

    pub fn bg_window_select(&self) -> (r: bool)
        ensures
            r == self.spec_bg_window_select(),
    {
        self.bits & 0x10 != 0
    }

    pub fn bg_map_select(&self) -> (r: bool)
        ensures
            r == self.spec_bg_map_select(),
    {
        self.bits & 0x08 != 0
    }

    pub fn sprite_size(&self) -> (r: bool)
        ensures
            r == self.spec_sprite_size(),
    {
        self.bits & 0x04 != 0
    }

    pub fn sprite_enable(&self) -> (r: bool)
        ensures
            r == self.spec_sprite_enable(),
    {
        self.bits & 0x02 != 0
    }

    pub fn bg_enable(&self) -> (r: bool)
        ensures
            r == self.spec_bg_enable(),
    {
        self.bits & 0x01 != 0
    }
}

/// The display mode cycle.
#[derive(Clone, Copy, Debug, PartialEq, Eq, Structural)]
pub enum Mode {
    AccessOam,
    AccessVram,
    HBlank,
    VBlank,
}

/// The mode that follows `m` in the cycle
/// `AccessOam -> AccessVram -> HBlank -> VBlank -> AccessOam`.
pub open spec fn next_mode(m: Mode) -> Mode {
    match m {
        Mode::AccessOam => Mode::AccessVram,
        Mode::AccessVram => Mode::HBlank,
        Mode::HBlank => Mode::VBlank,
        Mode::VBlank => Mode::AccessOam,
    }
}

/// LCD control register state together with the scanline counter.
#[derive(Clone, Copy, Debug, PartialEq, Eq, Structural)]
pub struct Lcd {
    pub controls: Controls,
    pub current_line: u8,
}

impl Lcd {
    pub fn new() -> (r: Self)
        ensures
            r == (Lcd { controls: Controls { bits: 0 }, current_line: 0 }),
    {
        Lcd { controls: Controls::empty(), current_line: 0 }
    }
}

/// Mathematical model of the display controller.
#[verifier::ext_equal]
pub ghost struct GpuView {
    pub tiles: Seq<u8>,
    pub bg_map_0: Seq<u8>,
    pub bg_map_1: Seq<u8>,
    pub bg_palette: Palette,
    pub lcd: Lcd,
    pub scroll_x: u8,
    pub scroll_y: u8,
    pub mode: Mode,
    pub screen: Seq<Color>,
}

impl GpuView {
    /// Well-formedness: the memory buffers have their fixed sizes and the
    /// scanline counter stays below the wrap point.
    pub open spec fn wf(self) -> bool {
        &&& self.tiles.len() == TILE_BYTES
        &&& self.bg_map_0.len() == BG_MAP_SIZE
        &&& self.bg_map_1.len() == BG_MAP_SIZE
        &&& self.screen.len() == SCREEN_PIXELS
        &&& self.lcd.current_line < TOTAL_LINES
    }
}

/// The byte stored in video memory at `addr`: tile data first, then the two
/// background maps.
pub open spec fn vram_byte(g: GpuView, addr: u16) -> u8 {
    let rel = addr - VRAM_BASE;
    if rel < 0x1800 {
        g.tiles[rel]
    } else if rel < 0x1C00 {
        g.bg_map_0[rel - 0x1800]
    } else {
        g.bg_map_1[rel - 0x1C00]
    }
}

/// Video memory after a byte write at `addr`.
pub open spec fn vram_write_spec(g: GpuView, addr: u16, value: u8) -> GpuView {
    let rel = addr - VRAM_BASE;
    if rel < 0x1800 {
        GpuView { tiles: g.tiles.update(rel, value), ..g }
    } else if rel < 0x1C00 {
        GpuView { bg_map_0: g.bg_map_0.update(rel - 0x1800, value), ..g }
    } else {
        GpuView { bg_map_1: g.bg_map_1.update(rel - 0x1C00, value), ..g }
    }
}

/// What a write to a display register does.
///
/// Writing the LCD control byte replaces the whole bitmask, except that
/// clearing the enable bit while it is set is only legal in `VBlank`: in any
/// other mode the write faults and changes nothing, and in `VBlank` it also
/// resets the scanline counter to zero.  Scroll registers store the raw byte;
/// the palette register decodes four 2-bit color slots.  Every other register
/// in the window rejects writes.
pub open spec fn reg_write_spec(g: GpuView, addr: u16, value: u8) -> Result<GpuView, Fault> {
    if addr == REG_LCD_CONTROL {
        let newc = Controls { bits: value };
        if g.lcd.controls.spec_is_enabled() && !newc.spec_is_enabled() {
            if !(g.mode is VBlank) {
                Err(Fault::ProtocolViolation { addr })
            } else {
                Ok(GpuView { lcd: Lcd { controls: newc, current_line: 0 }, ..g })
            }
        } else {
            Ok(GpuView { lcd: Lcd { controls: newc, ..g.lcd }, ..g })
        }
    } else if addr == REG_SCROLL_Y {
        Ok(GpuView { scroll_y: value, ..g })
    } else if addr == REG_SCROLL_X {
        Ok(GpuView { scroll_x: value, ..g })
    } else if addr == REG_BG_PALETTE {
        Ok(GpuView { bg_palette: palette_of(value), ..g })
    } else {
        Err(Fault::ProtocolViolation { addr })
    }
}

/// What a read at `addr` returns: any video memory byte, or the current
/// scanline register; no other display register is readable.
pub open spec fn gpu_read_spec(g: GpuView, addr: u16) -> Result<u8, Fault> {
    if in_video_ram(addr) {
        Ok(vram_byte(g, addr))
    } else if addr == REG_CURRENT_LINE {
        Ok(g.lcd.current_line)
    } else {
        Err(Fault::ProtocolViolation { addr })
    }
}

/// What a write at `addr` does: video memory stores the byte, registers
/// decode it per [`reg_write_spec`].
pub open spec fn gpu_write_spec(g: GpuView, addr: u16, value: u8) -> Result<GpuView, Fault> {
    if in_video_ram(addr) {
        Ok(vram_write_spec(g, addr, value))
    } else {
        reg_write_spec(g, addr, value)
    }
}

/// One step of the mode cycle.  Leaving `VBlank` completes a full cycle:
/// the scanline counter advances, wrapping at [`TOTAL_LINES`].
pub open spec fn step_mode_spec(g: GpuView) -> GpuView {
    if g.mode is VBlank {
        GpuView {
            mode: Mode::AccessOam,
            lcd: Lcd {
                current_line: (((g.lcd.current_line + 1) as int % (TOTAL_LINES as int)) as u8),
                ..g.lcd
            },
            ..g
        }
    } else {
        GpuView { mode: next_mode(g.mode), ..g }
    }
}

/// The display controller's power-on state: zeroed memory, empty control
/// mask, mode `AccessOam`, scanline zero, blank screen buffer.
pub open spec fn power_on_gpu(g: GpuView) -> bool {
    &&& g.wf()
    &&& (forall|i: int| 0 <= i < TILE_BYTES ==> g.tiles[i] == 0u8)
    &&& (forall|i: int| 0 <= i < BG_MAP_SIZE ==> g.bg_map_0[i] == 0u8 && g.bg_map_1[i] == 0u8)
    &&& g.bg_palette == (Palette {
        color_0: Color::White,
        color_1: Color::White,
        color_2: Color::White,
        color_3: Color::White,
    })
    &&& g.lcd == (Lcd { controls: Controls { bits: 0 }, current_line: 0 })
    &&& g.scroll_x == 0u8
    &&& g.scroll_y == 0u8
    &&& g.mode is AccessOam
    &&& (forall|i: int| 0 <= i < SCREEN_PIXELS ==> g.screen[i] == Color::White)
}

/// The display controller.
pub struct Gpu {
    pub tiles: Vec<u8>,
    pub bg_map_0: Vec<u8>,
    pub bg_map_1: Vec<u8>,
    pub bg_palette: Palette,
    pub lcd: Lcd,
    pub scroll_x: u8,
    pub scroll_y: u8,
    pub mode: Mode,
    pub screen_buffer: Vec<Color>,
}

impl View for Gpu {
    type V = GpuView;

    open spec fn view(&self) -> GpuView {
        GpuView {
            tiles: self.tiles@,
            bg_map_0: self.bg_map_0@,
            bg_map_1: self.bg_map_1@,
            bg_palette: self.bg_palette,
            lcd: self.lcd,
            scroll_x: self.scroll_x,
            scroll_y: self.scroll_y,
            mode: self.mode,
            screen: self.screen_buffer@,
        }
    }
}

/// A zero-filled byte buffer of length `n`.
fn zeroed_bytes(n: usize) -> (r: Vec<u8>)
    ensures
        r@.len() == n,
        forall|i: int| 0 <= i < n ==> r@[i] == 0u8,
{
    let mut v: Vec<u8> = Vec::new();
    let mut k: usize = 0;
    while k < n
        invariant
            k <= n,
            v@.len() == k,
            forall|i: int| 0 <= i < k ==> v@[i] == 0u8,
        decreases n - k,
    {
        v.push(0u8);
        k = k + 1;
    }
    v
}

/// A buffer of `n` pixels, all the lightest color.
fn blank_screen(n: usize) -> (r: Vec<Color>)
    ensures
        r@.len() == n,
        forall|i: int| 0 <= i < n ==> r@[i] == Color::White,
{
    let mut v: Vec<Color> = Vec::new();
    let mut k: usize = 0;
    while k < n
        invariant
            k <= n,
            v@.len() == k,
            forall|i: int| 0 <= i < k ==> v@[i] == Color::White,
        decreases n - k,
    {
        v.push(Color::White);
        k = k + 1;
    }
    v
}

impl Gpu {
    /// Power-on state, per [`power_on_gpu`].
    pub fn new() -> (r: Self)
        ensures
            power_on_gpu(r@),
    {
        Gpu {
            tiles: zeroed_bytes(TILE_BYTES),
            bg_map_0: zeroed_bytes(BG_MAP_SIZE),
            bg_map_1: zeroed_bytes(BG_MAP_SIZE),
            bg_palette: Palette::new(),
            lcd: Lcd::new(),
            scroll_x: 0,
            scroll_y: 0,
            mode: Mode::AccessOam,
            screen_buffer: blank_screen(SCREEN_PIXELS),
        }
    }

    /// Read one byte from the controller's address space, per
    /// [`gpu_read_spec`].
    pub fn read_byte(&self, addr: u16) -> (r: Result<u8, Fault>)
        requires
            self@.wf(),
            gpu_owns(addr),
        ensures
            r == gpu_read_spec(self@, addr),
    {
        if addr >= VRAM_BASE && addr <= VRAM_LAST {
            let rel = (addr - VRAM_BASE) as usize;
            if rel < 0x1800 {
                Ok(self.tiles[rel])
            } else if rel < 0x1C00 {
                Ok(self.bg_map_0[rel - 0x1800])
            } else {
                Ok(self.bg_map_1[rel - 0x1C00])
            }
        } else if addr == REG_CURRENT_LINE {
            Ok(self.lcd.current_line)
        } else {
            Err(Fault::ProtocolViolation { addr })
        }
    }

    /// Write one byte into the controller's address space, per
    /// [`gpu_write_spec`].  A faulting write leaves the state unchanged.
    pub fn write_byte(&mut self, addr: u16, value: u8) -> (r: Result<(), Fault>)
        requires
            old(self)@.wf(),
            gpu_owns(addr),
        ensures
            final(self)@.wf(),
            match gpu_write_spec(old(self)@, addr, value) {
                Ok(g) => r is Ok && final(self)@ == g,
                Err(f) => r == Err::<(), Fault>(f) && final(self)@ == old(self)@,
            },
    {
        if addr >= VRAM_BASE && addr <= VRAM_LAST {
            let rel = (addr - VRAM_BASE) as usize;
            if rel < 0x1800 {
                self.tiles[rel] = value;
            } else if rel < 0x1C00 {
                self.bg_map_0[rel - 0x1800] = value;
            } else {
                self.bg_map_1[rel - 0x1C00] = value;
            }
            Ok(())
        } else if addr == REG_LCD_CONTROL {
            let newc = Controls::from_bits(value);
            if self.lcd.controls.is_enabled() && !newc.is_enabled() {
                if !matches!(self.mode, Mode::VBlank) {
                    return Err(Fault::ProtocolViolation { addr });
                }
                self.lcd.current_line = 0;
            }
            self.lcd.controls = newc;
            Ok(())
        } else if addr == REG_SCROLL_Y {
            self.scroll_y = value;
            Ok(())
        } else if addr == REG_SCROLL_X {
            self.scroll_x = value;
            Ok(())
        } else if addr == REG_BG_PALETTE {
            proof {
                assert(value & 0x3 <= 3 && (value >> 2) & 0x3 <= 3 && (value >> 4) & 0x3 <= 3
                    && (value >> 6) & 0x3 <= 3) by (bit_vector);
            }
            self.bg_palette.color_0 = Color::from_u8(value & 0x3);
            self.bg_palette.color_1 = Color::from_u8((value >> 2) & 0x3);
            self.bg_palette.color_2 = Color::from_u8((value >> 4) & 0x3);
            self.bg_palette.color_3 = Color::from_u8((value >> 6) & 0x3);
            Ok(())
        } else {
            Err(Fault::ProtocolViolation { addr })
        }
    }

    /// Advance the scanline/mode state machine one step, per
    /// [`step_mode_spec`].
    pub fn step_mode(&mut self)
        requires
            old(self)@.wf(),
        ensures
            final(self)@.wf(),
            final(self)@ == step_mode_spec(old(self)@),
    {
        match self.mode {
            Mode::AccessOam => {
                self.mode = Mode::AccessVram;
            },
            Mode::AccessVram => {
                self.mode = Mode::HBlank;
            },
            Mode::HBlank => {
                self.mode = Mode::VBlank;
            },
            Mode::VBlank => {
                self.mode = Mode::AccessOam;
                self.lcd.current_line = (self.lcd.current_line + 1) % TOTAL_LINES;
            },
        }
    }
}

/// The LCD enable bit can only be cleared during the vertical blank.
///
/// For every controller state and control byte: if the enable bit is set and
/// the written byte clears it, then outside `VBlank` the write faults with a
/// protocol violation and the state (the scanline counter included) is
/// untouched, while in `VBlank` the write succeeds and resets the scanline
/// counter to zero.
pub proof fn lemma_lcd_disable_only_in_vblank(g: GpuView, value: u8)
    requires
        g.lcd.controls.spec_is_enabled(),
        !(Controls { bits: value }).spec_is_enabled(),
    ensures
        !(g.mode is VBlank) ==> reg_write_spec(g, REG_LCD_CONTROL, value) == Err::<
            GpuView,
            Fault,
        >(Fault::ProtocolViolation { addr: REG_LCD_CONTROL }),
        g.mode is VBlank ==> reg_write_spec(g, REG_LCD_CONTROL, value) == Ok::<GpuView, Fault>(
            GpuView { lcd: Lcd { controls: Controls { bits: value }, current_line: 0 }, ..g },
        ),
{
}

} // verus!
