//! Memory bus: routes every address in `0x0000..=0xFFFF` to cartridge ROM,
//! video memory, working RAM, the sound controller, the display registers,
//! high RAM, or an unmapped-address fault.
//!
//! The decode is total: [`lemma_decode_total`] proves that every address is
//! claimed by exactly one region.  [`read_spec`] and [`write_spec`] are the
//! transformers the verified byte entry points are proved to implement; a
//! faulting access leaves the whole bus state unchanged.

use vstd::prelude::*;

use crate::apu;
use crate::apu::Apu;
use crate::fault::Fault;
use crate::gpu;
use crate::gpu::Controls;
use crate::gpu::Gpu;
use crate::gpu::GpuView;
use crate::gpu::Mode;

verus! {

/// Bytes in one cartridge ROM bank.
pub const ROM_BANK_SIZE: usize = 0x4000;
/// Bytes of cartridge ROM (two fixed banks).
pub const ROM_SIZE: usize = 0x8000;
/// Bytes of working RAM.
pub const WRAM_SIZE: usize = 0x2000;
/// Bytes of high RAM.
pub const HIRAM_SIZE: usize = 0x7F;

/// First address of the working RAM window.
pub const WRAM_BASE: u16 = 0xC000;
/// Last address of the working RAM window.
pub const WRAM_LAST: u16 = 0xDFFF;
/// First address of the high RAM window.
pub const HIRAM_BASE: u16 = 0xFF80;
/// Last address of the high RAM window.
pub const HIRAM_LAST: u16 = 0xFFFE;

/// The backing store or peripheral that claims an address.
#[derive(Clone, Copy, Debug, PartialEq, Eq, Structural)]
pub enum Region {
    Rom,
    VideoRam,
    WorkRam,
    SoundRegs,
    DisplayRegs,
    HighRam,
    Unmapped,
}

/// The cartridge ROM window.
pub open spec fn in_rom(addr: u16) -> bool {
    addr <= 0x7FFF
}

/// The working RAM window.
pub open spec fn in_work_ram(addr: u16) -> bool {
    WRAM_BASE <= addr <= WRAM_LAST
}

/// The high RAM window.
pub open spec fn in_high_ram(addr: u16) -> bool {
    HIRAM_BASE <= addr <= HIRAM_LAST
}

/// The addresses outside every mapped range, written out explicitly: the gap
/// above video memory, the gap between working RAM and the sound window, the
/// gap between the display registers and high RAM, and the topmost byte.
pub open spec fn in_unmapped(addr: u16) -> bool {
    (0xA000 <= addr <= 0xBFFF) || (0xE000 <= addr <= 0xFF0F) || (0xFF4C <= addr <= 0xFF7F) || addr
        == 0xFFFF
}

/// The region that claims `addr`.
pub open spec fn spec_region(addr: u16) -> Region {
    if in_rom(addr) {
        Region::Rom
    } else if gpu::in_video_ram(addr) {
        Region::VideoRam
    } else if in_work_ram(addr) {
        Region::WorkRam
    } else if apu::in_sound_regs(addr) {
        Region::SoundRegs
    } else if gpu::in_display_regs(addr) {
        Region::DisplayRegs
    } else if in_high_ram(addr) {
        Region::HighRam
    } else {
        Region::Unmapped
    }
}

/// The address decode is total and unambiguous: every address is claimed by
/// exactly one region, and the unmapped remainder is exactly the explicit
/// gap ranges of [`in_unmapped`].
pub proof fn lemma_decode_total(addr: u16)
    ensures
        in_rom(addr) <==> spec_region(addr) == Region::Rom,
        gpu::in_video_ram(addr) <==> spec_region(addr) == Region::VideoRam,
        in_work_ram(addr) <==> spec_region(addr) == Region::WorkRam,
        apu::in_sound_regs(addr) <==> spec_region(addr) == Region::SoundRegs,
        gpu::in_display_regs(addr) <==> spec_region(addr) == Region::DisplayRegs,
        in_high_ram(addr) <==> spec_region(addr) == Region::HighRam,
        in_unmapped(addr) <==> spec_region(addr) == Region::Unmapped,
{
}

/// Decode `addr` to the region that claims it.
pub fn decode_region(addr: u16) -> (r: Region)
    ensures
        r == spec_region(addr),
{
    if addr <= 0x7FFF {
        Region::Rom
    } else if addr >= gpu::VRAM_BASE && addr <= gpu::VRAM_LAST {
        Region::VideoRam
    } else if addr >= WRAM_BASE && addr <= WRAM_LAST {
        Region::WorkRam
    } else if addr >= apu::SOUND_BASE && addr <= apu::SOUND_LAST {
        Region::SoundRegs
    } else if addr >= gpu::REG_BASE && addr <= gpu::REG_LAST {
        Region::DisplayRegs
    } else if addr >= HIRAM_BASE && addr <= HIRAM_LAST {
        Region::HighRam
    } else {
        Region::Unmapped
    }
}

/// Mathematical model of the bus: the three byte arrays and the two
/// peripherals.
#[verifier::ext_equal]
pub ghost struct MmuView {
    pub rom: Seq<u8>,
    pub wram: Seq<u8>,
    pub hram: Seq<u8>,
    pub gpu: GpuView,
    pub apu: Apu,
}

impl MmuView {
    /// Well-formedness: every backing array has its fixed size.
    pub open spec fn wf(self) -> bool {
        &&& self.rom.len() == ROM_SIZE
        &&& self.wram.len() == WRAM_SIZE
        &&& self.hram.len() == HIRAM_SIZE
        &&& self.gpu.wf()
    }
}

/// What a read at `addr` returns.  ROM, video memory, working RAM and high
/// RAM return the stored byte; of the peripheral registers only the current
/// scanline is readable; unmapped addresses fault.
pub open spec fn read_spec(m: MmuView, addr: u16) -> Result<u8, Fault> {
    if in_rom(addr) {
        Ok(m.rom[addr as int])
    } else if gpu::gpu_owns(addr) {
        gpu::gpu_read_spec(m.gpu, addr)
    } else if in_work_ram(addr) {
        Ok(m.wram[addr - WRAM_BASE])
    } else if apu::in_sound_regs(addr) {
        Err(Fault::ProtocolViolation { addr })
    } else if in_high_ram(addr) {
        Ok(m.hram[addr - HIRAM_BASE])
    } else {
        Err(Fault::AddressFault { addr })
    }
}

/// What a write at `addr` does.  ROM is write-protected; video memory,
/// working RAM and high RAM store the byte; peripheral windows forward to
/// the owning controller, which may itself reject the value; unmapped
/// addresses fault.  A faulting write changes nothing.
pub open spec fn write_spec(m: MmuView, addr: u16, value: u8) -> Result<MmuView, Fault> {
    if in_rom(addr) {
        Err(Fault::WriteProtectFault { addr })
    } else if gpu::gpu_owns(addr) {
        match gpu::gpu_write_spec(m.gpu, addr, value) {
            Ok(g) => Ok(MmuView { gpu: g, ..m }),
            Err(f) => Err(f),
        }
    } else if in_work_ram(addr) {
        Ok(MmuView { wram: m.wram.update(addr - WRAM_BASE, value), ..m })
    } else if apu::in_sound_regs(addr) {
        match apu::apu_write_spec(m.apu, addr, value) {
            Ok(a) => Ok(MmuView { apu: a, ..m }),
            Err(f) => Err(f),
        }
    } else if in_high_ram(addr) {
        Ok(MmuView { hram: m.hram.update(addr - HIRAM_BASE, value), ..m })
    } else {
        Err(Fault::AddressFault { addr })
    }
}

/// Whether a write at `addr` with `value` succeeds.
pub open spec fn write_ok(m: MmuView, addr: u16, value: u8) -> bool {
    write_spec(m, addr, value) is Ok
}

/// The fault a failing write at `addr` reports.  The kind depends on the
/// address alone: ROM is write-protected, the explicit gaps are unmapped,
/// and everything else that can fail is a register-level protocol violation.
pub open spec fn write_fail_fault(addr: u16) -> Fault {
    if in_rom(addr) {
        Fault::WriteProtectFault { addr }
    } else if in_unmapped(addr) {
        Fault::AddressFault { addr }
    } else {
        Fault::ProtocolViolation { addr }
    }
}

/// A failing write reports exactly [`write_fail_fault`] of its address.
pub proof fn lemma_write_fail_fault(m: MmuView, addr: u16, value: u8)
    requires
        !write_ok(m, addr, value),
    ensures
        write_spec(m, addr, value) == Err::<MmuView, Fault>(write_fail_fault(addr)),
{
}

/// Whether a write succeeds depends on the state only at the LCD control
/// register: at every other address, success is a function of the address
/// and value alone.
pub proof fn lemma_write_ok_addr_only(m1: MmuView, m2: MmuView, addr: u16, value: u8)
    requires
        addr != gpu::REG_LCD_CONTROL,
    ensures
        write_ok(m1, addr, value) == write_ok(m2, addr, value),
{
}

/// The memory bus.
pub struct Mmu {
    pub rom: Vec<u8>,
    pub wram: Vec<u8>,
    pub hram: Vec<u8>,
    pub gpu: Gpu,
    pub apu: Apu,
}

impl View for Mmu {
    type V = MmuView;

    open spec fn view(&self) -> MmuView {
        MmuView {
            rom: self.rom@,
            wram: self.wram@,
            hram: self.hram@,
            gpu: self.gpu@,
            apu: self.apu,
        }
    }
}

/// The bus's power-on state: zeroed memory and power-on peripherals.
pub open spec fn power_on_mmu(m: MmuView) -> bool {
    &&& m.wf()
    &&& (forall|i: int| 0 <= i < ROM_SIZE ==> m.rom[i] == 0u8)
    &&& (forall|i: int| 0 <= i < WRAM_SIZE ==> m.wram[i] == 0u8)
    &&& (forall|i: int| 0 <= i < HIRAM_SIZE ==> m.hram[i] == 0u8)
    &&& gpu::power_on_gpu(m.gpu)
    &&& m.apu == apu::power_on_apu()
}

/// A zero-filled byte buffer of length `n`.
fn zeroed_bytes(n: usize) -> (r: Vec<u8>)
    ensures
        r@.len() == n,
        forall|i: int| 0 <= i < n ==> r@[i] == 0u8,
{
    let mut v: Vec<u8> = Vec::new();
    let mut k: usize = 0;
    while k < n
        invariant
            k <= n,
            v@.len() == k,
            forall|i: int| 0 <= i < k ==> v@[i] == 0u8,
        decreases n - k,
    {
        v.push(0u8);
        k = k + 1;
    }
    v
}

impl Mmu {
    /// Power-on state, per [`power_on_mmu`].
    pub fn new() -> (r: Self)
        ensures
            power_on_mmu(r@),
    {
        Mmu {
            rom: zeroed_bytes(ROM_SIZE),
            wram: zeroed_bytes(WRAM_SIZE),
            hram: zeroed_bytes(HIRAM_SIZE),
            gpu: Gpu::new(),
            apu: Apu::new(),
        }
    }

    /// Read the byte at `addr`, per [`read_spec`].  Reading never changes
    /// the state.
    pub fn read_byte(&self, addr: u16) -> (r: Result<u8, Fault>)
        requires
            self@.wf(),
        ensures
            r == read_spec(self@, addr),
    {
        if addr <= 0x7FFF {
            Ok(self.rom[addr as usize])
        } else if addr <= gpu::VRAM_LAST {
            self.gpu.read_byte(addr)
        } else if addr >= WRAM_BASE && addr <= WRAM_LAST {
            Ok(self.wram[(addr - WRAM_BASE) as usize])
        } else if addr >= apu::SOUND_BASE && addr <= apu::SOUND_LAST {
            Err(Fault::ProtocolViolation { addr })
        } else if addr >= gpu::REG_BASE && addr <= gpu::REG_LAST {
            self.gpu.read_byte(addr)
        } else if addr >= HIRAM_BASE && addr <= HIRAM_LAST {
            Ok(self.hram[(addr - HIRAM_BASE) as usize])
        } else {
            Err(Fault::AddressFault { addr })
        }
    }

    /// Write `value` at `addr`, per [`write_spec`].  A faulting write leaves
    /// the whole bus state unchanged.
    pub fn write_byte(&mut self, addr: u16, value: u8) -> (r: Result<(), Fault>)
        requires
            old(self)@.wf(),
        ensures
            final(self)@.wf(),
            match write_spec(old(self)@, addr, value) {
                Ok(m) => r is Ok && final(self)@ == m,
                Err(f) => r == Err::<(), Fault>(f) && final(self)@ == old(self)@,
            },
    {
        if addr <= 0x7FFF {
            Err(Fault::WriteProtectFault { addr })
        } else if addr <= gpu::VRAM_LAST {
            self.gpu.write_byte(addr, value)
        } else if addr >= WRAM_BASE && addr <= WRAM_LAST {
            self.wram[(addr - WRAM_BASE) as usize] = value;
            Ok(())
        } else if addr >= apu::SOUND_BASE && addr <= apu::SOUND_LAST {
            self.apu.write_byte(addr, value)
        } else if addr >= gpu::REG_BASE && addr <= gpu::REG_LAST {
            self.gpu.write_byte(addr, value)
        } else if addr >= HIRAM_BASE && addr <= HIRAM_LAST {
            self.hram[(addr - HIRAM_BASE) as usize] = value;
            Ok(())
        } else {
            Err(Fault::AddressFault { addr })
        }
    }

    /// Whether a write at `addr` with `value` would succeed, without
    /// performing it.
    pub fn write_allowed(&self, addr: u16, value: u8) -> (r: bool)
        requires
            self@.wf(),
        ensures
            r == write_ok(self@, addr, value),
    {
        if addr <= 0x7FFF {
            false
        } else if addr <= gpu::VRAM_LAST {
            true
        } else if addr >= WRAM_BASE && addr <= WRAM_LAST {
            true
        } else if addr >= apu::SOUND_BASE && addr <= apu::SOUND_LAST {
            addr == apu::REG_PULSE_A_LEN || addr == apu::REG_PULSE_A_ENV || addr
                == apu::REG_CHANNEL_CTRL || addr == apu::REG_VOICE_ROUTE || addr
                == apu::REG_MASTER_ENABLE
        } else if addr == gpu::REG_LCD_CONTROL {
            let newc = Controls::from_bits(value);
            !(self.gpu.lcd.controls.is_enabled() && !newc.is_enabled() && !matches!(
                self.gpu.mode,
                Mode::VBlank,
            ))
        } else if addr >= gpu::REG_BASE && addr <= gpu::REG_LAST {
            addr == gpu::REG_SCROLL_Y || addr == gpu::REG_SCROLL_X || addr == gpu::REG_BG_PALETTE
        } else if addr >= HIRAM_BASE && addr <= HIRAM_LAST {
            true
        } else {
            false
        }
    }

    /// The fault a failing write at `addr` would report, per
    /// [`write_fail_fault`].
    pub fn write_fault_at(&self, addr: u16) -> (r: Fault)
        ensures
            r == write_fail_fault(addr),
    {
        if addr <= 0x7FFF {
            Fault::WriteProtectFault { addr }
        } else if (0xA000 <= addr && addr <= 0xBFFF) || (0xE000 <= addr && addr <= 0xFF0F) || (
        0xFF4C <= addr && addr <= 0xFF7F) || addr == 0xFFFF {
            Fault::AddressFault { addr }
        } else {
            Fault::ProtocolViolation { addr }
        }
    }

    /// Overlay `data` onto the bottom of the ROM window, byte for byte, up
    /// to the ROM size.  Bytes of ROM beyond `data` keep their old contents,
    /// so loading a cartridge image and then a boot image leaves the boot
    /// image's bytes on top at overlapping offsets.
    pub fn load_rom(&mut self, data: &Vec<u8>)
        requires
            old(self)@.wf(),
        ensures
            final(self)@.wf(),
            final(self)@ == (MmuView { rom: final(self)@.rom, ..old(self)@ }),
            final(self)@.rom.len() == ROM_SIZE,
            forall|i: int|
                0 <= i < ROM_SIZE ==> final(self)@.rom[i] == (if i < data@.len() {
                    data@[i]
                } else {
                    old(self)@.rom[i]
                }),
    {
        let count = if data.len() < ROM_SIZE {
            data.len()
        } else {
            ROM_SIZE
        };
        let mut k: usize = 0;
        while k < count
            invariant
                count <= data@.len(),
                count <= ROM_SIZE,
                k <= count,
                self@.rom.len() == ROM_SIZE,
                self@ == (MmuView { rom: self@.rom, ..old(self)@ }),
                forall|i: int|
                    0 <= i < ROM_SIZE ==> self@.rom[i] == (if i < k {
                        data@[i]
                    } else {
                        old(self)@.rom[i]
                    }),
            decreases count - k,
        {
            self.rom[k] = data[k];
            k = k + 1;
        }
    }
}

} // verus!
