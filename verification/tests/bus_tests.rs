use rustboy::fault::Fault;
use rustboy::interconnect::Interconnect;
use rustboy::mmu::{decode_region, Mmu, Region};

#[test]
fn interconnect_stages_boot_image_beside_zeroed_ram() {
    let boot = vec![0xAB; 256];
    let ic = Interconnect::new(boot.clone());
    assert_eq!(ic.boot_rom, boot);
    assert_eq!(ic.wram.len(), 8192);
    assert!(ic.wram.iter().all(|&b| b == 0));
}

#[test]
fn decode_boundaries() {
    assert_eq!(decode_region(0x0000), Region::Rom);
    assert_eq!(decode_region(0x7FFF), Region::Rom);
    assert_eq!(decode_region(0x8000), Region::VideoRam);
    assert_eq!(decode_region(0x9FFF), Region::VideoRam);
    assert_eq!(decode_region(0xA000), Region::Unmapped);
    assert_eq!(decode_region(0xBFFF), Region::Unmapped);
    assert_eq!(decode_region(0xC000), Region::WorkRam);
    assert_eq!(decode_region(0xDFFF), Region::WorkRam);
    assert_eq!(decode_region(0xE000), Region::Unmapped);
    assert_eq!(decode_region(0xFF0F), Region::Unmapped);
    assert_eq!(decode_region(0xFF10), Region::SoundRegs);
    assert_eq!(decode_region(0xFF3F), Region::SoundRegs);
    assert_eq!(decode_region(0xFF40), Region::DisplayRegs);
    assert_eq!(decode_region(0xFF4B), Region::DisplayRegs);
    assert_eq!(decode_region(0xFF4C), Region::Unmapped);
    assert_eq!(decode_region(0xFF7F), Region::Unmapped);
    assert_eq!(decode_region(0xFF80), Region::HighRam);
    assert_eq!(decode_region(0xFFFE), Region::HighRam);
    assert_eq!(decode_region(0xFFFF), Region::Unmapped);
}

#[test]
fn decode_is_total_and_reads_agree() {
    // Every address is claimed by exactly one region, and a read at it
    // behaves as that region prescribes: no address panics or no-ops.
    let mmu = Mmu::new();
    for addr in 0..=0xFFFFu16 {
        match decode_region(addr) {
            Region::Rom | Region::VideoRam | Region::WorkRam | Region::HighRam => {
                assert!(mmu.read_byte(addr).is_ok(), "memory read at {addr:#06X}");
            }
            Region::DisplayRegs => {
                if addr == 0xFF44 {
                    assert!(mmu.read_byte(addr).is_ok());
                } else {
                    assert_eq!(mmu.read_byte(addr), Err(Fault::ProtocolViolation { addr }));
                }
            }
            Region::SoundRegs => {
                assert_eq!(mmu.read_byte(addr), Err(Fault::ProtocolViolation { addr }));
            }
            Region::Unmapped => {
                assert_eq!(mmu.read_byte(addr), Err(Fault::AddressFault { addr }));
            }
        }
    }
}

#[test]
fn rom_is_write_protected() {
    let mut mmu = Mmu::new();
    assert_eq!(mmu.write_byte(0x0000, 1), Err(Fault::WriteProtectFault { addr: 0x0000 }));
    assert_eq!(mmu.write_byte(0x7FFF, 1), Err(Fault::WriteProtectFault { addr: 0x7FFF }));
    assert_eq!(mmu.read_byte(0x0000), Ok(0));
}

#[test]
fn unmapped_writes_fault() {
    let mut mmu = Mmu::new();
    for addr in [0xA000u16, 0xBFFF, 0xE000, 0xFF0F, 0xFF4C, 0xFF7F, 0xFFFF] {
        assert_eq!(mmu.write_byte(addr, 0x12), Err(Fault::AddressFault { addr }));
    }
}

#[test]
fn work_ram_round_trip() {
    let mut mmu = Mmu::new();
    assert!(mmu.write_byte(0xC000, 0xAA).is_ok());
    assert!(mmu.write_byte(0xDFFF, 0xBB).is_ok());
    assert_eq!(mmu.read_byte(0xC000), Ok(0xAA));
    assert_eq!(mmu.read_byte(0xDFFF), Ok(0xBB));
}

#[test]
fn high_ram_round_trip() {
    let mut mmu = Mmu::new();
    assert!(mmu.write_byte(0xFF80, 0x11).is_ok());
    assert!(mmu.write_byte(0xFFFE, 0x22).is_ok());
    assert_eq!(mmu.read_byte(0xFF80), Ok(0x11));
    assert_eq!(mmu.read_byte(0xFFFE), Ok(0x22));
}

#[test]
fn video_ram_round_trip_through_bus() {
    let mut mmu = Mmu::new();
    assert!(mmu.write_byte(0x8000, 0x01).is_ok());
    assert!(mmu.write_byte(0x97FF, 0x02).is_ok());
    assert!(mmu.write_byte(0x9800, 0x03).is_ok());
    assert!(mmu.write_byte(0x9BFF, 0x04).is_ok());
    assert!(mmu.write_byte(0x9C00, 0x05).is_ok());
    assert!(mmu.write_byte(0x9FFF, 0x06).is_ok());
    assert_eq!(mmu.read_byte(0x8000), Ok(0x01));
    assert_eq!(mmu.read_byte(0x97FF), Ok(0x02));
    assert_eq!(mmu.read_byte(0x9800), Ok(0x03));
    assert_eq!(mmu.read_byte(0x9BFF), Ok(0x04));
    assert_eq!(mmu.read_byte(0x9C00), Ok(0x05));
    assert_eq!(mmu.read_byte(0x9FFF), Ok(0x06));
    // the two background maps are distinct buffers
    assert_eq!(mmu.gpu.bg_map_0[0], 0x03);
    assert_eq!(mmu.gpu.bg_map_1[0], 0x05);
    // tile bytes land at the right stride offsets
    assert_eq!(mmu.gpu.tiles[0], 0x01);
    assert_eq!(mmu.gpu.tiles[0x17FF], 0x02);
}

#[test]
fn load_rom_overlays_boot_image_on_top() {
    let mut mmu = Mmu::new();
    let cartridge = vec![0x10, 0x20, 0x30, 0x40];
    let boot = vec![0xE1, 0xE2];
    // cartridge first, then the boot image on top of the same window
    mmu.load_rom(&cartridge);
    mmu.load_rom(&boot);
    assert_eq!(mmu.read_byte(0x0000), Ok(0xE1));
    assert_eq!(mmu.read_byte(0x0001), Ok(0xE2));
    assert_eq!(mmu.read_byte(0x0002), Ok(0x30));
    assert_eq!(mmu.read_byte(0x0003), Ok(0x40));
    assert_eq!(mmu.read_byte(0x0004), Ok(0x00));
}

#[test]
fn load_rom_caps_at_rom_size() {
    let mut mmu = Mmu::new();
    let image = vec![0x5A; 0x9000];
    mmu.load_rom(&image);
    assert_eq!(mmu.read_byte(0x7FFF), Ok(0x5A));
}
