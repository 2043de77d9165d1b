use sm83_core::bus::{Bus, Region};
use sm83_core::fault::Fault;

#[test]
fn new_bus_reads_zero_everywhere_it_is_mapped() {
    let bus = Bus::new();
    for addr in 0u32..=0xFFFF {
        let addr = addr as u16;
        if (0xA000..=0xBFFF).contains(&addr) {
            assert_eq!(bus.read(addr), Err(Fault::UnimplementedRegion { address: addr }));
        } else {
            assert_eq!(bus.read(addr), Ok(0));
        }
    }
}

#[test]
fn region_boundaries() {
    assert_eq!(Bus::region(0x0000), Region::BootRom);
    assert_eq!(Bus::region(0x00FF), Region::BootRom);
    assert_eq!(Bus::region(0x0100), Region::Cartridge);
    assert_eq!(Bus::region(0x7FFF), Region::Cartridge);
    assert_eq!(Bus::region(0x8000), Region::Vram);
    assert_eq!(Bus::region(0x9FFF), Region::Vram);
    assert_eq!(Bus::region(0xA000), Region::ExternalRam);
    assert_eq!(Bus::region(0xBFFF), Region::ExternalRam);
    assert_eq!(Bus::region(0xC000), Region::WorkRam);
    assert_eq!(Bus::region(0xDFFF), Region::WorkRam);
    assert_eq!(Bus::region(0xE000), Region::EchoRam);
    assert_eq!(Bus::region(0xFDFF), Region::EchoRam);
    assert_eq!(Bus::region(0xFE00), Region::Oam);
    assert_eq!(Bus::region(0xFE9F), Region::Oam);
    assert_eq!(Bus::region(0xFEA0), Region::Unusable);
    assert_eq!(Bus::region(0xFEFF), Region::Unusable);
    assert_eq!(Bus::region(0xFF00), Region::Io);
    assert_eq!(Bus::region(0xFF7F), Region::Io);
    assert_eq!(Bus::region(0xFF80), Region::Hram);
    assert_eq!(Bus::region(0xFFFE), Region::Hram);
    assert_eq!(Bus::region(0xFFFF), Region::InterruptEnable);
}

#[test]
fn accessible_everywhere_but_external_ram() {
    for addr in 0u32..=0xFFFF {
        let addr = addr as u16;
        assert_eq!(Bus::accessible(addr), !(0xA000..=0xBFFF).contains(&addr));
    }
}

#[test]
fn write_then_read_at_the_edges_of_each_store() {
    let edges: [u16; 16] = [
        0x0100, 0x7FFF, 0x8000, 0x9FFF, 0xC000, 0xDFFF, 0xE000, 0xFDFF, 0xFE00, 0xFE9F, 0xFF00,
        0xFF7F, 0xFF80, 0xFFFE, 0xFFFF, 0xFF50,
    ];
    let mut bus = Bus::new();
    let mut value: u8 = 0x11;
    for addr in edges {
        assert_eq!(bus.write(addr, value), Ok(()));
        assert_eq!(bus.read(addr), Ok(value));
        value = value.wrapping_add(0x0D);
    }
}

#[test]
fn each_region_keeps_its_own_bytes() {
    let mut bus = Bus::new();
    let cells: [(u16, u8); 7] = [
        (0x1234, 1),
        (0x8001, 2),
        (0xC002, 3),
        (0xFE03, 4),
        (0xFF04, 5),
        (0xFF85, 6),
        (0xFFFF, 7),
    ];
    for (addr, value) in cells {
        bus.write(addr, value).unwrap();
    }
    for (addr, value) in cells {
        assert_eq!(bus.read(addr), Ok(value));
    }
    // Only the work RAM cell shows at a second address.
    assert_eq!(bus.read(0xE002), Ok(3));
    let written = bus.window(0x0100, 0x9FFF).unwrap().iter().filter(|b| **b != 0).count()
        + bus.window(0xC000, 0xFFFF).unwrap().iter().filter(|b| **b != 0).count();
    assert_eq!(written, 8);
}

#[test]
fn external_ram_faults_and_changes_nothing() {
    let mut bus = Bus::new();
    for addr in [0xA000u16, 0xB123, 0xBFFF] {
        assert_eq!(bus.read(addr), Err(Fault::UnimplementedRegion { address: addr }));
        assert_eq!(bus.write(addr, 0x55), Err(Fault::UnimplementedRegion { address: addr }));
    }
    for addr in 0u32..=0xFFFF {
        let addr = addr as u16;
        if !(0xA000..=0xBFFF).contains(&addr) {
            assert_eq!(bus.read(addr), Ok(0));
        }
    }
}

#[test]
fn unusable_region_reads_zero_and_drops_writes() {
    let mut bus = Bus::new();
    for addr in [0xFEA0u16, 0xFEC3, 0xFEFF] {
        assert_eq!(bus.write(addr, 0x77), Ok(()));
        assert_eq!(bus.read(addr), Ok(0));
    }
    assert_eq!(bus.read(0xFE9F), Ok(0));
    assert_eq!(bus.read(0xFF00), Ok(0));
}

#[test]
fn echo_mirrors_work_ram() {
    let mut bus = Bus::new();
    let mut value: u8 = 1;
    for addr in 0xC000u16..=0xDDFF {
        bus.write(addr, value).unwrap();
        assert_eq!(bus.read(addr + 0x2000), Ok(value));
        value = value.wrapping_mul(31).wrapping_add(7);
    }
}

#[test]
fn work_ram_mirrors_echo() {
    let mut bus = Bus::new();
    let mut value: u8 = 3;
    for addr in 0xE000u16..=0xFDFF {
        bus.write(addr, value).unwrap();
        assert_eq!(bus.read(addr - 0x2000), Ok(value));
        assert_eq!(bus.read(addr), Ok(value));
        value = value.wrapping_mul(29).wrapping_add(5);
    }
}

#[test]
fn top_of_work_ram_has_no_echo() {
    let mut bus = Bus::new();
    bus.write(0xDE00, 0x42).unwrap();
    assert_eq!(bus.read(0xDE00), Ok(0x42));
    assert_eq!(bus.read(0xFE00), Ok(0));
    bus.write(0xDFFF, 0x43).unwrap();
    assert_eq!(bus.read(0xFFFF), Ok(0));
}

#[test]
fn boot_rom_overlays_the_cartridge_until_disabled() {
    let mut bus = Bus::new();
    let mut boot = [0u8; 0x100];
    let mut cart = [0u8; 0x8000];
    for i in 0..0x100 {
        boot[i] = 0xB0 | (i as u8 & 0x0F);
        cart[i] = 0x0C;
    }
    cart[0x100] = 0xAB;
    assert!(bus.load_boot_rom(&boot));
    assert!(bus.load_cartridge(&cart));
    assert!(bus.overlay_active());
    assert_eq!(bus.read(0x0000), Ok(0xB0));
    assert_eq!(bus.read(0x00FF), Ok(0xBF));
    assert_eq!(bus.read(0x0100), Ok(0xAB));

    // A write below 0x0100 lands in the cartridge, not in the boot ROM.
    bus.write(0x0005, 0x99).unwrap();
    assert_eq!(bus.read(0x0005), Ok(0xB5));
    assert_eq!(bus.window(0x0000, 0x00FF).unwrap(), boot.to_vec());

    bus.write(0xFF50, 1).unwrap();
    assert!(!bus.overlay_active());
    assert_eq!(bus.read(0x0000), Ok(0x0C));
    assert_eq!(bus.read(0x0005), Ok(0x99));
    assert_eq!(bus.read(0x00FF), Ok(0x0C));
}

#[test]
fn overlay_never_comes_back() {
    let mut bus = Bus::new();
    let mut boot = [0u8; 0x100];
    boot[0] = 0xEE;
    assert!(bus.load_boot_rom(&boot));
    bus.write(0xFF50, 0x01).unwrap();
    assert_eq!(bus.read(0x0000), Ok(0x00));
    // A zero written to the latch is dropped.
    assert_eq!(bus.write(0xFF50, 0x00), Ok(()));
    assert_eq!(bus.read(0xFF50), Ok(0x01));
    assert!(!bus.overlay_active());
    assert_eq!(bus.read(0x0000), Ok(0x00));
    // Another nonzero value is stored.
    bus.write(0xFF50, 0x80).unwrap();
    assert_eq!(bus.read(0xFF50), Ok(0x80));
    assert!(!bus.overlay_active());
    // The echo of the latch address in other regions is plain memory.
    bus.write(0xFF4F, 0).unwrap();
    bus.write(0xFF51, 0).unwrap();
    assert!(!bus.overlay_active());
}

#[test]
fn zero_written_to_the_latch_while_active_is_stored() {
    let mut bus = Bus::new();
    assert_eq!(bus.write(0xFF50, 0), Ok(()));
    assert!(bus.overlay_active());
    assert_eq!(bus.read(0xFF50), Ok(0));
}

#[test]
fn a_write_leaves_other_addresses_alone() {
    let mut bus = Bus::new();
    bus.write(0xC010, 0xAA).unwrap();
    bus.write(0xC011, 0xBB).unwrap();
    assert_eq!(bus.read(0xC010), Ok(0xAA));
    assert_eq!(bus.read(0xC00F), Ok(0));
    assert_eq!(bus.read(0xC012), Ok(0));
    assert_eq!(bus.read(0xE010), Ok(0xAA));
    assert_eq!(bus.read(0x8010), Ok(0));
}

#[test]
fn loaders_copy_the_images_verbatim() {
    let mut bus = Bus::new();
    let mut boot = [0u8; 0x100];
    let mut cart = [0u8; 0x8000];
    for i in 0..0x100 {
        boot[i] = i as u8;
    }
    for i in 0..0x8000 {
        cart[i] = (i % 251) as u8;
    }
    assert!(bus.load_boot_rom(&boot));
    assert!(bus.load_cartridge(&cart));
    assert_eq!(bus.window(0x0000, 0x00FF).unwrap(), boot.to_vec());
    assert_eq!(bus.window(0x0100, 0x7FFF).unwrap(), cart[0x100..].to_vec());
    assert_eq!(bus.read(0x7FFF), Ok((0x7FFF % 251) as u8));
    assert_eq!(bus.read(0x00FE), Ok(0xFE));
    assert_eq!(bus.read(0x8000), Ok(0));
    bus.write(0xFF50, 1).unwrap();
    assert_eq!(bus.window(0x0000, 0x7FFF).unwrap(), cart.to_vec());
}

#[test]
fn window_reads_a_range_of_bytes() {
    let mut bus = Bus::new();
    for (i, addr) in (0xFF80u16..=0xFF8F).enumerate() {
        bus.write(addr, 0xA0 + i as u8).unwrap();
    }
    let bytes = bus.window(0xFF7F, 0xFF83).unwrap();
    assert_eq!(bytes, vec![0x00, 0xA0, 0xA1, 0xA2, 0xA3]);
    assert_eq!(bus.window(0xFF85, 0xFF85), Ok(vec![0xA5]));
    assert_eq!(bus.window(0xFF86, 0xFF85), Ok(vec![]));
    assert_eq!(bus.window(0xFFFF, 0xFFFF), Ok(vec![0x00]));
    assert_eq!(bus.window(0x0000, 0xFFFF).map(|b| b.len()), Err(Fault::UnimplementedRegion {
        address: 0xA000
    }));
    assert_eq!(bus.window(0xC000, 0xFFFF).map(|b| b.len()), Ok(0x4000));
    assert_eq!(bus.window(0x8000, 0x8800).map(|b| b.len()), Ok(0x801));
}

#[test]
fn window_faults_at_the_lowest_unreadable_address() {
    let bus = Bus::new();
    assert_eq!(bus.window(0x9FFE, 0xC001), Err(Fault::UnimplementedRegion { address: 0xA000 }));
    assert_eq!(bus.window(0xB123, 0xB125), Err(Fault::UnimplementedRegion { address: 0xB123 }));
    assert_eq!(bus.window(0xBFFF, 0xC000), Err(Fault::UnimplementedRegion { address: 0xBFFF }));
    assert_eq!(bus.window(0xC000, 0xC001), Ok(vec![0, 0]));
}

#[test]
fn each_store_is_loaded_once() {
    let mut bus = Bus::new();
    let first_boot = [0x11u8; 0x100];
    let second_boot = [0x22u8; 0x100];
    let first_cart = [0x33u8; 0x8000];
    let second_cart = [0x44u8; 0x8000];
    assert!(bus.load_boot_rom(&first_boot));
    assert!(!bus.load_boot_rom(&second_boot));
    assert_eq!(bus.window(0x0000, 0x00FF).unwrap(), first_boot.to_vec());
    assert_eq!(bus.read(0x0010), Ok(0x11));
    // The cartridge is loaded on its own account.
    assert!(bus.load_cartridge(&first_cart));
    assert!(!bus.load_cartridge(&second_cart));
    assert_eq!(bus.window(0x0100, 0x7FFF).unwrap(), first_cart[0x100..].to_vec());
    assert_eq!(bus.read(0x0100), Ok(0x33));
    // A write to the cartridge does not open it to a second load.
    bus.write(0x0100, 0x55).unwrap();
    assert!(!bus.load_cartridge(&second_cart));
    assert_eq!(bus.read(0x0100), Ok(0x55));
    assert_eq!(bus.read(0x0101), Ok(0x33));
    assert!(!bus.load_boot_rom(&first_boot));
}
