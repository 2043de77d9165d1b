//! The memory bus: it owns every backing store and resolves a 16-bit
//! address to the region that serves it.
//!
//! | Range           | Region                                   |
//! |-----------------|------------------------------------------|
//! | 0x0000 - 0x00FF | boot ROM overlay, cartridge beneath it   |
//! | 0x0100 - 0x7FFF | cartridge                                |
//! | 0x8000 - 0x9FFF | video RAM                                |
//! | 0xA000 - 0xBFFF | external RAM (no backing model)          |
//! | 0xC000 - 0xDFFF | work RAM                                 |
//! | 0xE000 - 0xFDFF | echo of work RAM                         |
//! | 0xFE00 - 0xFE9F | object attribute memory                  |
//! | 0xFEA0 - 0xFEFF | unusable                                 |
//! | 0xFF00 - 0xFF7F | I/O registers                            |
//! | 0xFF80 - 0xFFFE | high RAM                                 |
//! | 0xFFFF          | interrupt-enable register                |

use vstd::prelude::*;
use crate::fault::Fault;

verus! {

/// The address of the I/O byte that switches the boot ROM overlay off.
pub const OVERLAY_DISABLE: u16 = 0xFF50;

/// The regions of the address space.
#[derive(Clone, Copy, Debug, PartialEq, Eq)]
pub enum Region {
    BootRom,
    Cartridge,
    Vram,
    ExternalRam,
    WorkRam,
    EchoRam,
    Oam,
    Unusable,
    Io,
    Hram,
    InterruptEnable,
}

/// The region that serves `addr`.
pub open spec fn region_of(addr: u16) -> Region {
    if addr <= 0x00FF {
        Region::BootRom
    } else if addr <= 0x7FFF {
        Region::Cartridge
    } else if addr <= 0x9FFF {
        Region::Vram
    } else if addr <= 0xBFFF {
        Region::ExternalRam
    } else if addr <= 0xDFFF {
        Region::WorkRam
    } else if addr <= 0xFDFF {
        Region::EchoRam
    } else if addr <= 0xFE9F {
        Region::Oam
    } else if addr <= 0xFEFF {
        Region::Unusable
    } else if addr <= 0xFF7F {
        Region::Io
    } else if addr <= 0xFFFE {
        Region::Hram
    } else {
        Region::InterruptEnable
    }
}

/// Whether an access to `addr` succeeds.
pub open spec fn accessible(addr: u16) -> bool {
    region_of(addr) != Region::ExternalRam
}

/// The number of addresses from `first` to `last`, both included.
pub open spec fn window_len(first: u16, last: u16) -> nat {
    if first <= last {
        (last - first + 1) as nat
    } else {
        0
    }
}

/// The contents of the bus as mathematical sequences, one per backing store.
pub struct Memory {
    pub boot_rom: Seq<u8>,
    pub cartridge: Seq<u8>,
    pub vram: Seq<u8>,
    pub wram: Seq<u8>,
    pub oam: Seq<u8>,
    pub io: Seq<u8>,
    pub hram: Seq<u8>,
    pub ie: u8,
    /// Whether a boot image was loaded.
    pub boot_rom_loaded: bool,
    /// Whether a cartridge image was loaded.
    pub cartridge_loaded: bool,
}

impl Memory {
    /// Every store spans exactly its region.
    pub open spec fn wf(self) -> bool {
        &&& self.boot_rom.len() == 0x100
        &&& self.cartridge.len() == 0x8000
        &&& self.vram.len() == 0x2000
        &&& self.wram.len() == 0x2000
        &&& self.oam.len() == 0xA0
        &&& self.io.len() == 0x80
        &&& self.hram.len() == 0x7F
    }

    /// The memory at power-on: every byte is zero.
    pub open spec fn zeroed() -> Memory {
        Memory {
            boot_rom: Seq::new(0x100, |i: int| 0u8),
            cartridge: Seq::new(0x8000, |i: int| 0u8),
            vram: Seq::new(0x2000, |i: int| 0u8),
            wram: Seq::new(0x2000, |i: int| 0u8),
            oam: Seq::new(0xA0, |i: int| 0u8),
            io: Seq::new(0x80, |i: int| 0u8),
            hram: Seq::new(0x7F, |i: int| 0u8),
            ie: 0,
            boot_rom_loaded: false,
            cartridge_loaded: false,
        }
    }

    /// The memory after a boot image is offered: it fills the boot ROM
    /// store unless an image was loaded before.
    pub open spec fn load_boot_rom(self, image: Seq<u8>) -> Memory {
        if self.boot_rom_loaded {
            self
        } else {
            Memory { boot_rom: image, boot_rom_loaded: true, ..self }
        }
    }

    /// The memory after a cartridge image is offered: it fills the
    /// cartridge store unless an image was loaded before.
    pub open spec fn load_cartridge(self, image: Seq<u8>) -> Memory {
        if self.cartridge_loaded {
            self
        } else {
            Memory { cartridge: image, cartridge_loaded: true, ..self }
        }
    }

    /// The boot ROM hides the first 256 bytes of the cartridge while the
    /// overlay-disable byte is zero.
    pub open spec fn overlay_active(self) -> bool {
        self.io[0x50] == 0
    }

    /// What a read of `addr` yields.
    pub open spec fn read(self, addr: u16) -> Result<u8, Fault> {
        match region_of(addr) {
            Region::BootRom => Ok(
                if self.overlay_active() {
                    self.boot_rom[addr as int]
                } else {
                    self.cartridge[addr as int]
                },
            ),
            Region::Cartridge => Ok(self.cartridge[addr as int]),
            Region::Vram => Ok(self.vram[addr - 0x8000]),
            Region::ExternalRam => Err(Fault::UnimplementedRegion { address: addr }),
            Region::WorkRam => Ok(self.wram[addr - 0xC000]),
            Region::EchoRam => Ok(self.wram[addr - 0xE000]),
            Region::Oam => Ok(self.oam[addr - 0xFE00]),
            Region::Unusable => Ok(0u8),
            Region::Io => Ok(self.io[addr - 0xFF00]),
            Region::Hram => Ok(self.hram[addr - 0xFF80]),
            Region::InterruptEnable => Ok(self.ie),
        }
    }

    /// The overlay-disable byte latches: once it is nonzero, a write of zero
    /// to it is dropped, so the overlay cannot come back.
    pub open spec fn latched(self, addr: u16, data: u8) -> bool {
        addr == OVERLAY_DISABLE && !self.overlay_active() && data == 0
    }

    /// The memory after a write of `data` to `addr`.
    pub open spec fn write(self, addr: u16, data: u8) -> Result<Memory, Fault> {
        match region_of(addr) {
            Region::BootRom | Region::Cartridge => Ok(
                Memory { cartridge: self.cartridge.update(addr as int, data), ..self },
            ),
            Region::Vram => Ok(Memory { vram: self.vram.update(addr - 0x8000, data), ..self }),
            Region::ExternalRam => Err(Fault::UnimplementedRegion { address: addr }),
            Region::WorkRam => Ok(Memory { wram: self.wram.update(addr - 0xC000, data), ..self }),
            Region::EchoRam => Ok(Memory { wram: self.wram.update(addr - 0xE000, data), ..self }),
            Region::Oam => Ok(Memory { oam: self.oam.update(addr - 0xFE00, data), ..self }),
            Region::Unusable => Ok(self),
            Region::Io => Ok(
                if self.latched(addr, data) {
                    self
                } else {
                    Memory { io: self.io.update(addr - 0xFF00, data), ..self }
                },
            ),
            Region::Hram => Ok(Memory { hram: self.hram.update(addr - 0xFF80, data), ..self }),
            Region::InterruptEnable => Ok(Memory { ie: data, ..self }),
        }
    }

    /// `bytes` are what the memory holds from `first` on.
    pub open spec fn shows(self, first: u16, bytes: Seq<u8>) -> bool {
        forall|i: int|
            0 <= i < bytes.len() ==> self.read((first + i) as u16) == Ok::<u8, Fault>(
                #[trigger] bytes[i],
            )
    }

    /// A byte written to `addr` is the byte read back from it: the region
    /// stores what it is given, and the read is served from the same store.
    pub open spec fn retains(self, addr: u16, data: u8) -> bool {
        match region_of(addr) {
            Region::BootRom => !self.overlay_active(),
            Region::ExternalRam | Region::Unusable => false,
            Region::Io => !self.latched(addr, data),
            _ => true,
        }
    }
}

/// The memory bus. Its stores are private: they change through
/// [`Bus::write`] and the two loaders only, so the overlay latch and the
/// single load hold whoever the caller is.
pub struct Bus {
    boot_rom: [u8; 0x100],
    cartridge: [u8; 0x8000],
    vram: [u8; 0x2000],
    wram: [u8; 0x2000],
    oam: [u8; 0xA0],
    io: [u8; 0x80],
    hram: [u8; 0x7F],
    ie: u8,
    boot_rom_loaded: bool,
    cartridge_loaded: bool,
}

impl View for Bus {
    type V = Memory;

    closed spec fn view(&self) -> Memory {
        Memory {
            boot_rom: self.boot_rom@,
            cartridge: self.cartridge@,
            vram: self.vram@,
            wram: self.wram@,
            oam: self.oam@,
            io: self.io@,
            hram: self.hram@,
            ie: self.ie,
            boot_rom_loaded: self.boot_rom_loaded,
            cartridge_loaded: self.cartridge_loaded,
        }
    }
}

impl Bus {
    /// A bus with every store zeroed.
    pub fn new() -> (bus: Bus)
        ensures
            bus@ == Memory::zeroed(),
    {
        let bus = Bus {
            boot_rom: [0u8; 0x100],
            cartridge: [0u8; 0x8000],
            vram: [0u8; 0x2000],
            wram: [0u8; 0x2000],
            oam: [0u8; 0xA0],
            io: [0u8; 0x80],
            hram: [0u8; 0x7F],
            ie: 0,
            boot_rom_loaded: false,
            cartridge_loaded: false,
        };
        proof {
            assert(bus@.boot_rom =~= Memory::zeroed().boot_rom);
            assert(bus@.cartridge =~= Memory::zeroed().cartridge);
            assert(bus@.vram =~= Memory::zeroed().vram);
            assert(bus@.wram =~= Memory::zeroed().wram);
            assert(bus@.oam =~= Memory::zeroed().oam);
            assert(bus@.io =~= Memory::zeroed().io);
            assert(bus@.hram =~= Memory::zeroed().hram);
        }
        bus
    }

    /// The region that serves `addr`.
    pub fn region(addr: u16) -> (region: Region)
        ensures
            region == region_of(addr),
    {
        if addr <= 0x00FF {
            Region::BootRom
        } else if addr <= 0x7FFF {
            Region::Cartridge
        } else if addr <= 0x9FFF {
            Region::Vram
        } else if addr <= 0xBFFF {
            Region::ExternalRam
        } else if addr <= 0xDFFF {
            Region::WorkRam
        } else if addr <= 0xFDFF {
            Region::EchoRam
        } else if addr <= 0xFE9F {
            Region::Oam
        } else if addr <= 0xFEFF {
            Region::Unusable
        } else if addr <= 0xFF7F {
            Region::Io
        } else if addr <= 0xFFFE {
            Region::Hram
        } else {
            Region::InterruptEnable
        }
    }

    /// Whether an access to `addr` succeeds: every region but external RAM
    /// has a backing model.
    pub fn accessible(addr: u16) -> (yes: bool)
        ensures
            yes == accessible(addr),
    {
        match Bus::region(addr) {
            Region::ExternalRam => false,
            _ => true,
        }
    }

    /// Copies a boot image into the boot ROM store, once: a second load is
    /// refused and changes nothing. Returns whether the image was loaded.
    pub fn load_boot_rom(&mut self, image: &[u8; 0x100]) -> (loaded: bool)
        ensures
            loaded == !old(self)@.boot_rom_loaded,
            final(self)@ == old(self)@.load_boot_rom(image@),
            !loaded ==> *final(self) == *old(self),
    {
        if self.boot_rom_loaded {
            return false;
        }
        self.boot_rom = *image;
        self.boot_rom_loaded = true;
        true
    }

    /// Copies a cartridge image into the cartridge store, once: a second
    /// load is refused and changes nothing. Returns whether the image was
    /// loaded.
    pub fn load_cartridge(&mut self, image: &[u8; 0x8000]) -> (loaded: bool)
        ensures
            loaded == !old(self)@.cartridge_loaded,
            final(self)@ == old(self)@.load_cartridge(image@),
            !loaded ==> *final(self) == *old(self),
    {
        if self.cartridge_loaded {
            return false;
        }
        self.cartridge = *image;
        self.cartridge_loaded = true;
        true
    }

    /// Whether the boot ROM still hides the start of the cartridge.
    pub fn overlay_active(&self) -> (active: bool)
        ensures
            active == self@.overlay_active(),
    {
        self.io[0x50] == 0
    }

    /// Reads the byte at `addr`. Fails exactly in external RAM.
    pub fn read(&self, addr: u16) -> (res: Result<u8, Fault>)
        ensures
            res == self@.read(addr),
    {
        match Bus::region(addr) {
            Region::BootRom => {
                if self.overlay_active() {
                    Ok(self.boot_rom[addr as usize])
                } else {
                    Ok(self.cartridge[addr as usize])
                }
            },
            Region::Cartridge => Ok(self.cartridge[addr as usize]),
            Region::Vram => Ok(self.vram[(addr - 0x8000) as usize]),
            Region::ExternalRam => Err(Fault::UnimplementedRegion { address: addr }),
            Region::WorkRam => Ok(self.wram[(addr - 0xC000) as usize]),
            Region::EchoRam => Ok(self.wram[(addr - 0xE000) as usize]),
            Region::Oam => Ok(self.oam[(addr - 0xFE00) as usize]),
            Region::Unusable => Ok(0),
            Region::Io => Ok(self.io[(addr - 0xFF00) as usize]),
            Region::Hram => Ok(self.hram[(addr - 0xFF80) as usize]),
            Region::InterruptEnable => Ok(self.ie),
        }
    }

    /// Reads the bytes at `first` to `last`, both included; none if `first`
    /// is above `last`. Fails at the lowest address of the window that
    /// cannot be read, and only if there is one.
    pub fn window(&self, first: u16, last: u16) -> (res: Result<Vec<u8>, Fault>)
        ensures
            match res {
                Ok(bytes) => bytes@.len() == window_len(first, last) && self@.shows(first, bytes@),
                Err(fault) => exists|addr: u16|
                    {
                        &&& first <= addr <= last
                        &&& #[trigger] self@.read(addr) == Err::<u8, Fault>(fault)
                        &&& forall|below: u16| first <= below < addr ==> accessible(below)
                    },
            },
    {
        let mut bytes: Vec<u8> = Vec::new();
        if first > last {
            return Ok(bytes);
        }
        let mut addr: u16 = first;
        loop
            invariant
                first <= addr <= last,
                bytes@.len() == addr - first,
                self@.shows(first, bytes@),
            decreases last - addr,
        {
            match self.read(addr) {
                Err(fault) => {
                    assert forall|below: u16| first <= below < addr implies accessible(below) by {
                        assert(self@.read((first + (below - first)) as u16) == Ok::<u8, Fault>(
                            bytes@[below - first],
                        ));
                    }
                    return Err(fault);
                },
                Ok(byte) => {
                    bytes.push(byte);
                },
            }
            if addr == last {
                return Ok(bytes);
            }
            addr = addr + 1;
        }
    }

    /// Writes `data` at `addr`. Fails exactly in external RAM, and then
    /// changes nothing.
    pub fn write(&mut self, addr: u16, data: u8) -> (res: Result<(), Fault>)
        ensures
            match old(self)@.write(addr, data) {
                Ok(memory) => res is Ok && final(self)@ == memory,
                Err(fault) => res == Err::<(), Fault>(fault) && *final(self) == *old(self),
            },
    {
        match Bus::region(addr) {
            Region::BootRom | Region::Cartridge => {
                self.cartridge[addr as usize] = data;
            },
            Region::Vram => {
                self.vram[(addr - 0x8000) as usize] = data;
            },
            Region::ExternalRam => {
                return Err(Fault::UnimplementedRegion { address: addr });
            },
            Region::WorkRam => {
                self.wram[(addr - 0xC000) as usize] = data;
            },
            Region::EchoRam => {
                self.wram[(addr - 0xE000) as usize] = data;
            },
            Region::Oam => {
                self.oam[(addr - 0xFE00) as usize] = data;
            },
            Region::Unusable => {},
            Region::Io => {
                let latched = addr == OVERLAY_DISABLE && !self.overlay_active() && data == 0;
                if !latched {
                    self.io[(addr - 0xFF00) as usize] = data;
                }
            },
            Region::Hram => {
                self.hram[(addr - 0xFF80) as usize] = data;
            },
            Region::InterruptEnable => {
                self.ie = data;
            },
        }
        Ok(())
    }
}

/// The stores of a bus have their sizes.
pub proof fn lemma_bus_is_wf(bus: Bus)
    ensures
        bus@.wf(),
{
}

/// A write that succeeds keeps every store at its size.
pub proof fn lemma_write_keeps_wf(m: Memory, addr: u16, data: u8)
    requires
        m.wf(),
    ensures
        m.write(addr, data) matches Ok(next) ==> next.wf(),
{
}

/// Reads and writes fail on the same addresses: those of external RAM.
pub proof fn lemma_fault_iff_external_ram(m: Memory, addr: u16, data: u8)
    ensures
        m.read(addr) is Err <==> region_of(addr) == Region::ExternalRam,
        m.write(addr, data) is Err <==> region_of(addr) == Region::ExternalRam,
        m.read(addr) is Err ==> m.read(addr) == Err::<u8, Fault>(
            Fault::UnimplementedRegion { address: addr },
        ),
{
}

/// A byte written where the memory retains it is the next byte read there.
pub proof fn lemma_read_after_write(m: Memory, addr: u16, data: u8)
    requires
        m.wf(),
        m.retains(addr, data),
    ensures
        m.write(addr, data) matches Ok(next) && next.read(addr) == Ok::<u8, Fault>(data),
{
}

/// The echo region mirrors work RAM in both directions: a byte written at a
/// work RAM address is read at that address plus 0x2000, and a byte written
/// at an echo address is read at that address minus 0x2000. The last 512
/// bytes of work RAM have no echo, since the echo region is that much
/// shorter.
pub proof fn lemma_echo_mirror(m: Memory, addr: u16, data: u8)
    requires
        m.wf(),
        0xC000 <= addr <= 0xDDFF,
    ensures
        m.write(addr, data) matches Ok(next) && next.read((addr + 0x2000) as u16) == Ok::<
            u8,
            Fault,
        >(data),
        m.write((addr + 0x2000) as u16, data) matches Ok(next) && next.read(addr) == Ok::<
            u8,
            Fault,
        >(data),
{
}

/// A store is loaded once: after a load, whatever is written, a further
/// load changes nothing. A write never marks or unmarks a store as loaded.
pub proof fn lemma_load_is_once(m: Memory, first: Seq<u8>, second: Seq<u8>, addr: u16, data: u8)
    ensures
        m.load_boot_rom(first).load_boot_rom(second) == m.load_boot_rom(first),
        m.load_cartridge(first).load_cartridge(second) == m.load_cartridge(first),
        m.write(addr, data) matches Ok(next) ==> next.boot_rom_loaded == m.boot_rom_loaded
            && next.cartridge_loaded == m.cartridge_loaded && next.boot_rom == m.boot_rom,
        m.load_boot_rom(first).write(addr, data) matches Ok(next) ==> next.load_boot_rom(second)
            == next,
        m.load_cartridge(first).write(addr, data) matches Ok(next) ==> next.load_cartridge(second)
            == next,
{
}

/// Once the overlay is off, no write turns it on again.
pub proof fn lemma_overlay_stays_off(m: Memory, addr: u16, data: u8)
    requires
        m.wf(),
        !m.overlay_active(),
    ensures
        m.write(addr, data) matches Ok(next) ==> !next.overlay_active(),
{
}

/// A write leaves alone every address that it does not alias, as long as it
/// does not switch the overlay off.
pub proof fn lemma_write_frame(m: Memory, addr: u16, data: u8, other: u16)
    requires
        m.wf(),
        cell_of(other) != cell_of(addr),
        addr != OVERLAY_DISABLE,
    ensures
        m.write(addr, data) matches Ok(next) ==> next.read(other) == m.read(other),
{
}

/// The cell that backs an address: an echo address shares the cell of the
/// work RAM address that it mirrors.
pub open spec fn cell_of(addr: u16) -> int {
    if region_of(addr) == Region::EchoRam {
        addr - 0x2000
    } else {
        addr as int
    }
}

} // verus!
